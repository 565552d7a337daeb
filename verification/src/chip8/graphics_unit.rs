//! The 64x32 one-bit display buffer and sprite compositing.

use vstd::prelude::*;

verus! {

/// Width of the display in pixels.
pub const SCREEN_WIDTH: usize = 64;

/// Height of the display in pixels.
pub const SCREEN_HEIGHT: usize = 32;

/// Number of pixels; pixel `(x, y)` is stored at index `x + y * 64`.
pub const SCREEN_SIZE: usize = 2048;

/// A display buffer holds one byte per pixel, each 0 (dark) or 1 (lit).
pub open spec fn valid_screen(screen: Seq<u8>) -> bool {
    &&& screen.len() == 2048
    &&& forall|idx: int| 0 <= idx < 2048 ==> #[trigger] screen[idx] <= 1
}

/// The display with every pixel dark.
pub open spec fn blank_screen() -> Seq<u8> {
    Seq::new(2048, |idx: int| 0u8)
}

/// Whether column `col` of a sprite row is set; column 0 is the leftmost
/// pixel and the most significant bit.
pub open spec fn sprite_bit(row: u8, col: u8) -> bool {
    row & (0x80u8 >> col) != 0
}

/// A pixel after being XORed with a set sprite bit.
pub open spec fn toggled(pixel: u8) -> u8 {
    if pixel == 0 {
        1
    } else {
        0
    }
}

/// Whether the sprite drawn with its top-left corner at `(ox, oy)` has a
/// set bit on the pixel stored at `idx`. The pixel's coordinates are taken
/// from `idx` itself, so a sprite bit that would fall beyond the right or
/// bottom edge lands on no pixel at all.
pub open spec fn sprite_covers(sprite: Seq<u8>, ox: int, oy: int, idx: int) -> bool {
    let px = idx % 64;
    let py = idx / 64;
    &&& ox <= px < ox + 8
    &&& oy <= py < oy + sprite.len()
    &&& sprite_bit(sprite[py - oy], (px - ox) as u8)
}

/// The display after the sprite is XORed onto it at `(ox, oy)`.
pub open spec fn drawn_screen(screen: Seq<u8>, sprite: Seq<u8>, ox: int, oy: int) -> Seq<u8> {
    Seq::new(
        screen.len(),
        |idx: int|
            if sprite_covers(sprite, ox, oy, idx) {
                toggled(screen[idx])
            } else {
                screen[idx]
            },
    )
}

/// Whether drawing the sprite at `(ox, oy)` erases a lit pixel.
pub open spec fn sprite_collides(screen: Seq<u8>, sprite: Seq<u8>, ox: int, oy: int) -> bool {
    exists|idx: int|
        0 <= idx < screen.len() && #[trigger] sprite_covers(sprite, ox, oy, idx) && screen[idx]
            == 1
}

/// The coordinates of the lit pixels among the first `upto`, in storage order.
pub open spec fn lit_points(screen: Seq<u8>, upto: int) -> Seq<(i32, i32)>
    decreases upto,
{
    if upto <= 0 {
        Seq::empty()
    } else if screen[upto - 1] == 1 {
        lit_points(screen, upto - 1).push((((upto - 1) % 64) as i32, ((upto - 1) / 64) as i32))
    } else {
        lit_points(screen, upto - 1)
    }
}

/// Sprite coverage restricted to what the drawing loop has already done:
/// the rows above `row`, and in row `row` the columns left of `col`.
spec fn covers_before(sprite: Seq<u8>, ox: int, oy: int, row: int, col: int, idx: int) -> bool {
    &&& sprite_covers(sprite, ox, oy, idx)
    &&& (idx / 64 - oy < row || (idx / 64 - oy == row && idx % 64 - ox < col))
}

spec fn drawn_before(screen: Seq<u8>, sprite: Seq<u8>, ox: int, oy: int, row: int, col: int) -> Seq<
    u8,
> {
    Seq::new(
        screen.len(),
        |idx: int|
            if covers_before(sprite, ox, oy, row, col, idx) {
                toggled(screen[idx])
            } else {
                screen[idx]
            },
    )
}

spec fn collides_before(
    screen: Seq<u8>,
    sprite: Seq<u8>,
    ox: int,
    oy: int,
    row: int,
    col: int,
) -> bool {
    exists|idx: int|
        0 <= idx < screen.len() && #[trigger] covers_before(sprite, ox, oy, row, col, idx)
            && screen[idx] == 1
}

/// Moving the drawing position one column on adds exactly the pixel under it.
proof fn lemma_column_step(
    screen: Seq<u8>,
    sprite: Seq<u8>,
    ox: int,
    oy: int,
    row: int,
    col: int,
)
    requires
        screen.len() == 2048,
        0 <= ox,
        0 <= oy,
        0 <= row < sprite.len(),
        oy + row < 32,
        0 <= col < 8,
        ox + col < 64,
    ensures
        forall|idx: int|
            0 <= idx < 2048 ==> (#[trigger] covers_before(sprite, ox, oy, row, col + 1, idx) <==> (
            covers_before(sprite, ox, oy, row, col, idx) || (idx == ox + col + (oy + row) * 64
                && sprite_bit(sprite[row], col as u8)))),
        collides_before(screen, sprite, ox, oy, row, col + 1) <==> (collides_before(
            screen,
            sprite,
            ox,
            oy,
            row,
            col,
        ) || (sprite_bit(sprite[row], col as u8) && screen[ox + col + (oy + row) * 64] == 1)),
{
    let here = ox + col + (oy + row) * 64;
    assert forall|idx: int| 0 <= idx < 2048 implies (#[trigger] covers_before(
        sprite,
        ox,
        oy,
        row,
        col + 1,
        idx,
    ) <==> (covers_before(sprite, ox, oy, row, col, idx) || (idx == here && sprite_bit(
        sprite[row],
        col as u8,
    )))) by {}
    if collides_before(screen, sprite, ox, oy, row, col + 1) {
        let w = choose|idx: int|
            0 <= idx < screen.len() && #[trigger] covers_before(sprite, ox, oy, row, col + 1, idx)
                && screen[idx] == 1;
        assert(w == here || covers_before(sprite, ox, oy, row, col, w));
    }
    if collides_before(screen, sprite, ox, oy, row, col) {
        let w = choose|idx: int|
            0 <= idx < screen.len() && #[trigger] covers_before(sprite, ox, oy, row, col, idx)
                && screen[idx] == 1;
        assert(covers_before(sprite, ox, oy, row, col + 1, w));
    }
    if sprite_bit(sprite[row], col as u8) && screen[here] == 1 {
        assert(covers_before(sprite, ox, oy, row, col + 1, here));
    }
}

/// Once the columns of a row that lie on the display are done, the row is done.
proof fn lemma_row_step(
    screen: Seq<u8>,
    sprite: Seq<u8>,
    ox: int,
    oy: int,
    row: int,
    cols: int,
)
    requires
        screen.len() == 2048,
        0 <= ox < 64,
        0 <= oy,
        0 <= row,
        cols == 8 || cols == 64 - ox,
    ensures
        drawn_before(screen, sprite, ox, oy, row, cols) == drawn_before(
            screen,
            sprite,
            ox,
            oy,
            row + 1,
            0,
        ),
        collides_before(screen, sprite, ox, oy, row, cols) == collides_before(
            screen,
            sprite,
            ox,
            oy,
            row + 1,
            0,
        ),
{
    assert forall|idx: int| 0 <= idx < 2048 implies (#[trigger] covers_before(
        sprite,
        ox,
        oy,
        row,
        cols,
        idx,
    ) <==> covers_before(sprite, ox, oy, row + 1, 0, idx)) by {}
    if collides_before(screen, sprite, ox, oy, row, cols) {
        let w = choose|idx: int|
            0 <= idx < screen.len() && #[trigger] covers_before(sprite, ox, oy, row, cols, idx)
                && screen[idx] == 1;
        assert(covers_before(sprite, ox, oy, row + 1, 0, w));
    }
    if collides_before(screen, sprite, ox, oy, row + 1, 0) {
        let w = choose|idx: int|
            0 <= idx < screen.len() && #[trigger] covers_before(sprite, ox, oy, row + 1, 0, idx)
                && screen[idx] == 1;
        assert(covers_before(sprite, ox, oy, row, cols, w));
    }
}

/// Before the first row nothing is drawn; after the last row that lies on
/// the display everything is.
proof fn lemma_rows_done(screen: Seq<u8>, sprite: Seq<u8>, ox: int, oy: int, rows: int)
    requires
        screen.len() == 2048,
        0 <= ox < 64,
        0 <= oy < 32,
        rows == sprite.len() || rows == 32 - oy,
    ensures
        drawn_before(screen, sprite, ox, oy, 0, 0) == screen,
        !collides_before(screen, sprite, ox, oy, 0, 0),
        drawn_before(screen, sprite, ox, oy, rows, 0) == drawn_screen(screen, sprite, ox, oy),
        collides_before(screen, sprite, ox, oy, rows, 0) == sprite_collides(
            screen,
            sprite,
            ox,
            oy,
        ),
{
    assert forall|idx: int| 0 <= idx < 2048 implies (#[trigger] covers_before(
        sprite,
        ox,
        oy,
        rows,
        0,
        idx,
    ) <==> sprite_covers(sprite, ox, oy, idx)) by {}
    if collides_before(screen, sprite, ox, oy, rows, 0) {
        let w = choose|idx: int|
            0 <= idx < screen.len() && #[trigger] covers_before(sprite, ox, oy, rows, 0, idx)
                && screen[idx] == 1;
        assert(sprite_covers(sprite, ox, oy, w));
    }
    if sprite_collides(screen, sprite, ox, oy) {
        let w = choose|idx: int|
            0 <= idx < screen.len() && #[trigger] sprite_covers(sprite, ox, oy, idx) && screen[idx]
                == 1;
        assert(covers_before(sprite, ox, oy, rows, 0, w));
    }
}

/// Drawing the same sprite at the same place twice restores every pixel:
/// XOR undoes itself.
pub proof fn lemma_draw_twice_restores(screen: Seq<u8>, sprite: Seq<u8>, ox: int, oy: int)
    requires
        valid_screen(screen),
    ensures
        valid_screen(drawn_screen(screen, sprite, ox, oy)),
        drawn_screen(drawn_screen(screen, sprite, ox, oy), sprite, ox, oy) == screen,
{
    let once = drawn_screen(screen, sprite, ox, oy);
    assert forall|idx: int| 0 <= idx < 2048 implies #[trigger] once[idx] <= 1 by {
        assert(screen[idx] <= 1);
    }
    assert forall|idx: int| 0 <= idx < 2048 implies #[trigger] drawn_screen(
        once,
        sprite,
        ox,
        oy,
    )[idx] == screen[idx] by {
        assert(toggled(toggled(screen[idx])) == screen[idx]);
    }
}

/// A draw reports a collision exactly when some pixel under a set sprite
/// bit was lit before: one lit pixel there is enough, and on a region
/// that is dark under every set bit there is none.
pub proof fn lemma_collision_iff_lit_pixel_covered(
    screen: Seq<u8>,
    sprite: Seq<u8>,
    ox: int,
    oy: int,
    idx: int,
)
    requires
        valid_screen(screen),
    ensures
        0 <= idx < 2048 && sprite_covers(sprite, ox, oy, idx) && screen[idx] == 1
            ==> sprite_collides(screen, sprite, ox, oy),
        (forall|k: int| 0 <= k < 2048 && sprite_covers(sprite, ox, oy, k) ==> screen[k] == 0)
            ==> !sprite_collides(screen, sprite, ox, oy),
        screen == blank_screen() ==> !sprite_collides(screen, sprite, ox, oy),
{
}

/// A sprite is clipped at the right and bottom edges, never wrapped. The
/// pixel at column `px`, row `py` is toggled exactly when it lies under a
/// set bit of the sprite, whose rectangle starts at `(ox, oy)` and is cut
/// off at the edges; every other pixel, among them all those left of or
/// above the origin, keeps its value, and the buffer keeps its size.
pub proof fn lemma_draw_clips(screen: Seq<u8>, sprite: Seq<u8>, ox: int, oy: int, px: int, py: int)
    requires
        valid_screen(screen),
        0 <= ox < 64,
        0 <= oy < 32,
        0 <= px < 64,
        0 <= py < 32,
    ensures
        drawn_screen(screen, sprite, ox, oy).len() == 2048,
        drawn_screen(screen, sprite, ox, oy)[px + py * 64] == (if ox <= px < ox + 8 && oy <= py
            < oy + sprite.len() && sprite_bit(sprite[py - oy], (px - ox) as u8) {
            toggled(screen[px + py * 64])
        } else {
            screen[px + py * 64]
        }),
        px < ox || py < oy || px >= ox + 8 || py >= oy + sprite.len() ==> drawn_screen(
            screen,
            sprite,
            ox,
            oy,
        )[px + py * 64] == screen[px + py * 64],
{
    let idx = px + py * 64;
    assert(idx % 64 == px && idx / 64 == py);
}

/// The list of lit points holds the coordinates of a pixel exactly when
/// the pixel is lit.
pub proof fn lemma_lit_points_are_the_lit_pixels(screen: Seq<u8>, upto: int, px: int, py: int)
    requires
        screen.len() == 2048,
        0 <= upto <= 2048,
        0 <= px < 64,
        0 <= py < 32,
    ensures
        lit_points(screen, upto).contains((px as i32, py as i32)) <==> (px + py * 64 < upto
            && screen[px + py * 64] == 1),
    decreases upto,
{
    if upto > 0 {
        lemma_lit_points_are_the_lit_pixels(screen, upto - 1, px, py);
        let last = upto - 1;
        let before = lit_points(screen, upto - 1);
        let point = ((last % 64) as i32, (last / 64) as i32);
        let wanted = (px as i32, py as i32);
        assert(point == wanted <==> last == px + py * 64);
        if screen[last] == 1 {
            let all = before.push(point);
            assert(all[before.len() as int] == point);
            if all.contains(wanted) {
                let k = choose|k: int| 0 <= k < all.len() && all[k] == wanted;
                assert(k == before.len() || before[k] == wanted);
            }
            if before.contains(wanted) {
                let k = choose|k: int| 0 <= k < before.len() && before[k] == wanted;
                assert(all[k] == wanted);
            }
        }
    }
}

pub struct GraphicsUnit {
    screen: [u8; 2048],
}

impl View for GraphicsUnit {
    type V = Seq<u8>;

    closed spec fn view(&self) -> Seq<u8> {
        self.screen@
    }
}

impl GraphicsUnit {
    /// The invariant of the display buffer.
    pub open spec fn wf(&self) -> bool {
        valid_screen(self@)
    }

    /// A display with every pixel dark.
    pub fn new() -> (res: GraphicsUnit)
        ensures
            res.wf(),
            res@ == blank_screen(),
    {
        GraphicsUnit { screen: [0u8; 2048] }
    }

    /// Read-only access to the buffer, row by row.
    pub fn screen(&self) -> (res: &[u8; 2048])
        ensures
            res@ == self@,
    {
        &self.screen
    }

    /// Whether the pixel at column `x`, row `y` is lit.
    pub fn pixel(&self, x: usize, y: usize) -> (res: bool)
        requires
            x < 64,
            y < 32,
        ensures
            res == (self@[x + y * 64] == 1),
    {
        self.screen[x + y * 64] == 1
    }

    /// Darkens every pixel.
    pub fn clear(&mut self)
        ensures
            final(self).wf(),
            final(self)@ == blank_screen(),
    {
        self.screen = [0u8; 2048];
    }

    /// XORs a sprite onto the display and reports whether a lit pixel was
    /// erased. The sprite is eight pixels wide and one row per byte high;
    /// its top-left corner goes to column `x` modulo 64 and row `y` modulo
    /// 32. Sprite pixels beyond the right or bottom edge are dropped.
    pub fn draw_sprite(&mut self, x: u8, y: u8, sprite: &[u8]) -> (collision: bool)
        requires
            old(self).wf(),
        ensures
            final(self).wf(),
            final(self)@ == drawn_screen(old(self)@, sprite@, x as int % 64, y as int % 32),
            collision == sprite_collides(old(self)@, sprite@, x as int % 64, y as int % 32),
    {
        let ox: usize = (x % 64) as usize;
        let oy: usize = (y % 32) as usize;
        let rows: usize = if sprite.len() < SCREEN_HEIGHT - oy {
            sprite.len()
        } else {
            SCREEN_HEIGHT - oy
        };
        let cols: u8 = if SCREEN_WIDTH - ox < 8 {
            (SCREEN_WIDTH - ox) as u8
        } else {
            8
        };
        let ghost before = self@;
        let mut collision = false;
        let mut row: usize = 0;
        proof {
            lemma_rows_done(before, sprite@, ox as int, oy as int, rows as int);
        }
        while row < rows
            invariant
                before == old(self)@,
                valid_screen(before),
                ox < 64,
                oy < 32,
                row <= rows,
                rows == sprite@.len() || rows == 32 - oy,
                rows <= sprite@.len(),
                oy + rows <= 32,
                cols == 8 || cols == 64 - ox,
                cols <= 8,
                ox + cols <= 64,
                self@ == drawn_before(before, sprite@, ox as int, oy as int, row as int, 0),
                collision == collides_before(
                    before,
                    sprite@,
                    ox as int,
                    oy as int,
                    row as int,
                    0,
                ),
            decreases rows - row,
        {
            let bits: u8 = sprite[row];
            let mut col: u8 = 0;
            while col < cols
                invariant
                    before == old(self)@,
                    valid_screen(before),
                    ox < 64,
                    oy < 32,
                    row < rows,
                    rows <= sprite@.len(),
                    oy + rows <= 32,
                    bits == sprite@[row as int],
                    col <= cols,
                    cols <= 8,
                    ox + cols <= 64,
                    self@ == drawn_before(
                        before,
                        sprite@,
                        ox as int,
                        oy as int,
                        row as int,
                        col as int,
                    ),
                    collision == collides_before(
                        before,
                        sprite@,
                        ox as int,
                        oy as int,
                        row as int,
                        col as int,
                    ),
                decreases cols - col,
            {
                proof {
                    lemma_column_step(
                        before,
                        sprite@,
                        ox as int,
                        oy as int,
                        row as int,
                        col as int,
                    );
                }
                if bits & (0x80u8 >> col) != 0 {
                    let pos: usize = ox + col as usize + (oy + row) * SCREEN_WIDTH;
                    let pixel: u8 = self.screen[pos];
                    assert(!covers_before(
                        sprite@,
                        ox as int,
                        oy as int,
                        row as int,
                        col as int,
                        pos as int,
                    ));
                    if pixel == 1 {
                        collision = true;
                    }
                    assert(pixel ^ 1 == toggled(pixel)) by (bit_vector)
                        requires
                            pixel <= 1,
                    ;
                    self.screen[pos] = pixel ^ 1;
                }
                col += 1;
            }
            proof {
                lemma_row_step(before, sprite@, ox as int, oy as int, row as int, cols as int);
            }
            row += 1;
        }
        collision
    }

    /// The coordinates `(x, y)` of every lit pixel, in storage order: what a
    /// renderer has to paint on a dark background.
    pub fn draw(&self) -> (points: Vec<(i32, i32)>)
        ensures
            points@ == lit_points(self@, 2048),
    {
        let mut points: Vec<(i32, i32)> = Vec::new();
        let mut idx: usize = 0;
        while idx < SCREEN_SIZE
            invariant
                idx <= 2048,
                points@ == lit_points(self@, idx as int),
            decreases 2048 - idx,
        {
            if self.screen[idx] == 1 {
                points.push(((idx % SCREEN_WIDTH) as i32, (idx / SCREEN_WIDTH) as i32));
            }
            idx += 1;
        }
        points
    }
}

} // verus!
