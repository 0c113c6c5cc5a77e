use vstd::prelude::*;
use crate::draw_job::{Sprite, SpriteView};

verus! {

/// Width of the display in pixels.
pub const WIDTH: usize = 64;

/// Height of the display in pixels.
pub const HEIGHT: usize = 32;

/// Number of pixels of the display.
pub const PIXELS: usize = 2048;

/// Whether the bit of `row` in column `col` is set, column 0 being the
/// leftmost, most significant one.
pub open spec fn row_bit(row: u8, col: int) -> bool {
    row & (0x80u8 >> (col as u8)) != 0
}

/// Whether `sprite` has a set bit on the pixel in column `px` of line `py`.
/// The origin is taken modulo the size of the display; what of the sprite
/// would lie beyond the right or the lower edge is cut off, not wrapped.
pub open spec fn lights(sprite: SpriteView, px: int, py: int) -> bool {
    let col = px - sprite.x % 64;
    let row = py - sprite.y % 32;
    &&& 0 <= px < WIDTH
    &&& 0 <= py < HEIGHT
    &&& 0 <= col < 8
    &&& 0 <= row < sprite.rows.len()
    &&& row_bit(sprite.rows[row], col)
}

/// Whether `sprite` has a set bit on pixel `p`, the pixels counted line by
/// line.
pub open spec fn lights_at(sprite: SpriteView, p: int) -> bool {
    lights(sprite, p % 64, p / 64)
}

/// The frame with no pixel lit.
pub open spec fn blank() -> Seq<bool> {
    Seq::new(PIXELS as nat, |p: int| false)
}

/// `frame` with every pixel flipped that `sprite` has a set bit on.
pub open spec fn blit(frame: Seq<bool>, sprite: SpriteView) -> Seq<bool> {
    Seq::new(PIXELS as nat, |p: int| frame[p] != lights_at(sprite, p))
}

/// Whether `sprite` has a set bit on a pixel that is lit in `frame`.
pub open spec fn collides(frame: Seq<bool>, sprite: SpriteView) -> bool {
    exists|p: int| 0 <= p < PIXELS && #[trigger] frame[p] && lights_at(sprite, p)
}

/// The frame as a renderer presents it: four bytes a pixel, red, green, blue
/// and alpha; a lit pixel is white, an unlit one black, both opaque.
pub open spec fn rgba(frame: Seq<bool>) -> Seq<u8> {
    Seq::new(
        4 * PIXELS as nat,
        |b: int|
            if b % 4 == 3 || frame[b / 4] {
                0xFFu8
            } else {
                0x00u8
            },
    )
}

/// Whether pixel `p` lies above line `line`, or in it and left of column
/// `column`: the pixels that a sprite has been drawn on once the drawing has
/// come to that place.
spec fn drawn(p: int, line: int, column: int) -> bool {
    p / 64 < line || (p / 64 == line && p % 64 < column)
}

/// Whether `sprite` has a set bit on a lit pixel of `frame` among those
/// already drawn on.
spec fn collides_within(
    frame: Seq<bool>,
    sprite: SpriteView,
    line: int,
    column: int,
) -> bool {
    exists|p: int|
        0 <= p < PIXELS && #[trigger] frame[p] && lights_at(sprite, p) && drawn(p, line, column)
}

/// Drawing on one more pixel of a line adds a collision exactly when the
/// sprite has a set bit on that pixel and the pixel is lit.
proof fn collides_within_next(frame: Seq<bool>, sprite: SpriteView, line: int, column: int)
    requires
        frame.len() == PIXELS,
        0 <= line < HEIGHT,
        0 <= column < WIDTH,
    ensures
        collides_within(frame, sprite, line, column + 1) == (collides_within(
            frame,
            sprite,
            line,
            column,
        ) || (frame[line * 64 + column] && lights_at(sprite, line * 64 + column))),
{
    let index = line * 64 + column;
    assert(index / 64 == line && index % 64 == column);
    if collides_within(frame, sprite, line, column + 1) {
        let p = choose|p: int|
            0 <= p < PIXELS && #[trigger] frame[p] && lights_at(sprite, p) && drawn(
                p,
                line,
                column + 1,
            );
        if p != index {
            assert(drawn(p, line, column));
        }
    }
    if collides_within(frame, sprite, line, column) {
        let p = choose|p: int|
            0 <= p < PIXELS && #[trigger] frame[p] && lights_at(sprite, p) && drawn(
                p,
                line,
                column,
            );
        assert(drawn(p, line, column + 1));
    }
    if frame[index] && lights_at(sprite, index) {
        assert(drawn(index, line, column + 1));
    }
}

/// The 64 by 32 monochrome display, line by line.
#[derive(Debug)]
pub struct Display {
    pixels: [bool; 2048],
}

impl View for Display {
    type V = Seq<bool>;

    closed spec fn view(&self) -> Seq<bool> {
        self.pixels@
    }
}

impl Display {
    /// A display with no pixel lit.
    pub fn new() -> (display: Self)
        ensures
            display@ == blank(),
    {
        let display = Display { pixels: [false; PIXELS] };
        assert(display@ =~= blank());
        display
    }

    /// Every frame has as many pixels as the display.
    pub proof fn frame_size(&self)
        ensures
            self@.len() == PIXELS,
    {
    }

    /// Whether the pixel in column `x` of line `y` is lit.
    pub fn pixel(&self, x: usize, y: usize) -> (lit: bool)
        requires
            x < WIDTH,
            y < HEIGHT,
        ensures
            lit == self@[y * 64 + x],
    {
        self.pixels[y * WIDTH + x]
    }

    /// Turns every pixel off.
    pub fn clear(&mut self)
        ensures
            final(self)@ == blank(),
    {
        self.pixels = [false; PIXELS];
        assert(self@ =~= blank());
    }

    /// Flips every pixel that `sprite` has a set bit on, and tells whether
    /// one of them was lit before.
    pub fn draw_sprite(&mut self, sprite: &Sprite) -> (collision: bool)
        ensures
            final(self)@ == blit(old(self)@, sprite@),
            collision == collides(old(self)@, sprite@),
    {
        let n_x = sprite.v_x % WIDTH;
        let n_y = sprite.v_y % HEIGHT;
        let ghost before = self@;
        let mut collision = false;
        let mut i: usize = 0;
        while i < sprite.buf.len() && n_y + i < HEIGHT
            invariant
                n_x == sprite@.x % 64,
                n_y == sprite@.y % 32,
                i <= sprite.buf.len(),
                n_y + i <= HEIGHT,
                before.len() == PIXELS,
                forall|p: int|
                    0 <= p < PIXELS ==> self@[p] == (before[p] != (lights_at(sprite@, p) && drawn(
                        p,
                        n_y + i,
                        0,
                    ))),
                collision == collides_within(before, sprite@, n_y + i, 0),
            decreases sprite.buf.len() - i,
        {
            let row = sprite.buf[i];
            let y = n_y + i;
            let mut j: usize = 0;
            while j < 8 && n_x + j < WIDTH
                invariant
                    n_x == sprite@.x % 64,
                    n_y == sprite@.y % 32,
                    i < sprite.buf.len(),
                    row == sprite.buf@[i as int],
                    y == n_y + i,
                    y < HEIGHT,
                    j <= 8,
                    n_x + j <= WIDTH,
                    before.len() == PIXELS,
                    forall|p: int|
                        0 <= p < PIXELS ==> self@[p] == (before[p] != (lights_at(sprite@, p)
                            && drawn(p, y as int, n_x + j))),
                    collision == collides_within(before, sprite@, y as int, n_x + j),
                decreases 8 - j,
            {
                let ghost column = n_x + j;
                let index = y * WIDTH + n_x + j;
                assert(index / 64 == y && index % 64 == n_x + j);
                assert forall|p: int| 0 <= p < PIXELS implies (drawn(p, y as int, column + 1)
                    <==> drawn(p, y as int, column) || p == index) by {}
                proof {
                    collides_within_next(before, sprite@, y as int, column as int);
                }
                let mask: u8 = 0x80u8 >> (j as u8);
                if row & mask != 0 {
                    assert(lights_at(sprite@, index as int));
                    if self.pixels[index] {
                        collision = true;
                    }
                    self.pixels[index] = !self.pixels[index];
                } else {
                    assert(!lights_at(sprite@, index as int));
                }
                j += 1;
            }
            proof {
                assert forall|p: int| 0 <= p < PIXELS implies (lights_at(sprite@, p) && drawn(
                    p,
                    y as int,
                    n_x + j,
                ) <==> lights_at(sprite@, p) && drawn(p, y + 1, 0)) by {}
            }
            i += 1;
        }
        proof {
            assert forall|p: int| 0 <= p < PIXELS && lights_at(sprite@, p) implies drawn(
                p,
                n_y + i,
                0,
            ) by {}
            assert(self@ =~= blit(before, sprite@));
        }
        collision
    }

    /// The frame as bytes to present: four a pixel, line by line.
    pub fn to_rgba(&self) -> (bytes: Vec<u8>)
        ensures
            bytes@ == rgba(self@),
    {
        let mut bytes: Vec<u8> = Vec::with_capacity(4 * PIXELS);
        let mut p: usize = 0;
        while p < PIXELS
            invariant
                p <= PIXELS,
                bytes@.len() == 4 * p,
                forall|b: int| 0 <= b < 4 * p ==> bytes@[b] == rgba(self@)[b],
            decreases PIXELS - p,
        {
            let shade: u8 = if self.pixels[p] { 0xFF } else { 0x00 };
            bytes.push(shade);
            bytes.push(shade);
            bytes.push(shade);
            bytes.push(0xFF);
            p += 1;
        }
        assert(bytes@ =~= rgba(self@));
        bytes
    }
}

/// Drawing the same sprite twice at the same origin gives back the frame
/// that was there before the first drawing. The second drawing reports a
/// collision exactly when the sprite has a set bit on a pixel that was unlit
/// before the first: that pixel is the one still lit when the second begins.
pub proof fn draw_twice_restores(frame: Seq<bool>, sprite: SpriteView)
    requires
        frame.len() == PIXELS,
    ensures
        blit(blit(frame, sprite), sprite) == frame,
        collides(blit(frame, sprite), sprite) <==> exists|p: int|
            0 <= p < PIXELS && !#[trigger] frame[p] && lights_at(sprite, p),
{
    let once = blit(frame, sprite);
    assert(blit(once, sprite) =~= frame);
    if collides(once, sprite) {
        let p = choose|p: int| 0 <= p < PIXELS && #[trigger] once[p] && lights_at(sprite, p);
        assert(!frame[p] && lights_at(sprite, p));
    }
    if exists|p: int| 0 <= p < PIXELS && !#[trigger] frame[p] && lights_at(sprite, p) {
        let p = choose|p: int| 0 <= p < PIXELS && !#[trigger] frame[p] && lights_at(sprite, p);
        assert(once[p] && lights_at(sprite, p));
    }
}

/// On a blank display, a sprite with a set bit inside the frame is drawn
/// without a collision, and drawing it again reports one and leaves the
/// display blank.
pub proof fn draw_twice_on_blank(sprite: SpriteView, p: int)
    requires
        0 <= p < PIXELS,
        lights_at(sprite, p),
    ensures
        !collides(blank(), sprite),
        collides(blit(blank(), sprite), sprite),
        blit(blit(blank(), sprite), sprite) == blank(),
{
    draw_twice_restores(blank(), sprite);
    assert(!blank()[p] && lights_at(sprite, p));
}

/// The first row's leftmost bit always falls inside the frame, at the
/// origin taken modulo the size of the display.
pub proof fn origin_is_inside(sprite: SpriteView)
    requires
        sprite.rows.len() > 0,
        sprite.rows[0] >= 0x80,
    ensures
        lights(sprite, sprite.x % 64, sprite.y % 32),
        lights_at(sprite, (sprite.y % 32) * 64 + sprite.x % 64),
{
    let first = sprite.rows[0];
    assert(first >= 0x80 ==> first & (0x80u8 >> 0u8) != 0) by (bit_vector);
    let p = (sprite.y % 32) * 64 + sprite.x % 64;
    assert(p % 64 == sprite.x % 64 && p / 64 == sprite.y % 32);
}

} // verus!
