//! The 64x32 monochrome framebuffer: a logical on/off pixel plane with
//! XOR-based pixel toggling and per-axis wraparound addressing, and a
//! parallel presentation plane that holds a display color for each pixel.

use vstd::prelude::*;
use vstd::arithmetic::div_mod::{
    lemma_add_mod_noop, lemma_mod_bound, lemma_mod_add_multiples_vanish, lemma_small_mod,
};

verus! {

/// Width of the pixel planes, in pixels.
pub const WIDTH: usize = 64;
/// Height of the pixel planes, in pixels.
pub const HEIGHT: usize = 32;
/// Number of pixels of one plane, row-major.
pub const PIXEL_COUNT: usize = WIDTH * HEIGHT;

/// Presentation color of a pixel that is off (background).
pub const COLOR_OFF: u32 = 0x0;
/// Presentation color of a pixel that is on (foreground).
pub const COLOR_ON: u32 = 0xFFFFFF;
/// Defensive fallback color for a pixel state that XOR-only writes can never
/// produce; if it is ever observed, a display-state invariant was broken.
pub const COLOR_INVALID: u32 = 0xFF33CC;

/// Presentation color of a logical pixel state.
pub open spec fn color_of(on: bool) -> u32 {
    if on {
        COLOR_ON
    } else {
        COLOR_OFF
    }
}

/// Row-major index of the pixel that bit `i` of a sprite row drawn at
/// `(x, y)` lands on: the column wraps per bit, the row wraps once for the
/// whole byte.
pub open spec fn draw_index(x: int, y: int, i: int) -> int {
    (y % (HEIGHT as int)) * (WIDTH as int) + (x + i) % (WIDTH as int)
}

/// Bit `i` of a sprite row, most-significant bit first.
pub open spec fn sprite_bit(value: u8, i: int) -> bool {
    (value >> ((7 - i) as u8)) & 1u8 == 1u8
}

/// Whether pixel `j` is one of the 8 targets of a sprite row drawn at `(x, y)`.
pub open spec fn is_draw_target(x: int, y: int, j: int) -> bool {
    exists|i: int| 0 <= i < 8 && j == draw_index(x, y, i)
}

/// How one sprite row drawn at `(x, y)` takes the logical plane `p0` to `p1`:
/// each of the 8 bits of `value` is XOR-ed into its target pixel, and every
/// other pixel keeps its state.
pub open spec fn draw_applied(p0: Seq<bool>, p1: Seq<bool>, x: int, y: int, value: u8) -> bool {
    &&& p1.len() == p0.len()
    &&& forall|i: int|
        0 <= i < 8 ==> p1[#[trigger] draw_index(x, y, i)] == (p0[draw_index(x, y, i)]
            ^ sprite_bit(value, i))
    &&& forall|j: int| 0 <= j < p0.len() && !is_draw_target(x, y, j) ==> p1[j] == p0[j]
}

/// Whether drawing one sprite row at `(x, y)` over the plane `p` turns some
/// pixel from set to clear: a set bit of `value` meets a set pixel.
pub open spec fn draw_erases(p: Seq<bool>, x: int, y: int, value: u8) -> bool {
    exists|i: int| 0 <= i < 8 && sprite_bit(value, i) && p[#[trigger] draw_index(x, y, i)]
}

/// The bit index whose target pixel `j` is, for a pixel that is a target of
/// a sprite row drawn at `(x, y)`.
pub open spec fn target_bit(x: int, y: int, j: int) -> int {
    choose|i: int| 0 <= i < 8 && j == draw_index(x, y, i)
}

/// The logical plane that drawing one sprite row at `(x, y)` over `p`
/// produces: each target pixel is XOR-toggled with its bit of `value`, every
/// other pixel keeps its state.
pub open spec fn row_plane(p: Seq<bool>, x: int, y: int, value: u8) -> Seq<bool> {
    Seq::new(
        p.len(),
        |j: int|
            if is_draw_target(x, y, j) {
                p[j] ^ sprite_bit(value, target_bit(x, y, j))
            } else {
                p[j]
            },
    )
}

/// A draw's outcome is a function of its inputs: any plane that
/// [`draw_applied`] relates to `p0` is exactly [`row_plane`] of `p0`.
pub proof fn lemma_draw_applied_determines(p0: Seq<bool>, p1: Seq<bool>, x: int, y: int, value: u8)
    requires
        draw_applied(p0, p1, x, y, value),
    ensures
        p1 == row_plane(p0, x, y, value),
{
    let q = row_plane(p0, x, y, value);
    assert forall|j: int| 0 <= j < p0.len() implies p1[j] == q[j] by {
        if is_draw_target(x, y, j) {
            let i = target_bit(x, y, j);
            assert(0 <= i < 8 && j == draw_index(x, y, i));
            assert(p1[draw_index(x, y, i)] == (p0[draw_index(x, y, i)] ^ sprite_bit(value, i)));
        }
    }
    assert(p1 =~= q);
}

/// The target index of every sprite-row bit lies inside the plane.
pub proof fn lemma_draw_index_in_range(x: int, y: int, i: int)
    ensures
        0 <= draw_index(x, y, i) < PIXEL_COUNT,
{
    lemma_mod_bound(y, HEIGHT as int);
    lemma_mod_bound(x + i, WIDTH as int);
}

/// Splits `(x + i) % WIDTH` on whether the column wraps, for a column `x`
/// already reduced below `WIDTH`.
proof fn lemma_column_wrap(x: int, i: int)
    requires
        0 <= x < WIDTH,
        0 <= i < WIDTH,
    ensures
        (x + i) % (WIDTH as int) == if x + i < WIDTH {
            x + i
        } else {
            x + i - WIDTH
        },
{
    let w = WIDTH as int;
    if x + i < w {
        lemma_small_mod((x + i) as nat, WIDTH as nat);
    } else {
        lemma_mod_add_multiples_vanish(x + i - w, w);
        lemma_small_mod((x + i - w) as nat, WIDTH as nat);
    }
}

/// Reducing the column modulo `WIDTH` before adding the bit offset does not
/// change the target column.
proof fn lemma_column_mod_noop(x: int, i: int)
    requires
        0 <= x,
        0 <= i,
    ensures
        (x % (WIDTH as int) + i) % (WIDTH as int) == (x + i) % (WIDTH as int),
{
    let w = WIDTH as int;
    lemma_add_mod_noop(x, i, w);
    lemma_mod_bound(i, w);
    if i < w {
        lemma_small_mod(i as nat, WIDTH as nat);
    }
    lemma_add_mod_noop(x % w, i, w);
    lemma_mod_bound(x, w);
    if (x % w) < w {
        lemma_small_mod((x % w) as nat, WIDTH as nat);
    }
}

/// The 8 bits of one sprite row land on 8 distinct pixels.
pub proof fn lemma_draw_index_injective(x: int, y: int, i1: int, i2: int)
    requires
        0 <= i1 < 8,
        0 <= i2 < 8,
        i1 != i2,
    ensures
        draw_index(x, y, i1) != draw_index(x, y, i2),
{
    let w = WIDTH as int;
    lemma_add_mod_noop(x, i1, w);
    lemma_add_mod_noop(x, i2, w);
    lemma_small_mod(i1 as nat, WIDTH as nat);
    lemma_small_mod(i2 as nat, WIDTH as nat);
    let a = x % w;
    lemma_mod_bound(x, w);
    lemma_column_wrap(a, i1);
    lemma_column_wrap(a, i2);
}

/// The 64x32 framebuffer: the logical plane drives collision and XOR
/// semantics; the presentation plane holds the color shown for each pixel.
pub struct Display {
    /// Logical on/off state of each pixel (0 or 1), row-major.
    buffer: Vec<u32>,
    /// Presentation color of each pixel, row-major.
    display_buffer: Vec<u32>,
}

impl View for Display {
    type V = Seq<bool>;

    /// The logical pixel plane: `true` is a pixel that is on.
    closed spec fn view(&self) -> Seq<bool> {
        self.buffer@.map_values(|v: u32| v == 1)
    }
}

impl Display {
    /// Both planes hold one entry per pixel, the logical plane holds only
    /// on/off states, and the presentation plane shows exactly the logical
    /// plane's colors.
    pub closed spec fn wf(&self) -> bool {
        &&& self.buffer@.len() == PIXEL_COUNT
        &&& self.display_buffer@.len() == PIXEL_COUNT
        &&& forall|j: int|
            0 <= j < PIXEL_COUNT ==> #[trigger] self.buffer@[j] == 0 || self.buffer@[j] == 1
        &&& forall|j: int|
            0 <= j < PIXEL_COUNT ==> #[trigger] self.display_buffer@[j] == color_of(
                self.buffer@[j] == 1,
            )
    }

    /// Creates a new `Display` with every pixel off and the presentation
    /// plane at the background color.
    pub fn new() -> (r: Display)
        ensures
            r.wf(),
            r@.len() == PIXEL_COUNT,
            forall|j: int| 0 <= j < PIXEL_COUNT ==> !r@[j],
    {
        let mut buffer: Vec<u32> = Vec::new();
        let mut display_buffer: Vec<u32> = Vec::new();
        let mut i: usize = 0;
        while i < PIXEL_COUNT
            invariant
                i <= PIXEL_COUNT,
                buffer@.len() == i,
                display_buffer@.len() == i,
                forall|j: int| 0 <= j < i ==> #[trigger] buffer@[j] == 0,
                forall|j: int| 0 <= j < i ==> #[trigger] display_buffer@[j] == COLOR_OFF,
            decreases PIXEL_COUNT - i,
        {
            buffer.push(0);
            display_buffer.push(COLOR_OFF);
            i += 1;
        }
        Display { buffer, display_buffer }
    }

    /// Row-major index of the pixel at `(x, y)`, for already-wrapped
    /// coordinates.
    fn get_pixel_index(&self, x: usize, y: usize) -> (r: usize)
        requires
            x < WIDTH,
            y < HEIGHT,
        ensures
            r == y * WIDTH + x,
            r < PIXEL_COUNT,
    {
        (y * WIDTH) + x
    }

    /// XOR-toggles the pixel at `(x, y)` with a one-bit `value` and keeps the
    /// presentation plane in step. Returns `true` iff the pixel was on and
    /// this toggle turned it off.
    fn set_pixel(&mut self, x: usize, y: usize, value: u8) -> (erased: bool)
        requires
            old(self).wf(),
            x < WIDTH,
            y < HEIGHT,
            value <= 1,
        ensures
            final(self).wf(),
            final(self)@ == old(self)@.update(
                y * WIDTH + x,
                old(self)@[y * WIDTH + x] ^ (value == 1),
            ),
            erased == (old(self)@[y * WIDTH + x] && value == 1),
    {
        let index = self.get_pixel_index(x, y);
        let prev_value = self.buffer[index];
        let pixel_value = prev_value ^ value as u32;

        let mut erased = false;
        // The pixel was set and has been erased
        if prev_value == 0x1 && pixel_value == 0x0 {
            erased = true;
        }

        proof {
            let pv = prev_value;
            let vv = value as u32;
            assert((pv == 0 || pv == 1) && vv <= 1 ==> ((pv ^ vv) == if (pv == 1) != (vv == 1) {
                1u32
            } else {
                0u32
            })) by (bit_vector);
        }

        self.buffer.set(index, pixel_value);
        self.set_pixel_color(index, pixel_value);

        proof {
            assert(final(self)@ =~= old(self)@.update(
                y * WIDTH + x,
                old(self)@[y * WIDTH + x] ^ (value == 1),
            ));
        }
        erased
    }

    /// Writes the presentation color of the pixel at `index` from its logical
    /// state, falling back to [`COLOR_INVALID`] on a state that XOR-only
    /// writes can never produce.
    fn set_pixel_color(&mut self, index: usize, pixel_value: u32)
        requires
            index < old(self).display_buffer@.len(),
        ensures
            final(self).buffer@ == old(self).buffer@,
            final(self).display_buffer@ == old(self).display_buffer@.update(
                index as int,
                if pixel_value == 0 {
                    COLOR_OFF
                } else if pixel_value == 1 {
                    COLOR_ON
                } else {
                    COLOR_INVALID
                },
            ),
    {
        let pixel_color = match pixel_value {
            0x0 => COLOR_OFF,
            0x1 => COLOR_ON,
            _ => COLOR_INVALID,
        };
        self.display_buffer.set(index, pixel_color);
    }

    /// Draws one sprite row: XOR-toggles the 8 bits of `value`
    /// (most-significant first) into the pixels at `((x+i) mod WIDTH,
    /// y mod HEIGHT)`. Returns `true` iff any pixel went from set to clear.
    pub fn draw_byte(&mut self, x: usize, y: usize, value: u8) -> (erased: bool)
        requires
            old(self).wf(),
        ensures
            final(self).wf(),
            draw_applied(old(self)@, final(self)@, x as int, y as int, value),
            erased == draw_erases(old(self)@, x as int, y as int, value),
    {
        let ghost p0 = self@;
        let mut erased = false;
        let coord_y = y % HEIGHT;
        let x_base = x % WIDTH;

        proof {
            lemma_mod_bound(y as int, HEIGHT as int);
            lemma_mod_bound(x as int, WIDTH as int);
        }

        let mut i: usize = 0;
        // Set each pixel of the byte
        while i < 8
            invariant
                self.wf(),
                i <= 8,
                x_base == x as int % (WIDTH as int),
                x_base < WIDTH,
                coord_y == y as int % (HEIGHT as int),
                coord_y < HEIGHT,
                p0.len() == PIXEL_COUNT,
                self@.len() == PIXEL_COUNT,
                forall|k: int|
                    0 <= k < i ==> self@[#[trigger] draw_index(x as int, y as int, k)] == (
                    p0[draw_index(x as int, y as int, k)] ^ sprite_bit(value, k)),
                forall|j: int|
                    0 <= j < PIXEL_COUNT && !(exists|k: int|
                        0 <= k < i && j == draw_index(x as int, y as int, k)) ==> self@[j] == p0[j],
                erased == exists|k: int|
                    0 <= k < i && sprite_bit(value, k) && p0[#[trigger] draw_index(
                        x as int,
                        y as int,
                        k,
                    )],
            decreases 8 - i,
        {
            let coord_x = if x_base + i < WIDTH {
                x_base + i
            } else {
                x_base + i - WIDTH
            };
            let offset: u8 = (7 - i) as u8;
            let pixel_value = (value >> offset) & 0x1;

            proof {
                lemma_column_mod_noop(x as int, i as int);
                lemma_column_wrap(x_base as int, i as int);
                assert(coord_x == (x as int + i) % (WIDTH as int));
                let v = value;
                let o = offset;
                assert((v >> o) & 1 == 0 || (v >> o) & 1 == 1) by (bit_vector);
                assert(pixel_value == 1 <==> sprite_bit(value, i as int));
                lemma_draw_index_in_range(x as int, y as int, i as int);
            }

            let ghost pre = self@;
            let ghost idx = draw_index(x as int, y as int, i as int);

            // Check if any pixel has been erased
            if self.set_pixel(coord_x, coord_y, pixel_value) {
                erased = true;
            }

            proof {
                assert(self@ == pre.update(idx, pre[idx] ^ (pixel_value == 1)));
                // Pixels already toggled by earlier bits stay toggled, and
                // untouched pixels keep their prior state: this bit's target
                // is distinct from every other bit's target.
                assert forall|k: int| 0 <= k < i + 1 implies self@[#[trigger] draw_index(
                    x as int,
                    y as int,
                    k,
                )] == (p0[draw_index(x as int, y as int, k)] ^ sprite_bit(value, k)) by {
                    if k < i {
                        lemma_draw_index_injective(x as int, y as int, k, i as int);
                        lemma_draw_index_in_range(x as int, y as int, k);
                    } else {
                        assert(pre[idx] == p0[idx]) by {
                            if exists|k2: int|
                                0 <= k2 < i && idx == draw_index(x as int, y as int, k2) {
                                let k2 = choose|k2: int|
                                    0 <= k2 < i && idx == draw_index(x as int, y as int, k2);
                                lemma_draw_index_injective(x as int, y as int, k2, i as int);
                            }
                        }
                    }
                }
            }

            i += 1;
        }
        erased
    }

    /// Copies out the presentation plane: one color per pixel, row-major.
    pub fn get_display_buffer(&self) -> (r: Vec<u32>)
        requires
            self.wf(),
        ensures
            r@.len() == PIXEL_COUNT,
            forall|j: int| 0 <= j < PIXEL_COUNT ==> r@[j] == color_of(self@[j]),
    {
        let mut r: Vec<u32> = Vec::new();
        let mut i: usize = 0;
        while i < PIXEL_COUNT
            invariant
                self.wf(),
                i <= PIXEL_COUNT,
                r@.len() == i,
                forall|j: int| 0 <= j < i ==> r@[j] == color_of(self@[j]),
            decreases PIXEL_COUNT - i,
        {
            r.push(self.display_buffer[i]);
            i += 1;
        }
        r
    }

    /// Clears both planes: every pixel off, every color at the background.
    pub fn clear(&mut self)
        requires
            old(self).wf(),
        ensures
            final(self).wf(),
            final(self)@.len() == PIXEL_COUNT,
            forall|j: int| 0 <= j < PIXEL_COUNT ==> !final(self)@[j],
    {
        let mut i: usize = 0;
        while i < PIXEL_COUNT
            invariant
                i <= PIXEL_COUNT,
                self.buffer@.len() == PIXEL_COUNT,
                self.display_buffer@.len() == PIXEL_COUNT,
                forall|j: int|
                    0 <= j < PIXEL_COUNT ==> #[trigger] self.buffer@[j] == 0 || self.buffer@[j]
                        == 1,
                forall|j: int| 0 <= j < i ==> #[trigger] self.buffer@[j] == 0,
                forall|j: int| 0 <= j < i ==> #[trigger] self.display_buffer@[j] == COLOR_OFF,
                forall|j: int|
                    i <= j < PIXEL_COUNT ==> #[trigger] self.display_buffer@[j] == color_of(
                        self.buffer@[j] == 1,
                    ),
            decreases PIXEL_COUNT - i,
        {
            self.buffer.set(i, 0);
            self.display_buffer.set(i, 0);
            i += 1;
        }
    }
}

/// Drawing the same sprite row twice at the same coordinates returns the
/// logical plane to its prior state: XOR-toggling each target pixel twice is
/// a no-op.
pub proof fn lemma_draw_twice_restores(
    p0: Seq<bool>,
    p1: Seq<bool>,
    p2: Seq<bool>,
    x: int,
    y: int,
    value: u8,
)
    requires
        draw_applied(p0, p1, x, y, value),
        draw_applied(p1, p2, x, y, value),
    ensures
        p2 == p0,
{
    assert forall|j: int| 0 <= j < p0.len() implies p2[j] == p0[j] by {
        if is_draw_target(x, y, j) {
            let i = choose|i: int| 0 <= i < 8 && j == draw_index(x, y, i);
            assert(p1[draw_index(x, y, i)] == (p0[draw_index(x, y, i)] ^ sprite_bit(value, i)));
            assert(p2[draw_index(x, y, i)] == (p1[draw_index(x, y, i)] ^ sprite_bit(value, i)));
        }
    }
    assert(p2 =~= p0);
}

/// If a sprite row with at least one set bit erased nothing, drawing the very
/// same row again at the same coordinates reports an erasure: the first draw
/// left every target pixel of a set bit on.
pub proof fn lemma_draw_twice_erases(p0: Seq<bool>, p1: Seq<bool>, x: int, y: int, value: u8)
    requires
        draw_applied(p0, p1, x, y, value),
        !draw_erases(p0, x, y, value),
        value != 0,
    ensures
        draw_erases(p1, x, y, value),
{
    let v = value;
    assert(!((v >> 7) & 1 == 1) && !((v >> 6) & 1 == 1) && !((v >> 5) & 1 == 1) && !((v >> 4) & 1
        == 1) && !((v >> 3) & 1 == 1) && !((v >> 2) & 1 == 1) && !((v >> 1) & 1 == 1) && !((v >> 0)
        & 1 == 1) ==> v == 0) by (bit_vector);
    assert(exists|i: int| 0 <= i < 8 && sprite_bit(value, i)) by {
        if (v >> 7) & 1 == 1 {
            assert(sprite_bit(value, 0));
        } else if (v >> 6) & 1 == 1 {
            assert(sprite_bit(value, 1));
        } else if (v >> 5) & 1 == 1 {
            assert(sprite_bit(value, 2));
        } else if (v >> 4) & 1 == 1 {
            assert(sprite_bit(value, 3));
        } else if (v >> 3) & 1 == 1 {
            assert(sprite_bit(value, 4));
        } else if (v >> 2) & 1 == 1 {
            assert(sprite_bit(value, 5));
        } else if (v >> 1) & 1 == 1 {
            assert(sprite_bit(value, 6));
        } else {
            assert(sprite_bit(value, 7));
        }
    }
    let i = choose|i: int| 0 <= i < 8 && sprite_bit(value, i);
    assert(!p0[draw_index(x, y, i)]);
    assert(p1[draw_index(x, y, i)]);
}

} // verus!
