//! The pixel buffer and its encoding as a plain-text pixmap.

use vstd::prelude::*;
use crate::primitives::arithmetic::Unit;
use crate::primitives::arithmetic::sound;
use crate::primitives::arithmetic::shrinking;
use crate::primitives::rgb_color::clamped_colour_fits;
use crate::primitives::rgb_color::RgbColor;

verus! {

pub struct Canvas {
    pixels: Vec<Vec<RgbColor>>,
}

/// The rows of a nested vector as sequences.
pub open spec fn pixel_rows(rows: Seq<Vec<RgbColor>>) -> Seq<Seq<RgbColor>> {
    Seq::new(rows.len(), |i: int| rows[i]@)
}

/// The larger of a size and one.
pub open spec fn at_least_one(n: usize) -> int {
    if n == 0 {
        1
    } else {
        n as int
    }
}

/// A grid of `height` rows of `width` pixels, each `color`.
pub open spec fn filled(width: int, height: int, color: RgbColor) -> Seq<Seq<RgbColor>> {
    Seq::new(height as nat, |r: int| Seq::new(width as nat, |c: int| color))
}

/// The grid with the pixel at (`row`, `col`) replaced.
pub open spec fn with_pixel(grid: Seq<Seq<RgbColor>>, row: int, col: int, color: RgbColor) -> Seq<
    Seq<RgbColor>,
> {
    grid.update(row, grid[row].update(col, color))
}

/// Every pixel as it is shown: gamma-corrected, then clamped.
pub open spec fn corrected_grid<F: Unit>(unit: &F, grid: Seq<Seq<RgbColor>>) -> Seq<
    Seq<RgbColor>,
> {
    Seq::new(
        grid.len(),
        |r: int| Seq::new(grid[r].len(), |c: int| grid[r][c].corrected(unit)),
    )
}

/// A number in decimal digits, without leading zeroes.
pub open spec fn decimal(n: nat) -> Seq<u8>
    decreases n,
{
    if n < 10 {
        seq![(48 + n) as u8]
    } else {
        decimal(n / 10).push((48 + n % 10) as u8)
    }
}

/// A pixel in text: its three bytes in decimal, a blank between them.
pub open spec fn pixel_text<F: Unit>(unit: &F, color: RgbColor) -> Seq<u8> {
    let bytes = color.bytes(unit);
    decimal(bytes.0 as nat) + seq![32u8] + decimal(bytes.1 as nat) + seq![32u8] + decimal(
        bytes.2 as nat,
    )
}

/// The first `k` pixels of a row in text, a blank between one and the next.
pub open spec fn row_text<F: Unit>(unit: &F, row: Seq<RgbColor>, k: nat) -> Seq<u8>
    decreases k,
{
    if k == 0 {
        Seq::empty()
    } else if k == 1 {
        pixel_text(unit, row[0])
    } else {
        row_text(unit, row, (k - 1) as nat) + seq![32u8] + pixel_text(unit, row[k - 1])
    }
}

/// The first `k` rows in text, each closed by a line feed.
pub open spec fn rows_text<F: Unit>(unit: &F, grid: Seq<Seq<RgbColor>>, k: nat) -> Seq<u8>
    decreases k,
{
    if k == 0 {
        Seq::empty()
    } else {
        rows_text(unit, grid, (k - 1) as nat) + row_text(unit, grid[k - 1], grid[k - 1].len())
            + seq![10u8]
    }
}

/// The whole pixmap in text: the magic word of plain pixmaps, width and
/// height, the top value 255, then the rows.
pub open spec fn pixmap_text<F: Unit>(unit: &F, grid: Seq<Seq<RgbColor>>) -> Seq<u8> {
    seq![80u8, 51u8, 10u8] + decimal(grid[0].len()) + seq![32u8] + decimal(grid.len()) + seq![
        10u8,
        50u8,
        53u8,
        53u8,
        10u8,
    ] + rows_text(unit, grid, grid.len())
}

/// Appends a number in decimal digits.
fn push_decimal(out: &mut Vec<u8>, n: usize)
    ensures
        final(out)@ == old(out)@ + decimal(n as nat),
    decreases n,
{
    if n >= 10 {
        push_decimal(out, n / 10);
    }
    let digit: usize = 48 + n % 10;
    out.push(digit as u8);
}

/// Appends a pixel in text.
fn push_pixel<F: Unit>(out: &mut Vec<u8>, color: &RgbColor, unit: &F)
    requires
        sound(unit),
    ensures
        final(out)@ == old(out)@ + pixel_text(unit, *color),
{
    let (r, g, b) = color.to_u8_tuple(unit);
    push_decimal(out, r as usize);
    out.push(32u8);
    push_decimal(out, g as usize);
    out.push(32u8);
    push_decimal(out, b as usize);
}

/// Appends a row in text.
fn push_row<F: Unit>(out: &mut Vec<u8>, row: &Vec<RgbColor>, unit: &F)
    requires
        sound(unit),
    ensures
        final(out)@ == old(out)@ + row_text(unit, row@, row@.len()),
{
    let mut k: usize = 0;
    while k < row.len()
        invariant
            k <= row@.len(),
            sound(unit),
            out@ == old(out)@ + row_text(unit, row@, k as nat),
        decreases row@.len() - k,
    {
        if k > 0 {
            out.push(32u8);
        }
        push_pixel(out, &row[k], unit);
        k += 1;
    }
}

impl View for Canvas {
    type V = Seq<Seq<RgbColor>>;

    closed spec fn view(&self) -> Seq<Seq<RgbColor>> {
        pixel_rows(self.pixels@)
    }
}

impl Canvas {
    /// There is at least one row, and every row has the width of the
    /// first, which is at least one.
    pub open spec fn wf(&self) -> bool {
        &&& self@.len() >= 1
        &&& self@[0].len() >= 1
        &&& forall|r: int| 0 <= r < self@.len() ==> (#[trigger] self@[r]).len() == self@[0].len()
    }

    /// No pixel has a channel above one.
    pub open spec fn fits(&self) -> bool {
        forall|r: int, c: int|
            0 <= r < self@.len() && 0 <= c < self@[r].len() ==> !(#[trigger] self@[r][c]).overflows()
    }

    pub open spec fn width(&self) -> nat {
        self@[0].len()
    }

    pub open spec fn height(&self) -> nat {
        self@.len()
    }

    /// A canvas of one colour, black unless another is given; a size of
    /// zero is taken as one.
    pub fn new(width: usize, height: usize, background_color: Option<RgbColor>) -> (c: Canvas)
        ensures
            c.wf(),
            c@ =~~= filled(
                at_least_one(width),
                at_least_one(height),
                match background_color {
                    Some(color) => color,
                    None => RgbColor::dark(),
                },
            ),
    {
        let width: usize = if width == 0 {
            1
        } else {
            width
        };
        let height: usize = if height == 0 {
            1
        } else {
            height
        };
        let color = match background_color {
            Some(color) => color,
            None => RgbColor::black(),
        };
        let mut pixels: Vec<Vec<RgbColor>> = Vec::new();
        let mut r: usize = 0;
        while r < height
            invariant
                r <= height,
                pixels@.len() == r,
                forall|k: int| 0 <= k < r ==> (#[trigger] pixels@[k])@.len() == width,
                forall|k: int, j: int| 0 <= k < r && 0 <= j < width ==> pixels@[k]@[j] == color,
            decreases height - r,
        {
            let mut row: Vec<RgbColor> = Vec::new();
            let mut c: usize = 0;
            while c < width
                invariant
                    c <= width,
                    row@.len() == c,
                    forall|j: int| 0 <= j < c ==> row@[j] == color,
                decreases width - c,
            {
                row.push(color);
                c += 1;
            }
            pixels.push(row);
            r += 1;
        }
        Canvas { pixels }
    }

    pub fn get_pixel(&self, row: usize, col: usize) -> (color: RgbColor)
        requires
            row < self@.len(),
            col < self@[row as int].len(),
        ensures
            color == self@[row as int][col as int],
    {
        self.pixels[row][col]
    }

    pub fn set_pixel(&mut self, row: usize, col: usize, color: RgbColor)
        requires
            row < old(self)@.len(),
            col < old(self)@[row as int].len(),
        ensures
            final(self)@ == with_pixel(old(self)@, row as int, col as int, color),
            old(self).wf() ==> final(self).wf(),
    {
        self.pixels[row][col] = color;
    }

    pub fn get_width(&self) -> (w: usize)
        requires
            self@.len() >= 1,
        ensures
            w == self.width(),
    {
        self.pixels[0].len()
    }

    pub fn get_height(&self) -> (h: usize)
        ensures
            h == self.height(),
    {
        self.pixels.len()
    }

    /// Makes every pixel ready to be shown: gamma-corrected, then clamped.
    pub fn correct_colors<F: Unit>(&mut self, unit: &F)
        requires
            sound(unit),
        ensures
            final(self)@ =~~= corrected_grid(unit, old(self)@),
            old(self).wf() ==> final(self).wf(),
            shrinking(unit) ==> final(self).fits(),
    {
        proof {
            if shrinking(unit) {
                assert forall|r: int, c: int|
                    0 <= r < old(self)@.len() && 0 <= c < old(self)@[r].len() implies !(
                #[trigger] corrected_grid(unit, old(self)@)[r][c]).overflows() by {
                    corrected_pixels_fit(unit, old(self)@, r, c);
                }
            }
        }
        let height: usize = self.pixels.len();
        let mut r: usize = 0;
        while r < height
            invariant
                r <= height,
                sound(unit),
                self@.len() == height,
                old(self)@.len() == height,
                forall|k: int|
                    0 <= k < height ==> (#[trigger] self@[k]).len() == old(self)@[k].len(),
                forall|k: int, j: int|
                    0 <= k < r && 0 <= j < self@[k].len() ==> self@[k][j] == old(
                        self,
                    )@[k][j].corrected(unit),
                forall|k: int, j: int|
                    r <= k < height && 0 <= j < self@[k].len() ==> self@[k][j] == old(self)@[k][j],
            decreases height - r,
        {
            let width: usize = self.pixels[r].len();
            let mut c: usize = 0;
            while c < width
                invariant
                    c <= width,
                    r < height,
                    sound(unit),
                    self@.len() == height,
                    old(self)@.len() == height,
                    width == self@[r as int].len(),
                    forall|k: int|
                        0 <= k < height ==> (#[trigger] self@[k]).len() == old(self)@[k].len(),
                    forall|k: int, j: int|
                        0 <= k < r && 0 <= j < self@[k].len() ==> self@[k][j] == old(
                            self,
                        )@[k][j].corrected(unit),
                    forall|j: int|
                        0 <= j < c ==> self@[r as int][j] == old(
                            self,
                        )@[r as int][j].corrected(unit),
                    forall|j: int| c <= j < width ==> self@[r as int][j] == old(self)@[r as int][j],
                    forall|k: int, j: int|
                        r < k < height && 0 <= j < self@[k].len() ==> self@[k][j] == old(
                            self,
                        )@[k][j],
                decreases width - c,
            {
                let mut color = self.pixels[r][c];
                color.gamma_correct(unit);
                color.clamp(unit);
                self.set_pixel(r, c, color);
                c += 1;
            }
            r += 1;
        }
    }

    /// The canvas as a plain-text pixmap, byte for byte.
    pub fn build_contents<F: Unit>(&self, unit: &F) -> (text: Vec<u8>)
        requires
            self.wf(),
            sound(unit),
        ensures
            text@ == pixmap_text(unit, self@),
    {
        let mut content: Vec<u8> = Vec::new();
        content.push(80u8);
        content.push(51u8);
        content.push(10u8);
        push_decimal(&mut content, self.pixels[0].len());
        content.push(32u8);
        push_decimal(&mut content, self.pixels.len());
        content.push(10u8);
        content.push(50u8);
        content.push(53u8);
        content.push(53u8);
        content.push(10u8);
        let ghost header = content@;
        assert(header =~= seq![80u8, 51u8, 10u8] + decimal(self@[0].len()) + seq![32u8] + decimal(
            self@.len(),
        ) + seq![10u8, 50u8, 53u8, 53u8, 10u8]);
        let mut r: usize = 0;
        while r < self.pixels.len()
            invariant
                r <= self@.len(),
                self@.len() == self.pixels@.len(),
                sound(unit),
                content@ == header + rows_text(unit, self@, r as nat),
            decreases self@.len() - r,
        {
            push_row(&mut content, &self.pixels[r], unit);
            content.push(10u8);
            r += 1;
        }
        content
    }
}

/// Every pixel of a corrected grid fits: under a unit whose division
/// shrinks, no pixel has a channel above one.
pub proof fn corrected_pixels_fit<F: Unit>(unit: &F, grid: Seq<Seq<RgbColor>>, r: int, c: int)
    requires
        shrinking(unit),
        0 <= r < grid.len(),
        0 <= c < grid[r].len(),
    ensures
        !corrected_grid(unit, grid)[r][c].overflows(),
{
    clamped_colour_fits(unit, grid[r][c].gamma_corrected(unit));
}

} // verus!
