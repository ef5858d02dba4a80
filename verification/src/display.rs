//! Projection of the interpreter's pixel grid onto a drawing surface.
//!
//! Lengths on the surface are kept exact: a scale factor is a whole number of
//! sixty-fourths, which represents every quotient of a surface width by the
//! grid's 64 columns and of a surface height by its 32 rows without rounding.

use vstd::prelude::*;

verus! {

/// Columns of the pixel grid.
pub const GRID_WIDTH: u32 = 64;

/// Rows of the pixel grid.
pub const GRID_HEIGHT: u32 = 32;

/// Surface units per grid cell, as the fraction `sixty_fourths / 64`.
#[derive(Clone, Copy, Debug, PartialEq, Eq, Structural)]
pub struct Scale {
    pub sixty_fourths: u32,
}

impl Scale {
    /// The length that `cells` grid cells cover on the surface, in
    /// sixty-fourths of a surface unit.
    pub open spec fn span(self, cells: int) -> int {
        cells * self.sixty_fourths
    }
}

/// The largest scale, in sixty-fourths, at which the whole grid fits a surface
/// of the given size: the smaller of `width / 64` and `height / 32`.
pub open spec fn fitting_sixty_fourths(width: int, height: int) -> int {
    if width <= 2 * height {
        width
    } else {
        2 * height
    }
}

/// The scale at which the grid fills a surface of `surface_w` by `surface_h`
/// units in one direction and fits it in the other, keeping cells square.
pub fn recompute(surface_w: u32, surface_h: u32) -> (scale: Scale)
    ensures
        scale.sixty_fourths == fitting_sixty_fourths(surface_w as int, surface_h as int),
        scale.span(GRID_WIDTH as int) <= 64 * surface_w,
        scale.span(GRID_HEIGHT as int) <= 64 * surface_h,
        scale.span(GRID_WIDTH as int) == 64 * surface_w || scale.span(GRID_HEIGHT as int) == 64
            * surface_h,
        surface_w > 0 && surface_h > 0 ==> scale.sixty_fourths > 0,
{
    if surface_w / 2 >= surface_h {
        // Here 2 * surface_h <= surface_w, so the doubled height fits the type.
        Scale { sixty_fourths: 2 * surface_h }
    } else {
        Scale { sixty_fourths: surface_w }
    }
}

/// One of the two colours of the display.
#[derive(Clone, Copy, Debug, PartialEq, Eq, Structural)]
pub enum Shade {
    /// The colour of a pixel that is not set, and of the background.
    Black,
    /// The colour of a set pixel.
    White,
}

/// A filled square on the surface: its corner nearest the origin and the
/// length of its side, all in sixty-fourths of a surface unit.
#[derive(Clone, Copy, Debug, PartialEq, Eq, Structural)]
pub struct Square {
    pub x: u64,
    pub y: u64,
    pub side: u64,
}

/// The square that the grid cell in column `x` and row `y` covers at `scale`.
pub open spec fn square_at(scale: Scale, x: u8, y: u8) -> Square {
    Square {
        x: (x * scale.sixty_fourths) as u64,
        y: (y * scale.sixty_fourths) as u64,
        side: scale.sixty_fourths as u64,
    }
}

/// At the scale computed for a surface, the square of every cell of the grid
/// lies within the surface.
pub proof fn lemma_grid_cells_lie_within_surface(surface_w: u32, surface_h: u32, x: u8, y: u8)
    requires
        x < GRID_WIDTH,
        y < GRID_HEIGHT,
    ensures
        ({
            let scale = Scale {
                sixty_fourths: fitting_sixty_fourths(surface_w as int, surface_h as int) as u32,
            };
            let sq = square_at(scale, x, y);
            sq.x + sq.side <= 64 * surface_w && sq.y + sq.side <= 64 * surface_h
        }),
{
    let n = fitting_sixty_fourths(surface_w as int, surface_h as int);
    assert(0 <= n <= surface_w && n <= 2 * surface_h);
    assert(x * n + n <= 64 * n) by (nonlinear_arith)
        requires
            0 <= x < 64,
            0 <= n,
    ;
    assert(y * n + n <= 32 * n) by (nonlinear_arith)
        requires
            0 <= y < 32,
            0 <= n,
    ;
    assert(0 <= x * n) by (nonlinear_arith)
        requires
            0 <= x,
            0 <= n,
    ;
    assert(0 <= y * n) by (nonlinear_arith)
        requires
            0 <= y,
            0 <= n,
    ;
}

/// What to paint for one frame: first the whole surface in `background`,
/// then every square in `foreground`.
#[derive(Debug, PartialEq, Eq)]
pub struct Picture {
    pub background: Shade,
    pub foreground: Shade,
    pub squares: Vec<Square>,
}

/// Holds the scale at which the grid is drawn, recomputed whenever the
/// surface changes size.
#[derive(Clone, Copy, Debug)]
pub struct DisplayProjector {
    scale: Scale,
}

impl View for DisplayProjector {
    type V = Scale;

    closed spec fn view(&self) -> Scale {
        self.scale
    }
}

impl DisplayProjector {
    /// A projector for a surface whose size is not known yet: it draws eight
    /// surface units per cell.
    pub fn new() -> (p: DisplayProjector)
        ensures
            p@.sixty_fourths == 8 * 64,
    {
        DisplayProjector { scale: Scale { sixty_fourths: 512 } }
    }

    /// The scale in use.
    pub fn scale(&self) -> (s: Scale)
        ensures
            s == self@,
    {
        self.scale
    }

    /// Adopts the scale that fits a surface of the given size.
    pub fn on_resize(&mut self, surface_w: u32, surface_h: u32)
        ensures
            final(self)@.sixty_fourths == fitting_sixty_fourths(surface_w as int, surface_h as int),
    {
        self.scale = recompute(surface_w, surface_h);
    }

    /// The picture of a frame whose set pixels are given by column and row:
    /// a black surface with one white square for each pixel, in the order
    /// given, placed at the pixel's column and row times the scale and as
    /// wide as one cell.
    pub fn render(&self, pixels: &Vec<(u8, u8)>) -> (picture: Picture)
        ensures
            picture.background == Shade::Black,
            picture.foreground == Shade::White,
            picture.squares@.len() == pixels@.len(),
            forall|i: int|
                0 <= i < pixels@.len() ==> picture.squares@[i] == square_at(
                    self@,
                    pixels@[i].0,
                    pixels@[i].1,
                ),
    {
        let side: u64 = self.scale.sixty_fourths as u64;
        let mut squares: Vec<Square> = Vec::new();
        let mut i: usize = 0;
        while i < pixels.len()
            invariant
                i <= pixels@.len(),
                side == self@.sixty_fourths,
                squares@.len() == i,
                forall|j: int|
                    0 <= j < i ==> squares@[j] == square_at(self@, pixels@[j].0, pixels@[j].1),
            decreases pixels@.len() - i,
        {
            let (x, y) = pixels[i];
            assert(x * side <= 255 * 0xFFFF_FFFF && y * side <= 255 * 0xFFFF_FFFF) by (nonlinear_arith)
                requires
                    0 <= x <= 255,
                    0 <= y <= 255,
                    0 <= side <= 0xFFFF_FFFF,
            ;
            squares.push(Square { x: x as u64 * side, y: y as u64 * side, side });
            i += 1;
        }
        Picture { background: Shade::Black, foreground: Shade::White, squares }
    }
}

} // verus!
