//! Sprites as sets of coloured points: how a sprite is moved and how much
//! room it takes.

use crate::color_wrapper::ColorWrapper;
use crate::location::shifted;
use vstd::prelude::*;

verus! {

/// A coloured point of a sprite.
#[derive(Debug, Copy, Clone, PartialEq, Eq, Structural)]
pub struct Pixel {
    pub x: u32,
    pub y: u32,
    pub color: ColorWrapper,
}

impl Pixel {
    /// The point moved by the given amounts, each coordinate held at 0
    /// where it would turn negative.
    pub open spec fn moved(self, x_move: int, y_move: int) -> Pixel {
        Pixel {
            x: shifted(self.x as int, x_move) as u32,
            y: shifted(self.y as int, y_move) as u32,
            color: self.color,
        }
    }
}

/// Anything that can be drawn point by point.
pub trait PixelImage {
    /// The points to colour.
    fn pixels(&self) -> Vec<Pixel>;
}

/// Whether `points` are points that `image` hands out when it is asked for
/// its pixels.
pub open spec fn shows<T: PixelImage>(image: &T, points: Seq<Pixel>) -> bool {
    exists|pixels: Vec<Pixel>| call_ensures(T::pixels, (image,), pixels) && pixels@ == points
}

/// Whether every one of `pixels` can be moved by `xy_move` towards growing
/// coordinates without leaving what a coordinate can express.
pub open spec fn can_move(pixels: Seq<Pixel>, xy_move: (u32, u32)) -> bool {
    forall|i: int|
        0 <= i < pixels.len() ==> (#[trigger] pixels[i]).x + xy_move.0 <= u32::MAX && pixels[i].y
            + xy_move.1 <= u32::MAX
}

/// Whether every one of `pixels` can be moved by `xy_move` towards growing
/// coordinates without leaving what a coordinate can express.
pub fn fits_moved(pixels: &Vec<Pixel>, xy_move: (u32, u32)) -> (fits: bool)
    ensures
        fits == can_move(pixels@, xy_move),
{
    let mut i: usize = 0;
    while i < pixels.len()
        invariant
            i <= pixels.len(),
            forall|k: int|
                0 <= k < i ==> (#[trigger] pixels@[k]).x + xy_move.0 <= u32::MAX && pixels@[k].y
                    + xy_move.1 <= u32::MAX,
        decreases pixels.len() - i,
    {
        let pixel = pixels[i];
        if pixel.x > u32::MAX - xy_move.0 || pixel.y > u32::MAX - xy_move.1 {
            assert(!(pixels@[i as int].x + xy_move.0 <= u32::MAX && pixels@[i as int].y + xy_move.1
                <= u32::MAX));
            return false;
        }
        i = i + 1;
    }
    true
}

/// The given points, each moved by `xy_move` towards growing coordinates.
pub fn move_pixels(pixels: Vec<Pixel>, xy_move: (u32, u32)) -> (moved: Vec<Pixel>)
    requires
        can_move(pixels@, xy_move),
    ensures
        moved.len() == pixels.len(),
        forall|i: int|
            0 <= i < pixels.len() ==> #[trigger] moved[i] == (Pixel {
                x: (pixels[i].x + xy_move.0) as u32,
                y: (pixels[i].y + xy_move.1) as u32,
                color: pixels[i].color,
            }),
{
    let mut moved = pixels;
    let mut i: usize = 0;
    while i < moved.len()
        invariant
            can_move(pixels@, xy_move),
            i <= moved.len(),
            moved.len() == pixels.len(),
            forall|k: int|
                0 <= k < i ==> #[trigger] moved[k] == (Pixel {
                    x: (pixels[k].x + xy_move.0) as u32,
                    y: (pixels[k].y + xy_move.1) as u32,
                    color: pixels[k].color,
                }),
            forall|k: int| i <= k < pixels.len() ==> #[trigger] moved[k] == pixels[k],
        decreases moved.len() - i,
    {
        let pixel = moved[i];
        assert(pixel == pixels[i as int]);
        moved.set(i, Pixel { x: pixel.x + xy_move.0, y: pixel.y + xy_move.1, color: pixel.color });
        i = i + 1;
    }
    moved
}

/// Whether `moved` is what moving `points` by `xy_move` towards growing
/// coordinates gives: the points, each moved and in the same order, if every
/// one of them can be moved, and `None` if a point would leave what a
/// coordinate can express.
pub open spec fn is_moved(
    points: Seq<Pixel>,
    xy_move: (u32, u32),
    moved: Option<Vec<Pixel>>,
) -> bool {
    &&& moved is Some <==> can_move(points, xy_move)
    &&& moved is Some ==> {
        &&& moved->Some_0.len() == points.len()
        &&& forall|i: int|
            0 <= i < points.len() ==> #[trigger] moved->Some_0[i] == (Pixel {
                x: (points[i].x + xy_move.0) as u32,
                y: (points[i].y + xy_move.1) as u32,
                color: points[i].color,
            })
    }
}

/// The given points, each moved by `xy_move` towards growing coordinates;
/// `None` if a point would leave what a coordinate can express.
pub fn try_move_pixels(pixels: Vec<Pixel>, xy_move: (u32, u32)) -> (moved: Option<Vec<Pixel>>)
    ensures
        is_moved(pixels@, xy_move, moved),
{
    if fits_moved(&pixels, xy_move) {
        Some(move_pixels(pixels, xy_move))
    } else {
        None
    }
}

/// The points that `image` hands out, each moved by `xy_move` towards
/// growing coordinates; `None` if and only if one of them would leave what
/// a coordinate can express.
pub fn move_pixel_image<T: PixelImage>(image: &T, xy_move: (u32, u32)) -> (moved: Option<
    Vec<Pixel>,
>)
    ensures
        exists|points: Seq<Pixel>| shows(image, points) && is_moved(points, xy_move, moved),
{
    let pixels = image.pixels();
    let ghost points = pixels@;
    assert(call_ensures(T::pixels, (image,), pixels));
    let moved = try_move_pixels(pixels, xy_move);
    assert(shows(image, points) && is_moved(points, xy_move, moved));
    moved
}

/// Whether `low` is the least and `high` the greatest column among
/// `pixels`.
pub open spec fn spans_columns(pixels: Seq<Pixel>, low: int, high: int) -> bool {
    &&& exists|i: int| 0 <= i < pixels.len() && pixels[i].x == low
    &&& exists|i: int| 0 <= i < pixels.len() && pixels[i].x == high
    &&& forall|i: int| 0 <= i < pixels.len() ==> low <= #[trigger] pixels[i].x <= high
}

/// Whether `low` is the least and `high` the greatest row among `pixels`.
pub open spec fn spans_rows(pixels: Seq<Pixel>, low: int, high: int) -> bool {
    &&& exists|i: int| 0 <= i < pixels.len() && pixels[i].y == low
    &&& exists|i: int| 0 <= i < pixels.len() && pixels[i].y == high
    &&& forall|i: int| 0 <= i < pixels.len() ==> low <= #[trigger] pixels[i].y <= high
}

/// Whether a sprite is `width` wide and `height` high: nothing for no
/// points, and else the number of columns and of rows from the first to
/// the last that holds a point.
pub open spec fn has_dimensions(pixels: Seq<Pixel>, width: int, height: int) -> bool {
    if pixels.len() == 0 {
        width == 0 && height == 0
    } else {
        &&& exists|low: int, high: int|
            spans_columns(pixels, low, high) && width == high - low + 1
        &&& exists|low: int, high: int| spans_rows(pixels, low, high) && height == high - low + 1
    }
}

/// Whether the width and the height of a sprite can be expressed: its
/// points do not span the whole range of a coordinate.
pub open spec fn dimensions_fit(pixels: Seq<Pixel>) -> bool {
    forall|i: int, j: int|
        #![trigger pixels[i], pixels[j]]
        0 <= i < pixels.len() && 0 <= j < pixels.len() ==> pixels[i].x - pixels[j].x < u32::MAX
            && pixels[i].y - pixels[j].y < u32::MAX
}

/// A sprite: the points to colour.
#[derive(Debug, PartialEq)]
pub struct PixelVectorShape(Vec<Pixel>);

impl View for PixelVectorShape {
    type V = Seq<Pixel>;

    closed spec fn view(&self) -> Seq<Pixel> {
        self.0@
    }
}

impl Clone for PixelVectorShape {
    fn clone(&self) -> (copy: PixelVectorShape)
        ensures
            copy@ == self@,
    {
        let mut pixels: Vec<Pixel> = Vec::new();
        let mut i: usize = 0;
        while i < self.0.len()
            invariant
                i <= self.0.len(),
                pixels@ == self@.take(i as int),
            decreases self.0.len() - i,
        {
            pixels.push(self.0[i]);
            assert(self@.take(i + 1) == self@.take(i as int).push(self@[i as int]));
            i = i + 1;
        }
        assert(self@.take(self@.len() as int) == self@);
        PixelVectorShape(pixels)
    }
}

impl PixelImage for PixelVectorShape {
    fn pixels(&self) -> (pixels: Vec<Pixel>)
        ensures
            pixels@ == self@,
    {
        self.clone().0
    }
}

impl PixelVectorShape {
    pub fn new(vector: Vec<Pixel>) -> (shape: PixelVectorShape)
        ensures
            shape@ == vector@,
    {
        PixelVectorShape(vector)
    }

    /// The sprite that draws `pixel_image`: it holds the points that the
    /// image hands out, in their order.
    pub fn from_pixel_image<T: PixelImage>(pixel_image: &T) -> (shape: PixelVectorShape)
        ensures
            shows(pixel_image, shape@),
    {
        let pixels = pixel_image.pixels();
        assert(call_ensures(T::pixels, (pixel_image,), pixels));
        PixelVectorShape(pixels)
    }

    /// The points of the sprite, in place.
    pub fn as_pixels(&self) -> (pixels: &Vec<Pixel>)
        ensures
            pixels@ == self@,
    {
        &self.0
    }

    /// Whether the sprite can be moved by the given amounts without a
    /// coordinate leaving what it can express.
    pub open spec fn can_translate(self, x_move: int, y_move: int) -> bool {
        forall|i: int|
            0 <= i < self@.len() ==> (#[trigger] self@[i]).x + x_move <= u32::MAX && self@[i].y
                + y_move <= u32::MAX
    }

    /// Whether the sprite can be moved by the given amounts without a
    /// coordinate leaving what it can express.
    pub fn fits_translated(&self, x_move: i32, y_move: i32) -> (fits: bool)
        ensures
            fits == self.can_translate(x_move as int, y_move as int),
    {
        let mut i: usize = 0;
        while i < self.0.len()
            invariant
                i <= self.0.len(),
                forall|k: int|
                    0 <= k < i ==> (#[trigger] self@[k]).x + x_move <= u32::MAX && self@[k].y
                        + y_move <= u32::MAX,
            decreases self.0.len() - i,
        {
            let pixel = self.0[i];
            if pixel.x as i64 + x_move as i64 > u32::MAX as i64 || pixel.y as i64 + y_move as i64
                > u32::MAX as i64 {
                assert(!(self@[i as int].x + x_move <= u32::MAX && self@[i as int].y + y_move
                    <= u32::MAX));
                return false;
            }
            i = i + 1;
        }
        true
    }

    /// Moves the sprite along both axes. A coordinate that would turn
    /// negative is set to 0.
    pub fn translate(self, x_move: i32, y_move: i32) -> (moved: PixelVectorShape)
        requires
            self.can_translate(x_move as int, y_move as int),
        ensures
            moved@.len() == self@.len(),
            forall|i: int|
                0 <= i < self@.len() ==> #[trigger] moved@[i] == self@[i].moved(
                    x_move as int,
                    y_move as int,
                ),
    {
        let mut shape = self;
        let ghost before = shape@;
        let mut i: usize = 0;
        while i < shape.0.len()
            invariant
                before == self@,
                self.can_translate(x_move as int, y_move as int),
                i <= shape.0.len(),
                shape@.len() == before.len(),
                forall|k: int|
                    0 <= k < i ==> #[trigger] shape@[k] == before[k].moved(
                        x_move as int,
                        y_move as int,
                    ),
                forall|k: int| i <= k < before.len() ==> #[trigger] shape@[k] == before[k],
            decreases shape.0.len() - i,
        {
            let pixel = shape.0[i];
            assert(pixel == before[i as int]);
            let new_x: i64 = pixel.x as i64 + x_move as i64;
            let new_y: i64 = pixel.y as i64 + y_move as i64;
            let moved = Pixel {
                x: if new_x < 0 {
                    0
                } else {
                    new_x as u32
                },
                y: if new_y < 0 {
                    0
                } else {
                    new_y as u32
                },
                color: pixel.color,
            };
            shape.0.set(i, moved);
            i = i + 1;
        }
        shape
    }

    /// The lesser of what was seen so far and `new_pos`.
    fn check_min(previous_min: &mut Option<u32>, new_pos: u32)
        ensures
            *final(previous_min) == Some(
                match *old(previous_min) {
                    Some(pos) => if new_pos < pos {
                        new_pos
                    } else {
                        pos
                    },
                    None => new_pos,
                },
            ),
    {
        if let Some(pos) = *previous_min {
            if new_pos < pos {
                *previous_min = Some(new_pos);
            }
        } else {
            *previous_min = Some(new_pos);
        }
    }

    /// The greater of what was seen so far and `new_pos`.
    fn check_max(previous_max: &mut Option<u32>, new_pos: u32)
        ensures
            *final(previous_max) == Some(
                match *old(previous_max) {
                    Some(pos) => if new_pos > pos {
                        new_pos
                    } else {
                        pos
                    },
                    None => new_pos,
                },
            ),
    {
        if let Some(pos) = *previous_max {
            if new_pos > pos {
                *previous_max = Some(new_pos);
            }
        } else {
            *previous_max = Some(new_pos);
        }
    }

    /// The least and the greatest column and the least and the greatest
    /// row that hold a point, if there is any point.
    fn extremes(&self) -> (found: Option<(u32, u32, u32, u32)>)
        ensures
            match found {
                Some((min_x, max_x, min_y, max_y)) => {
                    &&& self@.len() > 0
                    &&& spans_columns(self@, min_x as int, max_x as int)
                    &&& spans_rows(self@, min_y as int, max_y as int)
                },
                None => self@.len() == 0,
            },
    {
        let mut min_x_pos: Option<u32> = None;
        let mut max_x_pos: Option<u32> = None;
        let mut min_y_pos: Option<u32> = None;
        let mut max_y_pos: Option<u32> = None;
        let ghost mut at: (int, int, int, int) = (0, 0, 0, 0);
        let mut i: usize = 0;
        while i < self.0.len()
            invariant
                i <= self.0.len(),
                i == 0 ==> min_x_pos is None && max_x_pos is None && min_y_pos is None
                    && max_y_pos is None,
                i > 0 ==> {
                    &&& min_x_pos is Some && max_x_pos is Some && min_y_pos is Some
                        && max_y_pos is Some
                    &&& 0 <= at.0 < i && self@[at.0].x == min_x_pos->Some_0
                    &&& 0 <= at.1 < i && self@[at.1].x == max_x_pos->Some_0
                    &&& 0 <= at.2 < i && self@[at.2].y == min_y_pos->Some_0
                    &&& 0 <= at.3 < i && self@[at.3].y == max_y_pos->Some_0
                    &&& forall|k: int|
                        0 <= k < i ==> min_x_pos->Some_0 <= (#[trigger] self@[k]).x
                            <= max_x_pos->Some_0 && min_y_pos->Some_0 <= self@[k].y
                            <= max_y_pos->Some_0
                },
            decreases self.0.len() - i,
        {
            let pixel = self.0[i];
            proof {
                at = (
                    if i == 0 || pixel.x < min_x_pos->Some_0 {
                        i as int
                    } else {
                        at.0
                    },
                    if i == 0 || pixel.x > max_x_pos->Some_0 {
                        i as int
                    } else {
                        at.1
                    },
                    if i == 0 || pixel.y < min_y_pos->Some_0 {
                        i as int
                    } else {
                        at.2
                    },
                    if i == 0 || pixel.y > max_y_pos->Some_0 {
                        i as int
                    } else {
                        at.3
                    },
                );
            }
            Self::check_min(&mut min_x_pos, pixel.x);
            Self::check_max(&mut max_x_pos, pixel.x);
            Self::check_min(&mut min_y_pos, pixel.y);
            Self::check_max(&mut max_y_pos, pixel.y);
            i = i + 1;
        }
        match (min_x_pos, max_x_pos, min_y_pos, max_y_pos) {
            (Some(min_x), Some(max_x), Some(min_y), Some(max_y)) => {
                proof {
                    assert(self@[at.0].x == min_x && self@[at.1].x == max_x);
                    assert(self@[at.2].y == min_y && self@[at.3].y == max_y);
                }
                Some((min_x, max_x, min_y, max_y))
            },
            _ => None,
        }
    }

    /// Whether the width and the height of the sprite can be expressed.
    pub fn has_expressible_dimensions(&self) -> (fits: bool)
        ensures
            fits == dimensions_fit(self@),
    {
        match self.extremes() {
            Some((min_x, max_x, min_y, max_y)) => {
                let fits = max_x - min_x < u32::MAX && max_y - min_y < u32::MAX;
                proof {
                    let left = choose|i: int| 0 <= i < self@.len() && self@[i].x == min_x;
                    let right = choose|i: int| 0 <= i < self@.len() && self@[i].x == max_x;
                    let low = choose|i: int| 0 <= i < self@.len() && self@[i].y == min_y;
                    let high = choose|i: int| 0 <= i < self@.len() && self@[i].y == max_y;
                    if !fits {
                        assert(!(self@[right].x - self@[left].x < u32::MAX) || !(self@[high].y
                            - self@[low].y < u32::MAX));
                    }
                }
                fits
            },
            None => true,
        }
    }

    /// The width and the height of the sprite: the number of columns and
    /// of rows from the first to the last that holds a point, and `(0, 0)`
    /// for a sprite without points.
    pub fn get_dimensions(&self) -> (dimensions: (u32, u32))
        requires
            dimensions_fit(self@),
        ensures
            has_dimensions(self@, dimensions.0 as int, dimensions.1 as int),
            self@.len() == 0 <==> dimensions.0 == 0,
            self@.len() == 0 <==> dimensions.1 == 0,
    {
        match self.extremes() {
            Some((min_x, max_x, min_y, max_y)) => {
                proof {
                    let left = choose|i: int| 0 <= i < self@.len() && self@[i].x == min_x;
                    let right = choose|i: int| 0 <= i < self@.len() && self@[i].x == max_x;
                    let low = choose|i: int| 0 <= i < self@.len() && self@[i].y == min_y;
                    let high = choose|i: int| 0 <= i < self@.len() && self@[i].y == max_y;
                    assert(self@[right].x - self@[left].x < u32::MAX);
                    assert(self@[high].y - self@[low].y < u32::MAX);
                }
                // One more than the difference: a single point is one wide.
                (max_x - min_x + 1, max_y - min_y + 1)
            },
            None => (0, 0),
        }
    }
}

} // verus!
