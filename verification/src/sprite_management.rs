//! From picture files to sprites: decoding, finding the black points, and
//! colouring them.

use crate::color_wrapper::ColorWrapper;
use crate::sprite::Pixel;
use vstd::prelude::*;

verus! {

/// The brightness that counts as black.
pub const BLACK: u8 = 0;

/// Why a picture gave no sprite.
#[derive(Debug, Copy, Clone, PartialEq, Eq, Structural)]
pub enum SpriteError {
    /// The bytes are no PNG picture that can be decoded.
    Undecodable,
    /// The picture has more points than can be counted.
    TooLarge,
    /// The picture holds fewer points than its width and height ask for.
    Malformed,
}

/// A decoded picture: its width, its height, and the brightness of its
/// points row by row, the top row first.
#[derive(Debug)]
pub struct LumaImage {
    pub width: u32,
    pub height: u32,
    pub pixels: Vec<u8>,
}

/// The width, the height and the brightness values that `image_bytes` give
/// when they are decoded as a PNG picture and the picture is read as
/// brightness, or `None` where they are no PNG picture that can be decoded.
/// The name stands for the PNG decoder of the `image` crate followed by
/// `image::DynamicImage::to_luma8`. What that gives is not stated here; it
/// depends on the bytes alone.
pub uninterp spec fn decoded_luma(image_bytes: Seq<u8>) -> Option<(u32, u32, Seq<u8>)>;

/// The brightness values of a picture of the given width and height with
/// the order of its rows turned round: the bottom row first.
pub open spec fn flipped(pixels: Seq<u8>, width: int, height: int) -> Seq<u8> {
    Seq::new(
        (width * height) as nat,
        |i: int| pixels[(height - 1 - i / width) * width + i % width],
    )
}

/// Decodes a PNG picture and reads it as brightness values.
///
/// Trusted: the body calls `image::load_from_memory_with_format` with the
/// format fixed to `image::ImageFormat::Png`, and reads what it returns
/// with `image::DynamicImage::to_luma8`, whose width, height and raw buffer
/// it hands on. With the format fixed, the call goes straight to the PNG
/// decoder and consults nothing that a program can register while it runs.
/// The contract claims only that the outcome is a function of the bytes,
/// which it calls [`decoded_luma`]: `None` where the call reports an error.
#[verifier::external_body]
fn decode_luma(image_bytes: &[u8]) -> (decoded: Option<LumaImage>)
    ensures
        match decoded {
            Some(image) => decoded_luma(image_bytes@) == Some(
                (image.width, image.height, image.pixels@),
            ),
            None => decoded_luma(image_bytes@) is None,
        },
{
    match image::load_from_memory_with_format(image_bytes, image::ImageFormat::Png) {
        Ok(picture) => {
            let luma = picture.to_luma8();
            Some(LumaImage { width: luma.width(), height: luma.height(), pixels: luma.into_raw() })
        },
        Err(_) => None,
    }
}

/// Turns the order of the rows of a picture round.
///
/// Trusted: the body calls `image::imageops::flip_vertical` on the picture
/// that `image::ImageBuffer::from_raw` makes of the arguments, and hands on
/// the raw buffer of the result. The contract claims what the source of
/// `flip_vertical` shows: the result holds one value for each point, and
/// the point in column `x` of row `y` is the point that stood in column `x`
/// of the row `y` from the bottom. A buffer that holds fewer values than
/// there are points, which `from_raw` refuses, is left out.
#[verifier::external_body]
fn flip_rows(width: u32, height: u32, pixels: Vec<u8>) -> (turned: Vec<u8>)
    requires
        width * height <= pixels.len(),
    ensures
        turned@ == flipped(pixels@, width as int, height as int),
{
    let picture = image::GrayImage::from_raw(width, height, pixels).unwrap();
    image::imageops::flip_vertical(&picture).into_raw()
}

/// The column and the row of the point that stands at `pixel_index` when
/// the points of an image `width` wide are counted row by row.
pub open spec fn spec_pixel_coordinates(pixel_index: int, width: int) -> (u32, u32) {
    ((pixel_index % width) as u32, (pixel_index / width) as u32)
}

/// The column and the row of the point that stands at `pixel_index` when
/// the points of an image of the given width and height are counted row by
/// row. The index is taken modulo 2^32.
pub fn get_pixel_coordinates(pixel_index: usize, img_dimensions: (u32, u32)) -> (cords: (u32, u32))
    requires
        img_dimensions.0 > 0,
    ensures
        cords == spec_pixel_coordinates((pixel_index as u32) as int, img_dimensions.0 as int),
        cords.0 < img_dimensions.0,
        cords.1 * img_dimensions.0 + cords.0 == pixel_index as u32,
{
    let pixel_index: u32 = #[verifier::truncate]
    (pixel_index as u32);
    let y_cord = pixel_index / img_dimensions.0;
    let x_cord = pixel_index % img_dimensions.0;
    assert(y_cord * img_dimensions.0 + x_cord == pixel_index) by (nonlinear_arith)
        requires
            img_dimensions.0 > 0,
            y_cord == pixel_index / img_dimensions.0,
            x_cord == pixel_index % img_dimensions.0,
    ;
    (x_cord, y_cord)
}

/// The places of the black points among the first `upto` of `luma`, the
/// brightness of an image `width` wide given row by row, in the order in
/// which they occur.
pub open spec fn black_among(luma: Seq<u8>, width: int, upto: int) -> Seq<(u32, u32)>
    decreases upto,
{
    if upto <= 0 {
        Seq::empty()
    } else if luma[upto - 1] == BLACK {
        black_among(luma, width, upto - 1).push(spec_pixel_coordinates(upto - 1, width))
    } else {
        black_among(luma, width, upto - 1)
    }
}

/// The places of the black points of an image, in the order in which they
/// occur when the image is read row by row. `luma` holds the brightness of
/// each point of an image `width` wide.
pub fn black_pixel_coordinates(luma: &Vec<u8>, width: u32) -> (cords: Vec<(u32, u32)>)
    requires
        width > 0,
        luma.len() <= u32::MAX,
    ensures
        cords@ == black_among(luma@, width as int, luma.len() as int),
{
    let mut buffer: Vec<(u32, u32)> = Vec::new();
    let mut pixel_index: usize = 0;
    while pixel_index < luma.len()
        invariant
            width > 0,
            luma.len() <= u32::MAX,
            pixel_index <= luma.len(),
            buffer@ == black_among(luma@, width as int, pixel_index as int),
        decreases luma.len() - pixel_index,
    {
        if luma[pixel_index] == BLACK {
            let cords = get_pixel_coordinates(pixel_index, (width, 0));
            buffer.push(cords);
        }
        pixel_index = pixel_index + 1;
    }
    buffer
}

/// The sprite whose points lie at `cords`, all in one colour.
pub fn colored_pixels(cords: &Vec<(u32, u32)>, color: ColorWrapper) -> (pixels: Vec<Pixel>)
    ensures
        pixels.len() == cords.len(),
        forall|i: int|
            0 <= i < cords.len() ==> #[trigger] pixels[i] == (Pixel {
                x: cords[i].0,
                y: cords[i].1,
                color,
            }),
{
    let mut pixels: Vec<Pixel> = Vec::new();
    let mut i: usize = 0;
    while i < cords.len()
        invariant
            i <= cords.len(),
            pixels.len() == i,
            forall|k: int|
                0 <= k < i ==> #[trigger] pixels[k] == (Pixel {
                    x: cords[k].0,
                    y: cords[k].1,
                    color,
                }),
        decreases cords.len() - i,
    {
        pixels.push(Pixel { x: cords[i].0, y: cords[i].1, color });
        i = i + 1;
    }
    pixels
}

/// The sprite that the black points at `cords` make in `color`.
pub open spec fn colored(cords: Seq<(u32, u32)>, color: ColorWrapper) -> Seq<Pixel> {
    Seq::new(cords.len(), |i: int| Pixel { x: cords[i].0, y: cords[i].1, color })
}

/// The places of the black points of a decoded picture, or why there are
/// none to be had. The rows are turned round first, since the rows of the
/// drawing surface are counted from the bottom; then the black points are
/// listed in the order of reading.
pub open spec fn black_points_of(width: u32, height: u32, pixels: Seq<u8>) -> Result<
    Seq<(u32, u32)>,
    SpriteError,
> {
    if width * height > u32::MAX {
        Err(SpriteError::TooLarge)
    } else if pixels.len() < width * height {
        Err(SpriteError::Malformed)
    } else if width == 0 {
        Ok(Seq::empty())
    } else {
        Ok(
            black_among(
                flipped(pixels, width as int, height as int),
                width as int,
                width * height,
            ),
        )
    }
}

/// The sprite that a decoded picture gives in `color`, or why it gives
/// none: its black points, each in that colour.
pub open spec fn sprite_of(
    width: u32,
    height: u32,
    pixels: Seq<u8>,
    color: ColorWrapper,
) -> Result<Seq<Pixel>, SpriteError> {
    match black_points_of(width, height, pixels) {
        Ok(cords) => Ok(colored(cords, color)),
        Err(error) => Err(error),
    }
}

/// The sprite that a picture gives in `color`, where `decoded` is what
/// decoding its bytes gave.
pub open spec fn loaded(decoded: Option<(u32, u32, Seq<u8>)>, color: ColorWrapper) -> Result<
    Seq<Pixel>,
    SpriteError,
> {
    match decoded {
        Some((width, height, pixels)) => sprite_of(width, height, pixels, color),
        None => Err(SpriteError::Undecodable),
    }
}

/// Whether `outcome` is `expected`, sprite for sprite and error for error.
pub open spec fn gives(outcome: Result<Vec<Pixel>, SpriteError>, expected: Result<
    Seq<Pixel>,
    SpriteError,
>) -> bool {
    match outcome {
        Ok(pixels) => expected == Ok::<Seq<Pixel>, SpriteError>(pixels@),
        Err(error) => expected == Err::<Seq<Pixel>, SpriteError>(error),
    }
}

/// The places of the black points of a decoded picture, after the order of
/// its rows was turned round, or why there are none to be had.
pub fn get_black_pixel_coordinates(image: LumaImage) -> (cords: Result<
    Vec<(u32, u32)>,
    SpriteError,
>)
    ensures
        match cords {
            Ok(found) => black_points_of(image.width, image.height, image.pixels@) == Ok::<
                Seq<(u32, u32)>,
                SpriteError,
            >(found@),
            Err(error) => black_points_of(image.width, image.height, image.pixels@) == Err::<
                Seq<(u32, u32)>,
                SpriteError,
            >(error),
        },
{
    assert(image.width * image.height <= 0xffff_ffff * 0xffff_ffff) by (nonlinear_arith)
        requires
            0 <= image.width <= 0xffff_ffff,
            0 <= image.height <= 0xffff_ffff,
    ;
    let points: u64 = image.width as u64 * image.height as u64;
    if points > u32::MAX as u64 {
        return Err(SpriteError::TooLarge);
    }
    if (image.pixels.len() as u64) < points {
        return Err(SpriteError::Malformed);
    }
    if image.width == 0 {
        return Ok(Vec::new());
    }
    let width = image.width;
    let turned = flip_rows(image.width, image.height, image.pixels);
    Ok(black_pixel_coordinates(&turned, width))
}

/// The sprite that a decoded picture gives in `color`, or why it gives
/// none.
pub fn sprite_from_luma(image: LumaImage, color: ColorWrapper) -> (pixels: Result<
    Vec<Pixel>,
    SpriteError,
>)
    ensures
        gives(pixels, sprite_of(image.width, image.height, image.pixels@, color)),
{
    match get_black_pixel_coordinates(image) {
        Ok(cords) => {
            let pixels = colored_pixels(&cords, color);
            assert(pixels@ =~= colored(cords@, color));
            Ok(pixels)
        },
        Err(error) => Err(error),
    }
}

/// The sprite that the PNG picture in `image_bytes` gives in `color`: its
/// black points, with the rows counted from the bottom. Bytes that are no
/// PNG picture that can be decoded give no sprite.
pub fn load_sprite(image_bytes: &[u8], color: ColorWrapper) -> (pixels: Result<
    Vec<Pixel>,
    SpriteError,
>)
    ensures
        gives(pixels, loaded(decoded_luma(image_bytes@), color)),
{
    match decode_luma(image_bytes) {
        Some(image) => sprite_from_luma(image, color),
        None => Err(SpriteError::Undecodable),
    }
}

} // verus!
