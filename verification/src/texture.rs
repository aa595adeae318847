//! Decoding an image file into a texture.
//!
//! An image file stores its rows from the top down; texture coordinates
//! count from the bottom up. A texture is therefore the decoded image with
//! its rows in reverse order, each pixel as four bytes: red, green, blue,
//! alpha.
//!
//! Decoding itself is the work of the `image` crate and is not verified
//! here. What is verified is everything around it: what becomes of each
//! outcome of the decoder, that the decoded buffer has the size its
//! dimensions call for, and the reversal of the rows.

use vstd::prelude::*;
use vstd::arithmetic::div_mod::lemma_fundamental_div_mod_converse;

verus! {

/// Bytes per pixel.
pub const PIXEL_BYTES: usize = 4;

/// A texture: rows from the bottom up, four bytes per pixel.
#[derive(Debug, PartialEq, Eq)]
pub struct TextureData {
    width: u32,
    height: u32,
    img: Vec<u8>,
}

/// What a texture is, as mathematics.
pub struct TextureView {
    pub width: nat,
    pub height: nat,
    pub pixels: Seq<u8>,
}

/// Why an image file did not become a texture.
#[derive(Debug, PartialEq, Eq)]
pub enum TextureError {
    /// The file's extension stands for no image format.
    UnsupportedFormat,
    /// The decoder rejected the file; `message` is its diagnostic.
    Decode { message: String },
    /// The pixel buffer does not hold four bytes for each pixel.
    SizeMismatch,
}

/// An image as it comes out of the decoder: rows from the top down, four
/// bytes per pixel.
struct DecodedImage {
    width: u32,
    height: u32,
    pixels: Vec<u8>,
}

/// `image::ImageError`, what the decoders of the `image` crate fail with.
/// Nothing is known of its inside here; it is only turned into text.
#[verifier::external_type_specification]
#[verifier::external_body]
pub struct ExImageError(image::ImageError);

/// A character with the upper-case letters of ASCII turned into lower case.
pub open spec fn ascii_lowercase(c: char) -> char {
    if 'A' <= c && c <= 'Z' {
        ((c as u8) + 32) as char
    } else {
        c
    }
}

/// Whether a file extension (without its dot) stands for an image format,
/// whatever the case of its letters.
pub open spec fn known_extension(extension: Seq<char>) -> bool {
    let lower = extension.map_values(|c: char| ascii_lowercase(c));
    ||| lower == "avif"@
    ||| lower == "jpg"@
    ||| lower == "jpeg"@
    ||| lower == "jfif"@
    ||| lower == "png"@
    ||| lower == "apng"@
    ||| lower == "gif"@
    ||| lower == "webp"@
    ||| lower == "tif"@
    ||| lower == "tiff"@
    ||| lower == "tga"@
    ||| lower == "dds"@
    ||| lower == "bmp"@
    ||| lower == "ico"@
    ||| lower == "hdr"@
    ||| lower == "exr"@
    ||| lower == "pbm"@
    ||| lower == "pam"@
    ||| lower == "ppm"@
    ||| lower == "pgm"@
    ||| lower == "pnm"@
    ||| lower == "ff"@
    ||| lower == "qoi"@
}

/// A name for what the `image` crate makes of a file: the image that its
/// decoder for the format of `extension` reads from `bytes`, converted to
/// four 8-bit channels, as width, height and the pixel bytes with the rows
/// from the top down; `None` where the decoder rejects the bytes. Nothing
/// more is known of it here than that it depends on `extension` and
/// `bytes` alone.
pub uninterp spec fn decoded_rgba8(extension: Seq<char>, bytes: Seq<u8>) -> Option<
    (u32, u32, Seq<u8>),
>;

/// `pixels`, taken as `rows` rows of `row` bytes, with the rows in reverse
/// order.
pub open spec fn flip_rows(pixels: Seq<u8>, row: nat, rows: nat) -> Seq<u8> {
    Seq::new(
        pixels.len(),
        |i: int|
            if row > 0 {
                pixels[(rows - 1 - i / (row as int)) * row + i % (row as int)]
            } else {
                pixels[i]
            },
    )
}

/// Decodes `bytes` with `image::load_from_memory_with_format`, in the
/// format that `image::ImageFormat::from_extension` finds for `extension`,
/// and turns the image into plain values with `DynamicImage::into_rgba8`,
/// `width`, `height` and `into_raw`. `None` where no format is found.
///
/// Not proved, but taken from the crate's source: `from_extension` turns
/// the extension into ASCII lower case and looks it up in the table that
/// `known_extension` repeats; and what the decoder returns depends on the
/// format and the bytes alone, which is what giving it the name
/// `decoded_rgba8` says. Nothing is claimed about the pixels or about the
/// size of the buffer.
#[verifier::external_body]
fn decode_rgba8(extension: &str, bytes: &[u8]) -> (r: Option<
    Result<DecodedImage, image::ImageError>,
>)
    ensures
        r.is_some() == known_extension(extension@),
        r matches Some(Ok(d)) ==> decoded_rgba8(extension@, bytes@) == Some(
            (d.width, d.height, d.pixels@),
        ),
        r matches Some(Err(_)) ==> decoded_rgba8(extension@, bytes@).is_none(),
{
    let format = image::ImageFormat::from_extension(extension)?;
    Some(
        image::load_from_memory_with_format(bytes, format).map(
            |image| {
                let rgba = image.into_rgba8();
                DecodedImage { width: rgba.width(), height: rgba.height(), pixels: rgba.into_raw() }
            },
        ),
    )
}

/// Formats an `image::ImageError` with its `Debug` impl. Nothing is
/// claimed about the text.
#[verifier::external_body]
fn describe(error: &image::ImageError) -> (text: String) {
    format!("{:?}", error)
}

/// Copies `pixels`, taken as `rows` rows of `row` bytes, with the last row
/// first.
fn flipped(pixels: &Vec<u8>, row: usize, rows: usize) -> (out: Vec<u8>)
    requires
        pixels@.len() == row * rows,
    ensures
        out@ == flip_rows(pixels@, row as nat, rows as nat),
{
    let mut out: Vec<u8> = Vec::with_capacity(pixels.len());
    if row == 0 {
        assert(pixels@.len() == 0) by (nonlinear_arith)
            requires
                pixels@.len() == row * rows,
                row == 0,
        ;
        return out;
    }
    let ghost goal = flip_rows(pixels@, row as nat, rows as nat);
    let mut done: usize = 0;
    while done < rows
        invariant
            row > 0,
            done <= rows,
            pixels@.len() == row * rows,
            pixels@.len() <= usize::MAX,
            goal == flip_rows(pixels@, row as nat, rows as nat),
            out@.len() == done * row,
            out@.len() <= goal.len(),
            forall|i: int| 0 <= i < out@.len() ==> out@[i] == goal[i],
        decreases rows - done,
    {
        let source: usize = rows - 1 - done;
        proof {
            assert(source * row + row <= row * rows && done * row + row <= row * rows) by (nonlinear_arith)
                requires
                    source + 1 <= rows,
                    done + 1 <= rows,
                    0 <= source,
                    0 <= done,
                    row > 0,
            ;
        }
        let start: usize = source * row;
        let mut c: usize = 0;
        while c < row
            invariant
                row > 0,
                c <= row,
                done < rows,
                source == rows - 1 - done,
                start == source * row,
                start + row <= pixels@.len(),
                done * row + row <= pixels@.len(),
                pixels@.len() == row * rows,
                pixels@.len() <= usize::MAX,
                goal == flip_rows(pixels@, row as nat, rows as nat),
                out@.len() == done * row + c,
                out@.len() <= goal.len(),
                forall|i: int| 0 <= i < out@.len() ==> out@[i] == goal[i],
            decreases row - c,
        {
            proof {
                let at = done * row + c;
                lemma_fundamental_div_mod_converse(at, row as int, done as int, c as int);
                assert(goal[at] == pixels@[(rows - 1 - done) * row + c]);
            }
            out.push(pixels[start + c]);
            c += 1;
        }
        proof {
            assert((done + 1) * row == done * row + row) by (nonlinear_arith);
        }
        done += 1;
    }
    proof {
        assert(out@.len() == pixels@.len()) by (nonlinear_arith)
            requires
                out@.len() == done * row,
                done == rows,
                pixels@.len() == row * rows,
        ;
        assert(out@ =~= goal);
    }
    out
}

impl View for TextureData {
    type V = TextureView;

    closed spec fn view(&self) -> TextureView {
        TextureView {
            width: self.width as nat,
            height: self.height as nat,
            pixels: self.img@,
        }
    }
}

impl TextureView {
    /// Whether there are four bytes for each pixel.
    pub open spec fn is_complete(self) -> bool {
        self.pixels.len() == 4 * self.width * self.height
    }

    /// The bytes of the pixel in column `x` of row `y`, rows counted from
    /// the bottom.
    pub open spec fn pixel(self, x: int, y: int) -> Seq<u8> {
        self.pixels.subrange(4 * (y * self.width + x), 4 * (y * self.width + x) + 4)
    }
}

impl TextureData {
    #[verifier::type_invariant]
    spec fn complete(self) -> bool {
        self.img@.len() == 4 * self.width * self.height
    }

    /// The texture of an image given with its rows from the top down, four
    /// bytes per pixel: the same pixels with the rows in reverse order.
    /// Refused where `pixels` does not hold exactly four bytes for each of
    /// the `width` times `height` pixels.
    pub fn from_top_down(width: u32, height: u32, pixels: Vec<u8>) -> (r: Result<
        TextureData,
        TextureError,
    >)
        ensures
            r.is_ok() == (pixels@.len() == 4 * width * height),
            r matches Ok(t) ==> t@ == (TextureView {
                width: width as nat,
                height: height as nat,
                pixels: flip_rows(pixels@, 4 * width as nat, height as nat),
            }) && t@.is_complete(),
            r matches Err(e) ==> e == TextureError::SizeMismatch,
    {
        assert(width * height <= 0xffff_ffff * 0xffff_ffff) by (nonlinear_arith)
            requires
                0 <= width <= 0xffff_ffff,
                0 <= height <= 0xffff_ffff,
        ;
        let area: u64 = width as u64 * height as u64;
        let expected: u128 = area as u128 * 4;
        assert(expected == 4 * width * height) by (nonlinear_arith)
            requires
                expected == area * 4,
                area == width * height,
        ;
        if pixels.len() as u128 != expected {
            return Err(TextureError::SizeMismatch);
        }
        if height == 0 {
            assert(pixels@.len() == 0) by (nonlinear_arith)
                requires
                    pixels@.len() == 4 * width * height,
                    height == 0,
            ;
            assert(pixels@ =~= flip_rows(pixels@, 4 * width as nat, height as nat));
            return Ok(TextureData { width, height, img: pixels });
        }
        assert(4 * width <= pixels@.len() && (4 * width) * height == 4 * width * height) by (nonlinear_arith)
            requires
                pixels@.len() == 4 * width * height,
                height >= 1,
        ;
        let row: usize = PIXEL_BYTES * (width as usize);
        let img = flipped(&pixels, row, height as usize);
        Ok(TextureData { width, height, img })
    }

    /// The number of pixels in a row.
    pub fn width(&self) -> (w: u32)
        ensures
            w == self@.width,
    {
        self.width
    }

    /// The number of rows.
    pub fn height(&self) -> (h: u32)
        ensures
            h == self@.height,
    {
        self.height
    }

    /// The pixel bytes, rows from the bottom up: four for each pixel.
    pub fn pixels(&self) -> (p: &Vec<u8>)
        ensures
            p@ == self@.pixels,
            self@.is_complete(),
    {
        proof {
            use_type_invariant(self);
        }
        &self.img
    }
}

/// Turns an image file into a texture.
///
/// `extension` is the extension of the file's name, without the dot, and
/// `bytes` is what the file holds. The extension decides the format; the
/// bytes are decoded in that format and converted to four 8-bit channels;
/// the rows are put in reverse order.
pub fn load_texture(extension: &str, bytes: &[u8]) -> (r: Result<TextureData, TextureError>)
    ensures
        outcome_matches(extension@, bytes@, r),
{
    match decode_rgba8(extension, bytes) {
        None => Err(TextureError::UnsupportedFormat),
        Some(Err(error)) => Err(TextureError::Decode { message: describe(&error) }),
        Some(Ok(decoded)) => TextureData::from_top_down(
            decoded.width,
            decoded.height,
            decoded.pixels,
        ),
    }
}

/// What [`load_texture`] owes for a file of the given extension and bytes:
/// which of its results comes on which inputs. An extension that stands
/// for no format is refused as such; bytes that the decoder rejects are a
/// decode error; a decoded image becomes the texture with its rows in
/// reverse order, unless its buffer has not the size that its dimensions
/// call for.
pub open spec fn outcome_matches(
    extension: Seq<char>,
    bytes: Seq<u8>,
    r: Result<TextureData, TextureError>,
) -> bool {
    if !known_extension(extension) {
        r == Err::<TextureData, TextureError>(TextureError::UnsupportedFormat)
    } else {
        match decoded_rgba8(extension, bytes) {
            None => r matches Err(TextureError::Decode { .. }),
            Some((width, height, pixels)) => if pixels.len() == 4 * width * height {
                r matches Ok(t) && t@ == (TextureView {
                    width: width as nat,
                    height: height as nat,
                    pixels: flip_rows(pixels, 4 * width as nat, height as nat),
                })
            } else {
                r == Err::<TextureData, TextureError>(TextureError::SizeMismatch)
            },
        }
    }
}

/// Row order is reversed and nothing else changes: byte `c` of row `r` of
/// the result is byte `c` of row `rows - 1 - r` of the source.
pub proof fn lemma_flip_reverses_rows(pixels: Seq<u8>, row: nat, rows: nat, r: int, c: int)
    requires
        pixels.len() == row * rows,
        0 <= r < rows,
        0 <= c < row,
    ensures
        0 <= r * row + c < pixels.len(),
        0 <= (rows - 1 - r) * row + c < pixels.len(),
        flip_rows(pixels, row, rows)[r * row + c] == pixels[(rows - 1 - r) * row + c],
{
    let at = r * row + c;
    lemma_fundamental_div_mod_converse(at, row as int, r, c);
    assert(0 <= r * row && r * row + row <= row * rows && 0 <= (rows - 1 - r) * row && (rows - 1
        - r) * row + row <= row * rows) by (nonlinear_arith)
        requires
            0 <= r < rows,
            row > 0,
    ;
}

/// Reversing the rows twice gives the image back.
pub proof fn lemma_flip_twice(pixels: Seq<u8>, row: nat, rows: nat)
    requires
        pixels.len() == row * rows,
    ensures
        flip_rows(flip_rows(pixels, row, rows), row, rows) == pixels,
{
    let once = flip_rows(pixels, row, rows);
    let twice = flip_rows(once, row, rows);
    assert forall|i: int| 0 <= i < pixels.len() implies twice[i] == pixels[i] by {
        if row > 0 {
            let r = i / (row as int);
            let c = i % (row as int);
            assert(i == r * row + c && 0 <= c < row) by (nonlinear_arith)
                requires
                    r == i / (row as int),
                    c == i % (row as int),
                    row > 0,
            ;
            assert(0 <= r < rows) by (nonlinear_arith)
                requires
                    i == r * row + c,
                    0 <= c < row,
                    0 <= i < row * rows,
            ;
            let back = rows - 1 - r;
            lemma_flip_reverses_rows(once, row, rows, r, c);
            lemma_flip_reverses_rows(pixels, row, rows, back, c);
        }
    }
    assert(twice =~= pixels);
}

/// The pixel in column `x` of row `y` of a texture, rows counted from the
/// bottom, is the pixel in column `x` of row `height - 1 - y` of the
/// image, rows counted from the top, with its four bytes as they were.
pub proof fn lemma_texture_pixel(pixels: Seq<u8>, width: nat, height: nat, x: int, y: int)
    requires
        pixels.len() == 4 * width * height,
        0 <= x < width,
        0 <= y < height,
    ensures
        ({
            let texture = TextureView {
                width,
                height,
                pixels: flip_rows(pixels, 4 * width, height),
            };
            let source = 4 * ((height - 1 - y) * width + x);
            &&& 0 <= source && source + 4 <= pixels.len()
            &&& texture.pixel(x, y) == pixels.subrange(source, source + 4)
        }),
{
    let row = 4 * width;
    let flipped = flip_rows(pixels, row, height);
    assert(pixels.len() == row * height) by (nonlinear_arith)
        requires
            pixels.len() == 4 * width * height,
            row == 4 * width,
    ;
    let target = 4 * (y * width + x);
    let source = 4 * ((height - 1 - y) * width + x);
    assert(target == y * row + 4 * x && source == (height - 1 - y) * row + 4 * x) by (nonlinear_arith)
        requires
            target == 4 * (y * width + x),
            source == 4 * ((height - 1 - y) * width + x),
            row == 4 * width,
    ;
    lemma_flip_reverses_rows(pixels, row, height, y, 4 * x);
    lemma_flip_reverses_rows(pixels, row, height, y, 4 * x + 1);
    lemma_flip_reverses_rows(pixels, row, height, y, 4 * x + 2);
    lemma_flip_reverses_rows(pixels, row, height, y, 4 * x + 3);
    assert(flipped.subrange(target, target + 4) =~= pixels.subrange(source, source + 4));
}

} // verus!
