//! Turning a GPU readback of the scene into a screenshot: removing the row
//! padding of the readback buffer, cropping a centered region, and encoding
//! the pixels as PNG in base64.
use crate::text_util::concat_str;
use vstd::prelude::*;

verus! {

/// Bytes of one readback row: four bytes per pixel, rounded up to a
/// multiple of 256.
pub open spec fn padded_row_bytes(width: nat) -> nat {
    ((width * 4 + 255) / 256) * 256
}

/// The row pitch of a readback buffer for an image `width` pixels wide.
pub fn padded_bytes_per_row(width: u32) -> (r: u32)
    requires
        width * 4 + 255 <= u32::MAX,
    ensures
        r == padded_row_bytes(width as nat),
        width * 4 <= r < width * 4 + 256,
        r % 256 == 0,
{
    let r = ((width * 4 + 255) / 256) * 256;
    assert(((width * 4 + 255) / 256) * 256 <= width * 4 + 255) by (nonlinear_arith);
    assert(((width * 4 + 255) / 256) * 256 > width * 4 + 255 - 256) by (nonlinear_arith);
    assert((((width * 4 + 255) / 256) * 256) % 256 == 0) by (nonlinear_arith);
    r
}

/// The first `rows` rows of `data`, each `row_len` bytes taken at the start
/// of a `pitch`-byte row.
pub open spec fn unpadded_rows(data: Seq<u8>, row_len: nat, pitch: nat, rows: nat) -> Seq<u8>
    decreases rows,
{
    if rows == 0 {
        Seq::empty()
    } else {
        let y = (rows - 1) as nat;
        unpadded_rows(data, row_len, pitch, y) + data.subrange((y * pitch) as int, (y * pitch + row_len) as int)
    }
}

proof fn lemma_row_fits(y: nat, height: nat, pitch: nat, row_len: nat)
    requires
        y < height,
        row_len <= pitch,
    ensures
        y * pitch + row_len <= pitch * height,
        y * pitch <= pitch * height,
{
    assert(y * pitch + pitch <= pitch * height) by (nonlinear_arith)
        requires
            y < height,
    ;
}

/// The pixels of a readback buffer without the row padding.
pub fn unpad_rows(data: &Vec<u8>, width: u32, height: u32, bytes_per_row: u32) -> (r: Vec<u8>)
    requires
        width * 4 <= bytes_per_row,
        bytes_per_row * height <= data@.len(),
    ensures
        r@ == unpadded_rows(data@, (width * 4) as nat, bytes_per_row as nat, height as nat),
{
    let row_len: usize = width as usize * 4;
    let pitch: usize = bytes_per_row as usize;
    let n = data.len();
    let mut pixels: Vec<u8> = Vec::new();
    let mut y: usize = 0;
    while y < height as usize
        invariant
            row_len == width * 4,
            pitch == bytes_per_row,
            row_len <= pitch,
            n == data@.len(),
            pitch * height <= data@.len(),
            0 <= y <= height,
            pixels@ == unpadded_rows(data@, row_len as nat, pitch as nat, y as nat),
        decreases height - y,
    {
        proof {
            lemma_row_fits(y as nat, height as nat, pitch as nat, row_len as nat);
            assert(y * pitch <= y * pitch + row_len);
        }
        let start = y * pitch;
        let end = start + row_len;
        let ghost before = pixels@;
        let mut k: usize = start;
        while k < end
            invariant
                start <= k <= end,
                end <= data@.len(),
                pixels@ == before + data@.subrange(start as int, k as int),
            decreases end - k,
        {
            pixels.push(data[k]);
            proof {
                assert(data@.subrange(start as int, k + 1) =~= data@.subrange(start as int, k as int).push(data@[k as int]));
            }
            k += 1;
        }
        y += 1;
    }
    pixels
}

/// Pixels `(x0 .. x0 + w, y0 .. y0 + h)` of an RGBA image `width` pixels wide,
/// row by row.
pub open spec fn cropped_rows(pixels: Seq<u8>, width: nat, x0: nat, y0: nat, w: nat, rows: nat) -> Seq<u8>
    decreases rows,
{
    if rows == 0 {
        Seq::empty()
    } else {
        let y = (rows - 1) as nat;
        let start = ((y0 + y) * width + x0) * 4;
        cropped_rows(pixels, width, x0, y0, w, y) + pixels.subrange(start as int, (start + w * 4) as int)
    }
}

/// The `w` by `h` region at `(x0, y0)` of an RGBA image, which must lie
/// inside the image.
pub fn crop_rgba(pixels: &Vec<u8>, width: u32, height: u32, x0: u32, y0: u32, w: u32, h: u32) -> (r: Vec<u8>)
    requires
        x0 + w <= width,
        y0 + h <= height,
        pixels@.len() == width * height * 4,
        width * height * 4 <= usize::MAX,
    ensures
        r@ == cropped_rows(pixels@, width as nat, x0 as nat, y0 as nat, w as nat, h as nat),
{
    let mut out: Vec<u8> = Vec::new();
    let mut y: u32 = 0;
    while y < h
        invariant
            x0 + w <= width,
            y0 + h <= height,
            pixels@.len() == width * height * 4,
            width * height * 4 <= usize::MAX,
            0 <= y <= h,
            out@ == cropped_rows(pixels@, width as nat, x0 as nat, y0 as nat, w as nat, y as nat),
        decreases h - y,
    {
        proof {
            let row = (y0 + y) as nat;
            assert(row < height);
            assert((row * width + x0 + w) * 4 <= width * height * 4) by (nonlinear_arith)
                requires
                    row < height,
                    x0 + w <= width,
            ;
        }
        let row: usize = (y0 + y) as usize;
        let start: usize = (row * width as usize + x0 as usize) * 4;
        let end: usize = start + w as usize * 4;
        let ghost before = out@;
        let mut k: usize = start;
        while k < end
            invariant
                start <= k <= end,
                end <= pixels@.len(),
                out@ == before + pixels@.subrange(start as int, k as int),
            decreases end - k,
        {
            out.push(pixels[k]);
            proof {
                assert(pixels@.subrange(start as int, k + 1) =~= pixels@.subrange(start as int, k as int).push(pixels@[k as int]));
            }
            k += 1;
        }
        y += 1;
    }
    out
}

/// The PNG file that `image` writes for an RGBA image.
pub uninterp spec fn png_rgba8(width: u32, height: u32, pixels: Seq<u8>) -> Seq<u8>;

/// Base64 text of `bytes` in the standard alphabet with padding.
pub uninterp spec fn base64_standard(bytes: Seq<u8>) -> Seq<char>;

/// Why encoding a screenshot failed.
#[derive(Debug)]
pub enum PngError {
    /// The pixel buffer is smaller than the image.
    BufferTooSmall,
    /// The encoder reported an error.
    Encode(String),
}

/// Encodes an RGBA image as PNG with `image::ImageBuffer::write_to`. The
/// produced file is named; the encoder succeeds on every image with a
/// nonzero width and height whose buffer holds its pixels, and its other
/// errors are not described.
#[verifier::external_body]
fn encode_png(width: u32, height: u32, pixels: Vec<u8>) -> (r: Result<Vec<u8>, PngError>)
    ensures
        r matches Ok(bytes) ==> bytes@ == png_rgba8(width, height, pixels@),
        (r matches Err(PngError::BufferTooSmall)) ==> pixels@.len() < width * height * 4,
        width > 0 && height > 0 && pixels@.len() >= width * height * 4 ==> r is Ok,
{
    let image: image::ImageBuffer<image::Rgba<u8>, Vec<u8>> = match image::ImageBuffer::from_raw(width, height, pixels) {
        Some(image) => image,
        None => return Err(PngError::BufferTooSmall),
    };
    let mut png = Vec::new();
    match image.write_to(&mut std::io::Cursor::new(&mut png), image::ImageFormat::Png) {
        Ok(()) => Ok(png),
        Err(e) => Err(PngError::Encode(e.to_string())),
    }
}

/// Encodes `bytes` in base64 with `base64::engine::general_purpose::STANDARD`:
/// four characters for every started group of three bytes.
#[verifier::external_body]
fn encode_base64(bytes: &Vec<u8>) -> (r: String)
    requires
        4 * (bytes@.len() / 3) + 4 <= usize::MAX,
    ensures
        r@ == base64_standard(bytes@),
        r@.len() == 4 * ((bytes@.len() + 2) / 3),
{
    base64::Engine::encode(&base64::engine::general_purpose::STANDARD, bytes)
}

/// A captured screenshot: a base64 PNG and its size.
#[derive(Debug)]
pub struct Screenshot {
    pub base64: String,
    pub width: u32,
    pub height: u32,
}

/// Why a screenshot could not be produced, with the message for the client.
#[derive(Debug)]
pub enum ScreenshotError {
    ImageBuffer,
    PngEncoding(String),
}

impl ScreenshotError {
    pub fn message(&self) -> (r: String)
        ensures
            r@ == match *self {
                ScreenshotError::ImageBuffer => "Failed to create image buffer"@,
                ScreenshotError::PngEncoding(e) => "PNG encoding failed: "@ + e@,
            },
    {
        match self {
            ScreenshotError::ImageBuffer => String::from_str("Failed to create image buffer"),
            ScreenshotError::PngEncoding(e) => concat_str("PNG encoding failed: ", e.as_str()),
        }
    }
}

pub open spec fn min_u32(a: u32, b: u32) -> u32 {
    if a <= b {
        a
    } else {
        b
    }
}

/// The region a center crop of `crop_w` by `crop_h` takes from a `width` by
/// `height` image: the crop size, clamped to the image, centered.
pub open spec fn center_crop_region(width: u32, height: u32, crop_w: u32, crop_h: u32) -> (u32, u32, u32, u32) {
    let cw = min_u32(crop_w, width);
    let ch = min_u32(crop_h, height);
    (((width - cw) / 2) as u32, ((height - ch) / 2) as u32, cw, ch)
}

/// The center crop takes each side as asked, or the whole side where the
/// request is larger, independently for width and height, and leaves margins
/// on both ends that differ by at most one pixel, the extra one at the end.
pub proof fn lemma_center_crop_region(width: u32, height: u32, crop_w: u32, crop_h: u32)
    ensures
        ({
            let r = center_crop_region(width, height, crop_w, crop_h);
            &&& r.2 <= crop_w && r.2 <= width && (r.2 == crop_w || r.2 == width)
            &&& r.3 <= crop_h && r.3 <= height && (r.3 == crop_h || r.3 == height)
            &&& r.0 <= width - r.0 - r.2 <= r.0 + 1
            &&& r.1 <= height - r.1 - r.3 <= r.1 + 1
        }),
{
}

pub fn center_crop(width: u32, height: u32, crop_w: u32, crop_h: u32) -> (r: (u32, u32, u32, u32))
    ensures
        r == center_crop_region(width, height, crop_w, crop_h),
        r.0 + r.2 <= width,
        r.1 + r.3 <= height,
{
    let cw = if crop_w <= width {
        crop_w
    } else {
        width
    };
    let ch = if crop_h <= height {
        crop_h
    } else {
        height
    };
    let cx = (width - cw) / 2;
    let cy = (height - ch) / 2;
    (cx, cy, cw, ch)
}

/// The image a screenshot shows: the readback without padding, cropped when
/// a center crop is asked for.
pub open spec fn screenshot_pixels(
    data: Seq<u8>,
    width: u32,
    height: u32,
    bytes_per_row: u32,
    crop: Option<(u32, u32)>,
) -> (Seq<u8>, u32, u32) {
    let pixels = unpadded_rows(data, (width * 4) as nat, bytes_per_row as nat, height as nat);
    match crop {
        Some((crop_w, crop_h)) => {
            let (x0, y0, w, h) = center_crop_region(width, height, crop_w, crop_h);
            (cropped_rows(pixels, width as nat, x0 as nat, y0 as nat, w as nat, h as nat), w, h)
        },
        None => (pixels, width, height),
    }
}

proof fn lemma_unpadded_len(data: Seq<u8>, row_len: nat, pitch: nat, rows: nat)
    requires
        row_len <= pitch,
        pitch * rows <= data.len(),
    ensures
        unpadded_rows(data, row_len, pitch, rows).len() == rows * row_len,
    decreases rows,
{
    if rows > 0 {
        let y = (rows - 1) as nat;
        lemma_row_fits(y, rows, pitch, row_len);
        assert(pitch * y <= pitch * rows) by (nonlinear_arith)
            requires
                y < rows,
        ;
        lemma_unpadded_len(data, row_len, pitch, y);
        let seg = data.subrange((y * pitch) as int, (y * pitch + row_len) as int);
        assert(seg.len() == row_len);
        assert(unpadded_rows(data, row_len, pitch, rows) == unpadded_rows(data, row_len, pitch, y) + seg);
        assert(unpadded_rows(data, row_len, pitch, rows).len() == y * row_len + row_len);
        assert(y * row_len + row_len == rows * row_len) by (nonlinear_arith)
            requires
                y + 1 == rows,
        ;
    } else {
        assert(rows * row_len == 0) by (nonlinear_arith)
            requires
                rows == 0,
        ;
    }
}

proof fn lemma_cropped_len(pixels: Seq<u8>, width: nat, height: nat, x0: nat, y0: nat, w: nat, rows: nat)
    requires
        x0 + w <= width,
        y0 + rows <= height,
        pixels.len() == width * height * 4,
    ensures
        cropped_rows(pixels, width, x0, y0, w, rows).len() == rows * w * 4,
    decreases rows,
{
    if rows > 0 {
        let y = (rows - 1) as nat;
        lemma_cropped_len(pixels, width, height, x0, y0, w, y);
        let start = ((y0 + y) * width + x0) * 4;
        assert(((y0 + y) * width + x0 + w) * 4 <= width * height * 4) by (nonlinear_arith)
            requires
                y0 + y < height,
                x0 + w <= width,
        ;
        assert(((y0 + y) * width + x0) * 4 + w * 4 == ((y0 + y) * width + x0 + w) * 4) by (nonlinear_arith);
        let seg = pixels.subrange(start as int, (start + w * 4) as int);
        assert(seg.len() == w * 4);
        assert(cropped_rows(pixels, width, x0, y0, w, rows) == cropped_rows(pixels, width, x0, y0, w, y) + seg);
        assert(cropped_rows(pixels, width, x0, y0, w, rows).len() == y * w * 4 + w * 4);
        assert(y * w * 4 + w * 4 == rows * w * 4) by (nonlinear_arith)
            requires
                y + 1 == rows,
        ;
    } else {
        assert(rows * w * 4 == 0) by (nonlinear_arith)
            requires
                rows == 0,
        ;
    }
}

/// A screenshot from a readback of a `width` by `height` scene whose rows are
/// `bytes_per_row` apart, cropped to a centered `crop` when one is given.
pub fn encode_screenshot(
    data: &Vec<u8>,
    width: u32,
    height: u32,
    bytes_per_row: u32,
    crop: Option<(u32, u32)>,
) -> (r: Result<Screenshot, ScreenshotError>)
    requires
        width * 4 <= bytes_per_row,
        bytes_per_row * height <= data@.len(),
        width * height * 4 <= usize::MAX / 2,
    ensures
        ({
            let (pixels, w, h) = screenshot_pixels(data@, width, height, bytes_per_row, crop);
            match r {
                Ok(shot) => {
                    &&& shot.width == w
                    &&& shot.height == h
                    &&& shot.base64@ == base64_standard(png_rgba8(w, h, pixels))
                },
                Err(ScreenshotError::ImageBuffer) => false,
                Err(ScreenshotError::PngEncoding(_)) => w == 0 || h == 0 || png_rgba8(w, h, pixels).len() / 3
                    >= usize::MAX / 4 - 1,
            }
        }),
{
    let pixels = unpad_rows(data, width, height, bytes_per_row);
    proof {
        lemma_unpadded_len(data@, (width * 4) as nat, bytes_per_row as nat, height as nat);
        assert(height * (width * 4) == width * height * 4) by (nonlinear_arith);
    }
    let (image, w, h) = match crop {
        Some((crop_w, crop_h)) => {
            let (x0, y0, cw, ch) = center_crop(width, height, crop_w, crop_h);
            proof {
                lemma_cropped_len(pixels@, width as nat, height as nat, x0 as nat, y0 as nat, cw as nat, ch as nat);
                assert(ch * cw * 4 == cw * ch * 4) by (nonlinear_arith);
            }
            (crop_rgba(&pixels, width, height, x0, y0, cw, ch), cw, ch)
        },
        None => (pixels, width, height),
    };
    assert(image@.len() == w * h * 4);
    let png = match encode_png(w, h, image) {
        Ok(png) => png,
        Err(PngError::BufferTooSmall) => {
            return Err(ScreenshotError::ImageBuffer);
        },
        Err(PngError::Encode(e)) => {
            return Err(ScreenshotError::PngEncoding(e));
        },
    };
    if png.len() / 3 >= usize::MAX / 4 - 1 {
        return Err(ScreenshotError::PngEncoding(String::from_str("PNG data too large to encode")));
    }
    let base64 = encode_base64(&png);
    Ok(Screenshot { base64, width: w, height: h })
}

} // verus!
