use vstd::prelude::*;

verus! {

/// The PNG file that encodes `pixels` as an 8-bit RGBA raster of `width` by
/// `height` pixels.
pub uninterp spec fn png_rgba8(pixels: Seq<u8>, width: u32, height: u32) -> Seq<u8>;

#[verifier::external_type_specification]
#[verifier::external_body]
pub struct ExEncodingError(png::EncodingError);

/// Relies on png's `Encoder` (color type RGBA, bit depth eight) with
/// `Writer::write_image_data` and `Writer::finish`, writing into a `Vec`: the
/// output is the PNG file of the raster. `write_header` refuses a zero width
/// or height and nothing else for this color type; `write_image_data` refuses
/// only data whose length is not four bytes per pixel; writing into a `Vec`
/// cannot fail, and `finish` checks nothing with the default options.
#[verifier::external_body]
fn png_encode_rgba8(pixels: &[u8], width: u32, height: u32) -> (r: Result<Vec<u8>, png::EncodingError>)
    requires
        pixels@.len() == width * height * 4,
    ensures
        r matches Ok(bytes) ==> bytes@ == png_rgba8(pixels@, width, height),
        width == 0 || height == 0 ==> r is Err,
        width > 0 && height > 0 ==> r is Ok,
{
    let mut out: Vec<u8> = Vec::new();
    let mut encoder = png::Encoder::new(&mut out, width, height);
    encoder.set_color(png::ColorType::Rgba);
    encoder.set_depth(png::BitDepth::Eight);
    let mut writer = encoder.write_header()?;
    writer.write_image_data(pixels)?;
    writer.finish()?;
    Ok(out)
}

/// Why the raw pixels of a captured frame could not become an image.
#[derive(Clone, Copy, Debug, PartialEq, Eq, Structural)]
pub enum EncodeError {
    /// The announced geometry does not lie inside the buffer.
    GeometryOutsideBuffer,
    /// The image encoder refused the raster.
    Rejected,
}

/// Row `row` of a frame: the `width * 4` bytes at `row * stride`.
pub open spec fn row_bytes(pixels: Seq<u8>, row: int, width: int, stride: int) -> Seq<u8> {
    pixels.subrange(row * stride, row * stride + width * 4)
}

/// The first `rows` rows of a frame, each `width * 4` bytes, one after another.
pub open spec fn packed_rows(pixels: Seq<u8>, width: int, stride: int, rows: nat) -> Seq<u8>
    decreases rows,
{
    if rows == 0 {
        Seq::empty()
    } else {
        packed_rows(pixels, width, stride, (rows - 1) as nat) + row_bytes(
            pixels,
            rows - 1,
            width,
            stride,
        )
    }
}

/// A frame of `height` rows of `width` pixels, rows `stride` bytes apart,
/// lies inside a buffer of `len` bytes.
pub open spec fn frame_fits(len: nat, width: u32, height: u32, stride: u32) -> bool {
    &&& width * 4 <= stride
    &&& height == 0 || (height - 1) * stride + width * 4 <= len
}

proof fn lemma_packed_len(pixels: Seq<u8>, width: int, stride: int, rows: nat)
    requires
        0 <= width,
        width * 4 <= stride,
        rows == 0 || (rows - 1) * stride + width * 4 <= pixels.len(),
    ensures
        packed_rows(pixels, width, stride, rows).len() == rows * (width * 4),
    decreases rows,
{
    if rows > 0 {
        if rows > 1 {
            assert((rows - 2) * stride + width * 4 <= (rows - 1) * stride + width * 4)
                by (nonlinear_arith)
                requires
                    rows >= 2,
                    stride >= 0,
            ;
        }
        lemma_packed_len(pixels, width, stride, (rows - 1) as nat);
        assert((rows - 1) * stride >= 0) by (nonlinear_arith)
            requires
                rows >= 1,
                stride >= 0,
        ;
        assert(rows * (width * 4) == (rows - 1) * (width * 4) + width * 4) by (nonlinear_arith);
    }
}

/// The rows of a frame read out of the mapped buffer `pixels` with the
/// geometry that the server announced, packed without padding; none where
/// that geometry leaves the buffer.
pub fn extract_frame(pixels: &[u8], width: u32, height: u32, stride: u32) -> (r: Option<Vec<u8>>)
    ensures
        r is Some <==> frame_fits(pixels@.len(), width, height, stride),
        r matches Some(v) ==> v@ == packed_rows(pixels@, width as int, stride as int, height as nat),
{
    let row_len: u64 = width as u64 * 4;
    if row_len > stride as u64 {
        return None;
    }
    if height > 0 {
        assert((height - 1) * stride <= 0xffff_ffff * 0xffff_ffff) by (nonlinear_arith)
            requires
                0 <= height - 1 <= 0xffff_ffff,
                0 <= stride <= 0xffff_ffff,
        ;
        let last: u128 = (height as u128 - 1) * stride as u128 + row_len as u128;
        if last > pixels.len() as u128 {
            return None;
        }
    }
    let len: usize = pixels.len();
    let mut out: Vec<u8> = Vec::new();
    let mut row: u32 = 0;
    while row < height
        invariant
            len == pixels@.len(),
            row <= height,
            row_len == width * 4,
            row_len <= stride,
            height == 0 || (height - 1) * stride + row_len <= pixels@.len(),
            out@ == packed_rows(pixels@, width as int, stride as int, row as nat),
        decreases height - row,
    {
        assert(row * stride + row_len <= (height - 1) * stride + row_len) by (nonlinear_arith)
            requires
                row < height,
                stride >= 0,
        ;
        assert(0 <= row * stride <= 0xffff_ffff * 0xffff_ffff) by (nonlinear_arith)
            requires
                0 <= row <= 0xffff_ffff,
                0 <= stride <= 0xffff_ffff,
        ;
        let start_wide: u128 = row as u128 * stride as u128;
        assert(start_wide + row_len <= len);
        let start: usize = start_wide as usize;
        let end: usize = start + row_len as usize;
        let slice = &pixels[start..end];
        out.extend_from_slice(slice);
        proof {
            assert(slice@ == row_bytes(pixels@, row as int, width as int, stride as int));
        }
        row = row + 1;
    }
    Some(out)
}

/// The encoder's verdict as this library reports it.
pub fn encoding_outcome(r: Result<Vec<u8>, png::EncodingError>) -> (o: Result<Vec<u8>, EncodeError>)
    ensures
        r matches Ok(b) ==> o == Ok::<Vec<u8>, EncodeError>(b),
        r is Err ==> o == Err::<Vec<u8>, EncodeError>(EncodeError::Rejected),
{
    match r {
        Ok(b) => Ok(b),
        Err(_) => Err(EncodeError::Rejected),
    }
}

/// Encodes a captured frame as a PNG file of `width` by `height` RGBA pixels,
/// reading each row from the mapped buffer `pixels` at the announced `stride`.
pub fn encode_frame(pixels: &[u8], width: u32, height: u32, stride: u32) -> (r: Result<Vec<u8>, EncodeError>)
    ensures
        !frame_fits(pixels@.len(), width, height, stride) ==> r == Err::<Vec<u8>, EncodeError>(
            EncodeError::GeometryOutsideBuffer,
        ),
        frame_fits(pixels@.len(), width, height, stride) ==> match r {
            Ok(img) => img@ == png_rgba8(
                packed_rows(pixels@, width as int, stride as int, height as nat),
                width,
                height,
            ),
            Err(e) => e == EncodeError::Rejected,
        },
        width == 0 || height == 0 ==> r is Err,
        frame_fits(pixels@.len(), width, height, stride) && width > 0 && height > 0 ==> r is Ok,
{
    match extract_frame(pixels, width, height, stride) {
        None => Err(EncodeError::GeometryOutsideBuffer),
        Some(raster) => {
            proof {
                lemma_packed_len(pixels@, width as int, stride as int, height as nat);
                assert(raster@.len() == height * (width * 4));
                assert(height * (width * 4) == width * height * 4) by (nonlinear_arith);
            }
            encoding_outcome(png_encode_rgba8(raster.as_slice(), width, height))
        },
    }
}

} // verus!
