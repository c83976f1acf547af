//! Decoding and encoding of images as PNG byte streams.
//!
//! The codec itself is an external collaborator: the `png` crate turns a
//! byte stream into a flat sample buffer and back. This module keeps that
//! call behind trusted wrappers and verifies everything around it: the
//! layout validation (8-bit RGB and nothing else) and the exact
//! interleaving between the flat byte buffer and the pixel store.

use vstd::arithmetic::div_mod::lemma_fundamental_div_mod;
use vstd::prelude::*;

use crate::image::{Image, Pixel};

verus! {

/// What a byte stream decodes to, if the codec accepts it at all: the
/// frame's colour layout, channel depth, width, height, and raw samples.
/// Decoding depends on the bytes alone, so the outcome has a name.
pub uninterp spec fn png_decoded(bytes: Seq<u8>) -> Option<
    (ColorKind, DepthKind, u32, u32, Seq<u8>),
>;

/// The byte stream the codec writes for a frame of the given shape and
/// raw 8-bit RGB samples. Encoding depends on shape and samples alone, so
/// the stream has a name.
pub uninterp spec fn png_stream_of(width: u32, height: u32, data: Seq<u8>) -> Seq<u8>;

/// Colour layout of a decoded frame, as the codec reports it.
#[derive(Clone, Copy, PartialEq, Eq, Structural, Debug)]
pub enum ColorKind {
    Grayscale,
    Rgb,
    Indexed,
    GrayscaleAlpha,
    Rgba,
}

/// Sample depth of a decoded frame, in bits per channel.
#[derive(Clone, Copy, PartialEq, Eq, Structural, Debug)]
pub enum DepthKind {
    One,
    Two,
    Four,
    Eight,
    Sixteen,
}

/// Why a byte stream was not accepted as a filter input.
#[derive(Clone, Copy, PartialEq, Eq, Structural, Debug)]
pub enum DecodeError {
    /// The stream decoded, but its colour layout is not plain RGB.
    ColorType,
    /// The stream decoded, but its channels are not 8 bits wide.
    BitDepth,
    /// The stream is not a decodable image at all.
    Corrupt,
}

/// The encoder rejected the image.
#[derive(Clone, Copy, PartialEq, Eq, Structural, Debug)]
pub enum EncodeError {
    Rejected,
}

/// A decoded frame as the codec hands it over: shape, reported layout, and
/// the flat sample buffer.
pub struct RawFrame {
    pub width: u32,
    pub height: u32,
    pub color: ColorKind,
    pub depth: DepthKind,
    pub data: Vec<u8>,
}

#[verifier::external_type_specification]
#[verifier::external_body]
pub struct ExColorType(png::ColorType);

#[verifier::external_type_specification]
#[verifier::external_body]
pub struct ExBitDepth(png::BitDepth);

/// Relies on the variant names of png::ColorType: maps each to the
/// library's colour kind of the same name, one arm per variant.
#[verifier::external_body]
fn color_kind(c: png::ColorType) -> ColorKind {
    match c {
        png::ColorType::Grayscale => ColorKind::Grayscale,
        png::ColorType::Rgb => ColorKind::Rgb,
        png::ColorType::Indexed => ColorKind::Indexed,
        png::ColorType::GrayscaleAlpha => ColorKind::GrayscaleAlpha,
        png::ColorType::Rgba => ColorKind::Rgba,
    }
}

/// Relies on the variant names of png::BitDepth: maps each to the library's
/// depth kind of the same name, one arm per variant.
#[verifier::external_body]
fn depth_kind(d: png::BitDepth) -> DepthKind {
    match d {
        png::BitDepth::One => DepthKind::One,
        png::BitDepth::Two => DepthKind::Two,
        png::BitDepth::Four => DepthKind::Four,
        png::BitDepth::Eight => DepthKind::Eight,
        png::BitDepth::Sixteen => DepthKind::Sixteen,
    }
}

/// Relies on png::Decoder and png::Reader: decoding a stream is a function
/// of its bytes, named `png_decoded`; on success the reported layout,
/// depth, shape and samples are that function's. `next_frame` fills a
/// buffer of `output_buffer_size` bytes with the decoded frame, row-major;
/// for an 8-bit RGB frame that size is three bytes per pixel, so the
/// returned buffer holds exactly `3 * width * height` bytes.
#[verifier::external_body]
fn decode_rgb8(bytes: &Vec<u8>) -> (r: Result<RawFrame, DecodeError>)
    ensures
        r is Ok <==> png_decoded(bytes@) is Some,
        r matches Err(e) ==> e == DecodeError::Corrupt,
        r matches Ok(f) ==> ({
            let d = png_decoded(bytes@)->Some_0;
            &&& f.color == d.0
            &&& f.depth == d.1
            &&& f.width == d.2
            &&& f.height == d.3
            &&& f.data@ == d.4
            &&& ((f.color == ColorKind::Rgb && f.depth == DepthKind::Eight) ==> f.data@.len() == 3
                * f.width * f.height)
        }),
{
    let decoder = png::Decoder::new(std::io::Cursor::new(bytes.as_slice()));
    let mut reader = decoder.read_info().map_err(|_| DecodeError::Corrupt)?;
    let (color, depth) = reader.output_color_type();
    let size = reader.output_buffer_size().ok_or(DecodeError::Corrupt)?;
    let mut data = vec![0u8; size];
    let out = reader.next_frame(&mut data).map_err(|_| DecodeError::Corrupt)?;
    Ok(RawFrame {
        width: out.width,
        height: out.height,
        color: color_kind(color),
        depth: depth_kind(depth),
        data,
    })
}

/// Relies on png::Encoder and png::Writer: into an in-memory sink the
/// encoder writes an 8-bit RGB stream — a function of shape and samples
/// alone, named `png_stream_of` — and fails exactly on a zero dimension or
/// a sample buffer that is not three bytes per pixel (`write_header` and
/// `write_image_data` in the codec's source; writes to a byte vector
/// cannot fail).
#[verifier::external_body]
fn encode_rgb8(width: u32, height: u32, data: &Vec<u8>) -> (r: Result<Vec<u8>, EncodeError>)
    requires
        3 * (width * height) <= usize::MAX,
    ensures
        width > 0 && height > 0 && data@.len() == 3 * (width * height) ==> r is Ok,
        r is Ok ==> width > 0 && height > 0 && data@.len() == 3 * (width * height),
        r matches Ok(v) ==> v@ == png_stream_of(width, height, data@),
{
    let mut out: Vec<u8> = Vec::new();
    let mut encoder = png::Encoder::new(&mut out, width, height);
    encoder.set_color(png::ColorType::Rgb);
    encoder.set_depth(png::BitDepth::Eight);
    let mut writer = encoder.write_header().map_err(|_| EncodeError::Rejected)?;
    writer.write_image_data(data.as_slice()).map_err(|_| EncodeError::Rejected)?;
    writer.finish().map_err(|_| EncodeError::Rejected)?;
    Ok(out)
}

/// The row-major interleaving of a pixel sequence: bytes `3k`, `3k + 1`
/// and `3k + 2` are pixel `k`'s red, green and blue channels.
pub open spec fn rgb_bytes_of(pixels: Seq<Pixel>) -> Seq<u8> {
    Seq::new(
        3 * pixels.len(),
        |i: int|
            if i % 3 == 0 {
                pixels[i / 3].r
            } else if i % 3 == 1 {
                pixels[i / 3].g
            } else {
                pixels[i / 3].b
            },
    )
}

impl Image {
    /// Builds an image from a flat buffer of interleaved RGB bytes: pixel
    /// `k` takes bytes `3k`, `3k + 1` and `3k + 2` as its red, green and
    /// blue channels.
    pub fn from_rgb_bytes(width: usize, height: usize, data: &Vec<u8>) -> (img: Image)
        requires
            data@.len() == 3 * (width * height),
        ensures
            img.wf(),
            img.width == width,
            img.height == height,
            forall|k: int|
                0 <= k < width * height ==> #[trigger] img.pixels[k] == (Pixel {
                    r: data@[3 * k],
                    g: data@[3 * k + 1],
                    b: data@[3 * k + 2],
                }),
    {
        proof {
            assert(data.len() <= usize::MAX);
            assert(width * height <= 3 * (width as int * height as int)) by (nonlinear_arith);
        }
        let count = width * height;
        let mut pixels: Vec<Pixel> = Vec::new();
        let mut k: usize = 0;
        let mut idx: usize = 0;
        while k < count
            invariant
                k <= count,
                idx == 3 * k,
                data@.len() == 3 * count,
                3 * count <= usize::MAX,
                pixels.len() == k,
                forall|n: int|
                    0 <= n < k ==> #[trigger] pixels[n] == (Pixel {
                        r: data@[3 * n],
                        g: data@[3 * n + 1],
                        b: data@[3 * n + 2],
                    }),
            decreases count - k,
        {
            pixels.push(Pixel { r: data[idx], g: data[idx + 1], b: data[idx + 2] });
            k = k + 1;
            idx = idx + 3;
        }
        Image { pixels, width, height }
    }

    /// Flattens the pixel store into interleaved RGB bytes: the inverse of
    /// `from_rgb_bytes`.
    pub fn to_rgb_bytes(&self) -> (data: Vec<u8>)
        ensures
            data@ == rgb_bytes_of(self.pixels@),
            data@.len() == 3 * self.pixels.len(),
    {
        let count = self.pixels.len();
        let mut data: Vec<u8> = Vec::new();
        let mut k: usize = 0;
        while k < count
            invariant
                k <= count,
                count == self.pixels.len(),
                data.len() == 3 * k,
                forall|n: int|
                    0 <= n < k ==> {
                        &&& data@[3 * n] == #[trigger] self.pixels[n].r
                        &&& data@[3 * n + 1] == self.pixels[n].g
                        &&& data@[3 * n + 2] == self.pixels[n].b
                    },
            decreases count - k,
        {
            let p = self.pixels[k];
            let ghost pre = data@;
            data.push(p.r);
            data.push(p.g);
            data.push(p.b);
            proof {
                assert(data@ =~= pre + seq![p.r, p.g, p.b]);
                assert forall|n: int| 0 <= n < k + 1 implies {
                    &&& data@[3 * n] == self.pixels[n].r
                    &&& data@[3 * n + 1] == self.pixels[n].g
                    &&& data@[3 * n + 2] == self.pixels[n].b
                } by {
                    if n < k {
                        assert(data@[3 * n] == pre[3 * n]);
                        assert(data@[3 * n + 1] == pre[3 * n + 1]);
                        assert(data@[3 * n + 2] == pre[3 * n + 2]);
                    } else {
                        assert(3 * n == pre.len());
                    }
                }
            }
            k = k + 1;
        }
        proof {
            let bs = rgb_bytes_of(self.pixels@);
            assert forall|i: int| 0 <= i < data@.len() implies data@[i] == bs[i] by {
                lemma_fundamental_div_mod(i, 3);
                let q = i / 3;
                let m = i % 3;
                assert(i == 3 * q + m);
                assert(0 <= q < count) by (nonlinear_arith)
                    requires
                        0 <= i < 3 * count,
                        i == 3 * q + m,
                        0 <= m < 3,
                ;
                assert(data@[3 * q] == self.pixels[q].r);
                if m == 1 {
                    assert(data@[3 * q + 1] == self.pixels[q].g);
                } else if m == 2 {
                    assert(data@[3 * q + 2] == self.pixels[q].b);
                }
            }
            assert(data@ =~= bs);
        }
        data
    }

    /// Decodes a PNG byte stream into an image.
    ///
    /// Exactly the streams that decode as 8-bit RGB are accepted, and the
    /// image holds the decoded shape and samples. A stream that decodes
    /// with any other colour layout is rejected with
    /// `DecodeError::ColorType`, one that decodes as RGB with any other
    /// channel depth with `DecodeError::BitDepth`, and one the codec does
    /// not decode at all with `DecodeError::Corrupt`. A returned image is
    /// well formed.
    pub fn decode(bytes: &Vec<u8>) -> (r: Result<Image, DecodeError>)
        ensures
            ({
                let d = png_decoded(bytes@);
                &&& (r is Ok <==> d is Some && d->Some_0.0 == ColorKind::Rgb && d->Some_0.1
                    == DepthKind::Eight)
                &&& ((r is Err && r->Err_0 == DecodeError::Corrupt) <==> d is None)
                &&& ((r is Err && r->Err_0 == DecodeError::ColorType) <==> d is Some && d->Some_0.0
                    != ColorKind::Rgb)
                &&& ((r is Err && r->Err_0 == DecodeError::BitDepth) <==> d is Some && d->Some_0.0
                    == ColorKind::Rgb && d->Some_0.1 != DepthKind::Eight)
                &&& (r matches Ok(img) ==> {
                    &&& img.wf()
                    &&& img.width == d->Some_0.2
                    &&& img.height == d->Some_0.3
                    &&& forall|k: int|
                        0 <= k < img.width * img.height ==> #[trigger] img.pixels[k] == (Pixel {
                            r: d->Some_0.4[3 * k],
                            g: d->Some_0.4[3 * k + 1],
                            b: d->Some_0.4[3 * k + 2],
                        })
                })
            }),
    {
        let frame = match Image::decode_frame(bytes) {
            Ok(f) => f,
            Err(e) => {
                return Err(e);
            },
        };
        let width = frame.width as usize;
        let height = frame.height as usize;
        proof {
            assert(3 * (width as int * height as int) == 3 * width as int * height as int)
                by (nonlinear_arith);
        }
        Ok(Image::from_rgb_bytes(width, height, &frame.data))
    }

    /// Decodes and validates the frame, leaving the pixel conversion to
    /// `from_rgb_bytes`.
    fn decode_frame(bytes: &Vec<u8>) -> (r: Result<RawFrame, DecodeError>)
        ensures
            ({
                let d = png_decoded(bytes@);
                &&& (r is Ok <==> d is Some && d->Some_0.0 == ColorKind::Rgb && d->Some_0.1
                    == DepthKind::Eight)
                &&& ((r is Err && r->Err_0 == DecodeError::Corrupt) <==> d is None)
                &&& ((r is Err && r->Err_0 == DecodeError::ColorType) <==> d is Some && d->Some_0.0
                    != ColorKind::Rgb)
                &&& ((r is Err && r->Err_0 == DecodeError::BitDepth) <==> d is Some && d->Some_0.0
                    == ColorKind::Rgb && d->Some_0.1 != DepthKind::Eight)
                &&& (r matches Ok(f) ==> {
                    &&& f.color == ColorKind::Rgb
                    &&& f.depth == DepthKind::Eight
                    &&& f.width == d->Some_0.2
                    &&& f.height == d->Some_0.3
                    &&& f.data@ == d->Some_0.4
                    &&& f.data@.len() == 3 * f.width * f.height
                })
            }),
    {
        let frame = match decode_rgb8(bytes) {
            Ok(f) => f,
            Err(e) => {
                return Err(e);
            },
        };
        if !(frame.color == ColorKind::Rgb) {
            return Err(DecodeError::ColorType);
        }
        if !(frame.depth == DepthKind::Eight) {
            return Err(DecodeError::BitDepth);
        }
        Ok(frame)
    }

    /// Encodes the image as a PNG byte stream of its exact shape and
    /// samples: the stream the codec writes for this shape and the
    /// interleaved bytes of `to_rgb_bytes`. Exactly the images with a
    /// nonzero width and height are encodable; the PNG header has no room
    /// for an empty dimension.
    pub fn encode(&self) -> (r: Result<Vec<u8>, EncodeError>)
        requires
            self.wf(),
            self.width <= u32::MAX,
            self.height <= u32::MAX,
        ensures
            r is Ok <==> self.width > 0 && self.height > 0,
            r matches Ok(v) ==> v@ == png_stream_of(
                self.width as u32,
                self.height as u32,
                rgb_bytes_of(self.pixels@),
            ),
            r matches Err(e) ==> e == EncodeError::Rejected,
    {
        let data = self.to_rgb_bytes();
        proof {
            assert(data.len() <= usize::MAX);
            assert(3 * (self.width as int * self.height as int) == 3 * self.width as int
                * self.height as int) by (nonlinear_arith);
        }
        encode_rgb8(self.width as u32, self.height as u32, &data)
    }
}

} // verus!
