//! Raster frames and the immutable store that playback reads them from.

use vstd::prelude::*;

verus! {

/// A foreground colour, one byte per channel.
#[derive(Clone, Copy, Debug, PartialEq, Eq, Structural)]
pub struct Rgb {
    pub r: u8,
    pub g: u8,
    pub b: u8,
}

/// A rectangular RGBA image, row-major, four bytes per pixel.
///
/// The alpha byte is carried but never read by rendering.
#[derive(Clone, Debug)]
pub struct RasterFrame {
    pub width: u32,
    pub height: u32,
    pub pixels: Vec<u8>,
}

impl RasterFrame {
    /// Number of bytes a tightly packed buffer of this geometry holds.
    pub open spec fn byte_len(&self) -> int {
        self.width * self.height * 4
    }

    /// The buffer is exactly `width * height` pixels of four bytes.
    pub open spec fn wf(&self) -> bool {
        self.pixels@.len() == self.byte_len()
    }

    /// Byte offset of the pixel at column `x` of row `y`.
    pub open spec fn offset(&self, x: int, y: int) -> int {
        (y * self.width + x) * 4
    }

    /// Colour of the pixel at column `x` of row `y` (alpha dropped).
    pub open spec fn color_at(&self, x: int, y: int) -> Rgb {
        let o = self.offset(x, y);
        Rgb { r: self.pixels@[o], g: self.pixels@[o + 1], b: self.pixels@[o + 2] }
    }

    /// Builds a frame from its geometry and buffer; `None` when the buffer
    /// is not exactly `width * height * 4` bytes long.
    pub fn new(width: u32, height: u32, pixels: Vec<u8>) -> (r: Option<RasterFrame>)
        ensures
            r is Some <==> pixels@.len() == width * height * 4,
            r matches Some(f) ==> f.width == width && f.height == height && f.pixels@ == pixels@
                && f.wf(),
    {
        assert(width * height <= 0xffff_ffff * 0xffff_ffff) by (nonlinear_arith)
            requires
                width <= 0xffff_ffff,
                height <= 0xffff_ffff,
        ;
        let need: u128 = width as u128 * height as u128 * 4;
        if pixels.len() as u128 == need {
            Some(RasterFrame { width, height, pixels })
        } else {
            None
        }
    }

    pub fn width(&self) -> (r: u32)
        ensures
            r == self.width,
    {
        self.width
    }

    pub fn height(&self) -> (r: u32)
        ensures
            r == self.height,
    {
        self.height
    }
}

/// Why a frame sequence could not be decoded.
#[derive(Clone, Copy, Debug, PartialEq, Eq, Structural)]
pub enum DecodeError {
    /// The bytes are not a readable animated image.
    InvalidImage,
}

#[verifier::external_type_specification]
#[verifier::external_body]
pub struct ExImageError(image::ImageError);

/// What the GIF decoder makes of `bytes`: `None` where it refuses them,
/// else each frame's width, height and raw RGBA buffer, in order.
pub uninterp spec fn gif_frames_of(bytes: Seq<u8>) -> Option<Seq<(u32, u32, Seq<u8>)>>;

/// Relies on `image::codecs::gif::GifDecoder::new` with
/// `AnimationDecoder::into_frames` and `Frames::collect_frames`: each frame
/// comes out as an RGBA8 `ImageBuffer`, whose raw buffer covers at least
/// `width * height * 4` bytes (`ImageBuffer::from_raw` and `from_fn` hold
/// that invariant). The outcome depends on the bytes alone.
#[verifier::external_body]
fn decode_gif_frames(bytes: &[u8]) -> (r: Result<Vec<RasterFrame>, image::ImageError>)
    ensures
        (r is Ok) == (gif_frames_of(bytes@) is Some),
        r matches Ok(v) ==> gif_frames_of(bytes@) matches Some(fs) && v@.len() == fs.len()
            && forall|i: int|
            0 <= i < v@.len() ==> v@[i].width == (#[trigger] fs[i]).0 && v@[i].height == fs[i].1
                && v@[i].pixels@ == fs[i].2,
        r matches Ok(v) ==> forall|i: int|
            0 <= i < v.len() ==> #[trigger] v[i].pixels@.len() >= v[i].byte_len(),
{
    let decoder = image::codecs::gif::GifDecoder::new(std::io::Cursor::new(bytes))?;
    let frames = image::AnimationDecoder::into_frames(decoder).collect_frames()?;
    Ok(frames.into_iter().map(|f| {
        let b = f.into_buffer();
        RasterFrame { width: b.width(), height: b.height(), pixels: b.into_raw() }
    }).collect())
}

/// An ordered, read-only sequence of frames, built once before playback.
pub struct FrameStore {
    frames: Vec<RasterFrame>,
}

impl View for FrameStore {
    type V = Seq<RasterFrame>;

    closed spec fn view(&self) -> Seq<RasterFrame> {
        self.frames@
    }
}

impl FrameStore {
    /// Every stored frame is well formed.
    pub open spec fn wf(&self) -> bool {
        forall|i: int| 0 <= i < self@.len() ==> #[trigger] self@[i].wf()
    }

    /// Stores `frames` in order.
    pub fn new(frames: Vec<RasterFrame>) -> (r: FrameStore)
        requires
            forall|i: int| 0 <= i < frames.len() ==> #[trigger] frames[i].wf(),
        ensures
            r@ == frames@,
            r.wf(),
    {
        FrameStore { frames }
    }

    /// Stores decoded frames in order, each buffer cut to the packed length
    /// of its geometry (bytes past it belong to no pixel).
    pub fn from_decoded(frames: Vec<RasterFrame>) -> (r: FrameStore)
        requires
            forall|i: int| 0 <= i < frames.len() ==> #[trigger] frames[i].pixels@.len()
                >= frames[i].byte_len(),
        ensures
            r.wf(),
            r@.len() == frames.len(),
            forall|i: int|
                0 <= i < frames.len() ==> {
                    &&& (#[trigger] r@[i]).width == frames[i].width
                    &&& r@[i].height == frames[i].height
                    &&& r@[i].pixels@ == frames[i].pixels@.subrange(0, frames[i].byte_len())
                },
    {
        let mut out: Vec<RasterFrame> = Vec::new();
        let mut rest = frames;
        let ghost orig = frames@;
        while rest.len() > 0
            invariant
                rest@ == orig.subrange(out.len() as int, orig.len() as int),
                out.len() <= orig.len(),
                forall|i: int| 0 <= i < orig.len() ==> #[trigger] orig[i].pixels@.len()
                    >= orig[i].byte_len(),
                forall|i: int| 0 <= i < out.len() ==> #[trigger] out[i].wf(),
                forall|i: int|
                    0 <= i < out.len() ==> {
                        &&& (#[trigger] out[i]).width == orig[i].width
                        &&& out[i].height == orig[i].height
                        &&& out[i].pixels@ == orig[i].pixels@.subrange(0, orig[i].byte_len())
                    },
            decreases rest.len(),
        {
            let mut f = rest.remove(0);
            let ghost k = out.len() as int;
            assert(f == orig[k]);
            assert(orig[k].pixels@.len() >= orig[k].byte_len());
            let plen: usize = f.pixels.len();
            assert(f.width * f.height * 4 <= plen);
            assert(f.width * f.height <= f.width * f.height * 4) by (nonlinear_arith)
                requires
                    f.width >= 0,
                    f.height >= 0,
            ;
            let len: usize = f.width as usize * f.height as usize * 4;
            f.pixels.truncate(len);
            out.push(f);
        }
        FrameStore { frames: out }
    }

    /// Decodes an animated GIF into a store: `Ok` exactly when the decoder
    /// accepts the bytes, and then the store holds the decoded frames in
    /// order, each well formed, its buffer cut to the packed length.
    pub fn from_gif(bytes: &[u8]) -> (r: Result<FrameStore, DecodeError>)
        ensures
            (r is Ok) == (gif_frames_of(bytes@) is Some),
            r matches Ok(s) ==> s.wf(),
            r matches Ok(s) ==> gif_frames_of(bytes@) matches Some(fs) && s@.len() == fs.len()
                && forall|i: int|
                0 <= i < s@.len() ==> (#[trigger] s@[i]).width == fs[i].0 && s@[i].height
                    == fs[i].1 && s@[i].pixels@ == fs[i].2.subrange(0, s@[i].byte_len()),
            r matches Err(e) ==> e == DecodeError::InvalidImage,
    {
        match decode_gif_frames(bytes) {
            Ok(frames) => Ok(FrameStore::from_decoded(frames)),
            Err(_) => Err(DecodeError::InvalidImage),
        }
    }

    /// Number of frames.
    pub fn len(&self) -> (r: usize)
        ensures
            r == self@.len(),
    {
        self.frames.len()
    }

    /// The frame at `index`, or `None` once `index` is past the end.
    pub fn frame_at(&self, index: usize) -> (r: Option<&RasterFrame>)
        ensures
            index < self@.len() ==> r == Some(&self@[index as int]),
            index >= self@.len() ==> r is None,
    {
        if index < self.frames.len() {
            Some(&self.frames[index])
        } else {
            None
        }
    }
}

} // verus!
