//! Raw and normalised frames, and the pixel conversion between them.

use crate::error::ConversionError;
use vstd::prelude::*;

verus! {

/// Bytes per pixel of a packed colour frame as the device delivers it.
pub const SOURCE_CHANNELS: u32 = 3;

/// Bytes per pixel of a normalised frame.
pub const OUTPUT_CHANNELS: u32 = 4;

/// Alpha value of a fully opaque pixel.
pub const OPAQUE: u8 = 255;

/// A pixel buffer exactly as the capture device delivered it.
///
/// Nothing is assumed of it: the geometry is what the device reported and the
/// buffer may or may not agree with it.
#[derive(Debug, PartialEq, Eq)]
pub struct RawFrame {
    pub width: u32,
    pub height: u32,
    pub channels: u32,
    pub data: Vec<u8>,
}

/// Mathematical content of a [`RawFrame`].
pub struct RawFrameView {
    pub width: nat,
    pub height: nat,
    pub channels: nat,
    pub bytes: Seq<u8>,
}

impl View for RawFrame {
    type V = RawFrameView;

    open spec fn view(&self) -> RawFrameView {
        RawFrameView {
            width: self.width as nat,
            height: self.height as nat,
            channels: self.channels as nat,
            bytes: self.data@,
        }
    }
}

/// Mathematical content of a [`ConvertedFrame`].
pub struct FrameView {
    pub width: nat,
    pub height: nat,
    pub bytes: Seq<u8>,
}

impl FrameView {
    /// The buffer holds four bytes for each of the `width * height` pixels.
    pub open spec fn well_formed(self) -> bool {
        self.bytes.len() == 4 * (self.width * self.height)
    }
}

/// A normalised frame: packed RGBA, eight bits per channel, alpha not
/// premultiplied, ready to be uploaded as a two-dimensional texture.
///
/// Every value of this type holds exactly `width * height * 4` bytes.
#[derive(Debug, PartialEq, Eq)]
pub struct ConvertedFrame {
    width: u32,
    height: u32,
    data: Vec<u8>,
}

impl View for ConvertedFrame {
    type V = FrameView;

    closed spec fn view(&self) -> FrameView {
        FrameView {
            width: self.width as nat,
            height: self.height as nat,
            bytes: self.data@,
        }
    }
}

/// The normalised pixel of one packed source pixel whose bytes are, in
/// buffer order, `first`, `second` and `third`: the colour bytes in reverse
/// order, then an opaque alpha byte.
pub open spec fn converted_pixel(first: u8, second: u8, third: u8) -> Seq<u8> {
    seq![third, second, first, OPAQUE]
}

/// Byte `j` of the normalised buffer that belongs to the packed
/// three-channel buffer `src`: byte `j % 4` of the normalised form of source
/// pixel `j / 4`.
pub open spec fn converted_byte(src: Seq<u8>, j: int) -> u8 {
    let p = j / 4;
    converted_pixel(src[3 * p], src[3 * p + 1], src[3 * p + 2])[j % 4]
}

/// The normalised buffer of the packed three-channel buffer `src`: four
/// bytes for every complete source pixel.
pub open spec fn converted_bytes(src: Seq<u8>) -> Seq<u8> {
    Seq::new(((src.len() / 3) * 4) as nat, |j: int| converted_byte(src, j))
}

/// Whether a raw frame can be normalised: three channels, and a buffer of
/// exactly `3 * width * height` bytes.
pub open spec fn convertible(raw: RawFrameView) -> bool {
    raw.channels == 3 && raw.bytes.len() == 3 * (raw.width * raw.height)
}

/// What normalising a raw frame yields.
pub open spec fn conversion(raw: RawFrameView) -> Result<FrameView, ConversionError> {
    if raw.channels != 3 {
        Err(ConversionError::UnsupportedLayout)
    } else if raw.bytes.len() != 3 * (raw.width * raw.height) {
        Err(ConversionError::SizeMismatch)
    } else {
        Ok(FrameView { width: raw.width, height: raw.height, bytes: converted_bytes(raw.bytes) })
    }
}

impl Clone for RawFrame {
    fn clone(&self) -> (copy: Self)
        ensures
            copy@ == self@,
    {
        RawFrame {
            width: self.width,
            height: self.height,
            channels: self.channels,
            data: self.data.clone(),
        }
    }
}

impl Clone for ConvertedFrame {
    fn clone(&self) -> (copy: Self)
        ensures
            copy@ == self@,
    {
        proof {
            use_type_invariant(self);
        }
        ConvertedFrame { width: self.width, height: self.height, data: self.data.clone() }
    }
}

impl ConvertedFrame {
    #[verifier::type_invariant]
    spec fn holds_every_pixel(self) -> bool {
        self.data@.len() == 4 * (self.width * self.height)
    }

    /// Wraps an RGBA buffer, provided that it holds exactly
    /// `width * height * 4` bytes.
    pub fn new(width: u32, height: u32, data: Vec<u8>) -> (res: Option<ConvertedFrame>)
        ensures
            res is Some <==> data@.len() == 4 * (width * height),
            res matches Some(frame) ==> frame@ == (FrameView {
                width: width as nat,
                height: height as nat,
                bytes: data@,
            }),
    {
        let pixels: u64 = pixel_count(width, height);
        if data.len() as u128 == (OUTPUT_CHANNELS as u128) * (pixels as u128) {
            Some(ConvertedFrame { width, height, data })
        } else {
            None
        }
    }

    /// Width in pixels.
    pub fn width(&self) -> (w: u32)
        ensures
            w == self@.width,
    {
        self.width
    }

    /// Height in pixels.
    pub fn height(&self) -> (h: u32)
        ensures
            h == self@.height,
    {
        self.height
    }

    /// The RGBA bytes, row by row.
    pub fn data(&self) -> (bytes: &[u8])
        ensures
            bytes@ == self@.bytes,
            self@.well_formed(),
    {
        proof {
            use_type_invariant(self);
        }
        self.data.as_slice()
    }

    /// Gives up the frame for its RGBA bytes.
    pub fn into_data(self) -> (bytes: Vec<u8>)
        ensures
            bytes@ == self@.bytes,
            self@.well_formed(),
    {
        proof {
            use_type_invariant(&self);
        }
        self.data
    }
}

/// Number of pixels of a `width` by `height` frame.
pub fn pixel_count(width: u32, height: u32) -> (n: u64)
    ensures
        n == width * height,
{
    assert(width * height <= u64::MAX) by (nonlinear_arith)
        requires
            width <= u32::MAX,
            height <= u32::MAX,
    ;
    (width as u64) * (height as u64)
}

/// Normalises a raw frame.
///
/// Succeeds exactly on three-channel frames whose buffer holds
/// `3 * width * height` bytes; the result has the same geometry, and each of
/// its pixels is the source pixel with the colour bytes reversed and an
/// opaque alpha byte appended. Any other frame is rejected with the reason.
///
/// In particular a frame that is accepted comes out with
/// `4 * width * height` bytes, every fourth of which is the opaque alpha.
pub fn convert(raw: &RawFrame) -> (res: Result<ConvertedFrame, ConversionError>)
    ensures
        match conversion(raw@) {
            Ok(expected) => res matches Ok(frame) && frame@ == expected,
            Err(reason) => res matches Err(e) && e == reason,
        },
        res is Ok <==> convertible(raw@),
        res matches Ok(frame) ==> {
            &&& frame@.width == raw.width
            &&& frame@.height == raw.height
            &&& frame@.bytes.len() == 4 * (raw.width * raw.height)
            &&& forall|j: int|
                0 <= j < frame@.bytes.len() && j % 4 == 3 ==> #[trigger] frame@.bytes[j] == OPAQUE
            &&& forall|j: int|
                0 <= j < frame@.bytes.len() && j % 4 != 3 ==> #[trigger] frame@.bytes[j]
                    == raw.data@[3 * (j / 4) + (2 - j % 4)]
        },
{
    if raw.channels != SOURCE_CHANNELS {
        return Err(ConversionError::UnsupportedLayout);
    }
    let pixels: u64 = pixel_count(raw.width, raw.height);
    if raw.data.len() as u128 != (SOURCE_CHANNELS as u128) * (pixels as u128) {
        return Err(ConversionError::SizeMismatch);
    }
    let count: usize = raw.data.len() / 3;
    let mut out: Vec<u8> = if count <= usize::MAX / 4 {
        Vec::with_capacity(4 * count)
    } else {
        Vec::new()
    };
    let mut i: usize = 0;
    while i < count
        invariant
            raw.data.len() == 3 * count,
            i <= count,
            out@.len() == 4 * i,
            forall|j: int| 0 <= j < out@.len() ==> out@[j] == converted_byte(raw.data@, j),
        decreases count - i,
    {
        let base: usize = 3 * i;
        out.push(raw.data[base + 2]);
        out.push(raw.data[base + 1]);
        out.push(raw.data[base]);
        out.push(OPAQUE);
        i = i + 1;
    }
    assert(out@ =~= converted_bytes(raw.data@));
    Ok(ConvertedFrame { width: raw.width, height: raw.height, data: out })
}

/// A buffer that ends in the middle of a pixel is never accepted: a frame
/// whose byte count is not a multiple of three cannot be normalised, and a
/// three-channel frame of that kind is rejected for its size.
pub proof fn lemma_partial_pixel_is_rejected(raw: RawFrameView)
    requires
        raw.bytes.len() % 3 != 0,
    ensures
        !convertible(raw),
        conversion(raw) is Err,
        raw.channels == 3 ==> conversion(raw) == Err::<FrameView, ConversionError>(
            ConversionError::SizeMismatch,
        ),
{
}

/// Conversion reverses the colour bytes of a pixel and appends an opaque
/// alpha: the one-pixel buffer `[b, g, r]` becomes `[r, g, b, 255]`.
pub proof fn lemma_single_pixel(b: u8, g: u8, r: u8)
    ensures
        converted_bytes(seq![b, g, r]) == seq![r, g, b, 255u8],
        conversion(RawFrameView { width: 1, height: 1, channels: 3, bytes: seq![b, g, r] }) == Ok::<
            FrameView,
            ConversionError,
        >(FrameView { width: 1, height: 1, bytes: seq![r, g, b, 255u8] }),
{
    let src = seq![b, g, r];
    assert(src.len() == 3 * (1 * 1));
    assert(converted_bytes(src) =~= seq![r, g, b, 255u8]);
}

/// Every pixel of a normalised buffer is its source pixel with the colour
/// bytes reversed and an opaque alpha appended, and the buffer holds four
/// bytes for each three of the source.
pub proof fn lemma_converted_pixels(src: Seq<u8>, pixels: nat)
    requires
        src.len() == 3 * pixels,
    ensures
        converted_bytes(src).len() == 4 * pixels,
        forall|p: int|
            0 <= p < pixels ==> #[trigger] converted_bytes(src).subrange(4 * p, 4 * p + 4)
                == converted_pixel(src[3 * p], src[3 * p + 1], src[3 * p + 2]),
        forall|p: int| 0 <= p < pixels ==> #[trigger] converted_bytes(src)[4 * p + 3] == OPAQUE,
{
    assert forall|p: int| 0 <= p < pixels implies #[trigger] converted_bytes(src).subrange(
        4 * p,
        4 * p + 4,
    ) == converted_pixel(src[3 * p], src[3 * p + 1], src[3 * p + 2]) by {
        assert(converted_bytes(src).subrange(4 * p, 4 * p + 4) =~= converted_pixel(
            src[3 * p],
            src[3 * p + 1],
            src[3 * p + 2],
        ));
    }
}

} // verus!
