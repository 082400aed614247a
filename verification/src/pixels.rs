//! The decoded image: a pixel buffer with its dimensions and channel layout.

use vstd::prelude::*;
use crate::error::FormatError;
use crate::header::ContainerHeader;
use crate::size::{payload_size, payload_size_of, pixel_bytes};

verus! {

/// How the bytes of a pixel are laid out.
#[derive(Debug, Clone, Copy, PartialEq, Eq, Structural)]
pub enum ChannelLayout {
    /// Three bytes per pixel: red, green, blue.
    Rgb8,
    /// Four bytes per pixel: red, green, blue, alpha.
    Rgba8,
}

impl ChannelLayout {
    /// Bytes per pixel.
    pub open spec fn spec_channels(self) -> u8 {
        match self {
            ChannelLayout::Rgb8 => 3,
            ChannelLayout::Rgba8 => 4,
        }
    }

    /// Bytes per pixel.
    #[verifier::when_used_as_spec(spec_channels)]
    pub fn channels(self) -> (n: u8)
        ensures
            n == self.spec_channels(),
    {
        match self {
            ChannelLayout::Rgb8 => 3,
            ChannelLayout::Rgba8 => 4,
        }
    }
}

/// The layout that a channel count stands for, if any.
pub open spec fn layout_of(channels: u8) -> Option<ChannelLayout> {
    if channels == 3 {
        Some(ChannelLayout::Rgb8)
    } else if channels == 4 {
        Some(ChannelLayout::Rgba8)
    } else {
        None
    }
}

/// The mathematical content of a `DecodedImage`.
pub struct ImageView {
    pub width: u32,
    pub height: u32,
    pub layout: ChannelLayout,
    pub data: Seq<u8>,
}

impl ImageView {
    /// The buffer holds every channel of every pixel and nothing else.
    pub open spec fn wf(self) -> bool {
        self.data.len() == pixel_bytes(self.width, self.height, self.layout.spec_channels())
    }
}

/// An owned image of `width * height` pixels in row-major order.
#[derive(Debug, PartialEq, Eq)]
pub struct DecodedImage {
    width: u32,
    height: u32,
    layout: ChannelLayout,
    data: Vec<u8>,
}

impl View for DecodedImage {
    type V = ImageView;

    closed spec fn view(&self) -> ImageView {
        ImageView { width: self.width, height: self.height, layout: self.layout, data: self.data@ }
    }
}

impl Clone for DecodedImage {
    fn clone(&self) -> (copy: Self)
        ensures
            copy@ == self@,
    {
        proof {
            use_type_invariant(self);
        }
        let data = self.data.clone();
        assert(data@ =~= self.data@);
        DecodedImage { width: self.width, height: self.height, layout: self.layout, data }
    }
}

/// What `build_image` yields for a header and the bytes of a payload.
pub open spec fn image_of(header: ContainerHeader, payload: Seq<u8>) -> Result<
    ImageView,
    FormatError,
> {
    match layout_of(header.channels) {
        None => Err(FormatError::UnsupportedChannels { channels: header.channels }),
        Some(layout) => match payload_size_of(header) {
            Err(e) => Err(e),
            Ok(expected) => if payload.len() == expected {
                Ok(ImageView { width: header.width, height: header.height, layout, data: payload })
            } else {
                Err(
                    FormatError::BufferLengthMismatch {
                        expected,
                        actual: payload.len() as usize,
                    },
                )
            },
        },
    }
}

/// Every image that `image_of` accepts is well formed.
pub proof fn lemma_image_of_wf(header: ContainerHeader, payload: Seq<u8>)
    ensures
        image_of(header, payload) matches Ok(image) ==> image.wf(),
{
}

impl DecodedImage {
    #[verifier::type_invariant]
    spec fn inv(self) -> bool {
        self@.wf()
    }

    /// Width in pixels.
    pub fn width(&self) -> (w: u32)
        ensures
            w == self@.width,
    {
        self.width
    }

    /// Height in pixels.
    pub fn height(&self) -> (h: u32)
        ensures
            h == self@.height,
    {
        self.height
    }

    /// The channel layout.
    pub fn layout(&self) -> (layout: ChannelLayout)
        ensures
            layout == self@.layout,
    {
        self.layout
    }

    /// The pixel bytes, `width * height * channels` of them.
    pub fn data(&self) -> (data: &Vec<u8>)
        ensures
            data@ == self@.data,
            self@.wf(),
    {
        proof {
            use_type_invariant(self);
        }
        &self.data
    }

    /// Gives up the image for its pixel bytes.
    pub fn into_raw(self) -> (data: Vec<u8>)
        ensures
            data@ == self@.data,
            self@.wf(),
    {
        proof {
            use_type_invariant(&self);
        }
        self.data
    }
}

/// Wraps `payload` as the image that `header` describes. The payload must
/// hold exactly the bytes that the header's dimensions and channels call for.
pub fn build_image(header: &ContainerHeader, payload: Vec<u8>) -> (r: Result<
    DecodedImage,
    FormatError,
>)
    ensures
        match r {
            Ok(image) => image_of(*header, payload@) == Ok::<ImageView, FormatError>(image@),
            Err(e) => image_of(*header, payload@) == Err::<ImageView, FormatError>(e),
        },
{
    let layout = if header.channels == 3 {
        ChannelLayout::Rgb8
    } else if header.channels == 4 {
        ChannelLayout::Rgba8
    } else {
        return Err(FormatError::UnsupportedChannels { channels: header.channels });
    };
    let expected: usize = match payload_size(header) {
        Ok(expected) => expected,
        Err(e) => {
            return Err(e);
        },
    };
    if payload.len() != expected {
        return Err(FormatError::BufferLengthMismatch { expected, actual: payload.len() });
    }
    Ok(DecodedImage { width: header.width, height: header.height, layout, data: payload })
}

} // verus!
