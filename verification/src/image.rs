//! Staging of pixel data: how many bytes an RGBA8 image takes and which
//! bytes of a source go into the transfer buffer.

use vstd::prelude::*;

verus! {

/// What the overlay renderer refuses.
#[derive(Clone, Copy, Debug, PartialEq, Eq)]
pub enum RendererError {
    /// No texture is registered under this id.
    BadTexture(usize),
    /// The pixel data does not cover the image, or the image is too large to address.
    BadImageDimensions(),
}

/// Bytes per pixel of an image with four 8-bit channels.
pub const RGBA_BYTES: usize = 4;

/// The number of bytes of an RGBA8 image of `width` by `height` pixels.
pub open spec fn rgba_len(width: u32, height: u32) -> nat {
    (width as nat) * (height as nat) * 4
}

/// The size in bytes of an RGBA8 image, if it can be addressed.
pub fn rgba_byte_len(width: u32, height: u32) -> (r: Result<usize, RendererError>)
    ensures
        match r {
            Ok(len) => len == rgba_len(width, height),
            Err(e) => rgba_len(width, height) > usize::MAX && e
                == RendererError::BadImageDimensions(),
        },
{
    assert((width as nat) * (height as nat) <= 0xFFFF_FFFE_0000_0001) by (nonlinear_arith)
        requires
            width <= 0xFFFF_FFFF,
            height <= 0xFFFF_FFFF,
    ;
    let pixels: u64 = (width as u64) * (height as u64);
    if pixels > (usize::MAX / RGBA_BYTES) as u64 {
        assert(rgba_len(width, height) > usize::MAX);
        return Err(RendererError::BadImageDimensions());
    }
    let len: usize = (pixels as usize) * RGBA_BYTES;
    Ok(len)
}

/// The content of the staging buffer for an RGBA8 image of `width` by
/// `height` pixels: the leading bytes of `data`, as many as the image takes.
/// Data that does not cover the image is refused.
pub fn copy_buffer_to_image(width: u32, height: u32, data: &[u8]) -> (r: Result<
    Vec<u8>,
    RendererError,
>)
    ensures
        match r {
            Ok(staged) => rgba_len(width, height) <= data@.len() && staged@ == data@.subrange(
                0,
                rgba_len(width, height) as int,
            ),
            Err(e) => rgba_len(width, height) > data@.len() && e
                == RendererError::BadImageDimensions(),
        },
{
    let available: usize = data.len();
    let len = match rgba_byte_len(width, height) {
        Ok(len) => len,
        Err(e) => {
            return Err(e);
        },
    };
    if len > available {
        return Err(RendererError::BadImageDimensions());
    }
    let mut staged: Vec<u8> = Vec::new();
    let mut i: usize = 0;
    while i < len
        invariant
            i <= len,
            len <= data@.len(),
            staged@ == data@.subrange(0, i as int),
        decreases len - i,
    {
        staged.push(data[i]);
        assert(staged@ =~= data@.subrange(0, i as int + 1));
        i = i + 1;
    }
    Ok(staged)
}

/// The initial content of the buffer that an RGBA8 image of `width` by
/// `height` pixels is read back into: one zero byte per channel and pixel.
pub fn copy_image_to_buffer(width: u32, height: u32) -> (r: Result<Vec<u8>, RendererError>)
    ensures
        match r {
            Ok(zeroed) => zeroed@ == Seq::new(rgba_len(width, height), |i: int| 0u8),
            Err(e) => rgba_len(width, height) > usize::MAX && e
                == RendererError::BadImageDimensions(),
        },
{
    let len = match rgba_byte_len(width, height) {
        Ok(len) => len,
        Err(e) => {
            return Err(e);
        },
    };
    let mut zeroed: Vec<u8> = Vec::new();
    let mut i: usize = 0;
    while i < len
        invariant
            i <= len,
            zeroed@ == Seq::new(i as nat, |k: int| 0u8),
        decreases len - i,
    {
        zeroed.push(0u8);
        assert(zeroed@ =~= Seq::new((i + 1) as nat, |k: int| 0u8));
        i = i + 1;
    }
    Ok(zeroed)
}

} // verus!
