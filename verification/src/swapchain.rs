//! The swapchain manager: which create parameters a surface is asked for,
//! and which presentable images a chain owns once the device has granted it.

use vstd::prelude::*;

verus! {

/// A size in pixels.
#[derive(Clone, Copy, Debug, PartialEq, Eq, Structural)]
pub struct Extent {
    pub width: u32,
    pub height: u32,
}

impl Extent {
    /// Both dimensions are at least one pixel.
    pub open spec fn nonzero(self) -> bool {
        self.width > 0 && self.height > 0
    }

    /// Whether a swapchain can be built at this size: a minimised window
    /// reports a zero dimension.
    pub fn is_nonzero(&self) -> (b: bool)
        ensures
            b == self.nonzero(),
    {
        self.width > 0 && self.height > 0
    }
}

/// How the presentation engine blends the window with what is behind it.
#[derive(Clone, Copy, Debug, PartialEq, Eq, Structural)]
pub enum CompositeAlpha {
    Opaque,
    PreMultiplied,
    PostMultiplied,
    Inherit,
}

/// What a surface reports about itself, as far as chain creation reads it.
#[derive(Debug)]
pub struct SurfaceCapabilities {
    /// Identity of the surface the capabilities were queried from.
    pub surface: u64,
    /// Fewest images the surface can work with.
    pub min_image_count: u32,
    /// Supported blend modes, in the surface's own order.
    pub supported_composite_alpha: Vec<CompositeAlpha>,
    /// Supported image formats as Vulkan format codes, in the surface's own order.
    pub formats: Vec<u32>,
}

/// The parameters a chain is created with.
#[derive(Clone, Copy, Debug, PartialEq, Eq, Structural)]
pub struct SwapchainCreateInfo {
    pub surface: u64,
    pub min_image_count: u32,
    pub image_format: u32,
    pub image_extent: Extent,
    pub composite_alpha: CompositeAlpha,
}

/// Why no chain can be asked for.
#[derive(Clone, Copy, Debug, PartialEq, Eq, Structural)]
pub enum SwapchainError {
    /// The desired extent has a zero dimension.
    ZeroExtent,
    /// One image more than the surface's minimum does not fit in 32 bits.
    TooManyImages,
    /// The surface supports no blend mode.
    NoCompositeAlpha,
    /// The surface supports no image format.
    NoSurfaceFormat,
}

/// The create parameters for a surface with capabilities `caps` and a window
/// of size `extent`: one image more than the minimum, the first supported
/// blend mode and the first supported format.
pub open spec fn create_info_for(caps: SurfaceCapabilities, extent: Extent) -> Result<
    SwapchainCreateInfo,
    SwapchainError,
> {
    if !extent.nonzero() {
        Err(SwapchainError::ZeroExtent)
    } else if caps.min_image_count == u32::MAX {
        Err(SwapchainError::TooManyImages)
    } else if caps.supported_composite_alpha@.len() == 0 {
        Err(SwapchainError::NoCompositeAlpha)
    } else if caps.formats@.len() == 0 {
        Err(SwapchainError::NoSurfaceFormat)
    } else {
        Ok(
            SwapchainCreateInfo {
                surface: caps.surface,
                min_image_count: (caps.min_image_count + 1) as u32,
                image_format: caps.formats@[0],
                image_extent: extent,
                composite_alpha: caps.supported_composite_alpha@[0],
            },
        )
    }
}

/// Chooses the parameters of a new chain for a window of size `extent`.
pub fn swapchain(caps: &SurfaceCapabilities, extent: Extent) -> (r: Result<
    SwapchainCreateInfo,
    SwapchainError,
>)
    ensures
        r == create_info_for(*caps, extent),
{
    if !extent.is_nonzero() {
        return Err(SwapchainError::ZeroExtent);
    }
    if caps.min_image_count == u32::MAX {
        return Err(SwapchainError::TooManyImages);
    }
    if caps.supported_composite_alpha.len() == 0 {
        return Err(SwapchainError::NoCompositeAlpha);
    }
    if caps.formats.len() == 0 {
        return Err(SwapchainError::NoSurfaceFormat);
    }
    Ok(
        SwapchainCreateInfo {
            surface: caps.surface,
            min_image_count: caps.min_image_count + 1,
            image_format: caps.formats[0],
            image_extent: extent,
            composite_alpha: caps.supported_composite_alpha[0],
        },
    )
}

/// One image of a chain. The generation tells the images of a chain apart
/// from those of the chain it replaced.
#[derive(Clone, Copy, Debug, PartialEq, Eq, Structural)]
pub struct PresentableImage {
    pub index: usize,
    pub format: u32,
    pub extent: Extent,
    pub generation: u64,
}

/// A chain of presentable images as the device granted it.
#[derive(Clone, Copy, Debug, PartialEq, Eq, Structural)]
pub struct Swapchain {
    /// The parameters the chain was created with.
    pub info: SwapchainCreateInfo,
    /// Counts the rebuilds of the chain, wrapping.
    pub generation: u64,
    /// How many images the device granted.
    pub image_count: usize,
}

impl Swapchain {
    /// The image at position `i` of this chain.
    pub open spec fn image(self, i: int) -> PresentableImage {
        PresentableImage {
            index: i as usize,
            format: self.info.image_format,
            extent: self.info.image_extent,
            generation: self.generation,
        }
    }

    /// The images of this chain, by index.
    pub open spec fn images(self) -> Seq<PresentableImage> {
        Seq::new(self.image_count as nat, |i: int| self.image(i))
    }

    /// `img` is one of this chain's images.
    pub open spec fn owns(self, img: PresentableImage) -> bool {
        img.index < self.image_count && img == self.image(img.index as int)
    }

    /// The chain that replaces `self` at `new_extent` with `granted` images:
    /// same surface, format and blend mode, next generation.
    pub open spec fn recreated(self, new_extent: Extent, granted: usize) -> Swapchain {
        Swapchain {
            info: SwapchainCreateInfo { image_extent: new_extent, ..self.info },
            generation: if self.generation == u64::MAX {
                0
            } else {
                (self.generation + 1) as u64
            },
            image_count: granted,
        }
    }

    /// Lists the images of the chain.
    pub fn image_list(&self) -> (images: Vec<PresentableImage>)
        ensures
            images@ == self.images(),
    {
        let mut images: Vec<PresentableImage> = Vec::new();
        let mut i: usize = 0;
        while i < self.image_count
            invariant
                i <= self.image_count,
                images@.len() == i,
                forall|k: int| 0 <= k < i ==> images@[k] == self.image(k),
            decreases self.image_count - i,
        {
            images.push(
                PresentableImage {
                    index: i,
                    format: self.info.image_format,
                    extent: self.info.image_extent,
                    generation: self.generation,
                },
            );
            i = i + 1;
        }
        assert(images@ =~= self.images());
        images
    }

    /// The first chain of a surface, once the device has granted `granted`
    /// images for the parameters that [`swapchain`] chose.
    pub fn create(caps: &SurfaceCapabilities, desired_extent: Extent, granted: usize) -> (r: Result<
        (Swapchain, Vec<PresentableImage>),
        SwapchainError,
    >)
        ensures
            match (create_info_for(*caps, desired_extent), r) {
                (Ok(info), Ok((chain, images))) => chain == (Swapchain {
                    info,
                    generation: 0,
                    image_count: granted,
                }) && images@ == chain.images(),
                (Err(e), Err(got)) => got == e,
                _ => false,
            },
    {
        match swapchain(caps, desired_extent) {
            Ok(info) => {
                let chain = Swapchain { info, generation: 0, image_count: granted };
                let images = chain.image_list();
                Ok((chain, images))
            },
            Err(e) => Err(e),
        }
    }

    /// The parameters to rebuild this chain with at `new_extent`: those in
    /// force, with the extent replaced.
    pub fn recreate_info(&self, new_extent: Extent) -> (r: Result<
        SwapchainCreateInfo,
        SwapchainError,
    >)
        ensures
            new_extent.nonzero() ==> r == Ok::<SwapchainCreateInfo, SwapchainError>(
                self.recreated(new_extent, 0).info,
            ),
            !new_extent.nonzero() ==> r == Err::<SwapchainCreateInfo, SwapchainError>(
                SwapchainError::ZeroExtent,
            ),
    {
        if !new_extent.is_nonzero() {
            return Err(SwapchainError::ZeroExtent);
        }
        Ok(
            SwapchainCreateInfo {
                surface: self.info.surface,
                min_image_count: self.info.min_image_count,
                image_format: self.info.image_format,
                image_extent: new_extent,
                composite_alpha: self.info.composite_alpha,
            },
        )
    }

    /// The chain that takes this one's place at `new_extent`, once the device
    /// has granted `granted` images for what [`Swapchain::recreate_info`] asked.
    /// A zero extent is refused and nothing is rebuilt.
    pub fn recreate(&self, new_extent: Extent, granted: usize) -> (r: Result<
        (Swapchain, Vec<PresentableImage>),
        SwapchainError,
    >)
        ensures
            match r {
                Ok((chain, images)) => new_extent.nonzero() && chain == self.recreated(
                    new_extent,
                    granted,
                ) && images@ == chain.images(),
                Err(e) => !new_extent.nonzero() && e == SwapchainError::ZeroExtent,
            },
    {
        match self.recreate_info(new_extent) {
            Ok(info) => {
                let chain = Swapchain {
                    info,
                    generation: self.generation.wrapping_add(1),
                    image_count: granted,
                };
                let images = chain.image_list();
                Ok((chain, images))
            },
            Err(e) => Err(e),
        }
    }
}

/// A rebuilt chain keeps the surface, the format and the blend mode of the
/// chain it replaces, and owns none of that chain's images.
pub proof fn lemma_recreate_invalidates(old_chain: Swapchain, new_extent: Extent, granted: usize)
    ensures
        old_chain.recreated(new_extent, granted).info.surface == old_chain.info.surface,
        old_chain.recreated(new_extent, granted).info.image_format == old_chain.info.image_format,
        old_chain.recreated(new_extent, granted).info.composite_alpha
            == old_chain.info.composite_alpha,
        forall|img: PresentableImage| #[trigger]
            old_chain.owns(img) ==> !old_chain.recreated(new_extent, granted).owns(img),
{
}

/// Every image a chain lists is owned by it and sits at its own index.
pub proof fn lemma_images_owned(chain: Swapchain)
    ensures
        chain.images().len() == chain.image_count,
        forall|i: int|
            0 <= i < chain.image_count ==> chain.owns(#[trigger] chain.images()[i])
                && chain.images()[i].index == i,
{
}

} // verus!
