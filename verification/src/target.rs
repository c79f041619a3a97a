//! The frame target builder: one renderable target per presentable image,
//! all of them sharing a single depth buffer where the layout has depth.

use vstd::prelude::*;
use crate::swapchain::{Extent, PresentableImage, Swapchain};

verus! {

/// Vulkan's code for four 8-bit unsigned normalised channels, RGBA.
pub const FORMAT_R8G8B8A8_UNORM: u32 = 37;

/// Vulkan's code for a 16-bit unsigned normalised depth channel.
pub const FORMAT_D16_UNORM: u32 = 124;

/// The attachments a render pass is declared with.
#[derive(Clone, Copy, Debug, PartialEq, Eq)]
pub struct RenderPassLayout {
    /// Format of the colour attachment.
    pub color_format: u32,
    /// Format of the depth attachment, where the pass has one.
    pub depth_format: Option<u32>,
}

/// A view of the depth buffer that the targets of one image set share.
#[derive(Clone, Copy, Debug, PartialEq, Eq, Structural)]
pub struct DepthView {
    pub format: u32,
    pub extent: Extent,
}

/// A renderable surface: one presentable image, the depth view it is bound
/// with, and the layout of the pass it belongs to.
#[derive(Clone, Copy, Debug, PartialEq, Eq)]
pub struct FrameTarget {
    pub image: PresentableImage,
    pub depth: Option<DepthView>,
    pub layout: RenderPassLayout,
}

/// Why a set of targets cannot be built.
#[derive(Clone, Copy, Debug, PartialEq, Eq, Structural)]
pub enum TargetError {
    /// The layout's attachments are not those the builder binds.
    AttachmentMismatch,
    /// A depth buffer takes its extent from the first image, and there is none.
    NoImages,
}

/// The layout of the primary pass: the chain's colour format, or RGBA8 for
/// an offscreen pass, and a 16-bit depth attachment.
pub open spec fn primary_layout(swapchain: Option<Swapchain>) -> RenderPassLayout {
    RenderPassLayout {
        color_format: match swapchain {
            Some(chain) => chain.info.image_format,
            None => FORMAT_R8G8B8A8_UNORM,
        },
        depth_format: Some(FORMAT_D16_UNORM),
    }
}

/// The depth view that the targets over `images` share: none for a layout
/// without depth; else the one handed in; else a new one of the layout's
/// depth format and the first image's extent.
pub open spec fn shared_depth(
    images: Seq<PresentableImage>,
    layout: RenderPassLayout,
    given: Option<DepthView>,
) -> Option<DepthView> {
    match layout.depth_format {
        None => None,
        Some(format) => match given {
            Some(view) => Some(view),
            None => if images.len() > 0 {
                Some(DepthView { format, extent: images[0].extent })
            } else {
                None
            },
        },
    }
}

/// The targets over `images`: the i-th is bound to the i-th image, and all
/// carry the same depth view.
pub open spec fn targets_for(
    images: Seq<PresentableImage>,
    layout: RenderPassLayout,
    given: Option<DepthView>,
) -> Seq<FrameTarget> {
    Seq::new(
        images.len(),
        |i: int| FrameTarget { image: images[i], depth: shared_depth(images, layout, given), layout },
    )
}

/// Describes the primary render pass for a chain, or for an offscreen image
/// where there is no chain.
pub fn render_pass_with_depth(swapchain: Option<&Swapchain>) -> (layout: RenderPassLayout)
    ensures
        layout == primary_layout(
            match swapchain {
                Some(chain) => Some(*chain),
                None => None,
            },
        ),
{
    let color_format: u32 = match swapchain {
        Some(chain) => chain.info.image_format,
        None => FORMAT_R8G8B8A8_UNORM,
    };
    RenderPassLayout { color_format, depth_format: Some(FORMAT_D16_UNORM) }
}

/// Builds the targets for an image set. For a layout with depth the one
/// depth view is `shared_depth` where it is given and a new one otherwise.
pub fn build_targets(
    images: &Vec<PresentableImage>,
    layout: RenderPassLayout,
    shared_depth: Option<DepthView>,
) -> (targets: Vec<FrameTarget>)
    ensures
        targets@ == targets_for(images@, layout, shared_depth),
{
    let depth: Option<DepthView> = match layout.depth_format {
        None => None,
        Some(format) => match shared_depth {
            Some(view) => Some(view),
            None => if images.len() > 0 {
                Some(DepthView { format, extent: images[0].extent })
            } else {
                None
            },
        },
    };
    let mut targets: Vec<FrameTarget> = Vec::new();
    let mut i: usize = 0;
    while i < images.len()
        invariant
            i <= images.len(),
            targets@.len() == i,
            depth == self::shared_depth(images@, layout, shared_depth),
            forall|k: int|
                0 <= k < i ==> targets@[k] == (FrameTarget { image: images@[k], depth, layout }),
        decreases images.len() - i,
    {
        targets.push(FrameTarget { image: images[i], depth, layout });
        i = i + 1;
    }
    assert(targets@ =~= targets_for(images@, layout, shared_depth));
    targets
}

/// Colour-only targets, for a layout without depth.
pub fn framebuffers(rp: RenderPassLayout, images: &Vec<PresentableImage>) -> (r: Result<
    Vec<FrameTarget>,
    TargetError,
>)
    ensures
        match r {
            Ok(targets) => rp.depth_format is None && targets@ == targets_for(images@, rp, None),
            Err(e) => rp.depth_format is Some && e == TargetError::AttachmentMismatch,
        },
{
    if rp.depth_format.is_some() {
        return Err(TargetError::AttachmentMismatch);
    }
    Ok(build_targets(images, rp, None))
}

/// Targets for a layout with depth: one depth buffer of the first image's
/// extent is made and bound to every target.
pub fn framebuffers_with_depth(rp: RenderPassLayout, images: &Vec<PresentableImage>) -> (r: Result<
    Vec<FrameTarget>,
    TargetError,
>)
    ensures
        match r {
            Ok(targets) => rp.depth_format is Some && images@.len() > 0 && targets@ == targets_for(
                images@,
                rp,
                None,
            ),
            Err(e) => if rp.depth_format is None {
                e == TargetError::AttachmentMismatch
            } else {
                images@.len() == 0 && e == TargetError::NoImages
            },
        },
{
    if rp.depth_format.is_none() {
        return Err(TargetError::AttachmentMismatch);
    }
    if images.len() == 0 {
        return Err(TargetError::NoImages);
    }
    Ok(build_targets(images, rp, None))
}

/// There is exactly one target per image, the i-th over the i-th image, and
/// any two targets carry the same depth view and layout.
pub proof fn lemma_one_target_per_image(
    images: Seq<PresentableImage>,
    layout: RenderPassLayout,
    given: Option<DepthView>,
)
    ensures
        targets_for(images, layout, given).len() == images.len(),
        forall|i: int|
            0 <= i < images.len() ==> (#[trigger] targets_for(images, layout, given)[i]).image
                == images[i],
        forall|i: int, j: int|
            0 <= i < images.len() && 0 <= j < images.len() ==> (#[trigger] targets_for(
                images,
                layout,
                given,
            )[i]).depth == (#[trigger] targets_for(images, layout, given)[j]).depth,
        layout.depth_format is None ==> forall|i: int|
            0 <= i < images.len() ==> (#[trigger] targets_for(images, layout, given)[i]).depth
                is None,
        layout.depth_format is Some && images.len() > 0 ==> forall|i: int|
            0 <= i < images.len() ==> (#[trigger] targets_for(images, layout, given)[i]).depth
                is Some,
{
}

} // verus!
