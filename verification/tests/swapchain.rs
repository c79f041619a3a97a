use chaos_vk::swapchain::{
    swapchain, CompositeAlpha, Extent, PresentableImage, SurfaceCapabilities, Swapchain,
    SwapchainCreateInfo, SwapchainError,
};

fn caps() -> SurfaceCapabilities {
    SurfaceCapabilities {
        surface: 42,
        min_image_count: 2,
        supported_composite_alpha: vec![CompositeAlpha::PreMultiplied, CompositeAlpha::Opaque],
        formats: vec![44, 50, 37],
    }
}

#[test]
fn swapchain_asks_for_one_image_more_than_the_minimum() {
    let info = swapchain(&caps(), Extent { width: 1200, height: 900 }).unwrap();
    assert_eq!(
        info,
        SwapchainCreateInfo {
            surface: 42,
            min_image_count: 3,
            image_format: 44,
            image_extent: Extent { width: 1200, height: 900 },
            composite_alpha: CompositeAlpha::PreMultiplied,
        }
    );
}

#[test]
fn swapchain_refuses_what_cannot_be_built() {
    assert_eq!(swapchain(&caps(), Extent { width: 0, height: 900 }), Err(SwapchainError::ZeroExtent));
    assert_eq!(swapchain(&caps(), Extent { width: 1200, height: 0 }), Err(SwapchainError::ZeroExtent));
    let mut full = caps();
    full.min_image_count = u32::MAX;
    assert_eq!(swapchain(&full, Extent { width: 1, height: 1 }), Err(SwapchainError::TooManyImages));
    let mut blind = caps();
    blind.supported_composite_alpha.clear();
    assert_eq!(swapchain(&blind, Extent { width: 1, height: 1 }), Err(SwapchainError::NoCompositeAlpha));
    let mut bare = caps();
    bare.formats.clear();
    assert_eq!(swapchain(&bare, Extent { width: 1, height: 1 }), Err(SwapchainError::NoSurfaceFormat));
    bare.supported_composite_alpha.clear();
    assert_eq!(swapchain(&bare, Extent { width: 1, height: 1 }), Err(SwapchainError::NoCompositeAlpha));
    assert_eq!(swapchain(&bare, Extent { width: 0, height: 0 }), Err(SwapchainError::ZeroExtent));
}

#[test]
fn create_lists_the_granted_images() {
    let extent = Extent { width: 640, height: 480 };
    let (chain, images) = Swapchain::create(&caps(), extent, 3).unwrap();
    assert_eq!(chain.generation, 0);
    assert_eq!(chain.image_count, 3);
    assert_eq!(chain.info, swapchain(&caps(), extent).unwrap());
    assert_eq!(
        images,
        vec![
            PresentableImage { index: 0, format: 44, extent, generation: 0 },
            PresentableImage { index: 1, format: 44, extent, generation: 0 },
            PresentableImage { index: 2, format: 44, extent, generation: 0 },
        ]
    );
    assert_eq!(chain.image_list(), images);
    assert_eq!(
        Swapchain::create(&caps(), Extent { width: 0, height: 0 }, 3),
        Err(SwapchainError::ZeroExtent)
    );
}

#[test]
fn recreate_keeps_the_surface_and_replaces_the_images() {
    let (chain, old_images) =
        Swapchain::create(&caps(), Extent { width: 640, height: 480 }, 2).unwrap();
    let larger = Extent { width: 1920, height: 1080 };
    assert_eq!(
        chain.recreate_info(larger),
        Ok(SwapchainCreateInfo { image_extent: larger, ..chain.info })
    );
    let (next, images) = chain.recreate(larger, 3).unwrap();
    assert_eq!(next.info.surface, 42);
    assert_eq!(next.info.image_format, 44);
    assert_eq!(next.info.min_image_count, 3);
    assert_eq!(next.info.composite_alpha, CompositeAlpha::PreMultiplied);
    assert_eq!(next.info.image_extent, larger);
    assert_eq!(next.generation, 1);
    assert_eq!(images.len(), 3);
    for (i, image) in images.iter().enumerate() {
        assert_eq!(*image, PresentableImage { index: i, format: 44, extent: larger, generation: 1 });
        assert!(!old_images.contains(image));
    }
    let (same_size, again) = next.recreate(larger, 3).unwrap();
    assert_eq!(same_size.generation, 2);
    assert!(again.iter().all(|image| !images.contains(image)));
}

#[test]
fn recreate_refuses_a_zero_extent() {
    let (chain, _) = Swapchain::create(&caps(), Extent { width: 640, height: 480 }, 2).unwrap();
    assert_eq!(chain.recreate(Extent { width: 0, height: 480 }, 2), Err(SwapchainError::ZeroExtent));
    assert_eq!(chain.recreate_info(Extent { width: 640, height: 0 }), Err(SwapchainError::ZeroExtent));
}

#[test]
fn generation_wraps_around() {
    let (mut chain, _) = Swapchain::create(&caps(), Extent { width: 8, height: 8 }, 1).unwrap();
    chain.generation = u64::MAX;
    let (next, images) = chain.recreate(Extent { width: 8, height: 8 }, 1).unwrap();
    assert_eq!(next.generation, 0);
    assert_eq!(images[0].generation, 0);
}

#[test]
fn extent_is_nonzero_only_with_both_dimensions() {
    assert!(Extent { width: 1, height: 1 }.is_nonzero());
    assert!(!Extent { width: 0, height: 1 }.is_nonzero());
    assert!(!Extent { width: 1, height: 0 }.is_nonzero());
    assert!(!Extent { width: 0, height: 0 }.is_nonzero());
}
