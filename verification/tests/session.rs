use space_thumbnails::errors::CaptureError;
use space_thumbnails::errors::ImportError;
use space_thumbnails::framing::BoundingBox;
use space_thumbnails::framing::Rational;
use space_thumbnails::framing::Vec3;
use space_thumbnails::session::CaptureRequest;
use space_thumbnails::session::DestroyStep;
use space_thumbnails::session::ImportedAsset;
use space_thumbnails::session::RendererBackend;
use space_thumbnails::session::SpaceThumbnailsRenderer;
use space_thumbnails::session::SUNLIGHT_ENTITY;
use space_thumbnails::session::TeardownKind;

fn sample_asset() -> ImportedAsset {
    ImportedAsset {
        entities: vec![10, 11, 12],
        root: 12,
        bounds: BoundingBox::new(Vec3::new(-50, -50, -50), Vec3::new(50, 50, 50)),
        authored_camera: None,
        teardown: TeardownKind::Generic { asset_handle: 7 },
    }
}

fn second_asset() -> ImportedAsset {
    ImportedAsset {
        entities: vec![20, 21],
        root: 20,
        bounds: BoundingBox::new(Vec3::new(0, 0, 0), Vec3::new(10, 20, 30)),
        authored_camera: None,
        teardown: TeardownKind::StructuredScene {
            asset_handle: 8,
            loader: 9,
            material_provider: 13,
        },
    }
}

#[test]
fn new_session_has_rig_and_no_asset() {
    let s = SpaceThumbnailsRenderer::new(RendererBackend::Vulkan, 800, 800);
    assert_eq!(s.get_size(), (800, 800));
    assert!(s.asset.is_none());
    assert_eq!(s.scene_entities, vec![SUNLIGHT_ENTITY]);
}

#[test]
fn screenshot_size_is_width_height_four() {
    let s = SpaceThumbnailsRenderer::new(RendererBackend::Default, 800, 800);
    assert_eq!(s.get_screenshot_size_in_byte(), 800 * 800 * 4);
    let s2 = SpaceThumbnailsRenderer::new(RendererBackend::OpenGL, 33, 17);
    assert_eq!(s2.get_screenshot_size_in_byte(), 33 * 17 * 4);
}

#[test]
fn buffer_one_byte_short_fails() {
    let mut s = SpaceThumbnailsRenderer::new(RendererBackend::Metal, 800, 800);
    let size = s.get_screenshot_size_in_byte();
    assert_eq!(s.take_screenshot_sync(size - 1), Err(CaptureError::BufferTooSmall));
    assert_eq!(
        s.take_screenshot_sync(size),
        Ok(CaptureRequest { left: 0, bottom: 0, width: 800, height: 800 })
    );
}

#[test]
fn capture_twice_yields_identical_requests() {
    let mut s = SpaceThumbnailsRenderer::new(RendererBackend::Vulkan, 256, 256);
    let size = s.get_screenshot_size_in_byte();
    let first = s.take_screenshot_sync(size);
    let second = s.take_screenshot_sync(size);
    assert_eq!(first, second);
}

#[test]
fn finish_capture_reports_readback() {
    let s = SpaceThumbnailsRenderer::new(RendererBackend::Vulkan, 256, 256);
    assert_eq!(s.finish_capture(true), Ok(256 * 256 * 4));
    assert_eq!(s.finish_capture(false), Err(CaptureError::ReadbackFailed));
}

#[test]
fn install_places_entities_in_scene() {
    let mut s = SpaceThumbnailsRenderer::new(RendererBackend::Vulkan, 256, 256);
    let teardown = s.destory_opened_asset();
    assert!(teardown.is_none());
    let plan = s.install_asset(sample_asset());
    assert_eq!(plan.add_entities, vec![10, 11, 12]);
    assert_eq!(plan.root, 12);
    assert_eq!(s.scene_entities, vec![SUNLIGHT_ENTITY, 10, 11, 12]);
    // centering transform of a cube 100 units wide
    assert_eq!(plan.root_transform.scale_num, 2);
    assert_eq!(plan.root_transform.den, 100);
    assert_eq!(plan.root_transform.offset, Vec3::new(0, 0, 0));
    // every load resets the same fixed physical exposure
    assert_eq!(plan.exposure.aperture, Rational { num: 16, den: 1 });
    assert_eq!(plan.exposure.shutter_speed, Rational { num: 1, den: 125 });
    assert_eq!(plan.exposure.sensitivity, Rational { num: 100, den: 1 });
}

#[test]
fn swap_removes_previous_asset_completely() {
    let mut s = SpaceThumbnailsRenderer::new(RendererBackend::Vulkan, 256, 256);
    s.install_asset(sample_asset());

    let teardown = s.destory_opened_asset().expect("an asset was installed");
    assert_eq!(teardown.remove_entities, vec![10, 11, 12]);
    assert_eq!(teardown.release, TeardownKind::Generic { asset_handle: 7 });
    assert!(s.asset.is_none());

    s.install_asset(second_asset());
    assert_eq!(s.scene_entities, vec![SUNLIGHT_ENTITY, 20, 21]);
    for old_entity in [10u64, 11, 12] {
        assert!(!s.scene_entities.contains(&old_entity));
    }
}

#[test]
fn failed_reload_leaves_no_asset() {
    let mut s = SpaceThumbnailsRenderer::new(RendererBackend::Vulkan, 256, 256);
    s.install_asset(sample_asset());
    // the previous asset is torn down before the import runs; when the
    // import fails, nothing is installed
    let _ = s.destory_opened_asset();
    assert!(s.asset.is_none());
    assert_eq!(s.scene_entities, vec![SUNLIGHT_ENTITY]);
}

#[test]
fn finish_load_propagates_import_failure() {
    let mut s = SpaceThumbnailsRenderer::new(RendererBackend::Vulkan, 256, 256);
    s.install_asset(sample_asset());
    let _ = s.destory_opened_asset();
    let r = s.finish_load(Err(ImportError));
    assert!(matches!(r, Err(ImportError)));
    assert!(s.asset.is_none());
    assert_eq!(s.scene_entities, vec![SUNLIGHT_ENTITY]);
}

#[test]
fn finish_load_installs_a_successful_import() {
    let mut s = SpaceThumbnailsRenderer::new(RendererBackend::Vulkan, 256, 256);
    let r = s.finish_load(Ok(second_asset()));
    let plan = r.expect("the import succeeded");
    assert_eq!(plan.add_entities, vec![20, 21]);
    assert_eq!(s.scene_entities, vec![SUNLIGHT_ENTITY, 20, 21]);
}

#[test]
fn destroy_follows_dependency_order() {
    let mut s = SpaceThumbnailsRenderer::new(RendererBackend::Vulkan, 256, 256);
    s.install_asset(sample_asset());
    let plan = s.destroy();
    assert_eq!(
        plan,
        vec![
            DestroyStep::RemoveEntity(10),
            DestroyStep::RemoveEntity(11),
            DestroyStep::RemoveEntity(12),
            DestroyStep::ReleaseImport(TeardownKind::Generic { asset_handle: 7 }),
            DestroyStep::DestroyCameraComponents,
            DestroyStep::DestroySunlightComponents,
            DestroyStep::DestroyCameraEntity,
            DestroyStep::DestroySunlightEntity,
            DestroyStep::DestroyEnvironmentTexture,
            DestroyStep::DestroyIndirectLight,
            DestroyStep::DestroyScene,
            DestroyStep::DestroyView,
            DestroyStep::DestroyRenderer,
            DestroyStep::DestroySwapTarget,
            DestroyStep::DestroyContext,
        ]
    );
}

#[test]
fn destroy_without_asset_skips_teardown() {
    let s = SpaceThumbnailsRenderer::new(RendererBackend::Vulkan, 64, 64);
    let plan = s.destroy();
    assert_eq!(plan.len(), 11);
    assert_eq!(plan[0], DestroyStep::DestroyCameraComponents);
    assert_eq!(plan[10], DestroyStep::DestroyContext);
}
