use space_thumbnails::fallback::FailureKind;
use space_thumbnails::handlers::RENDER_DEADLINE_MS;
use space_thumbnails::handlers::RenderSource;
use space_thumbnails::handlers::StreamData;
use space_thumbnails::handlers::ThumbnailFileHandler;
use space_thumbnails::handlers::ThumbnailHandler;
use space_thumbnails::handlers::ThumbnailJob;
use space_thumbnails::handlers::WorkerOutcome;
use space_thumbnails::handlers::argb_bitmap_header;
use space_thumbnails::handlers::finish_thumbnail;
use space_thumbnails::handlers::wide_path_length;
use space_thumbnails::session::RendererBackend;

#[test]
fn uninitialized_stream_handler_fails() {
    let mut h = ThumbnailHandler::new(".obj");
    assert!(h.begin_thumbnail(256).is_err());
}

#[test]
fn declared_301_megabytes_short_circuits_to_too_large() {
    let mut h = ThumbnailHandler::new(".obj");
    h.initialize(StreamData { declared_size: 301 * 1024 * 1024, bytes: vec![1, 2, 3] });
    let job = h.begin_thumbnail(256).expect("stream was installed");
    // the fallback is decided outright: no render job, so neither the
    // import backend nor the timeout executor is ever invoked
    match job {
        ThumbnailJob::Fallback(kind) => assert_eq!(kind, FailureKind::TooLarge),
        ThumbnailJob::Render { .. } => panic!("an oversized input must never reach a render job"),
    }
}

#[test]
fn acceptable_stream_becomes_a_bounded_render_job() {
    let mut h = ThumbnailHandler::new(".obj");
    h.initialize(StreamData { declared_size: 3, bytes: vec![1, 2, 3] });
    let job = h.begin_thumbnail(96).expect("stream was installed");
    match job {
        ThumbnailJob::Render { width, height, deadline_ms, source } => {
            assert_eq!((width, height), (96, 96));
            assert_eq!(deadline_ms, RENDER_DEADLINE_MS);
            assert_eq!(deadline_ms, 5000);
            match source {
                RenderSource::Memory { bytes, filename_hint } => {
                    assert_eq!(bytes, vec![1, 2, 3]);
                    assert_eq!(filename_hint, "inmemory.obj");
                },
                RenderSource::File { .. } => panic!("a stream job renders from memory"),
            }
        },
        ThumbnailJob::Fallback(_) => panic!("a small input must be rendered"),
    }
    // the stream is consumed: a second request fails
    assert!(h.begin_thumbnail(96).is_err());
}

#[test]
fn uninitialized_file_handler_fails() {
    let mut h = ThumbnailFileHandler::new(RendererBackend::Vulkan);
    assert!(h.begin_thumbnail(Some(10)).is_err());
}

#[test]
fn oversized_file_short_circuits_to_too_large() {
    let mut h = ThumbnailFileHandler::new(RendererBackend::Vulkan);
    h.initialize("C:\\models\\huge.gltf".to_owned());
    let job = h.begin_thumbnail(Some(301 * 1024 * 1024)).expect("path was installed");
    match job {
        ThumbnailJob::Fallback(kind) => assert_eq!(kind, FailureKind::TooLarge),
        ThumbnailJob::Render { .. } => panic!("an oversized file must never reach a render job"),
    }
}

#[test]
fn readable_file_becomes_a_render_job_even_without_metadata() {
    let mut h = ThumbnailFileHandler::new(RendererBackend::Vulkan);
    h.initialize("C:\\models\\car.glb".to_owned());
    let job = h.begin_thumbnail(None).expect("path was installed");
    match job {
        ThumbnailJob::Render { width, height, deadline_ms, source } => {
            assert_eq!((width, height), (256, 256));
            assert_eq!(deadline_ms, 5000);
            match source {
                RenderSource::File { path } => assert_eq!(path, "C:\\models\\car.glb"),
                RenderSource::Memory { .. } => panic!("a file job renders from its path"),
            }
        },
        ThumbnailJob::Fallback(_) => panic!("a readable file must be rendered"),
    }
}

#[test]
fn wide_path_length_measures_to_the_first_nul() {
    assert_eq!(wide_path_length(&[104, 105, 0]), Ok(2));
    assert_eq!(wide_path_length(&[104, 105, 0, 106, 0]), Ok(2));
    assert!(wide_path_length(&[0, 104]).is_err());
    assert!(wide_path_length(&[104, 105]).is_err());
    let mut overlong = vec![65u16; 1030];
    overlong.push(0);
    assert!(wide_path_length(&overlong).is_err());
}

#[test]
fn finished_job_delivers_repacked_pixels() {
    // a 1 by 1 screenshot: r g b a
    let outcome = WorkerOutcome::Finished(Some(vec![0x10, 0x20, 0x30, 0x40]));
    let bitmap = finish_thumbnail(1, 1, outcome);
    assert_eq!((bitmap.width, bitmap.height), (1, 1));
    assert_eq!(bitmap.argb, vec![0x40102030]);
}

#[test]
fn timed_out_job_delivers_the_timeout_raster() {
    let bitmap = finish_thumbnail(96, 96, WorkerOutcome::TimedOut);
    assert_eq!((bitmap.width, bitmap.height), (256, 256));
    assert_eq!(bitmap.argb.len(), 256 * 256);
    assert_eq!(bitmap.argb[0], 0xFFFFC107);
}

#[test]
fn failed_import_delivers_the_render_error_raster() {
    let bitmap = finish_thumbnail(96, 96, WorkerOutcome::Finished(None));
    assert_eq!((bitmap.width, bitmap.height), (256, 256));
    assert_eq!(bitmap.argb[0], 0xFFD32F2F);
    let bitmap2 = finish_thumbnail(96, 96, WorkerOutcome::Failed);
    assert_eq!(bitmap2.argb[0], 0xFFD32F2F);
}

#[test]
fn bitmap_header_is_top_down_argb() {
    let h = argb_bitmap_header(256, 256);
    assert_eq!(h.header_size, 40);
    assert_eq!(h.width, 256);
    assert_eq!(h.height, -256);
    assert_eq!(h.planes, 1);
    assert_eq!(h.bits_per_pixel, 32);
}
