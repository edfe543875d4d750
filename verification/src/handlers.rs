//! The thumbnail handlers behind the two shell capability contracts:
//! "produce a thumbnail bitmap from a byte stream" and "produce a thumbnail
//! bitmap from a file path". Each call is bounded by a fixed deadline and a
//! fixed input-size cutoff and always delivers some bitmap — a real render
//! or a fallback raster — never a raw failure.
//!
//! A handler decides in two steps. [`ThumbnailHandler::begin_thumbnail`] or
//! [`ThumbnailFileHandler::begin_thumbnail`] inspects the input and either
//! short-circuits to a fallback or describes the render job; the host runs
//! the job on a bounded worker (the timeout executor) and hands the outcome
//! to [`finish_thumbnail`], which fixes the delivered bitmap for every
//! possible outcome.

use vstd::prelude::*;

use crate::errors::NotInitialized;
use crate::fallback::FALLBACK_SIDE;
use crate::fallback::FailureKind;
use crate::fallback::SIZE_LIMIT_BYTES;
use crate::fallback::fallback_argb;
use crate::fallback::fallback_argb_pixel;
use crate::pixels::argb_pixel_of;
use crate::pixels::rgba_to_argb;
use crate::session::RendererBackend;
use crate::text::string_push_str;

verus! {

/// The wall-clock deadline for one full load-and-capture pipeline.
pub const RENDER_DEADLINE_MS: u64 = 5000;

/// What a handler reads from the shell's input stream: the stream's
/// declared size and its bytes.
#[derive(Debug)]
pub struct StreamData {
    pub declared_size: u64,
    pub bytes: Vec<u8>,
}

/// The model source a render job works on: an in-memory buffer with a
/// filename hint, or a file path.
#[derive(Debug)]
pub enum RenderSource {
    Memory { bytes: Vec<u8>, filename_hint: String },
    File { path: String },
}

/// What a handler decides before any rendering happens: deliver a fallback
/// raster outright — neither the import backend nor the timeout executor is
/// ever invoked for it — or run a bounded render job.
#[derive(Debug)]
pub enum ThumbnailJob {
    Fallback(FailureKind),
    Render { width: u32, height: u32, deadline_ms: u64, source: RenderSource },
}

/// Serves thumbnails from an in-memory byte stream, for one file extension.
#[derive(Debug)]
pub struct ThumbnailHandler {
    pub filename_hint: &'static str,
    pub stream: Option<StreamData>,
}

impl ThumbnailHandler {
    pub fn new(filename_hint: &'static str) -> (h: Self)
        ensures
            h.filename_hint@ == filename_hint@,
            h.stream is None,
    {
        ThumbnailHandler { filename_hint, stream: None }
    }

    /// Accepts the input stream's contents ahead of the thumbnail request.
    pub fn initialize(&mut self, stream: StreamData)
        ensures
            final(self).stream == Some(stream),
            final(self).filename_hint@ == old(self).filename_hint@,
    {
        self.stream = Some(stream);
    }

    /// Decides the thumbnail request: without an input stream the request
    /// fails outright; a declared size over the cutoff short-circuits to the
    /// `TooLarge` fallback without touching the bytes; anything else becomes
    /// a bounded render job of the requested square size over the buffered
    /// bytes, hinted as an in-memory source. The stream is consumed either
    /// way.
    pub fn begin_thumbnail(&mut self, cx: u32) -> (r: Result<ThumbnailJob, NotInitialized>)
        requires
            1 <= cx,
            cx * cx * 4 <= u32::MAX,
        ensures
            final(self).stream is None,
            final(self).filename_hint@ == old(self).filename_hint@,
            match old(self).stream {
                None => r is Err,
                Some(s) => {
                    if s.declared_size > SIZE_LIMIT_BYTES {
                        r == Ok::<ThumbnailJob, NotInitialized>(
                            ThumbnailJob::Fallback(FailureKind::TooLarge),
                        )
                    } else {
                        &&& r matches Ok(ThumbnailJob::Render { width, height, deadline_ms, source })
                        &&& width == cx
                        &&& height == cx
                        &&& deadline_ms == RENDER_DEADLINE_MS
                        &&& source matches RenderSource::Memory { bytes, filename_hint }
                        &&& bytes@ == s.bytes@
                        &&& filename_hint@ == "inmemory"@ + old(self).filename_hint@
                    }
                },
            },
    {
        let stream = self.stream.take();
        match stream {
            None => Err(NotInitialized),
            Some(s) => {
                if s.declared_size > SIZE_LIMIT_BYTES {
                    Ok(ThumbnailJob::Fallback(FailureKind::TooLarge))
                } else {
                    let mut hint = String::new();
                    string_push_str(&mut hint, "inmemory");
                    string_push_str(&mut hint, self.filename_hint);
                    Ok(
                        ThumbnailJob::Render {
                            width: cx,
                            height: cx,
                            deadline_ms: RENDER_DEADLINE_MS,
                            source: RenderSource::Memory { bytes: s.bytes, filename_hint: hint },
                        },
                    )
                }
            },
        }
    }
}

/// Serves thumbnails from a file path, for one file extension, on a chosen
/// rendering backend.
#[derive(Debug)]
pub struct ThumbnailFileHandler {
    pub filepath: String,
    pub backend: RendererBackend,
}

impl ThumbnailFileHandler {
    pub fn new(backend: RendererBackend) -> (h: Self)
        ensures
            h.filepath@.len() == 0,
            h.backend == backend,
    {
        ThumbnailFileHandler { filepath: String::new(), backend }
    }

    /// Accepts the file path ahead of the thumbnail request.
    pub fn initialize(&mut self, filepath: String)
        ensures
            final(self).filepath == filepath,
            final(self).backend == old(self).backend,
    {
        self.filepath = filepath;
    }

    /// Decides the thumbnail request: without a path the request fails
    /// outright; a file whose metadata declares more bytes than the cutoff
    /// short-circuits to the `TooLarge` fallback (unreadable metadata does
    /// not — the render job itself will discover a truly unreadable file);
    /// anything else becomes a bounded render job over the file at the
    /// fixed fallback side length. The path is consumed either way.
    pub fn begin_thumbnail(&mut self, metadata_len: Option<u64>) -> (r: Result<
        ThumbnailJob,
        NotInitialized,
    >)
        ensures
            final(self).filepath@.len() == 0,
            final(self).backend == old(self).backend,
            old(self).filepath@.len() == 0 ==> r is Err,
            old(self).filepath@.len() > 0 ==> {
                if metadata_len matches Some(l) && l > SIZE_LIMIT_BYTES {
                    r == Ok::<ThumbnailJob, NotInitialized>(
                        ThumbnailJob::Fallback(FailureKind::TooLarge),
                    )
                } else {
                    &&& r matches Ok(ThumbnailJob::Render { width, height, deadline_ms, source })
                    &&& width == FALLBACK_SIDE
                    &&& height == FALLBACK_SIDE
                    &&& deadline_ms == RENDER_DEADLINE_MS
                    &&& source matches RenderSource::File { path }
                    &&& path@ == old(self).filepath@
                }
            },
    {
        let filepath = self.filepath.clone();
        self.filepath = String::new();
        if filepath.as_str().is_empty() {
            return Err(NotInitialized);
        }
        let too_large = match metadata_len {
            Some(l) => l > SIZE_LIMIT_BYTES,
            None => false,
        };
        if too_large {
            Ok(ThumbnailJob::Fallback(FailureKind::TooLarge))
        } else {
            Ok(
                ThumbnailJob::Render {
                    width: FALLBACK_SIDE,
                    height: FALLBACK_SIDE,
                    deadline_ms: RENDER_DEADLINE_MS,
                    source: RenderSource::File { path: filepath },
                },
            )
        }
    }
}

/// Index `l` holds the first NUL unit of a wide-character buffer.
pub open spec fn is_first_nul(units: Seq<u16>, l: int) -> bool {
    &&& 0 <= l < units.len()
    &&& units[l] == 0
    &&& forall|k: int| 0 <= k < l ==> units[k] != 0
}

/// Measures the NUL-terminated path a host hands over as raw wide
/// characters: the number of units before the first NUL, accepted only when
/// the path is nonempty and at most 1024 units long. Everything else —
/// empty, unterminated within the cap, or overlong — is rejected before any
/// of it is interpreted.
pub fn wide_path_length(units: &[u16]) -> (r: Result<usize, NotInitialized>)
    ensures
        match r {
            Ok(l) => is_first_nul(units@, l as int) && 0 < l <= 1024,
            Err(_) => forall|l: int| is_first_nul(units@, l) ==> !(0 < l <= 1024),
        },
{
    let n = units.len();
    let mut i: usize = 0;
    while i < n && i <= 1024
        invariant
            i <= n,
            n == units@.len(),
            forall|k: int| 0 <= k < i ==> units@[k] != 0,
        decreases n - i,
    {
        if units[i] == 0 {
            if i == 0 {
                proof {
                    assert forall|l: int| is_first_nul(units@, l) implies !(0 < l <= 1024) by {
                        if l > 0 {
                            assert(units@[0] != 0);
                        }
                    }
                }
                return Err(NotInitialized);
            }
            return Ok(i);
        }
        i = i + 1;
    }
    // no NUL within the cap: any first NUL lies past index 1024 or nowhere
    proof {
        assert forall|l: int| is_first_nul(units@, l) implies !(0 < l <= 1024) by {
            if 0 < l <= 1024 {
                assert(l >= i || units@[l] != 0);
            }
        }
    }
    Err(NotInitialized)
}

/// The fields of a 32-bit ARGB device-independent-bitmap header, as the
/// host's bitmap surface wants them filled in.
#[derive(Clone, Copy, Debug, PartialEq, Eq, Structural)]
pub struct BitmapHeader {
    pub header_size: u32,
    pub width: i32,
    pub height: i32,
    pub planes: u16,
    pub bits_per_pixel: u16,
}

/// The header of a top-down 32-bit ARGB bitmap of the given size: one
/// plane, 32 bits per pixel, and a negative height, which is how a bitmap
/// declares that its top row comes first — matching the screenshot layout.
pub fn argb_bitmap_header(width: u32, height: u32) -> (h: BitmapHeader)
    requires
        width <= i32::MAX,
        height <= i32::MAX,
    ensures
        h.header_size == 40,
        h.width == width,
        h.height == -(height as int),
        h.planes == 1,
        h.bits_per_pixel == 32,
{
    BitmapHeader {
        header_size: 40,
        width: width as i32,
        height: -(height as i32),
        planes: 1,
        bits_per_pixel: 32,
    }
}

/// How the bounded worker run of a render job ended.
#[derive(Debug)]
pub enum WorkerOutcome {
    /// The worker finished in time: it produced a screenshot, or found the
    /// model impossible to import and produced nothing.
    Finished(Option<Vec<u8>>),
    /// The deadline elapsed first; the worker was abandoned.
    TimedOut,
    /// The worker could not be run or did not survive to report.
    Failed,
}

/// The bitmap a handler delivers to its host.
#[derive(Debug)]
pub struct ThumbnailBitmap {
    pub width: u32,
    pub height: u32,
    pub argb: Vec<u32>,
}

/// The bitmap is the full fallback raster of the given failure category.
pub open spec fn is_fallback_bitmap(b: ThumbnailBitmap, kind: FailureKind) -> bool {
    &&& b.width == FALLBACK_SIDE
    &&& b.height == FALLBACK_SIDE
    &&& b.argb@.len() == (FALLBACK_SIDE as int) * (FALLBACK_SIDE as int)
    &&& forall|k: int| 0 <= k < b.argb@.len() ==> b.argb@[k] == fallback_argb_pixel(kind)
}

/// Delivers the bitmap for a finished render job: the worker's RGBA8
/// screenshot repacked as ARGB at the job's size when it produced one; the
/// `RenderError` raster when the model could not be imported or the worker
/// did not survive; the `Timeout` raster when the deadline won. Every
/// outcome yields a bitmap — a failure never propagates raw.
pub fn finish_thumbnail(width: u32, height: u32, outcome: WorkerOutcome) -> (b: ThumbnailBitmap)
    requires
        width * height * 4 <= u32::MAX,
        outcome matches WorkerOutcome::Finished(Some(buf)) ==> buf@.len() == width * height * 4,
    ensures
        match outcome {
            WorkerOutcome::Finished(Some(buf)) => {
                &&& b.width == width
                &&& b.height == height
                &&& b.argb@.len() == width * height
                &&& forall|k: int| 0 <= k < b.argb@.len() ==> b.argb@[k] == argb_pixel_of(buf@, k)
            },
            WorkerOutcome::Finished(None) => is_fallback_bitmap(b, FailureKind::RenderError),
            WorkerOutcome::TimedOut => is_fallback_bitmap(b, FailureKind::Timeout),
            WorkerOutcome::Failed => is_fallback_bitmap(b, FailureKind::RenderError),
        },
{
    match outcome {
        WorkerOutcome::Finished(Some(buf)) => {
            proof {
                assert(buf@.len() % 4 == 0);
                assert(buf@.len() / 4 == width * height);
            }
            ThumbnailBitmap { width, height, argb: rgba_to_argb(&buf) }
        },
        WorkerOutcome::Finished(None) => ThumbnailBitmap {
            width: FALLBACK_SIDE,
            height: FALLBACK_SIDE,
            argb: fallback_argb(FailureKind::RenderError),
        },
        WorkerOutcome::TimedOut => ThumbnailBitmap {
            width: FALLBACK_SIDE,
            height: FALLBACK_SIDE,
            argb: fallback_argb(FailureKind::Timeout),
        },
        WorkerOutcome::Failed => ThumbnailBitmap {
            width: FALLBACK_SIDE,
            height: FALLBACK_SIDE,
            argb: fallback_argb(FailureKind::RenderError),
        },
    }
}

} // verus!
