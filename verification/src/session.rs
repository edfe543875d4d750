//! The render session: ownership bookkeeping for the offscreen rendering
//! pipeline, the asset swap protocol, and screenshot capture contracts.
//!
//! The rendering backend itself is driven from outside the library: the
//! session names every backend-owned resource by a plain handle, decides
//! what must happen to it and in which order, and hands the host explicit
//! plans (teardown steps, install steps, capture requests, destroy steps).
//! The host executes each plan against the backend verbatim. Everything the
//! session decides — which entities are in the scene, when a teardown runs,
//! what the camera placement is, the strict destroy order — is verified
//! here.

use vstd::prelude::*;

use crate::errors::CaptureError;
use crate::errors::ImportError;
use crate::framing::AuthoredCamera;
use crate::framing::BoundingBox;
use crate::framing::CameraPose;
use crate::framing::Rational;
use crate::framing::Transform;
use crate::framing::Viewport;
use crate::framing::fit_into_unit_cube;
use crate::framing::authored_camera_framing;
use crate::framing::setup_camera_surround_view;
use crate::framing::spec_authored_pose;
use crate::framing::spec_fit_into_unit_cube;
use crate::framing::spec_orbit_pose;
use crate::framing::spec_transform_box;
use crate::framing::transform_box;

verus! {

/// Which rendering backend the session's context is created on.
#[derive(Clone, Copy, Debug, PartialEq, Eq, PartialOrd, Ord, Structural)]
pub enum RendererBackend {
    Default,
    OpenGL,
    Vulkan,
    Metal,
}

/// The handle the session uses for its camera entity. The host binds the
/// library's fixed rig handles to the backend entities it created.
pub const CAMERA_ENTITY: u64 = 0;

/// The handle the session uses for its directional sunlight entity.
pub const SUNLIGHT_ENTITY: u64 = 1;

/// The teardown capability of a loaded asset: a closed tagged union with one
/// variant per import path, each carrying exactly the backend state its own
/// cleanup must release. Once installed it stands for a complete teardown —
/// partial teardown is not representable.
#[derive(Clone, Copy, Debug, PartialEq, Eq, Structural)]
pub enum TeardownKind {
    /// The generic importer's teardown: frees the importer's asset handle
    /// (the entities themselves are named in the teardown plan).
    Generic { asset_handle: u64 },
    /// The structured-scene importer's teardown: additionally releases its
    /// resource loader and material provider.
    StructuredScene { asset_handle: u64, loader: u64, material_provider: u64 },
}

/// What a successful import hands the session: the entities to place in the
/// scene (root included), the root entity the centering transform applies
/// to, the model's bounding box, an authored camera if the source embeds
/// one, and the teardown capability for this import path.
#[derive(Debug)]
pub struct ImportedAsset {
    pub entities: Vec<u64>,
    pub root: u64,
    pub bounds: BoundingBox,
    pub authored_camera: Option<AuthoredCamera>,
    pub teardown: TeardownKind,
}

impl ImportedAsset {
    pub open spec fn wf(self) -> bool {
        &&& self.bounds.wf()
        &&& self.entities@.contains(self.root)
        &&& !self.entities@.contains(CAMERA_ENTITY as u64)
        &&& !self.entities@.contains(SUNLIGHT_ENTITY as u64)
        &&& (self.authored_camera matches Some(m) ==> m.wf())
    }
}

/// The asset currently installed in a session: its scene entities, its
/// bounding box, and the teardown capability that removes it completely.
#[derive(Debug)]
pub struct AssetSwap {
    pub entities: Vec<u64>,
    pub bounds: BoundingBox,
    pub teardown: TeardownKind,
}

/// The backend work that tears one asset down: remove these entities from
/// the scene, in order, then release the import backend's own state. The
/// removals come first; the release runs only after every entity is out.
#[derive(Debug)]
pub struct TeardownPlan {
    pub remove_entities: Vec<u64>,
    pub release: TeardownKind,
}

/// The fixed physical exposure every load resets the camera to:
/// aperture f/16, shutter 1/125 s, ISO 100.
#[derive(Clone, Copy, Debug, PartialEq, Eq, Structural)]
pub struct Exposure {
    pub aperture: Rational,
    pub shutter_speed: Rational,
    pub sensitivity: Rational,
}

/// The exposure installed on every load, independent of the model.
pub open spec fn spec_default_exposure() -> Exposure {
    Exposure {
        aperture: Rational { num: 16, den: 1 },
        shutter_speed: Rational { num: 1, den: 125 },
        sensitivity: Rational { num: 100, den: 1 },
    }
}

/// The backend work that installs one imported asset: add these entities to
/// the scene, apply the centering transform to the root, reset the camera
/// exposure, and set the camera pose.
#[derive(Debug)]
pub struct InstallPlan {
    pub add_entities: Vec<u64>,
    pub root: u64,
    pub root_transform: Transform,
    pub exposure: Exposure,
    pub camera: CameraPose,
}

/// What an install plan must say for an imported asset: add exactly its
/// entities, apply the centering transform computed from its bounding box
/// to its root, reset the fixed exposure, and set the camera from the
/// authored camera when the source embeds one, from the orbit framing of
/// the centered box otherwise.
pub open spec fn spec_install_plan(plan: InstallPlan, asset: ImportedAsset, viewport: Viewport) -> bool {
    &&& plan.add_entities@ == asset.entities@
    &&& plan.root == asset.root
    &&& plan.root_transform == spec_fit_into_unit_cube(asset.bounds)
    &&& plan.exposure == spec_default_exposure()
    &&& plan.camera == match asset.authored_camera {
        Some(m) => spec_authored_pose(m, spec_fit_into_unit_cube(asset.bounds), viewport),
        None => spec_orbit_pose(
            spec_transform_box(spec_fit_into_unit_cube(asset.bounds), asset.bounds),
            viewport,
        ),
    }
}

/// One step of the full session teardown. The session's destroy plan lists
/// these in strict dependency order: entities and their components before
/// the entity allocator releases them, scene before view, view before
/// renderer, renderer before the swap target, and the swap target before
/// the context itself.
#[derive(Clone, Copy, Debug, PartialEq, Eq, Structural)]
pub enum DestroyStep {
    /// Remove one asset entity from the scene.
    RemoveEntity(u64),
    /// Release the import backend state of the pending asset.
    ReleaseImport(TeardownKind),
    DestroyCameraComponents,
    DestroySunlightComponents,
    DestroyCameraEntity,
    DestroySunlightEntity,
    DestroyEnvironmentTexture,
    DestroyIndirectLight,
    DestroyScene,
    DestroyView,
    DestroyRenderer,
    DestroySwapTarget,
    DestroyContext,
}

/// One frame render into the offscreen target followed by an asynchronous
/// pixel readback over the full viewport, RGBA8, row-major, top row first.
#[derive(Clone, Copy, Debug, PartialEq, Eq, Structural)]
pub struct CaptureRequest {
    pub left: u32,
    pub bottom: u32,
    pub width: u32,
    pub height: u32,
}

/// A render session: the owner of one rendering context, scene, lighting
/// rig, camera, and offscreen target, with at most one loaded asset.
/// Constructed once; the viewport never changes afterwards; destroyed
/// exactly once by [`SpaceThumbnailsRenderer::destroy`], which consumes it.
#[derive(Debug)]
pub struct SpaceThumbnailsRenderer {
    pub backend: RendererBackend,
    pub viewport: Viewport,
    pub scene_entities: Vec<u64>,
    pub asset: Option<AssetSwap>,
}

impl SpaceThumbnailsRenderer {
    /// The session invariant: the viewport is positive and small enough for
    /// the pixel math, the lighting rig is in the scene, and the scene holds
    /// exactly the sunlight plus the installed asset's entities.
    pub open spec fn wf(self) -> bool {
        &&& self.viewport.wf()
        &&& self.viewport.width * self.viewport.height * 4 <= u32::MAX
        &&& match self.asset {
            Some(a) => {
                &&& a.bounds.wf()
                &&& self.scene_entities@ == seq![SUNLIGHT_ENTITY as u64] + a.entities@
                &&& !a.entities@.contains(CAMERA_ENTITY as u64)
                &&& !a.entities@.contains(SUNLIGHT_ENTITY as u64)
            },
            None => self.scene_entities@ == seq![SUNLIGHT_ENTITY as u64],
        }
    }

    /// The entities the scene currently references.
    pub open spec fn scene(self) -> Seq<u64> {
        self.scene_entities@
    }

    /// Bytes one full-viewport RGBA8 screenshot occupies.
    pub open spec fn spec_screenshot_size(self) -> int {
        self.viewport.width * self.viewport.height * 4
    }

    /// The capture request this session issues: the full viewport from the
    /// origin. A pure function of the session state.
    pub open spec fn spec_capture_request(self) -> CaptureRequest {
        CaptureRequest {
            left: 0,
            bottom: 0,
            width: self.viewport.width,
            height: self.viewport.height,
        }
    }

    /// Creates the session bookkeeping for a context of the chosen backend
    /// with an offscreen target of the given size. The host builds the
    /// context, scene, offscreen target, lighting rig and camera, binds the
    /// rig handles, and pays the warm-up render here, before the first real
    /// capture. The viewport is fixed for the session's whole life.
    pub fn new(backend: RendererBackend, width: u32, height: u32) -> (s: Self)
        requires
            width >= 1,
            height >= 1,
            width * height * 4 <= u32::MAX,
        ensures
            s.wf(),
            s.backend == backend,
            s.viewport == (Viewport { width, height }),
            s.asset is None,
            s.scene() == seq![SUNLIGHT_ENTITY as u64],
    {
        let mut scene_entities: Vec<u64> = Vec::new();
        scene_entities.push(SUNLIGHT_ENTITY);
        proof {
            assert(scene_entities@ =~= seq![SUNLIGHT_ENTITY as u64]);
        }
        SpaceThumbnailsRenderer {
            backend,
            viewport: Viewport { width, height },
            scene_entities,
            asset: None,
        }
    }

    /// The fixed viewport, as `(width, height)`.
    pub fn get_size(&self) -> (r: (u32, u32))
        ensures
            r == (self.viewport.width, self.viewport.height),
    {
        (self.viewport.width, self.viewport.height)
    }

    /// Exactly `width * height * 4`: the size a caller's output buffer must
    /// have for one RGBA8 screenshot.
    pub fn get_screenshot_size_in_byte(&self) -> (n: usize)
        requires
            self.wf(),
        ensures
            n == self.spec_screenshot_size(),
    {
        (self.viewport.width * self.viewport.height * 4) as usize
    }

    /// Tears the installed asset out of the session, if any: every entity
    /// the asset brought leaves the scene and its teardown capability is
    /// handed back as an explicit plan the host must run to completion
    /// before any new asset's entities are added. After the call the
    /// session holds no asset and the scene is the lighting rig alone.
    pub fn destory_opened_asset(&mut self) -> (plan: Option<TeardownPlan>)
        requires
            old(self).wf(),
        ensures
            final(self).wf(),
            final(self).asset is None,
            final(self).scene() == seq![SUNLIGHT_ENTITY as u64],
            final(self).backend == old(self).backend,
            final(self).viewport == old(self).viewport,
            match old(self).asset {
                Some(a) => {
                    &&& plan matches Some(p)
                    &&& p.remove_entities@ == a.entities@
                    &&& p.release == a.teardown
                },
                None => {
                    &&& plan is None
                    &&& *final(self) == *old(self)
                },
            },
    {
        let asset = self.asset.take();
        match asset {
            Some(a) => {
                let mut rig: Vec<u64> = Vec::new();
                rig.push(SUNLIGHT_ENTITY);
                proof {
                    assert(rig@ =~= seq![SUNLIGHT_ENTITY as u64]);
                }
                self.scene_entities = rig;
                Some(TeardownPlan { remove_entities: a.entities, release: a.teardown })
            },
            None => None,
        }
    }

    /// The session state that installing `asset` into `before` leaves
    /// behind: the viewport, backend and rig untouched, the asset slot
    /// filled, and the scene holding the rig plus exactly the new entities.
    pub open spec fn spec_installed(self, before: Self, asset: ImportedAsset) -> bool {
        &&& self.wf()
        &&& self.backend == before.backend
        &&& self.viewport == before.viewport
        &&& self.asset matches Some(a) && a.entities@ == asset.entities@ && a.bounds
            == asset.bounds && a.teardown == asset.teardown
        &&& self.scene() == seq![SUNLIGHT_ENTITY as u64] + asset.entities@
    }

    /// Installs a freshly imported asset. The replace protocol demands that
    /// the previous asset is already torn down — the session must hold no
    /// asset — so a failed import simply leaves the session empty; no
    /// previous asset survives a failed reload. The returned plan is exactly
    /// what [`spec_install_plan`] demands: add the new entities, center the
    /// root, reset the fixed exposure, and set the camera.
    ///
    /// The camera framing is computed, totally and without any fallible
    /// step, before the scene is touched, and the teardown capability is
    /// installed in the same step that records the entities: an asset whose
    /// entities are in the scene always has a registered teardown.
    pub fn install_asset(&mut self, asset: ImportedAsset) -> (plan: InstallPlan)
        requires
            old(self).wf(),
            old(self).asset is None,
            asset.wf(),
        ensures
            final(self).spec_installed(*old(self), asset),
            spec_install_plan(plan, asset, old(self).viewport),
    {
        let transform = fit_into_unit_cube(&asset.bounds);
        let camera = match &asset.authored_camera {
            Some(m) => authored_camera_framing(m, &transform, &self.viewport),
            None => {
                let centered = transform_box(&transform, &asset.bounds);
                setup_camera_surround_view(&centered, &self.viewport)
            },
        };
        let add_entities = copy_entities(&asset.entities);
        let mut scene: Vec<u64> = Vec::new();
        scene.push(SUNLIGHT_ENTITY);
        let mut i: usize = 0;
        while i < asset.entities.len()
            invariant
                i <= asset.entities@.len(),
                scene@ == seq![SUNLIGHT_ENTITY as u64] + asset.entities@.subrange(0, i as int),
            decreases asset.entities@.len() - i,
        {
            scene.push(asset.entities[i]);
            proof {
                assert(scene@ =~= seq![SUNLIGHT_ENTITY as u64] + asset.entities@.subrange(
                    0,
                    i as int + 1,
                ));
            }
            i = i + 1;
        }
        proof {
            assert(asset.entities@.subrange(0, asset.entities@.len() as int) =~= asset.entities@);
        }
        self.scene_entities = scene;
        let root = asset.root;
        self.asset = Some(AssetSwap {
            entities: asset.entities,
            bounds: asset.bounds,
            teardown: asset.teardown,
        });
        InstallPlan {
            add_entities,
            root,
            root_transform: transform,
            exposure: Exposure {
                aperture: Rational { num: 16, den: 1 },
                shutter_speed: Rational { num: 1, den: 125 },
                sensitivity: Rational { num: 100, den: 1 },
            },
            camera,
        }
    }

    /// Completes the replace protocol once the import backend has run: a
    /// successful import is installed; a failed one propagates its error and
    /// leaves the session exactly as the teardown left it — empty, since the
    /// prior asset was already torn down before the import was attempted.
    pub fn finish_load(&mut self, import: Result<ImportedAsset, ImportError>) -> (r: Result<
        InstallPlan,
        ImportError,
    >)
        requires
            old(self).wf(),
            old(self).asset is None,
            import matches Ok(a) ==> a.wf(),
        ensures
            match import {
                Ok(a) => {
                    &&& r matches Ok(plan)
                    &&& final(self).spec_installed(*old(self), a)
                    &&& spec_install_plan(plan, a, old(self).viewport)
                },
                Err(e) => {
                    &&& r == Err::<InstallPlan, ImportError>(e)
                    &&& *final(self) == *old(self)
                },
            },
    {
        match import {
            Ok(asset) => Ok(self.install_asset(asset)),
            Err(e) => Err(e),
        }
    }

    /// What a screenshot call does: reject a buffer smaller than
    /// `width * height * 4` bytes with `BufferTooSmall`, otherwise issue the
    /// full-viewport capture request. The session itself is left exactly as
    /// it was — capture never changes session state.
    pub open spec fn spec_take_screenshot(self, output_len: int) -> Result<CaptureRequest, CaptureError> {
        if output_len < self.spec_screenshot_size() {
            Err(CaptureError::BufferTooSmall)
        } else {
            Ok(self.spec_capture_request())
        }
    }

    /// Begins a synchronous screenshot into a caller buffer of the given
    /// length: checks the buffer size, then hands the host the capture
    /// request to execute (render one frame, read the pixels back, signal
    /// completion). The host finishes with [`Self::finish_capture`].
    pub fn take_screenshot_sync(&mut self, output_len: usize) -> (r: Result<
        CaptureRequest,
        CaptureError,
    >)
        requires
            old(self).wf(),
        ensures
            *final(self) == *old(self),
            r == old(self).spec_take_screenshot(output_len as int),
    {
        if output_len < self.get_screenshot_size_in_byte() {
            Err(CaptureError::BufferTooSmall)
        } else {
            Ok(CaptureRequest {
                left: 0,
                bottom: 0,
                width: self.viewport.width,
                height: self.viewport.height,
            })
        }
    }

    /// Ends a capture once the backend has flushed: a completion flag that
    /// was observed true yields the byte count written; a backend that never
    /// signalled completion is a fatal `ReadbackFailed`, never a silent
    /// return of a partially written buffer.
    pub fn finish_capture(&self, readback_complete: bool) -> (r: Result<usize, CaptureError>)
        requires
            self.wf(),
        ensures
            r == if readback_complete {
                Ok::<usize, CaptureError>(self.spec_screenshot_size() as usize)
            } else {
                Err::<usize, CaptureError>(CaptureError::ReadbackFailed)
            },
    {
        if readback_complete {
            Ok(self.get_screenshot_size_in_byte())
        } else {
            Err(CaptureError::ReadbackFailed)
        }
    }

    /// The full teardown sequence of the session, in strict dependency
    /// order: first the pending asset (entity removals, then its import
    /// state), then the rig entities' components before the entities
    /// themselves, then the lighting resources, and only then scene, view,
    /// renderer, swap target, and the context last. Consuming the session
    /// makes the terminal state unreachable for further calls.
    pub fn destroy(self) -> (plan: Vec<DestroyStep>)
        requires
            self.wf(),
        ensures
            plan@ == spec_destroy_steps(self),
    {
        let mut plan: Vec<DestroyStep> = Vec::new();
        match &self.asset {
            Some(a) => {
                let mut i: usize = 0;
                while i < a.entities.len()
                    invariant
                        i <= a.entities@.len(),
                        plan@ == a.entities@.subrange(0, i as int).map_values(
                            |e: u64| DestroyStep::RemoveEntity(e),
                        ),
                    decreases a.entities@.len() - i,
                {
                    plan.push(DestroyStep::RemoveEntity(a.entities[i]));
                    proof {
                        assert(plan@ =~= a.entities@.subrange(0, i as int + 1).map_values(
                            |e: u64| DestroyStep::RemoveEntity(e),
                        ));
                    }
                    i = i + 1;
                }
                proof {
                    assert(a.entities@.subrange(0, a.entities@.len() as int) =~= a.entities@);
                }
                plan.push(DestroyStep::ReleaseImport(a.teardown));
            },
            None => {},
        }
        plan.push(DestroyStep::DestroyCameraComponents);
        plan.push(DestroyStep::DestroySunlightComponents);
        plan.push(DestroyStep::DestroyCameraEntity);
        plan.push(DestroyStep::DestroySunlightEntity);
        plan.push(DestroyStep::DestroyEnvironmentTexture);
        plan.push(DestroyStep::DestroyIndirectLight);
        plan.push(DestroyStep::DestroyScene);
        plan.push(DestroyStep::DestroyView);
        plan.push(DestroyStep::DestroyRenderer);
        plan.push(DestroyStep::DestroySwapTarget);
        plan.push(DestroyStep::DestroyContext);
        proof {
            assert(plan@ =~= spec_destroy_steps(self));
        }
        plan
    }
}

/// The exact teardown order of a session: the pending asset first (its
/// entity removals, then its import-state release), then the fixed tail in
/// reverse construction order.
pub open spec fn spec_destroy_steps(s: SpaceThumbnailsRenderer) -> Seq<DestroyStep> {
    let asset_steps = match s.asset {
        Some(a) => a.entities@.map_values(|e: u64| DestroyStep::RemoveEntity(e)) + seq![
            DestroyStep::ReleaseImport(a.teardown),
        ],
        None => Seq::<DestroyStep>::empty(),
    };
    asset_steps + seq![
        DestroyStep::DestroyCameraComponents,
        DestroyStep::DestroySunlightComponents,
        DestroyStep::DestroyCameraEntity,
        DestroyStep::DestroySunlightEntity,
        DestroyStep::DestroyEnvironmentTexture,
        DestroyStep::DestroyIndirectLight,
        DestroyStep::DestroyScene,
        DestroyStep::DestroyView,
        DestroyStep::DestroyRenderer,
        DestroyStep::DestroySwapTarget,
        DestroyStep::DestroyContext,
    ]
}

/// The destroy order is load-bearing: releasing a resource before its
/// dependents is undefined behavior in the backend. In every session's
/// destroy plan, the pending asset's teardown (entity removals, then its
/// import-state release) precedes every resource destruction, and the scene
/// falls before the view, the view before the renderer, the renderer before
/// the swap target, and the swap target before the context, which dies last.
pub proof fn lemma_destroy_order(s: SpaceThumbnailsRenderer)
    ensures
        ({
            let steps = spec_destroy_steps(s);
            let n = steps.len() as int;
            &&& n >= 11
            &&& steps[n - 1] == DestroyStep::DestroyContext
            &&& steps[n - 2] == DestroyStep::DestroySwapTarget
            &&& steps[n - 3] == DestroyStep::DestroyRenderer
            &&& steps[n - 4] == DestroyStep::DestroyView
            &&& steps[n - 5] == DestroyStep::DestroyScene
            &&& forall|i: int|
                0 <= i < n && (steps[i] is RemoveEntity || steps[i] is ReleaseImport) ==> i < n
                    - 11
        }),
{
    let steps = spec_destroy_steps(s);
    let n = steps.len() as int;
    assert forall|i: int|
        0 <= i < n && (steps[i] is RemoveEntity || steps[i] is ReleaseImport) implies i < n
        - 11 by {
        if i >= n - 11 {
            let k = i - (n - 11);
            assert(0 <= k < 11);
        }
    }
}

/// Teardown completeness: after loading model B over model A, none of A's
/// entities remain referenced by the scene. `s0` is a session holding model
/// A; `s2.scene()` is what [`SpaceThumbnailsRenderer::install_asset`]
/// guarantees the scene holds after B is installed (the rig plus exactly
/// B's entities). Any entity of A that B does not itself reuse is gone.
pub proof fn lemma_swap_removes_previous(
    s0: SpaceThumbnailsRenderer,
    s2: SpaceThumbnailsRenderer,
    b: ImportedAsset,
    e: u64,
)
    requires
        s0.wf(),
        s0.asset matches Some(a) && a.entities@.contains(e),
        !b.entities@.contains(e),
        s2.scene() == seq![SUNLIGHT_ENTITY as u64] + b.entities@,
    ensures
        !s2.scene().contains(e),
{
    assert(e != SUNLIGHT_ENTITY);
    assert forall|i: int| 0 <= i < s2.scene().len() implies s2.scene()[i] != e by {
        if i == 0 {
            assert(s2.scene()[0] == SUNLIGHT_ENTITY);
        } else {
            assert(s2.scene()[i] == b.entities@[i - 1]);
        }
    }
}

/// Capture repeatability: a screenshot leaves the session state exactly as
/// it was (`take_screenshot_sync` ensures the final state equals the old
/// one), and the capture request is a pure function of that state — so two
/// captures in succession with no intervening load issue identical
/// requests. `s1` is the state before the first capture and `s2` the state
/// it left behind.
pub proof fn lemma_capture_repeatable(
    s1: SpaceThumbnailsRenderer,
    s2: SpaceThumbnailsRenderer,
    output_len: int,
)
    requires
        s1.wf(),
        s2 == s1,
        output_len >= s1.spec_screenshot_size(),
    ensures
        s1.spec_take_screenshot(output_len) == s2.spec_take_screenshot(output_len),
        s1.spec_take_screenshot(output_len) == Ok::<CaptureRequest, CaptureError>(
            s1.spec_capture_request(),
        ),
{
}

/// Copies a vector of entity handles.
fn copy_entities(v: &Vec<u64>) -> (out: Vec<u64>)
    ensures
        out@ == v@,
{
    let mut out: Vec<u64> = Vec::new();
    let mut i: usize = 0;
    while i < v.len()
        invariant
            i <= v@.len(),
            out@ == v@.subrange(0, i as int),
        decreases v@.len() - i,
    {
        out.push(v[i]);
        proof {
            assert(out@ =~= v@.subrange(0, i as int + 1));
        }
        i = i + 1;
    }
    proof {
        assert(v@.subrange(0, v@.len() as int) =~= v@);
    }
    out
}

} // verus!
