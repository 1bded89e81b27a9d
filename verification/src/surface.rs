//! The swap chain of a surface: configured, acquired from, presented to and
//! torn down.
//!
//! The surface decides and keeps the books. What it decides on comes back
//! as a list of [`SurfaceAction`]s that the caller carries out in order.
//!
//! A configuration goes stage by stage. The surface hands out the steps of
//! one stage only, and those of the next once the caller has reported that
//! the stage succeeded: nothing is asked of a swap chain that was not
//! created, resized or cast. A teardown is one list, carried out to its
//! end whatever its waits return.

use vstd::prelude::*;
use crate::error::{HResult, SurfaceError};
use crate::resource::{Extent3d, Texture, TextureDimension};
use crate::sync::{wait_outcome, Queue, INFINITE, WAIT_OBJECT_0, WAIT_TIMEOUT};
use crate::RawHandle;

verus! {

/// Swap chain flag: the swap chain has a waitable object for frame latency.
pub const DXGI_SWAP_CHAIN_FLAG_FRAME_LATENCY_WAITABLE_OBJECT: u32 = 64;

/// Swap chain flag: presentation may tear.
pub const DXGI_SWAP_CHAIN_FLAG_ALLOW_TEARING: u32 = 2048;

/// Buffer usage: the back buffers are render targets.
pub const DXGI_USAGE_RENDER_TARGET_OUTPUT: u32 = 32;

/// Scaling: the back buffer is stretched to the window.
pub const DXGI_SCALING_STRETCH: u32 = 0;

/// Swap effect: flip model, contents discarded after presentation.
pub const DXGI_SWAP_EFFECT_FLIP_DISCARD: u32 = 4;

/// Window association: the window system leaves mode changes alone.
pub const DXGI_MWA_NO_WINDOW_CHANGES: u32 = 1;

/// Window association: Alt+Enter does not toggle full screen.
pub const DXGI_MWA_NO_ALT_ENTER: u32 = 2;

/// When a presented image reaches the screen.
#[derive(Clone, Copy, Debug, PartialEq, Eq, Structural)]
pub enum PresentMode {
    Immediate,
    Mailbox,
    Fifo,
}

/// How the alpha channel of the surface is read when it is composed.
#[derive(Clone, Copy, Debug, PartialEq, Eq, Structural)]
pub enum CompositeAlphaMode {
    Opaque,
    PreMultiplied,
    PostMultiplied,
}

/// How a surface is to be set up.
#[derive(Clone, Copy, Debug, PartialEq, Eq)]
pub struct SurfaceConfiguration {
    /// Number of back buffers.
    pub swap_chain_size: u32,
    pub present_mode: PresentMode,
    pub composite_alpha_mode: CompositeAlphaMode,
    pub format: wgpu_types::TextureFormat,
    pub extent: Extent3d,
}

/// How a native swap chain is created or resized.
#[derive(Clone, Copy, Debug, PartialEq, Eq)]
pub struct SwapChainDesc {
    pub alpha_mode: CompositeAlphaMode,
    pub buffer_count: u32,
    pub width: u32,
    pub height: u32,
    pub format: wgpu_types::TextureFormat,
    pub flags: u32,
    pub buffer_usage: u32,
    pub sample_count: u32,
    pub sample_quality: u32,
    pub scaling: u32,
    pub stereo: bool,
    pub swap_effect: u32,
}

/// One native step on the way of a surface.
#[derive(Clone, Copy, Debug, PartialEq, Eq)]
pub enum SurfaceAction {
    /// Wait, without a timeout, for the device to finish all work.
    WaitIdle,
    /// Release a back buffer.
    ReleaseResource(RawHandle),
    /// Resize the buffers of a swap chain.
    ResizeBuffers { swap_chain: RawHandle, desc: SwapChainDesc },
    /// Create a swap chain for a window.
    CreateSwapChain { factory: RawHandle, window: RawHandle, desc: SwapChainDesc },
    /// Cast a new swap chain to the interface that the backend uses, and
    /// drop the interface that it was created with.
    CastSwapChain(RawHandle),
    /// Tell the window system what it may do to the window.
    MakeWindowAssociation { factory: RawHandle, window: RawHandle, flags: u32 },
    /// Bound the number of frames that a swap chain may queue.
    SetMaximumFrameLatency { swap_chain: RawHandle, latency: u32 },
    /// Fetch the waitable object for frame latency of a swap chain.
    GetFrameLatencyWaitableObject(RawHandle),
    /// Fetch the back buffer of an index.
    GetBuffer { swap_chain: RawHandle, index: u32 },
    /// Wait on a waitable object for frame latency.
    WaitFrameLatency { waitable: RawHandle, timeout_ms: u32 },
    /// Destroy a swap chain.
    DestroySwapChain(RawHandle),
}

/// How far a configuration has come: the stage whose report is awaited.
#[derive(Clone, Copy, Debug, PartialEq, Eq, Structural)]
pub enum ConfigureStage {
    /// The buffers of the swap chain are being resized.
    Resizing,
    /// A swap chain is being created.
    Creating,
    /// The new swap chain is being cast.
    Casting,
    /// The swap chain is being set up and its back buffers fetched.
    SettingUp,
}

/// A configuration that waits for the caller's report.
#[derive(Clone, Copy, Debug)]
pub struct PendingConfigure {
    pub stage: ConfigureStage,
    /// The swap chain that the stage works on. There is none yet while one
    /// is being created.
    pub swap_chain: RawHandle,
    pub config: SurfaceConfiguration,
}

/// What the fetch of one back buffer gave.
#[derive(Clone, Copy, Debug, PartialEq, Eq, Structural)]
pub struct BackBuffer {
    /// Status of the fetch.
    pub result: i32,
    /// The back buffer, after a fetch that succeeded.
    pub resource: RawHandle,
}

/// What the caller found while it set the swap chain up.
#[derive(Debug)]
pub struct ConfigureReport {
    /// Status of the window association.
    pub association_result: i32,
    /// Status of setting the frame latency.
    pub latency_result: i32,
    /// The waitable object for frame latency.
    pub waitable: RawHandle,
    /// The fetch of each back buffer, by index.
    pub buffers: Vec<BackBuffer>,
}

/// A surface texture that was acquired.
#[derive(Debug)]
pub struct AcquiredSurfaceTexture {
    pub texture: Texture,
    /// Whether the surface should be configured anew soon.
    pub suboptimal: bool,
}

/// The flags of the swap chain for a present mode: tearing is allowed
/// under `Immediate` only.
pub open spec fn swap_chain_flags(mode: PresentMode) -> u32 {
    if mode == PresentMode::Immediate {
        (DXGI_SWAP_CHAIN_FLAG_FRAME_LATENCY_WAITABLE_OBJECT + DXGI_SWAP_CHAIN_FLAG_ALLOW_TEARING) as u32
    } else {
        DXGI_SWAP_CHAIN_FLAG_FRAME_LATENCY_WAITABLE_OBJECT
    }
}

/// The swap chain that a configuration asks for.
pub open spec fn swap_chain_desc(config: SurfaceConfiguration) -> SwapChainDesc {
    SwapChainDesc {
        alpha_mode: config.composite_alpha_mode,
        buffer_count: config.swap_chain_size,
        width: config.extent.width,
        height: config.extent.height,
        format: config.format,
        flags: swap_chain_flags(config.present_mode),
        buffer_usage: DXGI_USAGE_RENDER_TARGET_OUTPUT,
        sample_count: 1,
        sample_quality: 0,
        scaling: DXGI_SCALING_STRETCH,
        stereo: false,
        swap_effect: DXGI_SWAP_EFFECT_FLIP_DISCARD,
    }
}

/// The release of each back buffer, in order.
pub open spec fn release_actions(resources: Seq<RawHandle>) -> Seq<SurfaceAction> {
    resources.map_values(|r: RawHandle| SurfaceAction::ReleaseResource(r))
}

/// The first stage of a configuration. A surface with a swap chain waits
/// for the device to be idle, then releases its back buffers, then resizes;
/// one without creates a swap chain.
pub open spec fn configure_actions(
    factory: RawHandle,
    window: RawHandle,
    current: Option<SwapChain>,
    config: SurfaceConfiguration,
) -> Seq<SurfaceAction> {
    match current {
        Some(sc) => seq![SurfaceAction::WaitIdle] + release_actions(sc.resources@) + seq![
            SurfaceAction::ResizeBuffers { swap_chain: sc.raw, desc: swap_chain_desc(config) },
        ],
        None => seq![
            SurfaceAction::CreateSwapChain { factory, window, desc: swap_chain_desc(config) },
        ],
    }
}

/// The last stage of a configuration: what is done to a swap chain of `n`
/// buffers once it is created or resized.
pub open spec fn setup_actions(
    factory: RawHandle,
    window: RawHandle,
    swap_chain: RawHandle,
    n: u32,
) -> Seq<SurfaceAction> {
    seq![
        SurfaceAction::MakeWindowAssociation {
            factory,
            window,
            flags: (DXGI_MWA_NO_WINDOW_CHANGES + DXGI_MWA_NO_ALT_ENTER) as u32,
        },
        SurfaceAction::SetMaximumFrameLatency { swap_chain, latency: n },
        SurfaceAction::GetFrameLatencyWaitableObject(swap_chain),
    ] + Seq::new(n as nat, |i: int| SurfaceAction::GetBuffer { swap_chain, index: i as u32 })
}

/// What `continue_configure` answers to the status of the stage that is
/// awaited and the object that the stage produced: the name of the stage
/// that failed, or the steps of the next stage.
pub open spec fn continue_result(
    factory: RawHandle,
    window: RawHandle,
    pending: Option<PendingConfigure>,
    result: i32,
    produced: RawHandle,
) -> Result<Seq<SurfaceAction>, SurfaceError> {
    match pending {
        None => Err(SurfaceError::Other("no configuration in progress")),
        Some(p) => match p.stage {
            ConfigureStage::Resizing => if result < 0 {
                Err(SurfaceError::Other("window is in use"))
            } else {
                Ok(setup_actions(factory, window, p.swap_chain, p.config.swap_chain_size))
            },
            ConfigureStage::Creating => if result < 0 {
                Err(SurfaceError::Other("swap chain creation"))
            } else {
                Ok(seq![SurfaceAction::CastSwapChain(produced)])
            },
            ConfigureStage::Casting => if result < 0 {
                Err(SurfaceError::Other("swap chain cast to 3"))
            } else {
                Ok(setup_actions(factory, window, produced, p.config.swap_chain_size))
            },
            ConfigureStage::SettingUp => Err(SurfaceError::Other("no configuration in progress")),
        },
    }
}

/// The configuration that is awaited after `continue_configure`: the next
/// stage after a success, none after a failure.
pub open spec fn continue_pending(
    pending: Option<PendingConfigure>,
    result: i32,
    produced: RawHandle,
) -> Option<PendingConfigure> {
    match pending {
        None => None,
        Some(p) => if result < 0 {
            None
        } else {
            match p.stage {
                ConfigureStage::Resizing => Some(
                    PendingConfigure { stage: ConfigureStage::SettingUp, ..p },
                ),
                ConfigureStage::Creating => Some(
                    PendingConfigure { stage: ConfigureStage::Casting, swap_chain: produced, ..p },
                ),
                ConfigureStage::Casting => Some(
                    PendingConfigure { stage: ConfigureStage::SettingUp, swap_chain: produced, ..p },
                ),
                ConfigureStage::SettingUp => None,
            }
        },
    }
}

/// Whether the fetch of a back buffer failed, according to a report.
pub open spec fn fetch_failed(buffers: Seq<BackBuffer>) -> bool {
    exists|i: int| 0 <= i < buffers.len() && (#[trigger] buffers[i]).result < 0
}

/// The back buffers that a report holds, by index.
pub open spec fn fetched(buffers: Seq<BackBuffer>) -> Seq<RawHandle> {
    buffers.map_values(|b: BackBuffer| b.resource)
}

/// What `finish_configure` answers to a report: the name of the step that
/// failed, in the order of the steps; `Lost` for a report that does not
/// hold one back buffer for each index; else success.
pub open spec fn configure_result(pending: Option<PendingConfigure>, report: ConfigureReport) -> Result<
    (),
    SurfaceError,
> {
    match pending {
        None => Err(SurfaceError::Other("no configuration in progress")),
        Some(p) => if p.stage != ConfigureStage::SettingUp {
            Err(SurfaceError::Other("no configuration in progress"))
        } else if report.association_result < 0 {
            Err(SurfaceError::Other("window association"))
        } else if report.latency_result < 0 {
            Err(SurfaceError::Other("frame latency"))
        } else if fetch_failed(report.buffers@) {
            Err(SurfaceError::Other("swap chain buffer"))
        } else if report.buffers@.len() != p.config.swap_chain_size {
            Err(SurfaceError::Lost)
        } else {
            Ok(())
        },
    }
}

/// Whether a swap chain is the one that a report that was accepted
/// describes: the swap chain that was set up, with the reported back
/// buffers and waitable object, the format and extent of the
/// configuration, no image acquired and the first back buffer next.
pub open spec fn configured_as(
    swap_chain: Option<SwapChain>,
    pending: Option<PendingConfigure>,
    report: ConfigureReport,
) -> bool {
    match (swap_chain, pending) {
        (Some(sc), Some(p)) => {
            &&& sc.raw == p.swap_chain
            &&& sc.resources@ == fetched(report.buffers@)
            &&& sc.resources@.len() == p.config.swap_chain_size
            &&& sc.waitable == report.waitable
            &&& sc.acquired_count == 0
            &&& sc.next_image == 0
            &&& sc.format == p.config.format
            &&& sc.size == p.config.extent
        },
        _ => false,
    }
}

/// What `unconfigure` asks for: wait for the frame latency object and for
/// the device, then release the back buffers, then destroy the swap chain.
pub open spec fn unconfigure_actions(current: Option<SwapChain>) -> Seq<SurfaceAction> {
    match current {
        Some(sc) => seq![
            SurfaceAction::WaitFrameLatency { waitable: sc.waitable, timeout_ms: INFINITE },
            SurfaceAction::WaitIdle,
        ] + release_actions(sc.resources@) + seq![SurfaceAction::DestroySwapChain(sc.raw)],
        None => Seq::empty(),
    }
}

/// The texture behind a back buffer of a swap chain.
pub open spec fn back_buffer_texture(sc: SwapChain, index: int) -> Texture {
    Texture {
        resource: sc.resources@[index],
        format: sc.format,
        dimension: TextureDimension::D2,
        size: sc.size,
        mip_level_count: 1,
        sample_count: 1,
    }
}

/// What `acquire_texture` answers.
pub open spec fn acquire_result(current: Option<SwapChain>, wait_status: u32) -> Result<
    Option<AcquiredSurfaceTexture>,
    SurfaceError,
> {
    match current {
        None => Err(SurfaceError::Lost),
        Some(sc) => if sc.acquired_count >= sc.resources@.len() {
            Err(SurfaceError::Other("no image available"))
        } else {
            match wait_outcome(wait_status) {
                None => Err(SurfaceError::Lost),
                Some(false) => Ok(None),
                Some(true) => Ok(
                    Some(
                        AcquiredSurfaceTexture {
                            texture: back_buffer_texture(sc, sc.next_image as int),
                            suboptimal: false,
                        },
                    ),
                ),
            }
        },
    }
}

/// Whether two swap chains are the same but for the images that are
/// acquired and the one that is next, or both absent.
pub open spec fn same_images(after: Option<SwapChain>, before: Option<SwapChain>) -> bool {
    match (after, before) {
        (Some(a), Some(b)) => a.raw == b.raw && a.resources == b.resources && a.waitable
            == b.waitable && a.format == b.format && a.size == b.size,
        (None, None) => true,
        _ => false,
    }
}

/// The presentable images of a surface.
#[derive(Debug)]
pub struct SwapChain {
    pub raw: RawHandle,
    // need to associate raw image pointers with the swapchain so they can be properly released
    // when the swapchain is destroyed
    pub resources: Vec<RawHandle>,
    pub waitable: RawHandle,
    pub acquired_count: usize,
    /// Index of the back buffer that is handed out next. The back buffers
    /// are handed out in turn.
    pub next_image: usize,
    pub format: wgpu_types::TextureFormat,
    pub size: Extent3d,
}

impl SwapChain {
    /// The swap chain's invariant: no more images are acquired than there
    /// are back buffers, and the next image is one of them.
    pub open spec fn wf(&self) -> bool {
        &&& self.acquired_count <= self.resources@.len()
        &&& self.resources@.len() > 0 ==> self.next_image < self.resources@.len()
    }

    /// The index of the back buffer that follows the next one.
    pub open spec fn following_image(&self) -> usize {
        if self.next_image + 1 >= self.resources@.len() {
            0
        } else {
            (self.next_image + 1) as usize
        }
    }

    /// Gives the back buffers up: the release of each, in order, and the
    /// native swap chain that is left.
    pub fn release_resources(self) -> (r: (Vec<SurfaceAction>, RawHandle))
        ensures
            r.0@ == release_actions(self.resources@),
            r.1 == self.raw,
    {
        let mut actions: Vec<SurfaceAction> = Vec::new();
        let mut k: usize = 0;
        while k < self.resources.len()
            invariant
                k <= self.resources@.len(),
                actions@ == release_actions(self.resources@).take(k as int),
            decreases self.resources@.len() - k,
        {
            actions.push(SurfaceAction::ReleaseResource(self.resources[k]));
            k = k + 1;
        }
        (actions, self.raw)
    }

    /// Reads the status that a wait on the frame latency object returned:
    /// whether an image is ready. An abandoned or failed wait, and a status
    /// that is not known, mean that the surface is lost.
    pub fn wait_result(status: u32) -> (r: Result<bool, SurfaceError>)
        ensures
            r == (match wait_outcome(status) {
                Some(ready) => Ok::<bool, SurfaceError>(ready),
                None => Err::<bool, SurfaceError>(SurfaceError::Lost),
            }),
    {
        if status == WAIT_OBJECT_0 {
            Ok(true)
        } else if status == WAIT_TIMEOUT {
            Ok(false)
        } else {
            Err(SurfaceError::Lost)
        }
    }
}

/// Where a surface stands.
#[derive(Clone, Copy, Debug, PartialEq, Eq, Structural)]
pub enum SurfaceState {
    Unconfigured,
    /// `configure` has been called and a report is awaited.
    Configuring,
    Configured,
}

/// A window that images are presented to.
#[derive(Debug)]
pub struct Surface {
    factory: RawHandle,
    wnd_handle: RawHandle,
    swap_chain: Option<SwapChain>,
    pending: Option<PendingConfigure>,
}

/// The steps that set a swap chain of `n` buffers up.
fn setup(factory: RawHandle, window: RawHandle, swap_chain: RawHandle, n: u32) -> (actions: Vec<
    SurfaceAction,
>)
    ensures
        actions@ == setup_actions(factory, window, swap_chain, n),
{
    let mut actions: Vec<SurfaceAction> = Vec::new();
    // Disable automatic Alt+Enter handling by DXGI.
    assert(1u32 | 2u32 == 3u32) by (bit_vector);
    actions.push(
        SurfaceAction::MakeWindowAssociation {
            factory,
            window,
            flags: DXGI_MWA_NO_WINDOW_CHANGES | DXGI_MWA_NO_ALT_ENTER,
        },
    );
    actions.push(SurfaceAction::SetMaximumFrameLatency { swap_chain, latency: n });
    actions.push(SurfaceAction::GetFrameLatencyWaitableObject(swap_chain));
    let mut i: u32 = 0;
    while i < n
        invariant
            i <= n,
            actions@ == setup_actions(factory, window, swap_chain, n).take(3 + i),
        decreases n - i,
    {
        actions.push(SurfaceAction::GetBuffer { swap_chain, index: i });
        i = i + 1;
    }
    actions
}

/// The back buffers of a report, unless a fetch failed.
fn fetched_buffers(buffers: &Vec<BackBuffer>) -> (r: Option<Vec<RawHandle>>)
    ensures
        r is None <==> fetch_failed(buffers@),
        r matches Some(resources) ==> resources@ == fetched(buffers@),
{
    let mut resources: Vec<RawHandle> = Vec::new();
    let mut k: usize = 0;
    while k < buffers.len()
        invariant
            k <= buffers@.len(),
            resources@ == fetched(buffers@).take(k as int),
            forall|i: int| 0 <= i < k ==> (#[trigger] buffers@[i]).result >= 0,
        decreases buffers@.len() - k,
    {
        let buffer = buffers[k];
        if buffer.result.into_result().is_err() {
            return None;
        }
        resources.push(buffer.resource);
        k = k + 1;
    }
    Some(resources)
}

impl Surface {
    /// The factory that makes the swap chains.
    pub closed spec fn factory(&self) -> RawHandle {
        self.factory
    }

    /// The window.
    pub closed spec fn wnd_handle(&self) -> RawHandle {
        self.wnd_handle
    }

    /// The swap chain of a configured surface.
    pub closed spec fn swap_chain(&self) -> Option<SwapChain> {
        self.swap_chain
    }

    /// The configuration whose report is awaited.
    pub closed spec fn pending(&self) -> Option<PendingConfigure> {
        self.pending
    }

    /// Where the surface stands.
    pub open spec fn state(&self) -> SurfaceState {
        if self.swap_chain() is Some {
            SurfaceState::Configured
        } else if self.pending() is Some {
            SurfaceState::Configuring
        } else {
            SurfaceState::Unconfigured
        }
    }

    /// Number of images that are acquired and not yet presented or
    /// discarded.
    pub open spec fn acquired_count(&self) -> nat {
        match self.swap_chain() {
            Some(sc) => sc.acquired_count as nat,
            None => 0,
        }
    }

    /// The surface's invariant: no report is awaited while the surface has
    /// a swap chain, and its swap chain is sound.
    pub open spec fn wf(&self) -> bool {
        &&& self.swap_chain() is Some ==> self.pending() is None
        &&& self.swap_chain() matches Some(sc) ==> sc.wf()
    }

    /// Whether two surfaces are of the same window.
    pub open spec fn same_window(&self, other: &Surface) -> bool {
        self.factory() == other.factory() && self.wnd_handle() == other.wnd_handle()
    }

    /// An unconfigured surface of a window.
    pub fn new(factory: RawHandle, wnd_handle: RawHandle) -> (surface: Surface)
        ensures
            surface.wf(),
            surface.factory() == factory,
            surface.wnd_handle() == wnd_handle,
            surface.state() == SurfaceState::Unconfigured,
            surface.swap_chain() is None,
            surface.pending() is None,
    {
        Surface { factory, wnd_handle, swap_chain: None, pending: None }
    }

    /// Whether the surface has a swap chain.
    pub fn is_configured(&self) -> (b: bool)
        ensures
            b == (self.state() == SurfaceState::Configured),
    {
        self.swap_chain.is_some()
    }

    /// The stage of the configuration whose report is awaited.
    pub fn configure_stage(&self) -> (stage: Option<ConfigureStage>)
        ensures
            stage == (match self.pending() {
                Some(p) => Some(p.stage),
                None => None,
            }),
    {
        match &self.pending {
            Some(p) => Some(p.stage),
            None => None,
        }
    }

    /// The native swap chain of a configured surface.
    pub fn swap_chain_handle(&self) -> (raw: Option<RawHandle>)
        ensures
            raw == (match self.swap_chain() {
                Some(sc) => Some(sc.raw),
                None => None,
            }),
    {
        match &self.swap_chain {
            Some(sc) => Some(sc.raw),
            None => None,
        }
    }

    /// Number of images that are acquired and not yet presented or
    /// discarded.
    pub fn acquired(&self) -> (n: usize)
        ensures
            n == self.acquired_count(),
    {
        match &self.swap_chain {
            Some(sc) => sc.acquired_count,
            None => 0,
        }
    }

    /// Starts to configure the surface and says what to do first.
    ///
    /// Whatever swap chain the surface had is given up here: should a step
    /// fail, the surface is left without one. The result is the first
    /// stage, which ends in the resize or the creation. The caller carries
    /// it out and hands the status of that last step to
    /// `continue_configure`.
    pub fn configure(&mut self, config: &SurfaceConfiguration) -> (actions: Vec<SurfaceAction>)
        requires
            old(self).wf(),
        ensures
            final(self).wf(),
            final(self).same_window(old(self)),
            actions@ == configure_actions(
                old(self).factory(),
                old(self).wnd_handle(),
                old(self).swap_chain(),
                *config,
            ),
            final(self).swap_chain() is None,
            final(self).pending() == Some(
                match old(self).swap_chain() {
                    Some(sc) => PendingConfigure {
                        stage: ConfigureStage::Resizing,
                        swap_chain: sc.raw,
                        config: *config,
                    },
                    None => PendingConfigure {
                        stage: ConfigureStage::Creating,
                        swap_chain: RawHandle(0),
                        config: *config,
                    },
                },
            ),
    {
        let mut flags: u32 = DXGI_SWAP_CHAIN_FLAG_FRAME_LATENCY_WAITABLE_OBJECT;
        match config.present_mode {
            PresentMode::Immediate => {
                assert(64u32 | 2048u32 == 2112u32) by (bit_vector);
                flags = flags | DXGI_SWAP_CHAIN_FLAG_ALLOW_TEARING;
            },
            _ => {},
        }
        let desc = SwapChainDesc {
            alpha_mode: config.composite_alpha_mode,
            buffer_count: config.swap_chain_size,
            width: config.extent.width,
            height: config.extent.height,
            format: config.format,
            flags,
            buffer_usage: DXGI_USAGE_RENDER_TARGET_OUTPUT,
            sample_count: 1,
            sample_quality: 0,
            scaling: DXGI_SCALING_STRETCH,
            stereo: false,
            swap_effect: DXGI_SWAP_EFFECT_FLIP_DISCARD,
        };
        let mut actions: Vec<SurfaceAction> = Vec::new();
        match self.swap_chain.take() {
            Some(sc) => {
                // can't have image resources in flight used by GPU
                actions.push(SurfaceAction::WaitIdle);
                let (mut releases, raw) = sc.release_resources();
                actions.append(&mut releases);
                actions.push(SurfaceAction::ResizeBuffers { swap_chain: raw, desc });
                self.pending = Some(
                    PendingConfigure {
                        stage: ConfigureStage::Resizing,
                        swap_chain: raw,
                        config: *config,
                    },
                );
            },
            None => {
                actions.push(
                    SurfaceAction::CreateSwapChain {
                        factory: self.factory,
                        window: self.wnd_handle,
                        desc,
                    },
                );
                self.pending = Some(
                    PendingConfigure {
                        stage: ConfigureStage::Creating,
                        swap_chain: RawHandle(0),
                        config: *config,
                    },
                );
            },
        }
        actions
    }

    /// Takes the status of the stage that is awaited, with the object that
    /// the stage produced, and says what to do next.
    ///
    /// A failed resize, creation or cast comes back as an error that names
    /// the stage; the surface is then unconfigured and nothing more is to
    /// be done. After a creation that succeeded the next stage is the cast
    /// of the swap chain that it produced. After a resize or a cast that
    /// succeeded the next stage sets the swap chain up; its report goes to
    /// `finish_configure`.
    pub fn continue_configure(&mut self, result: i32, produced: RawHandle) -> (r: Result<
        Vec<SurfaceAction>,
        SurfaceError,
    >)
        requires
            old(self).wf(),
        ensures
            final(self).wf(),
            final(self).same_window(old(self)),
            final(self).swap_chain() == old(self).swap_chain(),
            match continue_result(
                old(self).factory(),
                old(self).wnd_handle(),
                old(self).pending(),
                result,
                produced,
            ) {
                Ok(actions) => r matches Ok(next) && next@ == actions,
                Err(e) => r == Err::<Vec<SurfaceAction>, SurfaceError>(e),
            },
            final(self).pending() == continue_pending(old(self).pending(), result, produced),
    {
        let pending = match self.pending.take() {
            Some(pending) => pending,
            None => {
                return Err(SurfaceError::Other("no configuration in progress"));
            },
        };
        let failed = result.into_result().is_err();
        match pending.stage {
            ConfigureStage::Resizing => {
                if failed {
                    return Err(SurfaceError::Other("window is in use"));
                }
                self.pending = Some(
                    PendingConfigure {
                        stage: ConfigureStage::SettingUp,
                        swap_chain: pending.swap_chain,
                        config: pending.config,
                    },
                );
                Ok(
                    setup(
                        self.factory,
                        self.wnd_handle,
                        pending.swap_chain,
                        pending.config.swap_chain_size,
                    ),
                )
            },
            ConfigureStage::Creating => {
                if failed {
                    return Err(SurfaceError::Other("swap chain creation"));
                }
                self.pending = Some(
                    PendingConfigure {
                        stage: ConfigureStage::Casting,
                        swap_chain: produced,
                        config: pending.config,
                    },
                );
                let mut actions: Vec<SurfaceAction> = Vec::new();
                actions.push(SurfaceAction::CastSwapChain(produced));
                Ok(actions)
            },
            ConfigureStage::Casting => {
                if failed {
                    return Err(SurfaceError::Other("swap chain cast to 3"));
                }
                self.pending = Some(
                    PendingConfigure {
                        stage: ConfigureStage::SettingUp,
                        swap_chain: produced,
                        config: pending.config,
                    },
                );
                Ok(setup(self.factory, self.wnd_handle, produced, pending.config.swap_chain_size))
            },
            ConfigureStage::SettingUp => Err(SurfaceError::Other("no configuration in progress")),
        }
    }

    /// Takes the report on the last stage of a configuration.
    ///
    /// A failed window association, a failed setting of the frame latency
    /// and a failed fetch of a back buffer each come back as an error that
    /// names the step; a report without one back buffer for each index
    /// means that the surface is lost. The surface is then unconfigured.
    /// Otherwise it is configured, with no image acquired.
    pub fn finish_configure(&mut self, report: ConfigureReport) -> (r: Result<(), SurfaceError>)
        requires
            old(self).wf(),
        ensures
            final(self).wf(),
            final(self).same_window(old(self)),
            final(self).pending() is None,
            r == configure_result(old(self).pending(), report),
            r is Err ==> final(self).swap_chain() == old(self).swap_chain(),
            r is Err && old(self).pending() is Some ==> final(self).swap_chain() is None,
            r is Ok ==> configured_as(final(self).swap_chain(), old(self).pending(), report),
    {
        let pending = match self.pending.take() {
            Some(pending) => pending,
            None => {
                return Err(SurfaceError::Other("no configuration in progress"));
            },
        };
        match pending.stage {
            ConfigureStage::SettingUp => {},
            _ => {
                return Err(SurfaceError::Other("no configuration in progress"));
            },
        }
        if report.association_result.into_result().is_err() {
            return Err(SurfaceError::Other("window association"));
        }
        if report.latency_result.into_result().is_err() {
            return Err(SurfaceError::Other("frame latency"));
        }
        let resources = match fetched_buffers(&report.buffers) {
            Some(resources) => resources,
            None => {
                return Err(SurfaceError::Other("swap chain buffer"));
            },
        };
        if resources.len() != pending.config.swap_chain_size as usize {
            return Err(SurfaceError::Lost);
        }
        self.swap_chain = Some(
            SwapChain {
                raw: pending.swap_chain,
                resources,
                waitable: report.waitable,
                acquired_count: 0,
                next_image: 0,
                format: pending.config.format,
                size: pending.config.extent,
            },
        );
        Ok(())
    }

    /// Gives the swap chain up and says what to do for it. The caller
    /// carries every action out, whatever the waits return. An unconfigured
    /// surface has nothing to do.
    pub fn unconfigure(&mut self) -> (actions: Vec<SurfaceAction>)
        requires
            old(self).wf(),
        ensures
            final(self).wf(),
            final(self).same_window(old(self)),
            final(self).state() == SurfaceState::Unconfigured,
            actions@ == unconfigure_actions(old(self).swap_chain()),
    {
        self.pending = None;
        let mut actions: Vec<SurfaceAction> = Vec::new();
        if let Some(sc) = self.swap_chain.take() {
            actions.push(
                SurfaceAction::WaitFrameLatency { waitable: sc.waitable, timeout_ms: INFINITE },
            );
            // the queue counts as still in use otherwise
            actions.push(SurfaceAction::WaitIdle);
            let (mut releases, raw) = sc.release_resources();
            actions.append(&mut releases);
            actions.push(SurfaceAction::DestroySwapChain(raw));
        }
        actions
    }

    /// Says how to wait for the next image: on the frame latency object,
    /// for at most the timeout.
    ///
    /// There is nothing to wait for on a surface without a swap chain,
    /// which is lost, nor while every image is acquired.
    pub fn prepare_acquire(&self, timeout_ms: u32) -> (r: Result<SurfaceAction, SurfaceError>)
        requires
            self.wf(),
        ensures
            r == (match self.swap_chain() {
                None => Err::<SurfaceAction, SurfaceError>(SurfaceError::Lost),
                Some(sc) => if sc.acquired_count >= sc.resources@.len() {
                    Err::<SurfaceAction, SurfaceError>(SurfaceError::Other("no image available"))
                } else {
                    Ok::<SurfaceAction, SurfaceError>(
                        SurfaceAction::WaitFrameLatency { waitable: sc.waitable, timeout_ms },
                    )
                },
            }),
    {
        match &self.swap_chain {
            None => Err(SurfaceError::Lost),
            Some(sc) => {
                if sc.acquired_count >= sc.resources.len() {
                    Err(SurfaceError::Other("no image available"))
                } else {
                    Ok(SurfaceAction::WaitFrameLatency { waitable: sc.waitable, timeout_ms })
                }
            },
        }
    }

    /// Acquires the next image, given the status that the wait returned.
    ///
    /// The back buffers are handed out in turn. No image is ready when the
    /// wait timed out. The surface is lost when it has no swap chain and
    /// when the wait was abandoned or failed. While every image is
    /// acquired none is available. Only an image that is handed out counts
    /// as acquired.
    pub fn acquire_texture(&mut self, wait_status: u32) -> (r: Result<
        Option<AcquiredSurfaceTexture>,
        SurfaceError,
    >)
        requires
            old(self).wf(),
        ensures
            final(self).wf(),
            final(self).same_window(old(self)),
            final(self).pending() == old(self).pending(),
            r == acquire_result(old(self).swap_chain(), wait_status),
            same_images(final(self).swap_chain(), old(self).swap_chain()),
            final(self).acquired_count() == old(self).acquired_count() + (if r matches Ok(Some(_)) {
                1nat
            } else {
                0nat
            }),
            final(self).swap_chain() matches Some(after) ==> after.next_image == (if r matches Ok(
                Some(_),
            ) {
                old(self).swap_chain()->0.following_image()
            } else {
                old(self).swap_chain()->0.next_image
            }),
    {
        match &mut self.swap_chain {
            None => Err(SurfaceError::Lost),
            Some(sc) => {
                if sc.acquired_count >= sc.resources.len() {
                    return Err(SurfaceError::Other("no image available"));
                }
                match SwapChain::wait_result(wait_status) {
                    Err(e) => Err(e),
                    Ok(false) => Ok(None),
                    Ok(true) => {
                        let texture = Texture {
                            resource: sc.resources[sc.next_image],
                            format: sc.format,
                            dimension: TextureDimension::D2,
                            size: sc.size,
                            mip_level_count: 1,
                            sample_count: 1,
                        };
                        sc.acquired_count = sc.acquired_count + 1;
                        if sc.next_image + 1 >= sc.resources.len() {
                            sc.next_image = 0;
                        } else {
                            sc.next_image = sc.next_image + 1;
                        }
                        Ok(Some(AcquiredSurfaceTexture { texture, suboptimal: false }))
                    },
                }
            },
        }
    }

    /// Takes an acquired image back without presenting it. The count of
    /// acquired images goes down by one and never below zero.
    pub fn discard_texture(&mut self, texture: Texture)
        requires
            old(self).wf(),
        ensures
            final(self).wf(),
            final(self).same_window(old(self)),
            final(self).pending() == old(self).pending(),
            same_images(final(self).swap_chain(), old(self).swap_chain()),
            final(self).acquired_count() == (if old(self).acquired_count() > 0 {
                (old(self).acquired_count() - 1) as nat
            } else {
                0nat
            }),
            final(self).swap_chain() matches Some(after) ==> after.next_image == old(self).swap_chain()->0.next_image,
    {
        match &mut self.swap_chain {
            None => {},
            Some(sc) => {
                if sc.acquired_count > 0 {
                    sc.acquired_count = sc.acquired_count - 1;
                }
            },
        }
    }
}

/// To configure a surface that has a swap chain is to wait for the device
/// to be idle first: the wait is the first action, the back buffers of the
/// swap chain are released right after it, each once and in order, and the
/// resize is the last action.
pub proof fn lemma_resize_waits_before_release(
    factory: RawHandle,
    window: RawHandle,
    current: SwapChain,
    config: SurfaceConfiguration,
)
    ensures
        ({
            let actions = configure_actions(factory, window, Some(current), config);
            let n = current.resources@.len() as int;
            &&& actions.len() == n + 2
            &&& actions[0] == SurfaceAction::WaitIdle
            &&& forall|k: int|
                0 <= k < n ==> #[trigger] actions[1 + k] == SurfaceAction::ReleaseResource(
                    current.resources@[k],
                )
            &&& actions[1 + n] == (SurfaceAction::ResizeBuffers {
                swap_chain: current.raw,
                desc: swap_chain_desc(config),
            })
        }),
{
    let actions = configure_actions(factory, window, Some(current), config);
    let n = current.resources@.len() as int;
    assert forall|k: int| 0 <= k < n implies #[trigger] actions[1 + k]
        == SurfaceAction::ReleaseResource(current.resources@[k]) by {}
}

/// Whether an action belongs to the set-up of a swap chain or is its cast:
/// the steps that need a swap chain that was created or resized.
pub open spec fn needs_swap_chain(action: SurfaceAction) -> bool {
    ||| action is CastSwapChain
    ||| action is MakeWindowAssociation
    ||| action is SetMaximumFrameLatency
    ||| action is GetFrameLatencyWaitableObject
    ||| action is GetBuffer
}

/// Nothing is asked of a swap chain before it is there. The first stage of
/// a configuration holds no step that needs the swap chain, and after a
/// resize, a creation or a cast that failed no step is handed out at all.
pub proof fn lemma_no_setup_before_success(
    factory: RawHandle,
    window: RawHandle,
    current: Option<SwapChain>,
    config: SurfaceConfiguration,
    pending: Option<PendingConfigure>,
    result: i32,
    produced: RawHandle,
)
    ensures
        forall|i: int|
            0 <= i < configure_actions(factory, window, current, config).len()
                ==> !needs_swap_chain(
                #[trigger] configure_actions(factory, window, current, config)[i],
            ),
        result < 0 ==> continue_result(factory, window, pending, result, produced) is Err,
        result < 0 ==> continue_pending(pending, result, produced) is None,
{
    let actions = configure_actions(factory, window, current, config);
    assert forall|i: int| 0 <= i < actions.len() implies !needs_swap_chain(#[trigger] actions[i]) by {
        match current {
            Some(sc) => {
                if 1 <= i <= sc.resources@.len() {
                    assert(actions[i] == release_actions(sc.resources@)[i - 1]);
                }
            },
            None => {},
        }
    }
}

/// A report is accepted only if every step of the set-up succeeded and it
/// holds a back buffer for each index: a failed fetch never ends in a
/// configured surface.
pub proof fn lemma_accepted_report_is_complete(
    pending: Option<PendingConfigure>,
    report: ConfigureReport,
)
    requires
        configure_result(pending, report) is Ok,
    ensures
        pending matches Some(p) && p.stage == ConfigureStage::SettingUp && report.buffers@.len()
            == p.config.swap_chain_size,
        report.association_result >= 0,
        report.latency_result >= 0,
        forall|i: int| 0 <= i < report.buffers@.len() ==> (#[trigger] report.buffers@[i]).result >= 0,
{
}

/// No more images are acquired than the swap chain has, and the count of
/// acquired images is never negative.
pub proof fn lemma_acquired_within_buffers(surface: Surface)
    requires
        surface.wf(),
    ensures
        0 <= surface.acquired_count(),
        surface.swap_chain() matches Some(sc) ==> surface.acquired_count() <= sc.resources@.len(),
        surface.swap_chain() is None ==> surface.acquired_count() == 0,
{
}

/// While fewer images are acquired than the swap chain has, a wait that
/// was signalled yields a texture: it is one of the back buffers and has
/// the extent and format that the surface was configured with. Once every
/// image is acquired, none is handed out, whatever the wait returned.
pub proof fn lemma_acquire_yields_back_buffer(sc: SwapChain, wait_status: u32)
    requires
        sc.wf(),
    ensures
        sc.acquired_count < sc.resources@.len() && wait_outcome(wait_status) == Some(true) ==> (
        acquire_result(Some(sc), wait_status) matches Ok(Some(acquired)) && {
            &&& sc.resources@.contains(acquired.texture.resource)
            &&& acquired.texture.size == sc.size
            &&& acquired.texture.format == sc.format
        }),
        sc.acquired_count >= sc.resources@.len() ==> acquire_result(Some(sc), wait_status) is Err,
{
    if sc.acquired_count < sc.resources@.len() {
        assert(sc.resources@.contains(sc.resources@[sc.next_image as int]));
    }
}

/// On a surface that was just configured, the first image that is acquired
/// is the first back buffer that the caller reported, with the extent and
/// the format of the configuration.
pub proof fn lemma_first_acquire_after_configure(
    sc: SwapChain,
    pending: PendingConfigure,
    report: ConfigureReport,
    wait_status: u32,
)
    requires
        configured_as(Some(sc), Some(pending), report),
        pending.config.swap_chain_size > 0,
        wait_outcome(wait_status) == Some(true),
    ensures
        sc.wf(),
        acquire_result(Some(sc), wait_status) matches Ok(Some(acquired)) && {
            &&& acquired.texture.resource == report.buffers@[0].resource
            &&& acquired.texture.size == pending.config.extent
            &&& acquired.texture.format == pending.config.format
        },
{
}

impl Queue {
    /// Presents an acquired image: the result names the swap chain to
    /// present, and the image no longer counts as acquired.
    ///
    /// A surface without a swap chain is lost. One with no image acquired
    /// has nothing to present; nothing changes then.
    pub fn present(&mut self, surface: &mut Surface, texture: Texture) -> (r: Result<
        RawHandle,
        SurfaceError,
    >)
        requires
            old(surface).wf(),
        ensures
            final(self).raw == old(self).raw,
            final(surface).wf(),
            final(surface).same_window(old(surface)),
            final(surface).pending() == old(surface).pending(),
            r == (match old(surface).swap_chain() {
                None => Err::<RawHandle, SurfaceError>(SurfaceError::Lost),
                Some(sc) => if sc.acquired_count == 0 {
                    Err::<RawHandle, SurfaceError>(SurfaceError::Other("no image acquired"))
                } else {
                    Ok::<RawHandle, SurfaceError>(sc.raw)
                },
            }),
            same_images(final(surface).swap_chain(), old(surface).swap_chain()),
            final(surface).acquired_count() == (if old(surface).acquired_count() > 0 {
                (old(surface).acquired_count() - 1) as nat
            } else {
                0nat
            }),
            final(surface).swap_chain() matches Some(after) ==> after.next_image == old(surface).swap_chain()->0.next_image,
    {
        match &mut surface.swap_chain {
            None => Err(SurfaceError::Lost),
            Some(sc) => {
                if sc.acquired_count == 0 {
                    return Err(SurfaceError::Other("no image acquired"));
                }
                sc.acquired_count = sc.acquired_count - 1;
                Ok(sc.raw)
            },
        }
    }
}

} // verus!
