use vstd::prelude::*;

use crate::layout::frame_len_spec;
use crate::store::{shifted, zero_frame, DualTextureStore, StoreError};

verus! {

/// Where the capture loop stands.
#[derive(Debug, Clone, Copy, PartialEq, Eq, Structural)]
pub enum CapturePhase {
    /// Not started yet.
    Idle,
    /// Waiting for the next decoded frame from the camera.
    Fetching,
    /// The store holds a new frame; its two textures are being uploaded.
    Updating,
    /// The textures are uploaded; a redraw request is being posted.
    Signaling,
    /// A fatal fault stopped the loop.
    Failed,
}

/// Why the capture loop stopped.
#[derive(Debug, Clone, Copy, PartialEq, Eq, Structural)]
pub enum CaptureFault {
    /// The camera could not deliver or decode a frame.
    Capture,
    /// A decoded frame did not have the length the resolution gives.
    WrongLength { expected: usize, actual: usize },
}

/// What the outside world reports to the capture loop.
pub enum CaptureEvent {
    /// Begin capturing.
    Start,
    /// The camera delivered a frame, decoded to RGBA bytes.
    Fetched(Vec<u8>),
    /// The camera or the decoder failed.
    FetchFailed,
    /// Both textures were written to the GPU queue, under its lock.
    Uploaded,
    /// The redraw request was posted.
    Signaled,
}

/// What the capture thread must do next.
#[derive(Debug, Clone, Copy, PartialEq, Eq, Structural)]
pub enum CaptureAction {
    /// Block on the camera for the next frame.
    Fetch,
    /// Take the queue lock, write the store's current bytes to the current
    /// texture and its previous bytes to the previous texture, release.
    Upload,
    /// Post a redraw request to the event loop, without blocking.
    Signal,
    /// Stop: the fault is fatal.
    Abort { fault: CaptureFault },
    /// The event does not belong to this phase; nothing to do.
    Ignore,
}

/// The capture loop: its phase and the frames it has handed on.
pub struct CaptureLoop {
    phase: CapturePhase,
    store: DualTextureStore,
}

impl CaptureLoop {
    /// The current phase.
    pub closed spec fn phase_spec(&self) -> CapturePhase {
        self.phase
    }

    /// The frames as the textures hold them.
    pub closed spec fn store_spec(&self) -> DualTextureStore {
        self.store
    }

    pub closed spec fn wf(&self) -> bool {
        self.store.wf()
    }

    /// A loop for frames of `width` × `height` pixels, not started, with
    /// both textures zero.
    pub fn new(width: u32, height: u32) -> (r: Self)
        requires
            frame_len_spec(width as nat, height as nat) <= usize::MAX,
        ensures
            r.wf(),
            r.phase_spec() == CapturePhase::Idle,
            r.store_spec().wf(),
            r.store_spec().width_spec() == width,
            r.store_spec().height_spec() == height,
            r.store_spec().current_spec() == zero_frame(r.store_spec().len_spec()),
            r.store_spec().previous_spec() == zero_frame(r.store_spec().len_spec()),
    {
        CaptureLoop { phase: CapturePhase::Idle, store: DualTextureStore::new(width, height) }
    }

    /// The current phase.
    pub fn phase(&self) -> (r: CapturePhase)
        ensures
            r == self.phase_spec(),
    {
        self.phase
    }

    /// The store, whose bytes the `Upload` action writes to the textures.
    pub fn store(&self) -> (r: &DualTextureStore)
        ensures
            *r == self.store_spec(),
    {
        &self.store
    }

    /// Advances the loop by one event and says what to do next.
    pub fn step(&mut self, event: CaptureEvent) -> (r: CaptureAction)
        requires
            old(self).wf(),
        ensures
            final(self).wf(),
            final(self).store_spec().width_spec() == old(self).store_spec().width_spec(),
            final(self).store_spec().height_spec() == old(self).store_spec().height_spec(),
            match (old(self).phase_spec(), event) {
                (CapturePhase::Idle, CaptureEvent::Start) => {
                    &&& final(self).phase_spec() == CapturePhase::Fetching
                    &&& final(self).store_spec() == old(self).store_spec()
                    &&& r == CaptureAction::Fetch
                },
                (CapturePhase::Fetching, CaptureEvent::Fetched(frame)) => if frame@.len()
                    == old(self).store_spec().len_spec() {
                    &&& final(self).phase_spec() == CapturePhase::Updating
                    &&& final(self).store_spec().frames() == shifted(
                        old(self).store_spec().frames(),
                        frame@,
                    )
                    &&& r == CaptureAction::Upload
                } else {
                    &&& final(self).phase_spec() == CapturePhase::Failed
                    &&& final(self).store_spec() == old(self).store_spec()
                    &&& r == (CaptureAction::Abort {
                        fault: CaptureFault::WrongLength {
                            expected: old(self).store_spec().len_spec() as usize,
                            actual: frame@.len() as usize,
                        },
                    })
                },
                (CapturePhase::Fetching, CaptureEvent::FetchFailed) => {
                    &&& final(self).phase_spec() == CapturePhase::Failed
                    &&& final(self).store_spec() == old(self).store_spec()
                    &&& r == (CaptureAction::Abort { fault: CaptureFault::Capture })
                },
                (CapturePhase::Updating, CaptureEvent::Uploaded) => {
                    &&& final(self).phase_spec() == CapturePhase::Signaling
                    &&& final(self).store_spec() == old(self).store_spec()
                    &&& r == CaptureAction::Signal
                },
                (CapturePhase::Signaling, CaptureEvent::Signaled) => {
                    &&& final(self).phase_spec() == CapturePhase::Fetching
                    &&& final(self).store_spec() == old(self).store_spec()
                    &&& r == CaptureAction::Fetch
                },
                _ => {
                    &&& final(self).phase_spec() == old(self).phase_spec()
                    &&& final(self).store_spec() == old(self).store_spec()
                    &&& r == CaptureAction::Ignore
                },
            },
    {
        match (self.phase, event) {
            (CapturePhase::Idle, CaptureEvent::Start) => {
                self.phase = CapturePhase::Fetching;
                CaptureAction::Fetch
            },
            (CapturePhase::Fetching, CaptureEvent::Fetched(frame)) => {
                match self.store.update(frame.as_slice()) {
                    Ok(()) => {
                        self.phase = CapturePhase::Updating;
                        CaptureAction::Upload
                    },
                    Err(StoreError::WrongLength { expected, actual }) => {
                        self.phase = CapturePhase::Failed;
                        CaptureAction::Abort { fault: CaptureFault::WrongLength { expected, actual } }
                    },
                }
            },
            (CapturePhase::Fetching, CaptureEvent::FetchFailed) => {
                self.phase = CapturePhase::Failed;
                CaptureAction::Abort { fault: CaptureFault::Capture }
            },
            (CapturePhase::Updating, CaptureEvent::Uploaded) => {
                self.phase = CapturePhase::Signaling;
                CaptureAction::Signal
            },
            (CapturePhase::Signaling, CaptureEvent::Signaled) => {
                self.phase = CapturePhase::Fetching;
                CaptureAction::Fetch
            },
            _ => CaptureAction::Ignore,
        }
    }
}

} // verus!
