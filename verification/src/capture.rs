//! The screen-capture orchestration: the decision steps of the
//! screen-copy handshake, in order.
//!
//! The handshake runs `Idle -> Requested -> BufferDescribed ->
//! PoolCreated -> BufferCreated -> CaptureInFlight -> Complete`. The
//! protocol requests and the blocking waits happen with the connection
//! owner; the steps here resolve the target, hand out the negotiated
//! buffer parameters and the byte size to allocate, mark the capture in
//! flight, and clear it on completion.

use vstd::prelude::*;

use crate::errors::{Capability, WdError};
use crate::session::{AppData, Buffer, Screencopy, output_named};

verus! {

impl Buffer {
    /// [`Buffer::size`] guarded against overflow: the byte count when it
    /// fits the machine, nothing when the advertised geometry cannot be
    /// held in memory at all.
    pub fn checked_size(&self) -> (r: Option<usize>)
        ensures
            match r {
                Some(s) => s == 4 * self.height * self.width,
                None => 4 * self.height * self.width > usize::MAX,
            },
    {
        proof {
            assert(4 * (self.height * self.width) == 4 * self.height * self.width && self.height
                * self.width < 0x10000000000000000) by (nonlinear_arith)
                requires
                    self.height < 0x100000000 && self.width < 0x100000000,
            ;
        }
        if self.height as u64 * self.width as u64 <= usize::MAX as u64 / 4 {
            let pixels: usize = self.height as usize * self.width as usize;
            Some(4 * pixels)
        } else {
            proof {
                assert(4 * (self.height * self.width) > usize::MAX) by (nonlinear_arith)
                    requires
                        self.height * self.width > usize::MAX / 4,
                ;
            }
            None
        }
    }
}

impl AppData {
    /// Begin a capture: resolve the target output (explicit name, or the
    /// sole known output), demand the screen-copy manager, and open the
    /// capture request slot. The connection owner then issues the
    /// capture request for the returned output and keeps the frame
    /// handle. At most one capture is in flight per session.
    pub fn capture_begin(&mut self, name: Option<&String>) -> (r: Result<u32, WdError>)
        requires
            old(self).wf(),
            old(self).screencopy is None,
            !old(self).screencopy_in_progress,
        ensures
            final(self).wf(),
            match r {
                Ok(id) => {
                    &&& old(self).screencopy_manager
                    &&& match name {
                        Some(n) => exists|i: int|
                            0 <= i < old(self).outputs@.len() && old(self).outputs@[i].id == id
                                && #[trigger] output_named(old(self).outputs@[i], n@),
                        None => old(self).outputs@.len() == 1 && id == old(self).outputs@[0].id,
                    }
                    &&& *final(self) == (AppData {
                        screencopy: Some(Screencopy { buffer: None }),
                        ..*old(self)
                    })
                },
                Err(e) => {
                    &&& *final(self) == *old(self)
                    &&& match name {
                        Some(n) => if !old(self).spec_has_output_named(n@) {
                            e == WdError::OutputResolution(
                                crate::errors::OutputResolutionError::NoSuchName,
                            )
                        } else {
                            !old(self).screencopy_manager && e == WdError::CapabilityMissing(
                                Capability::ScreencopyManager,
                            )
                        },
                        None => if old(self).outputs@.len() > 1 {
                            e == WdError::OutputResolution(
                                crate::errors::OutputResolutionError::Ambiguous,
                            )
                        } else if old(self).outputs@.len() == 0 {
                            e == WdError::OutputResolution(
                                crate::errors::OutputResolutionError::NoOutputs,
                            )
                        } else {
                            !old(self).screencopy_manager && e == WdError::CapabilityMissing(
                                Capability::ScreencopyManager,
                            )
                        },
                    }
                },
            },
    {
        let id = match self.resolve_output(name) {
            Ok(id) => id,
            Err(e) => {
                return Err(e);
            },
        };
        match self.require_capability(Capability::ScreencopyManager) {
            Ok(()) => {},
            Err(e) => {
                return Err(e);
            },
        }
        self.screencopy = Some(Screencopy::new());
        Ok(id)
    }

    /// The buffer parameters the compositor negotiated for the capture
    /// in flight; to be called once the buffer event has arrived (the
    /// connection owner blocks on [`screencopy_buffer_set`](AppData::screencopy_buffer_set)).
    pub fn capture_buffer_params(&self) -> (b: Buffer)
        requires
            self.screencopy matches Some(sc) && sc.buffer is Some,
        ensures
            b == self.screencopy->Some_0.buffer->Some_0,
    {
        match &self.screencopy {
            Some(sc) => match &sc.buffer {
                Some(b) => *b,
                None => vstd::pervasive::unreached(),
            },
            None => vstd::pervasive::unreached(),
        }
    }

    /// Mark the copy request issued: the capture is now in flight, and
    /// stays so until the ready event clears it.
    pub fn capture_mark_in_flight(&mut self)
        requires
            old(self).screencopy is Some,
        ensures
            *final(self) == (AppData { screencopy_in_progress: true, ..*old(self) }),
    {
        self.screencopy_in_progress = true;
    }

    /// Finish the capture once the ready event has cleared the in-flight
    /// flag: hand the negotiated buffer out and clear the request slot
    /// (the connection owner destroys the frame handle).
    pub fn capture_finish(&mut self) -> (b: Buffer)
        requires
            old(self).screencopy matches Some(sc) && sc.buffer is Some,
            !old(self).screencopy_in_progress,
        ensures
            b == old(self).screencopy->Some_0.buffer->Some_0,
            *final(self) == (AppData { screencopy: None, ..*old(self) }),
    {
        let b = self.capture_buffer_params();
        self.screencopy = None;
        b
    }
}

} // verus!
