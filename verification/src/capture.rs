//! The capture helper's state machine.
//!
//! The helper owns one off-screen render target plus a single
//! pending-snapshot slot and a queue of snapshot reads that are still in
//! flight.  The functions here make every decision of the capture
//! lifecycle — what a render overwrites, when a write is refused, what a
//! drain clears — as verified transitions on that state; the surrounding
//! application performs the GPU work each decision calls for and reports
//! each outcome back.

use vstd::prelude::*;

verus! {

/// The failures the capture lifecycle can surface to its caller.
#[derive(Clone, Copy, Debug, PartialEq, Eq, Structural)]
pub enum CaptureError {
    /// The referenced window does not exist.
    InvalidWindow,
    /// `write_to_file` was called with no snapshot pending.
    NoPendingSnapshot,
    /// The device's async worker pool could not complete in time.
    MapTimeout,
}

/// One copy of the off-screen target's contents: the frame counter at
/// capture time and the content rendered into the target for that frame.
#[derive(Clone, Copy, Debug, PartialEq, Eq, Structural)]
pub struct Snapshot {
    /// Position of this capture in the helper's frame order.
    pub frame: u64,
    /// The draw-command content the target held when it was captured.
    pub content: u64,
}

/// What the application must do to persist one snapshot: register the
/// asynchronous read-back and, once the copy is mapped, encode the pixels
/// as an image of exactly `width` by `height` and save it at `path`.
pub struct WriteRequest {
    pub path: String,
    pub snapshot: Snapshot,
    pub width: u32,
    pub height: u32,
}

/// The abstract state of one capture helper.
#[verifier::ext_equal]
pub ghost struct HelperView {
    /// The window whose device the helper renders with.
    pub window_id: u64,
    /// Output width in pixels, fixed at construction.
    pub width: u32,
    /// Output height in pixels, fixed at construction.
    pub height: u32,
    /// Multisample count of the off-screen target, fixed at construction.
    pub sample_count: u32,
    /// Frame counter: the number the next render will be given.
    pub next_frame: u64,
    /// Content currently held by the off-screen target, if any frame has
    /// been rendered into it.
    pub target_content: Option<u64>,
    /// The single pending-snapshot slot: the most recent capture not yet
    /// consumed by a write.
    pub pending: Option<Snapshot>,
    /// Snapshot reads handed to the device's worker pool and not yet
    /// known to have completed, in submission order.
    pub in_flight: Seq<Snapshot>,
    /// Whether the helper has been drained and closed (terminal).
    pub closed: bool,
}

/// The helper's state right after construction.
pub open spec fn initial_view(window_id: u64, sample_count: u32, width: u32, height: u32) -> HelperView {
    HelperView {
        window_id: window_id,
        width: width,
        height: height,
        sample_count: sample_count,
        next_frame: 0,
        target_content: None,
        pending: None,
        in_flight: Seq::empty(),
        closed: false,
    }
}

/// One render: the draw commands are rasterized into the off-screen
/// target and a fresh capture of it fills the pending slot, overwriting
/// whatever the slot held.
pub open spec fn spec_render(pre: HelperView, draw: u64) -> HelperView {
    HelperView {
        next_frame: (pre.next_frame + 1) as u64,
        target_content: Some(draw),
        pending: Some(Snapshot { frame: pre.next_frame, content: draw }),
        ..pre
    }
}

/// One write: the pending slot is taken either way, and the snapshot it
/// held joins the in-flight reads exactly when the device's worker pool
/// accepted the read (`worker_available`) — a refused read is never
/// enqueued, and that frame is lost.  With an empty slot nothing changes.
pub open spec fn spec_write(pre: HelperView, worker_available: bool) -> HelperView {
    match pre.pending {
        Some(snap) => HelperView {
            pending: None,
            in_flight: if worker_available {
                pre.in_flight.push(snap)
            } else {
                pre.in_flight
            },
            ..pre
        },
        None => pre,
    }
}

/// What a write returns: the snapshot being persisted; the refusal when
/// no render has filled the slot since the last write; or the worker
/// pool's timeout.
pub open spec fn spec_write_result(pre: HelperView, worker_available: bool) -> Result<
    Snapshot,
    CaptureError,
> {
    match pre.pending {
        Some(snap) => if worker_available {
            Ok(snap)
        } else {
            Err(CaptureError::MapTimeout)
        },
        None => Err(CaptureError::NoPendingSnapshot),
    }
}

/// One close: a drain that completed leaves no read in flight and the
/// helper closed; a drain that timed out changes nothing, so closing may
/// be retried.
pub open spec fn spec_close(pre: HelperView, drained: bool) -> HelperView {
    if drained {
        HelperView {
            in_flight: Seq::empty(),
            closed: true,
            ..pre
        }
    } else {
        pre
    }
}

impl HelperView {
    /// Well-formedness: positive output dimensions; frame numbers never
    /// exceed the counter; in-flight reads keep submission order, all
    /// older than the capture still sitting in the pending slot.
    pub open spec fn inv(self) -> bool {
        &&& self.width > 0
        &&& self.height > 0
        &&& (self.pending matches Some(p) ==> p.frame < self.next_frame)
        &&& (forall|i: int| 0 <= i < self.in_flight.len() ==> self.in_flight[i].frame < self.next_frame)
        &&& (forall|i: int, j: int|
            0 <= i < j < self.in_flight.len() ==> self.in_flight[i].frame < self.in_flight[j].frame)
        &&& (self.pending matches Some(p) ==> forall|i: int|
            0 <= i < self.in_flight.len() ==> self.in_flight[i].frame < p.frame)
    }
}

/// A helper that captures each rendered frame into an off-screen target
/// sized independently of the window, persists captures asynchronously,
/// and re-displays the target in the window.  This is the decision half
/// of that work: the owning application performs the GPU calls each
/// method's result describes.
pub struct CaptureHelper {
    window_id: u64,
    width: u32,
    height: u32,
    sample_count: u32,
    next_frame: u64,
    target_content: Option<u64>,
    pending: Option<Snapshot>,
    in_flight: Vec<Snapshot>,
    closed: bool,
}

impl View for CaptureHelper {
    type V = HelperView;

    closed spec fn view(&self) -> HelperView {
        HelperView {
            window_id: self.window_id,
            width: self.width,
            height: self.height,
            sample_count: self.sample_count,
            next_frame: self.next_frame,
            target_content: self.target_content,
            pending: self.pending,
            in_flight: self.in_flight@,
            closed: self.closed,
        }
    }
}

impl CaptureHelper {
    /// A helper bound to the application's main window, which always
    /// exists.
    pub fn from_main_window(window_id: u64, sample_count: u32, file_dimensions: [u32; 2]) -> (h: Self)
        requires
            file_dimensions@[0] > 0,
            file_dimensions@[1] > 0,
        ensures
            h@ == initial_view(window_id, sample_count, file_dimensions@[0], file_dimensions@[1]),
    {
        let width = file_dimensions[0];
        let height = file_dimensions[1];
        CaptureHelper {
            window_id,
            width,
            height,
            sample_count,
            next_frame: 0,
            target_content: None,
            pending: None,
            in_flight: Vec::new(),
            closed: false,
        }
    }

    /// A helper bound to the given window; `window_exists` reports
    /// whether the application could resolve the window's device, and an
    /// unresolved window is a construction error.
    pub fn from_window_id(
        window_id: u64,
        window_exists: bool,
        sample_count: u32,
        file_dimensions: [u32; 2],
    ) -> (r: Result<Self, CaptureError>)
        requires
            file_dimensions@[0] > 0,
            file_dimensions@[1] > 0,
        ensures
            (match r {
                Ok(h) => window_exists && h@ == initial_view(
                    window_id,
                    sample_count,
                    file_dimensions@[0],
                    file_dimensions@[1],
                ),
                Err(e) => !window_exists && e == CaptureError::InvalidWindow,
            }),
    {
        if window_exists {
            Ok(Self::from_main_window(window_id, sample_count, file_dimensions))
        } else {
            Err(CaptureError::InvalidWindow)
        }
    }

    /// Record one frame: the renderer rasterizes `draw` into the
    /// off-screen target and the capturer enqueues a copy of it, which
    /// becomes the pending snapshot — overwriting, by design, any
    /// snapshot a caller left unconsumed.
    pub fn render_image(&mut self, draw: u64)
        requires
            !old(self)@.closed,
            old(self)@.next_frame < u64::MAX,
        ensures
            final(self)@ == spec_render(old(self)@, draw),
    {
        self.target_content = Some(draw);
        self.pending = Some(Snapshot { frame: self.next_frame, content: draw });
        self.next_frame = self.next_frame + 1;
    }

    /// Consume the pending snapshot for persistence at `path`.  With no
    /// snapshot pending the call is refused and nothing changes.
    /// Otherwise the slot is emptied, and the read joins the in-flight
    /// set exactly when the device's worker pool accepted it
    /// (`worker_available`, the device's answer to registering the
    /// asynchronous read) — a refused read is a timeout, and that frame
    /// is lost.  The returned request is what the worker pool was handed;
    /// this call itself never waits for the file to be written.
    pub fn write_to_file(&mut self, path: String, worker_available: bool) -> (r: Result<
        WriteRequest,
        CaptureError,
    >)
        requires
            !old(self)@.closed,
        ensures
            final(self)@ == spec_write(old(self)@, worker_available),
            (match r {
                Ok(req) => {
                    &&& spec_write_result(old(self)@, worker_available) == Ok::<
                        Snapshot,
                        CaptureError,
                    >(req.snapshot)
                    &&& req.width == old(self)@.width
                    &&& req.height == old(self)@.height
                    &&& req.path@ == path@
                },
                Err(e) => spec_write_result(old(self)@, worker_available) == Err::<
                    Snapshot,
                    CaptureError,
                >(e),
            }),
    {
        match self.pending {
            Some(snap) => {
                self.pending = None;
                if worker_available {
                    self.in_flight.push(snap);
                    Ok(WriteRequest { path, snapshot: snap, width: self.width, height: self.height })
                } else {
                    Err(CaptureError::MapTimeout)
                }
            },
            None => Err(CaptureError::NoPendingSnapshot),
        }
    }

    /// What the window shows when the reshaper blits the off-screen
    /// target into a frame: the target's current content, untouched —
    /// displaying never re-renders.
    pub fn display_in_window(&self) -> (shown: Option<u64>)
        ensures
            shown == self@.target_content,
    {
        self.target_content
    }

    /// How many snapshot reads have been handed to the worker pool
    /// without their completion having been confirmed by a drain.
    pub fn active_snapshots(&self) -> (n: usize)
        ensures
            n == self@.in_flight.len(),
    {
        self.in_flight.len()
    }

    /// Whether the helper has been closed by a completed drain.
    pub fn is_closed(&self) -> (b: bool)
        ensures
            b == self@.closed,
    {
        self.closed
    }

    /// How many frames have been rendered into the off-screen target —
    /// equally, the number the next render will be given.
    pub fn frames_rendered(&self) -> (n: u64)
        ensures
            n == self@.next_frame,
    {
        self.next_frame
    }

    /// Shut down: the application blocks on the device until every
    /// in-flight read has completed, and reports whether the drain
    /// finished (`drained`) or hit the worker pool's deadline.  A
    /// finished drain empties the in-flight queue — its length is
    /// returned — and closes the helper; a timeout changes nothing and
    /// may be retried.
    pub fn close(&mut self, drained: bool) -> (r: Result<usize, CaptureError>)
        requires
            !old(self)@.closed,
        ensures
            final(self)@ == spec_close(old(self)@, drained),
            drained ==> (r matches Ok(n) && n == old(self)@.in_flight.len()),
            !drained ==> r == Err::<usize, CaptureError>(CaptureError::MapTimeout),
    {
        if drained {
            let n = self.in_flight.len();
            self.in_flight = Vec::new();
            self.closed = true;
            Ok(n)
        } else {
            Err(CaptureError::MapTimeout)
        }
    }
}

} // verus!
