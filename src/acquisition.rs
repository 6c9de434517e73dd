//! The acquisition loop as a state machine: from its state and the outcome of
//! the last device or channel operation to its next state and the next
//! operation to perform.
//!
//! The thread that drives a session performs each `Action` and hands its
//! outcome back as an `Event`. The machine owns the frame buffer, decides every
//! transition, and releases the device in order on every way out.
use vstd::prelude::*;
use crate::bindings::DCAMCAP_TRANSFERINFO;
use crate::bindings::HDCAM;
use crate::camera::exposure_setting;
use crate::camera::roi_side;
use crate::camera::C11440_22CU;
use crate::camera::ROI_MAX;
use crate::frame_buffer::lemma_slots_disjoint;
use crate::frame_buffer::valid_layout;
use crate::frame_buffer::FrameBuffer;
use crate::frame_buffer::FrameBufferView;
use crate::image_buffer::gray16_from_raw;
use crate::image_buffer::gray16_height;
use crate::image_buffer::gray16_samples;
use crate::image_buffer::gray16_width;
use crate::image_buffer::Gray16Image;

verus! {

/// One frame as it is delivered: nanoseconds since capture started, and the image.
pub struct Frame {
    pub timestamp_ns: u64,
    pub image: Gray16Image,
}

impl Frame {
    /// Width of the image, in pixels.
    pub fn width(&self) -> (r: u32)
        ensures
            r == gray16_width(self.image),
    {
        self.image.width()
    }

    /// Height of the image, in pixels.
    pub fn height(&self) -> (r: u32)
        ensures
            r == gray16_height(self.image),
    {
        self.image.height()
    }

    /// The image's samples, row after row.
    pub fn into_samples(self) -> (r: Vec<u16>)
        ensures
            r@ == gray16_samples(self.image),
    {
        self.image.into_raw()
    }
}

/// A message to a running session.
#[derive(Debug, Clone, Copy, PartialEq, Eq, Structural)]
pub enum StreamMessage {
    /// Deliver the following frames to the consumer with this token.
    ChangeConsumer(u64),
    /// End the session.
    Stop,
}

/// What a non-blocking look at the control channel found.
#[derive(Debug, Clone, Copy, PartialEq, Eq, Structural)]
pub enum ControlPoll {
    /// No message is waiting.
    Empty,
    /// Every sender is gone.
    Disconnected,
    /// A message.
    Message(StreamMessage),
}

/// Why a session ended early.
#[derive(Debug, Clone, Copy, PartialEq, Eq, Structural)]
pub enum StreamError {
    /// The API or the camera could not be opened (the DCAM status).
    Connection(i32),
    /// The camera refused a setting or the buffer (the DCAM status).
    Configuration(i32),
    /// The frame size the camera reported cannot be laid out as a buffer.
    InvalidBuffer,
    /// A wait or a transfer query failed during capture (the DCAM status).
    Acquisition(i32),
    /// The camera named a slot that the buffer does not have.
    InvalidFrameIndex,
    /// A slot holds fewer samples than the region of interest has pixels.
    ShortFrame,
    /// The consumer could no longer take frames.
    Delivery,
    /// An outcome arrived that does not answer the operation asked for.
    UnexpectedEvent,
}

/// Where a session is.
#[derive(Debug, Clone, Copy, PartialEq, Eq, Structural)]
pub enum Stage {
    /// Opening the API and the camera.
    Opening,
    /// Setting the exposure.
    SettingExposure,
    /// Setting the region of interest.
    SettingResolution,
    /// Reading the bytes per frame.
    ReadingFrameBytes,
    /// Registering the buffer's slots with the camera.
    RegisteringBuffer,
    /// Opening the wait handle.
    OpeningWait,
    /// Starting capture.
    StartingCapture,
    /// Draining the control channel.
    Polling,
    /// Waiting for a frame.
    Waiting,
    /// Reading the newest frame.
    Reading,
    /// Handing a frame to its consumer.
    Delivering,
    /// Stopping capture.
    StoppingCapture,
    /// Deregistering the buffer.
    ReleasingBuffer,
    /// Closing the camera and the API.
    ClosingCamera,
    /// Over.
    Stopped,
}

/// The next operation for the thread that drives the session.
pub enum Action {
    /// Connect to the API and open the camera with this index; answer
    /// `Opened` or `Failed`.
    OpenCamera(i32),
    /// Set the exposure to this many nanoseconds; answer `Done` or `Failed`.
    SetExposure(u64),
    /// Set the region of interest to this width and height; answer `Done` or `Failed`.
    SetResolution(usize, usize),
    /// Read the bytes per frame; answer `FrameBytes` or `Failed`.
    ReadFrameBytes,
    /// Register the slots of the session's buffer with the camera; answer
    /// `Done` or `Failed`.
    RegisterBuffer,
    /// Open a wait handle; answer `Done` or `Failed`.
    OpenWait,
    /// Start sequence capture and the session clock; answer `Done` or `Failed`.
    StartCapture,
    /// Look at the control channel without blocking; answer `Control`.
    PollControl,
    /// Wait, with a timeout, for a new frame; answer `FrameReady`, `TimedOut` or `Failed`.
    Wait,
    /// Read the transfer state and the session clock; answer `Transfer` or `Failed`.
    ReadTransfer,
    /// Send the frame to the consumer with this token; answer `Delivered`
    /// or `Undeliverable`.
    Deliver(Frame, u64),
    /// Stop capture; any answer.
    StopCapture,
    /// Deregister the buffer; any answer.
    ReleaseBuffer,
    /// Close the camera and the API; any answer.
    CloseCamera,
    /// The session is over: return.
    Exit,
}

/// The outcome of an action.
pub enum Event {
    /// The camera was opened as this handle.
    Opened(HDCAM),
    /// The operation succeeded.
    Done,
    /// The operation failed with this DCAM status.
    Failed(i32),
    /// The camera's bytes per frame.
    FrameBytes(usize),
    /// What the control channel held.
    Control(ControlPoll),
    /// A frame is ready.
    FrameReady,
    /// The wait timed out.
    TimedOut,
    /// The transfer state, and the nanoseconds since capture started.
    Transfer(DCAMCAP_TRANSFERINFO, u64),
    /// The frame reached its consumer.
    Delivered,
    /// The consumer is gone.
    Undeliverable,
}

/// What a session is.
pub struct AcquisitionView {
    pub stage: Stage,
    pub camera_id: i32,
    pub exposure_ns: u64,
    pub width: usize,
    pub height: usize,
    pub depth: usize,
    pub camera_handle: HDCAM,
    pub buffer: Option<FrameBufferView>,
    pub camera_open: bool,
    pub buffer_registered: bool,
    pub capturing: bool,
    pub destination: u64,
    pub last_timestamp_ns: u64,
    pub fault: Option<StreamError>,
}

/// The stages of bringing a session up.
pub open spec fn configuring(stage: Stage) -> bool {
    stage == Stage::Opening || stage == Stage::SettingExposure || stage
        == Stage::SettingResolution || stage == Stage::ReadingFrameBytes || stage
        == Stage::RegisteringBuffer || stage == Stage::OpeningWait || stage
        == Stage::StartingCapture
}

/// The stages of the capture loop.
pub open spec fn in_loop(stage: Stage) -> bool {
    stage == Stage::Polling || stage == Stage::Waiting || stage == Stage::Reading || stage
        == Stage::Delivering
}

/// The stages of tearing a session down, the last included.
pub open spec fn draining(stage: Stage) -> bool {
    stage == Stage::StoppingCapture || stage == Stage::ReleasingBuffer || stage
        == Stage::ClosingCamera || stage == Stage::Stopped
}

/// The actions of tearing a session down.
pub open spec fn release_action(a: Action) -> bool {
    a is StopCapture || a is ReleaseBuffer || a is CloseCamera || a is Exit
}

/// The actions that touch the frame buffer's contents or wait on the camera.
pub open spec fn loop_action(a: Action) -> bool {
    a is PollControl || a is Wait || a is ReadTransfer || a is Deliver
}

/// Release steps still to come.
pub open spec fn pending(s: AcquisitionView) -> nat {
    (if s.capturing { 1nat } else { 0nat }) + (if s.buffer_registered { 1nat } else { 0nat })
        + (if s.camera_open { 1nat } else { 0nat }) + (if s.stage == Stage::Stopped {
        0nat
    } else {
        1nat
    })
}

impl AcquisitionView {
    /// The invariant of a session.
    pub open spec fn wf(self) -> bool {
        &&& 0 < self.width <= ROI_MAX
        &&& 0 < self.height <= ROI_MAX
        &&& self.capturing ==> self.buffer_registered
        &&& self.buffer_registered ==> self.buffer is Some && self.camera_open
        &&& self.buffer matches Some(b) ==> b.wf() && b.num_frames == self.depth
        &&& configuring(self.stage) ==> !self.capturing && self.fault is None
        &&& (self.stage == Stage::Opening || self.stage == Stage::SettingExposure || self.stage
            == Stage::SettingResolution || self.stage == Stage::ReadingFrameBytes)
            ==> self.buffer is None && !self.buffer_registered
        &&& self.stage == Stage::Opening ==> !self.camera_open
        &&& self.stage != Stage::Opening && configuring(self.stage) ==> self.camera_open
        &&& self.stage == Stage::RegisteringBuffer ==> self.buffer is Some
            && !self.buffer_registered
        &&& (self.stage == Stage::OpeningWait || self.stage == Stage::StartingCapture)
            ==> self.buffer_registered
        &&& in_loop(self.stage) ==> self.capturing && self.fault is None
        &&& self.stage == Stage::StoppingCapture ==> self.capturing
        &&& self.stage == Stage::ReleasingBuffer ==> !self.capturing && self.buffer_registered
        &&& self.stage == Stage::ClosingCamera ==> !self.capturing && !self.buffer_registered
            && self.buffer is None && self.camera_open
        &&& self.stage == Stage::Stopped ==> !self.capturing && !self.buffer_registered
            && !self.camera_open && self.buffer is None
    }
}

/// The session with `f` as its fault, unless it already has one.
pub open spec fn with_fault(s: AcquisitionView, f: StreamError) -> AcquisitionView {
    AcquisitionView { fault: if s.fault is Some { s.fault } else { Some(f) }, ..s }
}

/// The next step of tearing `s` down: stop capture, then deregister and free
/// the buffer, then close the camera, then return.
pub open spec fn release_next(s: AcquisitionView) -> (AcquisitionView, Action) {
    if s.capturing {
        (AcquisitionView { stage: Stage::StoppingCapture, ..s }, Action::StopCapture)
    } else if s.buffer_registered {
        (AcquisitionView { stage: Stage::ReleasingBuffer, ..s }, Action::ReleaseBuffer)
    } else if s.camera_open {
        (AcquisitionView { stage: Stage::ClosingCamera, buffer: None, ..s }, Action::CloseCamera)
    } else {
        (AcquisitionView { stage: Stage::Stopped, buffer: None, ..s }, Action::Exit)
    }
}

/// Ending `s` with fault `f`.
pub open spec fn fail(s: AcquisitionView, f: StreamError) -> (AcquisitionView, Action) {
    release_next(with_fault(s, f))
}

/// `s` moved to `stage`.
pub open spec fn at(s: AcquisitionView, stage: Stage) -> AcquisitionView {
    AcquisitionView { stage, ..s }
}

/// The timestamp a frame is given: the clock, but never earlier than the frame before.
pub open spec fn stamp(last: u64, elapsed: u64) -> u64 {
    if elapsed < last {
        last
    } else {
        elapsed
    }
}

/// What `Reading` does with a transfer report: the frame it delivers when the
/// report names a slot and the slot holds the region of interest; a fault otherwise.
pub open spec fn read_transfer(
    s: AcquisitionView,
    info: DCAMCAP_TRANSFERINFO,
    elapsed: u64,
    t: AcquisitionView,
    a: Action,
) -> bool {
    let b = s.buffer.unwrap();
    if !(0 <= info.nNewestFrameIndex < b.num_frames) {
        (t, a) == fail(s, StreamError::InvalidFrameIndex)
    } else if (s.width as int) * (s.height as int) > b.slot_len() {
        (t, a) == fail(s, StreamError::ShortFrame)
    } else {
        let ts = stamp(s.last_timestamp_ns, elapsed);
        &&& t == AcquisitionView { stage: Stage::Delivering, last_timestamp_ns: ts, ..s }
        &&& a matches Action::Deliver(frame, dest) && {
            &&& dest == s.destination
            &&& frame.timestamp_ns == ts
            &&& gray16_samples(frame.image) == b.slot(info.nNewestFrameIndex as int)
            &&& gray16_width(frame.image) == s.width
            &&& gray16_height(frame.image) == s.height
        }
    }
}

/// One step of a session: from `s`, on outcome `e`, to `t`, asking for `a`.
pub open spec fn steps_to(s: AcquisitionView, e: Event, t: AcquisitionView, a: Action) -> bool {
    match s.stage {
        Stage::Opening => match e {
            Event::Opened(h) => t == AcquisitionView {
                stage: Stage::SettingExposure,
                camera_open: true,
                camera_handle: h,
                ..s
            } && a == Action::SetExposure(exposure_setting(s.exposure_ns as int) as u64),
            Event::Failed(c) => (t, a) == fail(s, StreamError::Connection(c)),
            _ => (t, a) == fail(s, StreamError::UnexpectedEvent),
        },
        Stage::SettingExposure => match e {
            Event::Done => t == at(s, Stage::SettingResolution) && a == Action::SetResolution(
                s.width,
                s.height,
            ),
            Event::Failed(c) => (t, a) == fail(s, StreamError::Configuration(c)),
            _ => (t, a) == fail(s, StreamError::UnexpectedEvent),
        },
        Stage::SettingResolution => match e {
            Event::Done => t == at(s, Stage::ReadingFrameBytes) && a == Action::ReadFrameBytes,
            Event::Failed(c) => (t, a) == fail(s, StreamError::Configuration(c)),
            _ => (t, a) == fail(s, StreamError::UnexpectedEvent),
        },
        Stage::ReadingFrameBytes => match e {
            Event::FrameBytes(n) => if valid_layout(n as int, s.depth as int) {
                &&& t.stage == Stage::RegisteringBuffer
                &&& t.buffer matches Some(b) && b.wf() && b.camera_handle == s.camera_handle
                    && b.frame_size == n && b.num_frames == s.depth
                &&& t == AcquisitionView { stage: Stage::RegisteringBuffer, buffer: t.buffer, ..s }
                &&& a == Action::RegisterBuffer
            } else {
                (t, a) == fail(s, StreamError::InvalidBuffer)
            },
            Event::Failed(c) => (t, a) == fail(s, StreamError::Configuration(c)),
            _ => (t, a) == fail(s, StreamError::UnexpectedEvent),
        },
        Stage::RegisteringBuffer => match e {
            Event::Done => t == AcquisitionView {
                stage: Stage::OpeningWait,
                buffer_registered: true,
                ..s
            } && a == Action::OpenWait,
            Event::Failed(c) => (t, a) == fail(s, StreamError::Configuration(c)),
            _ => (t, a) == fail(s, StreamError::UnexpectedEvent),
        },
        Stage::OpeningWait => match e {
            Event::Done => t == at(s, Stage::StartingCapture) && a == Action::StartCapture,
            Event::Failed(c) => (t, a) == fail(s, StreamError::Configuration(c)),
            _ => (t, a) == fail(s, StreamError::UnexpectedEvent),
        },
        Stage::StartingCapture => match e {
            Event::Done => t == AcquisitionView {
                stage: Stage::Polling,
                capturing: true,
                ..s
            } && a == Action::PollControl,
            Event::Failed(c) => (t, a) == fail(s, StreamError::Configuration(c)),
            _ => (t, a) == fail(s, StreamError::UnexpectedEvent),
        },
        Stage::Polling => match e {
            Event::Control(ControlPoll::Empty) => t == at(s, Stage::Waiting) && a == Action::Wait,
            Event::Control(ControlPoll::Message(StreamMessage::ChangeConsumer(d))) => t
                == AcquisitionView { destination: d, ..s } && a == Action::PollControl,
            Event::Control(ControlPoll::Message(StreamMessage::Stop)) => (t, a) == release_next(s),
            Event::Control(ControlPoll::Disconnected) => (t, a) == release_next(s),
            _ => (t, a) == fail(s, StreamError::UnexpectedEvent),
        },
        Stage::Waiting => match e {
            Event::FrameReady => t == at(s, Stage::Reading) && a == Action::ReadTransfer,
            Event::TimedOut => t == at(s, Stage::Polling) && a == Action::PollControl,
            Event::Failed(c) => (t, a) == fail(s, StreamError::Acquisition(c)),
            _ => (t, a) == fail(s, StreamError::UnexpectedEvent),
        },
        Stage::Reading => match e {
            Event::Transfer(info, elapsed) => read_transfer(s, info, elapsed, t, a),
            Event::Failed(c) => (t, a) == fail(s, StreamError::Acquisition(c)),
            _ => (t, a) == fail(s, StreamError::UnexpectedEvent),
        },
        Stage::Delivering => match e {
            Event::Delivered => t == at(s, Stage::Polling) && a == Action::PollControl,
            Event::Undeliverable => (t, a) == fail(s, StreamError::Delivery),
            _ => (t, a) == fail(s, StreamError::UnexpectedEvent),
        },
        Stage::StoppingCapture => (t, a) == release_next(AcquisitionView { capturing: false, ..s }),
        Stage::ReleasingBuffer => (t, a) == release_next(
            AcquisitionView { buffer_registered: false, ..s },
        ),
        Stage::ClosingCamera => (t, a) == release_next(AcquisitionView { camera_open: false, ..s }),
        Stage::Stopped => t == s && a == Action::Exit,
    }
}

/// A session of the acquisition loop.
pub struct Acquisition {
    stage: Stage,
    camera_id: i32,
    exposure_ns: u64,
    width: usize,
    height: usize,
    depth: usize,
    camera_handle: HDCAM,
    buffer: Option<FrameBuffer>,
    camera_open: bool,
    buffer_registered: bool,
    capturing: bool,
    destination: u64,
    last_timestamp_ns: u64,
    fault: Option<StreamError>,
}

impl View for Acquisition {
    type V = AcquisitionView;

    closed spec fn view(&self) -> AcquisitionView {
        AcquisitionView {
            stage: self.stage,
            camera_id: self.camera_id,
            exposure_ns: self.exposure_ns,
            width: self.width,
            height: self.height,
            depth: self.depth,
            camera_handle: self.camera_handle,
            buffer: match self.buffer {
                Some(b) => Some(b@),
                None => None,
            },
            camera_open: self.camera_open,
            buffer_registered: self.buffer_registered,
            capturing: self.capturing,
            destination: self.destination,
            last_timestamp_ns: self.last_timestamp_ns,
            fault: self.fault,
        }
    }
}

impl Acquisition {
    /// A session, not yet started, that will open camera `camera_id`, set the
    /// exposure from `exposure_ns` and the region of interest from
    /// `resolution`, capture into `depth` slots and deliver to the consumer
    /// `destination`; and its first action, opening the camera.
    pub fn new(
        camera_id: i32,
        exposure_ns: u64,
        resolution: [usize; 2],
        depth: usize,
        destination: u64,
    ) -> (r: (Acquisition, Action))
        ensures
            r.0@.wf(),
            r.0@ == (AcquisitionView {
                stage: Stage::Opening,
                camera_id,
                exposure_ns,
                width: roi_side(resolution[0] as int) as usize,
                height: roi_side(resolution[1] as int) as usize,
                depth,
                camera_handle: 0,
                buffer: None,
                camera_open: false,
                buffer_registered: false,
                capturing: false,
                destination,
                last_timestamp_ns: 0,
                fault: None,
            }),
            r.1 == Action::OpenCamera(camera_id),
    {
        let roi = C11440_22CU::clamp_resolution(resolution);
        let acq = Acquisition {
            stage: Stage::Opening,
            camera_id,
            exposure_ns,
            width: roi[0],
            height: roi[1],
            depth,
            camera_handle: 0,
            buffer: None,
            camera_open: false,
            buffer_registered: false,
            capturing: false,
            destination,
            last_timestamp_ns: 0,
            fault: None,
        };
        (acq, Action::OpenCamera(camera_id))
    }

    /// Where the session is.
    pub fn stage(&self) -> (r: Stage)
        ensures
            r == self@.stage,
    {
        self.stage
    }

    /// Why the session ended early, if it did.
    pub fn fault(&self) -> (r: Option<StreamError>)
        ensures
            r == self@.fault,
    {
        self.fault
    }

    /// The open camera.
    pub fn camera_handle(&self) -> (r: HDCAM)
        ensures
            r == self@.camera_handle,
    {
        self.camera_handle
    }

    /// The consumer that frames go to now.
    pub fn destination(&self) -> (r: u64)
        ensures
            r == self@.destination,
    {
        self.destination
    }

    /// The region of interest, `[width, height]`.
    pub fn resolution(&self) -> (r: [usize; 2])
        ensures
            r[0] == self@.width,
            r[1] == self@.height,
    {
        [self.width, self.height]
    }

    /// The session's frame buffer, once it has one.
    pub fn frame_buffer(&self) -> (r: Option<&FrameBuffer>)
        ensures
            r is Some <==> self@.buffer is Some,
            r matches Some(b) ==> self@.buffer == Some(b@),
    {
        self.buffer.as_ref()
    }

    /// The storage of the session's buffer, once it has one, so that its
    /// slots can be registered with the camera, which writes frames there.
    ///
    /// The camera writes through the addresses registered from this storage,
    /// which these contracts do not see: what they say of delivered samples
    /// holds of the buffer's view, not of what the device is proved to have
    /// written.
    pub fn buffer_storage_mut(&mut self) -> (r: Option<&mut [u16]>)
        ensures
            r is Some <==> old(self)@.buffer is Some,
            r is None ==> final(self)@ == old(self)@,
            r matches Some(st) ==> st@ == old(self)@.buffer.unwrap().samples && final(self)@ == (
            AcquisitionView {
                buffer: Some(FrameBufferView { samples: final(st)@, ..old(self)@.buffer.unwrap() }),
                ..old(self)@
            }),
    {
        match &mut self.buffer {
            Some(b) => Some(b.storage_mut()),
            None => None,
        }
    }

    /// Writes `samples` into slot `index` of the session's buffer, as the
    /// camera does when it delivers a frame there.
    pub fn write_slot(&mut self, index: usize, samples: &[u16])
        requires
            old(self)@.wf(),
            old(self)@.buffer matches Some(b) && index < b.num_frames && samples@.len()
                == b.slot_len(),
        ensures
            final(self)@.wf(),
            final(self)@.buffer matches Some(b) && {
                let ob = old(self)@.buffer.unwrap();
                &&& b.camera_handle == ob.camera_handle
                &&& b.frame_size == ob.frame_size
                &&& b.num_frames == ob.num_frames
                &&& b.slot(index as int) == samples@
                &&& forall|j: int|
                    0 <= j < b.num_frames && j != index ==> #[trigger] b.slot(j) == ob.slot(j)
            },
            final(self)@ == (AcquisitionView { buffer: final(self)@.buffer, ..old(self)@ }),
    {
        match &mut self.buffer {
            Some(b) => b.write_slot(index, samples),
            None => {},
        }
    }

    /// Ends the session with `f`, keeping an earlier fault if there is one.
    fn fail(&mut self, f: StreamError) -> (a: Action)
        requires
            old(self)@.wf(),
            !old(self)@.capturing || in_loop(old(self)@.stage),
            !draining(old(self)@.stage),
        ensures
            final(self)@.wf(),
            (final(self)@, a) == fail(old(self)@, f),
    {
        if self.fault.is_none() {
            self.fault = Some(f);
        }
        self.release_next()
    }

    /// Takes the next step of tearing the session down.
    fn release_next(&mut self) -> (a: Action)
        requires
            old(self)@.capturing ==> old(self)@.buffer_registered,
            old(self)@.buffer_registered ==> old(self)@.buffer is Some && old(self)@.camera_open,
            old(self)@.buffer matches Some(b) ==> b.wf() && b.num_frames == old(self)@.depth,
            0 < old(self)@.width <= ROI_MAX,
            0 < old(self)@.height <= ROI_MAX,
        ensures
            final(self)@.wf(),
            (final(self)@, a) == release_next(old(self)@),
    {
        if self.capturing {
            self.stage = Stage::StoppingCapture;
            Action::StopCapture
        } else if self.buffer_registered {
            self.stage = Stage::ReleasingBuffer;
            Action::ReleaseBuffer
        } else if self.camera_open {
            self.stage = Stage::ClosingCamera;
            self.buffer = None;
            Action::CloseCamera
        } else {
            self.stage = Stage::Stopped;
            self.buffer = None;
            Action::Exit
        }
    }

    /// Copies the newest frame named by `info`, stamps it and asks for its delivery.
    fn read_transfer(&mut self, info: &DCAMCAP_TRANSFERINFO, elapsed: u64) -> (a: Action)
        requires
            old(self)@.wf(),
            old(self)@.stage == Stage::Reading,
        ensures
            final(self)@.wf(),
            read_transfer(old(self)@, *info, elapsed, final(self)@, a),
    {
        let copied = match &self.buffer {
            Some(b) => b.copy_most_recent_frame(info),
            None => None,
        };
        match copied {
            None => self.fail(StreamError::InvalidFrameIndex),
            Some(samples) => {
                proof {
                    let b = self@.buffer.unwrap();
                    lemma_slots_disjoint(b, info.nNewestFrameIndex as int, info.nNewestFrameIndex as int);
                    assert(samples@.len() == b.slot_len());
                    assert(self.width as u32 == self.width);
                    assert(self.height as u32 == self.height);
                }
                match gray16_from_raw(self.width as u32, self.height as u32, samples) {
                    None => self.fail(StreamError::ShortFrame),
                    Some(image) => {
                        let ts = if elapsed < self.last_timestamp_ns {
                            self.last_timestamp_ns
                        } else {
                            elapsed
                        };
                        self.last_timestamp_ns = ts;
                        self.stage = Stage::Delivering;
                        Action::Deliver(Frame { timestamp_ns: ts, image }, self.destination)
                    },
                }
            },
        }
    }

    /// Takes the outcome `event` of the last action and returns the next action.
    pub fn step(&mut self, event: Event) -> (a: Action)
        requires
            old(self)@.wf(),
        ensures
            final(self)@.wf(),
            steps_to(old(self)@, event, final(self)@, a),
    {
        match self.stage {
            Stage::Opening => match event {
                Event::Opened(h) => {
                    self.camera_open = true;
                    self.camera_handle = h;
                    self.stage = Stage::SettingExposure;
                    Action::SetExposure(C11440_22CU::clamp_exposure(self.exposure_ns))
                },
                Event::Failed(c) => self.fail(StreamError::Connection(c)),
                _ => self.fail(StreamError::UnexpectedEvent),
            },
            Stage::SettingExposure => match event {
                Event::Done => {
                    self.stage = Stage::SettingResolution;
                    Action::SetResolution(self.width, self.height)
                },
                Event::Failed(c) => self.fail(StreamError::Configuration(c)),
                _ => self.fail(StreamError::UnexpectedEvent),
            },
            Stage::SettingResolution => match event {
                Event::Done => {
                    self.stage = Stage::ReadingFrameBytes;
                    Action::ReadFrameBytes
                },
                Event::Failed(c) => self.fail(StreamError::Configuration(c)),
                _ => self.fail(StreamError::UnexpectedEvent),
            },
            Stage::ReadingFrameBytes => match event {
                Event::FrameBytes(n) => match FrameBuffer::attach(self.camera_handle, n, self.depth) {
                    Ok(fb) => {
                        self.buffer = Some(fb);
                        self.stage = Stage::RegisteringBuffer;
                        Action::RegisterBuffer
                    },
                    Err(_) => self.fail(StreamError::InvalidBuffer),
                },
                Event::Failed(c) => self.fail(StreamError::Configuration(c)),
                _ => self.fail(StreamError::UnexpectedEvent),
            },
            Stage::RegisteringBuffer => match event {
                Event::Done => {
                    self.buffer_registered = true;
                    self.stage = Stage::OpeningWait;
                    Action::OpenWait
                },
                Event::Failed(c) => self.fail(StreamError::Configuration(c)),
                _ => self.fail(StreamError::UnexpectedEvent),
            },
            Stage::OpeningWait => match event {
                Event::Done => {
                    self.stage = Stage::StartingCapture;
                    Action::StartCapture
                },
                Event::Failed(c) => self.fail(StreamError::Configuration(c)),
                _ => self.fail(StreamError::UnexpectedEvent),
            },
            Stage::StartingCapture => match event {
                Event::Done => {
                    self.capturing = true;
                    self.stage = Stage::Polling;
                    Action::PollControl
                },
                Event::Failed(c) => self.fail(StreamError::Configuration(c)),
                _ => self.fail(StreamError::UnexpectedEvent),
            },
            Stage::Polling => match event {
                Event::Control(ControlPoll::Empty) => {
                    self.stage = Stage::Waiting;
                    Action::Wait
                },
                Event::Control(ControlPoll::Message(StreamMessage::ChangeConsumer(d))) => {
                    self.destination = d;
                    Action::PollControl
                },
                Event::Control(ControlPoll::Message(StreamMessage::Stop)) => self.release_next(),
                Event::Control(ControlPoll::Disconnected) => self.release_next(),
                _ => self.fail(StreamError::UnexpectedEvent),
            },
            Stage::Waiting => match event {
                Event::FrameReady => {
                    self.stage = Stage::Reading;
                    Action::ReadTransfer
                },
                Event::TimedOut => {
                    self.stage = Stage::Polling;
                    Action::PollControl
                },
                Event::Failed(c) => self.fail(StreamError::Acquisition(c)),
                _ => self.fail(StreamError::UnexpectedEvent),
            },
            Stage::Reading => match event {
                Event::Transfer(info, elapsed) => self.read_transfer(&info, elapsed),
                Event::Failed(c) => self.fail(StreamError::Acquisition(c)),
                _ => self.fail(StreamError::UnexpectedEvent),
            },
            Stage::Delivering => match event {
                Event::Delivered => {
                    self.stage = Stage::Polling;
                    Action::PollControl
                },
                Event::Undeliverable => self.fail(StreamError::Delivery),
                _ => self.fail(StreamError::UnexpectedEvent),
            },
            Stage::StoppingCapture => {
                self.capturing = false;
                self.release_next()
            },
            Stage::ReleasingBuffer => {
                self.buffer_registered = false;
                self.release_next()
            },
            Stage::ClosingCamera => {
                self.camera_open = false;
                self.release_next()
            },
            Stage::Stopped => Action::Exit,
        }
    }
}

/// A delivered frame holds exactly the samples of the slot that the camera
/// named as newest, at the session's region of interest, and is stamped no
/// earlier than the frame delivered before it; the buffer is left as it was.
pub proof fn lemma_delivery_reflects_slot(s: AcquisitionView, e: Event, t: AcquisitionView, a: Action)
    requires
        s.wf(),
        steps_to(s, e, t, a),
        a is Deliver,
    ensures
        s.stage == Stage::Reading,
        t.buffer == s.buffer,
        e matches Event::Transfer(info, _) && s.buffer matches Some(b) && a matches Action::Deliver(
            frame,
            _,
        ) && {
            &&& gray16_samples(frame.image) == b.slot(info.nNewestFrameIndex as int)
            &&& gray16_width(frame.image) == s.width
            &&& gray16_height(frame.image) == s.height
            &&& frame.timestamp_ns == t.last_timestamp_ns
            &&& s.last_timestamp_ns <= frame.timestamp_ns
        },
{
}

/// Timestamps never go back: the last stamp of a session only grows.
pub proof fn lemma_timestamps_never_decrease(
    s: AcquisitionView,
    e: Event,
    t: AcquisitionView,
    a: Action,
)
    requires
        s.wf(),
        steps_to(s, e, t, a),
    ensures
        s.last_timestamp_ns <= t.last_timestamp_ns,
{
}

/// Each frame goes to exactly one consumer, the one bound when it is sent.
/// The binding changes only on a `ChangeConsumer` message, and that step
/// sends nothing; so no frame reaches both the old and the new consumer.
pub proof fn lemma_consumer_switch(s: AcquisitionView, e: Event, t: AcquisitionView, a: Action)
    requires
        s.wf(),
        steps_to(s, e, t, a),
    ensures
        a matches Action::Deliver(_, d) ==> d == s.destination && t.destination == s.destination,
        t.destination != s.destination ==> e == Event::Control(
            ControlPoll::Message(StreamMessage::ChangeConsumer(t.destination)),
        ) && a is PollControl,
        s.stage == Stage::Polling ==> (e matches Event::Control(
            ControlPoll::Message(StreamMessage::ChangeConsumer(d)),
        ) ==> t.destination == d && a is PollControl && t.stage == Stage::Polling),
{
}

/// Tearing down is final and ordered: once it begins no wait, copy or delivery
/// follows; the buffer is deregistered only after capture has stopped and the
/// loop has been left; every step brings the end closer; and a stop request or
/// the loss of every sender is acted on at the poll that finds it.
pub proof fn lemma_teardown_order(s: AcquisitionView, e: Event, t: AcquisitionView, a: Action)
    requires
        s.wf(),
        steps_to(s, e, t, a),
    ensures
        draining(s.stage) ==> draining(t.stage) && release_action(a) && !loop_action(a),
        a is ReleaseBuffer ==> t.stage == Stage::ReleasingBuffer && !t.capturing,
        a is ReleaseBuffer || a is CloseCamera || a is Exit ==> draining(t.stage),
        draining(s.stage) && s.stage != Stage::Stopped ==> pending(t) < pending(s),
        s.stage == Stage::Stopped ==> t == s && a is Exit,
        s.stage == Stage::Polling && (e == Event::Control(ControlPoll::Message(StreamMessage::Stop))
            || e == Event::Control(ControlPoll::Disconnected)) ==> draining(t.stage)
            && release_action(a) && t.fault == s.fault,
{
}

/// The loop waits only right after a poll found the control channel empty,
/// so a message is seen within one wait of being sent.
pub proof fn lemma_wait_follows_poll(s: AcquisitionView, e: Event, t: AcquisitionView, a: Action)
    requires
        s.wf(),
        steps_to(s, e, t, a),
        a is Wait,
    ensures
        s.stage == Stage::Polling,
        e == Event::Control(ControlPoll::Empty),
{
}

/// Every step keeps the invariant of a session.
pub proof fn lemma_step_preserves_wf(s: AcquisitionView, e: Event, t: AcquisitionView, a: Action)
    requires
        s.wf(),
        steps_to(s, e, t, a),
    ensures
        t.wf(),
{
}

/// A run of a session from a well-formed state: `states[k]` steps on
/// `events[k]` to `states[k + 1]`, asking for `actions[k]`.
pub open spec fn is_run(states: Seq<AcquisitionView>, events: Seq<Event>, actions: Seq<Action>) -> bool {
    &&& states.len() == events.len() + 1
    &&& actions.len() == events.len()
    &&& states[0].wf()
    &&& forall|k: int|
        0 <= k < events.len() ==> steps_to(
            #[trigger] states[k],
            events[k],
            states[k + 1],
            actions[k],
        )
}

/// Every state of a run keeps the invariant.
pub proof fn lemma_run_wf(states: Seq<AcquisitionView>, events: Seq<Event>, actions: Seq<Action>, k: int)
    requires
        is_run(states, events, actions),
        0 <= k < states.len(),
    ensures
        states[k].wf(),
    decreases k,
{
    if k > 0 {
        lemma_run_wf(states, events, actions, k - 1);
        lemma_step_preserves_wf(states[k - 1], events[k - 1], states[k], actions[k - 1]);
    }
}

/// Along a run, the last stamp never decreases.
pub proof fn lemma_run_stamps(
    states: Seq<AcquisitionView>,
    events: Seq<Event>,
    actions: Seq<Action>,
    i: int,
    j: int,
)
    requires
        is_run(states, events, actions),
        0 <= i <= j < states.len(),
    ensures
        states[i].last_timestamp_ns <= states[j].last_timestamp_ns,
    decreases j - i,
{
    if i < j {
        lemma_run_stamps(states, events, actions, i, j - 1);
        lemma_run_wf(states, events, actions, j - 1);
        lemma_timestamps_never_decrease(states[j - 1], events[j - 1], states[j], actions[j - 1]);
    }
}

/// Frames of a run are delivered with timestamps in the order they are sent.
pub proof fn lemma_run_deliveries_in_order(
    states: Seq<AcquisitionView>,
    events: Seq<Event>,
    actions: Seq<Action>,
    i: int,
    j: int,
)
    requires
        is_run(states, events, actions),
        0 <= i < j < actions.len(),
        actions[i] is Deliver,
        actions[j] is Deliver,
    ensures
        actions[i]->Deliver_0.timestamp_ns <= actions[j]->Deliver_0.timestamp_ns,
{
    lemma_run_wf(states, events, actions, i);
    lemma_run_wf(states, events, actions, j);
    lemma_delivery_reflects_slot(states[i], events[i], states[i + 1], actions[i]);
    lemma_delivery_reflects_slot(states[j], events[j], states[j + 1], actions[j]);
    lemma_run_stamps(states, events, actions, i + 1, j);
}

/// Once a run has begun tearing down, it stays in tear-down.
pub proof fn lemma_run_draining_stays(
    states: Seq<AcquisitionView>,
    events: Seq<Event>,
    actions: Seq<Action>,
    i: int,
    j: int,
)
    requires
        is_run(states, events, actions),
        0 <= i <= j < states.len(),
        draining(states[i].stage),
    ensures
        draining(states[j].stage),
    decreases j - i,
{
    if i < j {
        lemma_run_draining_stays(states, events, actions, i, j - 1);
        lemma_run_wf(states, events, actions, j - 1);
        lemma_teardown_order(states[j - 1], events[j - 1], states[j], actions[j - 1]);
    }
}

/// In a run, the buffer is deregistered after every wait, copy and delivery:
/// none of them comes after the `ReleaseBuffer` action.
pub proof fn lemma_run_release_after_loop(
    states: Seq<AcquisitionView>,
    events: Seq<Event>,
    actions: Seq<Action>,
    i: int,
    j: int,
)
    requires
        is_run(states, events, actions),
        0 <= i < actions.len(),
        0 <= j < actions.len(),
        actions[i] is ReleaseBuffer,
        loop_action(actions[j]),
    ensures
        j < i,
{
    lemma_run_wf(states, events, actions, i);
    lemma_teardown_order(states[i], events[i], states[i + 1], actions[i]);
    if j > i {
        lemma_run_draining_stays(states, events, actions, i + 1, j);
        lemma_run_wf(states, events, actions, j);
        lemma_teardown_order(states[j], events[j], states[j + 1], actions[j]);
    }
}

/// Whether `e` is a poll that found a `ChangeConsumer` message.
pub open spec fn is_consumer_change(e: Event) -> bool {
    e matches Event::Control(ControlPoll::Message(StreamMessage::ChangeConsumer(_)))
}

/// Between two consumer changes every frame of a run goes to the same
/// consumer: the one bound at the start of the stretch.
pub proof fn lemma_run_binding(
    states: Seq<AcquisitionView>,
    events: Seq<Event>,
    actions: Seq<Action>,
    i: int,
    j: int,
)
    requires
        is_run(states, events, actions),
        0 <= i <= j < actions.len(),
        forall|k: int| i <= k < j ==> !is_consumer_change(#[trigger] events[k]),
    ensures
        states[j].destination == states[i].destination,
        actions[j] matches Action::Deliver(_, d) ==> d == states[i].destination,
    decreases j - i,
{
    lemma_run_wf(states, events, actions, j);
    lemma_consumer_switch(states[j], events[j], states[j + 1], actions[j]);
    if i < j {
        lemma_run_binding(states, events, actions, i, j - 1);
        lemma_run_wf(states, events, actions, j - 1);
        lemma_consumer_switch(states[j - 1], events[j - 1], states[j], actions[j - 1]);
        assert(!is_consumer_change(events[j - 1]));
    }
}

/// In a run, every frame delivered holds exactly the samples of the slot that
/// the camera had just named as newest, at that step; so frames are delivered
/// in the order the camera reports them, one delivery per report.
pub proof fn lemma_run_payloads(
    states: Seq<AcquisitionView>,
    events: Seq<Event>,
    actions: Seq<Action>,
    k: int,
)
    requires
        is_run(states, events, actions),
        0 <= k < actions.len(),
        actions[k] is Deliver,
    ensures
        states[k].stage == Stage::Reading,
        events[k] matches Event::Transfer(info, _) && states[k].buffer matches Some(b)
            && actions[k] matches Action::Deliver(frame, d) && {
            &&& gray16_samples(frame.image) == b.slot(info.nNewestFrameIndex as int)
            &&& d == states[k].destination
        },
        k + 1 < actions.len() ==> !(actions[k + 1] is Deliver),
{
    lemma_run_wf(states, events, actions, k);
    lemma_delivery_reflects_slot(states[k], events[k], states[k + 1], actions[k]);
    lemma_consumer_switch(states[k], events[k], states[k + 1], actions[k]);
    if k + 1 < actions.len() {
        lemma_run_wf(states, events, actions, k + 1);
        if actions[k + 1] is Deliver {
            lemma_delivery_reflects_slot(states[k + 1], events[k + 1], states[k + 2], actions[k + 1]);
        }
    }
}

} // verus!
