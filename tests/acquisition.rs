use free_willy::acquisition::Acquisition;
use free_willy::acquisition::Action;
use free_willy::acquisition::ControlPoll;
use free_willy::acquisition::Event;
use free_willy::acquisition::Frame;
use free_willy::acquisition::Stage;
use free_willy::acquisition::StreamError;
use free_willy::acquisition::StreamMessage;
use free_willy::bindings::DCAMCAP_TRANSFERINFO;
use free_willy::source::C11440_22CUSource;
use std::collections::VecDeque;

const CAMERA: usize = 0x1000;

/// A camera that writes frame `k` (all samples `k + 1`) into slot `k % depth`
/// each time it is waited on, until it has produced `frames`, then idles.
struct SimDevice {
    frame_bytes: usize,
    frames: usize,
    produced: usize,
    clock_ns: u64,
    controls: VecDeque<ControlPoll>,
    switch_after: Option<(usize, u64)>,
    stop_when_idle: bool,
    fail_at: Option<&'static str>,
    log: Vec<&'static str>,
    delivered: Vec<(u64, Frame)>,
    steps: usize,
}

impl SimDevice {
    fn new(frame_bytes: usize, frames: usize) -> SimDevice {
        SimDevice {
            frame_bytes,
            frames,
            produced: 0,
            clock_ns: 0,
            controls: VecDeque::new(),
            switch_after: None,
            stop_when_idle: true,
            fail_at: None,
            log: Vec::new(),
            delivered: Vec::new(),
            steps: 0,
        }
    }

    fn outcome(&mut self, name: &'static str, ok: Event) -> Event {
        self.log.push(name);
        if self.fail_at == Some(name) {
            Event::Failed(-7)
        } else {
            ok
        }
    }

    /// Runs the session until it exits or `max_steps` have passed.
    fn drive(&mut self, m: &mut Acquisition, first: Action, max_steps: usize) {
        let mut action = first;
        while self.steps < max_steps {
            self.steps += 1;
            self.clock_ns += 1000;
            let event = match action {
                Action::OpenCamera(_) => self.outcome("open", Event::Opened(CAMERA)),
                Action::SetExposure(_) => self.outcome("exposure", Event::Done),
                Action::SetResolution(_, _) => self.outcome("resolution", Event::Done),
                Action::ReadFrameBytes => {
                    let n = self.frame_bytes;
                    self.outcome("framebytes", Event::FrameBytes(n))
                }
                Action::RegisterBuffer => self.outcome("register", Event::Done),
                Action::OpenWait => self.outcome("openwait", Event::Done),
                Action::StartCapture => self.outcome("start", Event::Done),
                Action::PollControl => {
                    self.log.push("poll");
                    let poll = if let Some(p) = self.controls.pop_front() {
                        p
                    } else if let Some((n, d)) = self.switch_after {
                        if self.delivered.len() == n {
                            self.switch_after = None;
                            ControlPoll::Message(StreamMessage::ChangeConsumer(d))
                        } else {
                            ControlPoll::Empty
                        }
                    } else if self.stop_when_idle && self.produced == self.frames {
                        ControlPoll::Message(StreamMessage::Stop)
                    } else {
                        ControlPoll::Empty
                    };
                    Event::Control(poll)
                }
                Action::Wait => {
                    self.log.push("wait");
                    if self.fail_at == Some("wait") {
                        Event::Failed(-9)
                    } else if self.produced < self.frames {
                        let depth = m.frame_buffer().unwrap().num_frames();
                        let len = m.frame_buffer().unwrap().slot_len();
                        let samples = vec![(self.produced + 1) as u16; len];
                        m.write_slot(self.produced % depth, &samples);
                        self.produced += 1;
                        Event::FrameReady
                    } else {
                        Event::TimedOut
                    }
                }
                Action::ReadTransfer => {
                    self.log.push("copy");
                    let depth = m.frame_buffer().unwrap().num_frames();
                    let mut info = DCAMCAP_TRANSFERINFO::new();
                    info.nNewestFrameIndex = ((self.produced - 1) % depth) as i32;
                    info.nFrameCount = self.produced as i32;
                    Event::Transfer(info, self.clock_ns)
                }
                Action::Deliver(frame, dest) => {
                    self.log.push("deliver");
                    self.delivered.push((dest, frame));
                    Event::Delivered
                }
                Action::StopCapture => self.outcome("stopcapture", Event::Done),
                Action::ReleaseBuffer => self.outcome("release", Event::Done),
                Action::CloseCamera => self.outcome("close", Event::Done),
                Action::Exit => {
                    self.log.push("exit");
                    return;
                }
            };
            action = m.step(event);
        }
    }
}

fn session(depth: usize, consumer: u64) -> (Acquisition, Action) {
    let mut source = C11440_22CUSource::new(0, depth);
    source.set_resolution([8, 4]);
    source.start(consumer)
}

fn position(log: &[&str], name: &str) -> usize {
    log.iter().position(|s| *s == name).unwrap()
}

fn last_position(log: &[&str], name: &str) -> usize {
    log.iter().rposition(|s| *s == name).unwrap()
}

#[test]
fn frames_arrive_in_device_order_with_rising_timestamps() {
    let (mut m, first) = session(3, 1);
    let mut dev = SimDevice::new(64, 7);
    dev.drive(&mut m, first, 1000);
    assert_eq!(m.stage(), Stage::Stopped);
    assert_eq!(m.fault(), None);
    assert_eq!(dev.delivered.len(), 7);
    let mut last = 0u64;
    for (k, (_, frame)) in dev.delivered.drain(..).enumerate() {
        assert!(frame.timestamp_ns >= last);
        last = frame.timestamp_ns;
        assert_eq!(frame.width(), 8);
        assert_eq!(frame.height(), 4);
        let samples = frame.into_samples();
        assert_eq!(samples, vec![(k + 1) as u16; 32]);
    }
}

#[test]
fn frame_stamps_never_go_back() {
    let (mut m, first) = session(2, 1);
    let mut a = first;
    for e in [Event::Opened(CAMERA), Event::Done, Event::Done, Event::FrameBytes(64), Event::Done,
        Event::Done, Event::Done, Event::Control(ControlPoll::Empty), Event::FrameReady]
    {
        a = m.step(e);
    }
    assert!(matches!(a, Action::ReadTransfer));
    let mut info = DCAMCAP_TRANSFERINFO::new();
    info.nNewestFrameIndex = 0;
    info.nFrameCount = 1;
    let first_stamp = match m.step(Event::Transfer(info, 5000)) {
        Action::Deliver(frame, _) => frame.timestamp_ns,
        _ => panic!("expected a delivery"),
    };
    assert_eq!(first_stamp, 5000);
    assert!(matches!(m.step(Event::Delivered), Action::PollControl));
    assert!(matches!(m.step(Event::Control(ControlPoll::Empty)), Action::Wait));
    assert!(matches!(m.step(Event::FrameReady), Action::ReadTransfer));
    let second_stamp = match m.step(Event::Transfer(info, 4000)) {
        Action::Deliver(frame, _) => frame.timestamp_ns,
        _ => panic!("expected a delivery"),
    };
    assert_eq!(second_stamp, 5000);
}

#[test]
fn consumer_switch_sends_each_frame_to_one_consumer() {
    let (mut m, first) = session(4, 1);
    let mut dev = SimDevice::new(64, 8);
    dev.switch_after = Some((3, 2));
    dev.drive(&mut m, first, 1000);
    assert_eq!(m.fault(), None);
    assert_eq!(dev.delivered.len(), 8);
    let dests: Vec<u64> = dev.delivered.iter().map(|(d, _)| *d).collect();
    assert_eq!(dests, vec![1, 1, 1, 2, 2, 2, 2, 2]);
    let payloads: Vec<u16> = dev.delivered.drain(..).map(|(_, f)| f.into_samples()[0]).collect();
    assert_eq!(payloads, vec![1, 2, 3, 4, 5, 6, 7, 8]);
    assert_eq!(m.destination(), 2);
}

#[test]
fn stop_releases_after_loop_in_order() {
    let (mut m, first) = session(4, 1);
    let mut dev = SimDevice::new(64, 5);
    dev.drive(&mut m, first, 1000);
    let log = dev.log.clone();
    let release = position(&log, "release");
    assert!(last_position(&log, "copy") < release);
    assert!(last_position(&log, "wait") < release);
    assert!(last_position(&log, "deliver") < release);
    assert!(position(&log, "stopcapture") < release);
    assert!(release < position(&log, "close"));
    assert_eq!(log.last(), Some(&"exit"));
    assert_eq!(m.frame_buffer().is_none(), true);
    // the stop message is acted on at once: no wait between it and the exit
    let stop_poll = last_position(&log, "poll");
    assert_eq!(&log[stop_poll..], &["poll", "stopcapture", "release", "close", "exit"]);
}

#[test]
fn stop_while_idle_exits_within_one_wait() {
    let (mut m, first) = session(4, 1);
    let mut dev = SimDevice::new(64, 0);
    dev.stop_when_idle = false;
    dev.drive(&mut m, first, 40);
    assert_eq!(m.stage(), Stage::Waiting);
    // the wait times out, the next poll finds the stop message
    let a = m.step(Event::TimedOut);
    assert!(matches!(a, Action::PollControl));
    let a = m.step(Event::Control(ControlPoll::Message(StreamMessage::Stop)));
    assert!(matches!(a, Action::StopCapture));
    assert!(matches!(m.step(Event::Done), Action::ReleaseBuffer));
    assert!(matches!(m.step(Event::Done), Action::CloseCamera));
    assert!(matches!(m.step(Event::Done), Action::Exit));
    assert_eq!(m.stage(), Stage::Stopped);
    assert_eq!(m.fault(), None);
}

#[test]
fn end_to_end_ten_frames_then_stop() {
    let (mut m, first) = session(4, 1);
    let mut dev = SimDevice::new(64, 10);
    dev.stop_when_idle = false;
    dev.drive(&mut m, first, 300);
    assert_eq!(dev.delivered.len(), 10);
    assert_eq!(m.stage(), Stage::Waiting);
    // idle: a few timeouts, then stop
    assert!(matches!(m.step(Event::TimedOut), Action::PollControl));
    assert!(matches!(m.step(Event::Control(ControlPoll::Empty)), Action::Wait));
    assert!(matches!(m.step(Event::TimedOut), Action::PollControl));
    let mut a = m.step(Event::Control(ControlPoll::Message(StreamMessage::Stop)));
    let mut steps = 0;
    while !matches!(a, Action::Exit) {
        a = m.step(Event::Done);
        steps += 1;
    }
    assert_eq!(steps, 3);
    assert_eq!(m.fault(), None);
    assert_eq!(dev.delivered.len(), 10);
}

#[test]
fn disconnected_control_channel_ends_session() {
    let (mut m, first) = session(2, 1);
    let mut dev = SimDevice::new(64, 3);
    dev.controls.push_back(ControlPoll::Disconnected);
    dev.drive(&mut m, first, 100);
    assert_eq!(m.stage(), Stage::Stopped);
    assert_eq!(m.fault(), None);
    assert_eq!(dev.delivered.len(), 0);
}

#[test]
fn open_failure_is_connection_error() {
    let (mut m, first) = session(2, 1);
    let mut dev = SimDevice::new(64, 3);
    dev.fail_at = Some("open");
    dev.drive(&mut m, first, 100);
    assert_eq!(m.fault(), Some(StreamError::Connection(-7)));
    assert_eq!(dev.log, vec!["open", "exit"]);
}

#[test]
fn exposure_failure_is_configuration_error_and_closes_camera() {
    let (mut m, first) = session(2, 1);
    let mut dev = SimDevice::new(64, 3);
    dev.fail_at = Some("exposure");
    dev.drive(&mut m, first, 100);
    assert_eq!(m.fault(), Some(StreamError::Configuration(-7)));
    assert_eq!(dev.log, vec!["open", "exposure", "close", "exit"]);
}

#[test]
fn register_failure_frees_buffer_without_release() {
    let (mut m, first) = session(2, 1);
    let mut dev = SimDevice::new(64, 3);
    dev.fail_at = Some("register");
    dev.drive(&mut m, first, 100);
    assert_eq!(m.fault(), Some(StreamError::Configuration(-7)));
    assert_eq!(
        dev.log,
        vec!["open", "exposure", "resolution", "framebytes", "register", "close", "exit"]
    );
    assert!(m.frame_buffer().is_none());
}

#[test]
fn start_failure_releases_buffer() {
    let (mut m, first) = session(2, 1);
    let mut dev = SimDevice::new(64, 3);
    dev.fail_at = Some("start");
    dev.drive(&mut m, first, 100);
    assert_eq!(m.fault(), Some(StreamError::Configuration(-7)));
    assert_eq!(&dev.log[dev.log.len() - 4..], &["start", "release", "close", "exit"]);
}

#[test]
fn odd_frame_bytes_is_invalid_buffer() {
    let (mut m, first) = session(2, 1);
    let mut dev = SimDevice::new(63, 3);
    dev.drive(&mut m, first, 100);
    assert_eq!(m.fault(), Some(StreamError::InvalidBuffer));
}

#[test]
fn wait_failure_is_acquisition_error() {
    let (mut m, first) = session(2, 1);
    let mut dev = SimDevice::new(64, 3);
    dev.fail_at = Some("wait");
    dev.drive(&mut m, first, 100);
    assert_eq!(m.fault(), Some(StreamError::Acquisition(-9)));
    assert_eq!(&dev.log[dev.log.len() - 5..], &["wait", "stopcapture", "release", "close", "exit"]);
}

#[test]
fn small_slot_is_short_frame() {
    // 8 x 4 pixels need 32 samples; a slot of 40 bytes holds 20
    let (mut m, first) = session(2, 1);
    let mut dev = SimDevice::new(40, 3);
    dev.drive(&mut m, first, 100);
    assert_eq!(m.fault(), Some(StreamError::ShortFrame));
    assert_eq!(dev.delivered.len(), 0);
}

fn capturing_session() -> Acquisition {
    let (mut m, _) = session(2, 1);
    for e in [Event::Opened(CAMERA), Event::Done, Event::Done, Event::FrameBytes(64), Event::Done,
        Event::Done, Event::Done, Event::Control(ControlPoll::Empty)]
    {
        m.step(e);
    }
    assert_eq!(m.stage(), Stage::Waiting);
    m
}

#[test]
fn newest_index_outside_buffer_is_invalid_frame_index() {
    let mut m = capturing_session();
    assert!(matches!(m.step(Event::FrameReady), Action::ReadTransfer));
    let mut info = DCAMCAP_TRANSFERINFO::new();
    info.nNewestFrameIndex = 2;
    assert!(matches!(m.step(Event::Transfer(info, 10)), Action::StopCapture));
    assert_eq!(m.fault(), Some(StreamError::InvalidFrameIndex));
}

#[test]
fn unanswered_transfer_is_invalid_frame_index() {
    let mut m = capturing_session();
    m.step(Event::FrameReady);
    let info = DCAMCAP_TRANSFERINFO::new();
    assert!(matches!(m.step(Event::Transfer(info, 10)), Action::StopCapture));
    assert_eq!(m.fault(), Some(StreamError::InvalidFrameIndex));
}

#[test]
fn gone_consumer_is_delivery_error() {
    let mut m = capturing_session();
    m.step(Event::FrameReady);
    let mut info = DCAMCAP_TRANSFERINFO::new();
    info.nNewestFrameIndex = 1;
    assert!(matches!(m.step(Event::Transfer(info, 10)), Action::Deliver(_, 1)));
    assert!(matches!(m.step(Event::Undeliverable), Action::StopCapture));
    assert_eq!(m.fault(), Some(StreamError::Delivery));
}

#[test]
fn unexpected_event_ends_session() {
    let mut m = capturing_session();
    assert!(matches!(m.step(Event::Delivered), Action::StopCapture));
    assert_eq!(m.fault(), Some(StreamError::UnexpectedEvent));
    assert!(matches!(m.step(Event::Failed(3)), Action::ReleaseBuffer));
    assert!(matches!(m.step(Event::Done), Action::CloseCamera));
    assert!(matches!(m.step(Event::Done), Action::Exit));
    assert!(matches!(m.step(Event::Done), Action::Exit));
    assert_eq!(m.fault(), Some(StreamError::UnexpectedEvent));
}

#[test]
fn first_fault_is_kept() {
    let mut m = capturing_session();
    assert!(matches!(m.step(Event::Failed(11)), Action::StopCapture));
    assert!(matches!(m.step(Event::Failed(12)), Action::ReleaseBuffer));
    assert_eq!(m.fault(), Some(StreamError::Acquisition(11)));
}

#[test]
fn configuring_asks_for_clamped_settings() {
    let mut source = C11440_22CUSource::new(3, 4);
    source.set_exposure(5_000_000);
    source.set_resolution([10, 3000]);
    let (mut m, first) = source.start(9);
    assert!(matches!(first, Action::OpenCamera(3)));
    assert_eq!(m.resolution(), [8, 2044]);
    assert!(matches!(m.step(Event::Opened(CAMERA)), Action::SetExposure(4_999_999)));
    assert_eq!(m.camera_handle(), CAMERA);
    assert!(matches!(m.step(Event::Done), Action::SetResolution(8, 2044)));
    assert!(matches!(m.step(Event::Done), Action::ReadFrameBytes));
    assert!(matches!(m.step(Event::FrameBytes(2 * 8 * 2044)), Action::RegisterBuffer));
    let fb = m.frame_buffer().unwrap();
    assert_eq!(fb.num_frames(), 4);
    assert_eq!(fb.frame_size(), 2 * 8 * 2044);
    assert_eq!(fb.camera_handle(), CAMERA);
    assert_eq!(m.destination(), 9);
}
