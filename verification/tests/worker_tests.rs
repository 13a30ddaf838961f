use scope_source::control::{Message, Polled, Settings};
use scope_source::frame::Bitmap;
use scope_source::worker::{Action, Event, Link, Phase, Worker};
use scope_source::worker::{CONNECT_TIMEOUT_MS, GRAB_TIMEOUT_MS, PERIOD_NS};

/// What a driver saw during one iteration.
struct Seen {
    connects: Vec<String>,
    grabs: usize,
    frames: Vec<(u32, u32, u32, Vec<u8>)>,
    last: Action,
}

/// Drives one iteration, answering each action from the given outcomes.
fn iterate(
    w: &mut Worker,
    start: u64,
    connect: bool,
    grab: Option<Bitmap>,
    polled: Polled,
    end: u64,
) -> Seen {
    let mut seen = Seen { connects: Vec::new(), grabs: 0, frames: Vec::new(), last: Action::Poll };
    let mut grab = Some(grab);
    let mut polled = Some(polled);
    let mut action = w.step(Event::Begin { now: start });
    loop {
        action = match action {
            Action::Connect { address, timeout_ms } => {
                assert_eq!(timeout_ms, 1000);
                seen.connects.push(address);
                w.step(Event::Connected { ok: connect })
            }
            Action::Grab { timeout_ms } => {
                assert_eq!(timeout_ms, 2000);
                seen.grabs += 1;
                w.step(Event::Grabbed { bitmap: grab.take().expect("one grab an iteration") })
            }
            Action::Publish => {
                let f = w.frame();
                let n = 4 * f.width() as usize * f.height() as usize;
                seen.frames.push((f.width(), f.height(), f.linesize(), f.data()[..n].to_vec()));
                w.step(Event::Published)
            }
            Action::Poll => {
                let p = polled.take().expect("one look at the queue an iteration");
                w.step(Event::Polled { polled: p, now: end })
            }
            last => {
                seen.last = last;
                return seen;
            }
        };
    }
}

fn settings(address: &str, blank: bool) -> Polled {
    Polled::Message(Message::Update(Settings::new(address.to_string(), blank)))
}

fn worker(address: &str, blank: bool) -> Worker {
    Worker::new(Settings::new(address.to_string(), blank))
}

fn picture(w: u32, h: u32, fill: u8) -> Option<Bitmap> {
    Some(Bitmap::new(w, h, vec![fill; (3 * w * h) as usize]).unwrap())
}

#[test]
fn timing_constants() {
    assert_eq!(PERIOD_NS, 100_000_000);
    assert_eq!(CONNECT_TIMEOUT_MS, 1000);
    assert_eq!(GRAB_TIMEOUT_MS, 2000);
}

#[test]
fn new_worker_is_disconnected_and_idle_with_its_settings() {
    let w = worker("scope:555", true);
    assert!(!w.is_connected());
    assert!(!w.is_stopped());
    assert_eq!(w.phase(), Phase::Idle);
    assert_eq!(w.deadline(), 0);
    assert_eq!(w.settings().address, "scope:555");
    assert!(w.settings().blank);
    assert_eq!(w.frame().width(), 800);
    assert_eq!(w.frame().height(), 480);
    assert_eq!(w.frame().linesize(), 3200);
    assert_eq!(w.frame().data().len(), 1_536_000);
    assert!(w.frame().data().iter().all(|b| *b == 0xff));
    let w = Worker::new(Settings::default());
    assert_eq!(w.settings().address, "");
    assert!(!w.settings().blank);
}

#[test]
fn worker_without_address_or_black_frames_only_polls() {
    let mut w = worker("", false);
    for k in 0..3u64 {
        let seen = iterate(&mut w, k * PERIOD_NS, true, None, Polled::Empty, k * PERIOD_NS + 10);
        assert!(seen.connects.is_empty());
        assert_eq!(seen.grabs, 0);
        assert!(seen.frames.is_empty());
        assert!(matches!(seen.last, Action::Sleep { nanos: 99_999_990 }));
    }
}

#[test]
fn first_action_follows_the_settings_given_at_creation() {
    let mut w = worker("", true);
    assert!(matches!(w.step(Event::Begin { now: 0 }), Action::Publish));
    assert_eq!(&w.frame().data()[..8], &[0, 0, 0, 0xff, 0, 0, 0, 0xff]);
    let mut w = worker("", false);
    assert!(matches!(w.step(Event::Begin { now: 0 }), Action::Poll));
    let mut w = worker("scope:555", false);
    let a = w.step(Event::Begin { now: 0 });
    assert!(matches!(a, Action::Connect { ref address, timeout_ms: 1000 } if address == "scope:555"));
}

#[test]
fn first_iteration_connects_to_the_address_given_at_creation() {
    let mut w = worker("ds1054z.local:555", true);
    let seen = iterate(&mut w, 0, true, picture(2, 1, 5), Polled::Empty, 1);
    assert_eq!(seen.connects, vec!["ds1054z.local:555".to_string()]);
    assert_eq!(seen.grabs, 1);
    assert_eq!(seen.frames.len(), 1);
    assert_eq!(seen.frames[0].3, vec![5, 5, 5, 0xff, 5, 5, 5, 0xff]);
    assert!(w.is_connected());
}

#[test]
fn message_before_the_first_iteration_is_not_taken_up() {
    let mut w = worker("", true);
    let a = w.step(Event::Polled { polled: settings("other:1", false), now: 0 });
    assert!(matches!(a, Action::Proceed));
    assert_eq!(w.settings().address, "");
    assert!(w.settings().blank);
    assert_eq!(w.phase(), Phase::Idle);
}

#[test]
fn empty_address_publishes_black_frames_every_iteration() {
    let mut w = worker("", true);
    for k in 0..6u64 {
        let seen = iterate(&mut w, k * PERIOD_NS, true, None, Polled::Empty, k * PERIOD_NS + 5);
        assert!(seen.connects.is_empty());
        assert_eq!(seen.grabs, 0);
        assert_eq!(seen.frames.len(), 1);
        let (width, height, linesize, data) = &seen.frames[0];
        assert_eq!((*width, *height, *linesize), (800, 480, 3200));
        assert_eq!(data.len(), 1_536_000);
        for (j, b) in data.iter().enumerate() {
            assert_eq!(*b, if j % 4 == 3 { 0xff } else { 0 });
        }
        assert!(!w.is_connected());
        assert_eq!(w.settings().address, "");
        assert!(w.settings().blank);
    }
}

#[test]
fn settings_that_arrive_later_show_black_frames_from_the_next_iteration() {
    let mut w = worker("", false);
    let seen = iterate(&mut w, 0, true, None, settings("", true), 1);
    assert!(seen.frames.is_empty());
    for k in 1..4u64 {
        let seen = iterate(&mut w, k, true, None, Polled::Empty, k);
        assert!(seen.connects.is_empty());
        assert_eq!(seen.frames.len(), 1);
        assert_eq!(&seen.frames[0].3[..4], &[0, 0, 0, 0xff]);
    }
}

#[test]
fn black_frame_keeps_last_known_dimensions() {
    let mut w = worker("scope:555", true);
    iterate(&mut w, 1, true, picture(640, 480, 9), Polled::Empty, 2);
    let seen = iterate(&mut w, 2, true, None, settings("", true), 3);
    assert!(seen.frames.len() == 1);
    let seen = iterate(&mut w, 3, true, None, Polled::Empty, 4);
    assert_eq!(seen.frames.len(), 1);
    let (width, height, linesize, data) = &seen.frames[0];
    assert_eq!((*width, *height, *linesize), (640, 480, 2560));
    assert_eq!(data.len(), 4 * 640 * 480);
    assert!(data.iter().enumerate().all(|(j, b)| *b == if j % 4 == 3 { 0xff } else { 0 }));
    // past the frame in use, the buffer holds what it held
    assert_eq!(w.frame().data()[4 * 640 * 480], 0xff);
}

#[test]
fn steady_grabs_publish_and_never_reconnect() {
    let mut w = worker("ds1054z.local:555", true);
    let mut connects = Vec::new();
    for k in 1..8u64 {
        let seen = iterate(&mut w, k, true, picture(640, 480, k as u8), Polled::Empty, k);
        connects.extend(seen.connects);
        assert_eq!(seen.grabs, 1);
        assert_eq!(seen.frames.len(), 1);
        let (width, height, linesize, data) = &seen.frames[0];
        assert_eq!((*width, *height, *linesize), (640, 480, 2560));
        assert_eq!(data.len(), 1_228_800);
        for (j, b) in data.iter().enumerate() {
            assert_eq!(*b, if j % 4 == 3 { 0xff } else { k as u8 });
        }
        assert!(w.is_connected());
    }
    assert_eq!(connects, vec!["ds1054z.local:555".to_string()]);
}

#[test]
fn filler_is_what_the_buffer_held_after_a_larger_picture() {
    let mut w = worker("scope:555", false);
    iterate(&mut w, 1, true, picture(1000, 500, 1), Polled::Empty, 2);
    assert_eq!(w.frame().data().len(), 2_000_000);
    let seen = iterate(&mut w, 2, true, picture(640, 480, 2), Polled::Empty, 3);
    let (_, _, _, data) = &seen.frames[0];
    assert!(data.iter().enumerate().all(|(j, b)| *b == if j % 4 == 3 { 0xff } else { 2 }));
    // stale bytes of the larger picture stay behind the frame in use
    assert_eq!(&w.frame().data()[1_228_800..1_228_804], &[1, 1, 1, 0xff]);
    assert_eq!(w.frame().data().len(), 2_000_000);
}

#[test]
fn failed_grab_disconnects_and_next_iteration_reconnects() {
    let mut w = worker("scope:555", false);
    let mut connects = 0;
    for k in 1..5u64 {
        let seen = iterate(&mut w, k, true, picture(4, 4, 1), Polled::Empty, k);
        connects += seen.connects.len();
        assert_eq!(seen.frames.len(), 1);
        assert!(w.is_connected());
    }
    assert_eq!(connects, 1);
    let seen = iterate(&mut w, 5, true, None, Polled::Empty, 5);
    assert!(seen.connects.is_empty());
    assert_eq!(seen.grabs, 1);
    assert!(seen.frames.is_empty());
    assert!(!w.is_connected());
    let seen = iterate(&mut w, 6, true, picture(4, 4, 2), Polled::Empty, 6);
    assert_eq!(seen.connects, vec!["scope:555".to_string()]);
    assert_eq!(seen.grabs, 1);
    assert!(w.is_connected());
}

#[test]
fn failed_grab_shows_black_frame_when_asked_to() {
    let mut w = worker("scope:555", true);
    iterate(&mut w, 1, true, picture(2, 2, 7), Polled::Empty, 1);
    let seen = iterate(&mut w, 2, true, None, Polled::Empty, 2);
    assert_eq!(seen.grabs, 1);
    assert_eq!(seen.frames.len(), 1);
    let (width, height, _, data) = &seen.frames[0];
    assert_eq!((*width, *height), (2, 2));
    assert_eq!(data, &vec![0, 0, 0, 0xff, 0, 0, 0, 0xff, 0, 0, 0, 0xff, 0, 0, 0, 0xff]);
    assert!(!w.is_connected());
}

#[test]
fn stop_while_connected_exits_without_publishing_again() {
    let mut w = worker("scope:555", true);
    iterate(&mut w, 1, true, picture(4, 4, 1), Polled::Empty, 1);
    assert!(w.is_connected());
    let seen = iterate(&mut w, 2, true, picture(4, 4, 2), Polled::Message(Message::End), 2);
    assert_eq!(seen.frames.len(), 1);
    assert!(matches!(seen.last, Action::Exit));
    assert!(w.is_stopped());
    // whatever a driver sends from now on, the answer is to exit
    assert!(matches!(w.step(Event::Begin { now: 3 }), Action::Exit));
    assert!(matches!(w.step(Event::Grabbed { bitmap: picture(4, 4, 3) }), Action::Exit));
    assert!(matches!(w.step(Event::Published), Action::Exit));
    assert!(matches!(w.step(Event::Connected { ok: true }), Action::Exit));
    assert!(matches!(w.step(Event::Polled { polled: Polled::Empty, now: 4 }), Action::Exit));
    assert!(w.is_stopped());
    assert_eq!(&w.frame().data()[..4], &[2, 2, 2, 0xff]);
}

#[test]
fn abandoned_queue_stops_the_worker() {
    let mut w = worker("", false);
    let seen = iterate(&mut w, 0, true, None, Polled::Abandoned, 1);
    assert!(matches!(seen.last, Action::Exit));
    assert!(w.is_stopped());
    assert_eq!(w.phase(), Phase::Stopped);
}

#[test]
fn connected_after_connect_and_grab_succeed() {
    let mut w = worker("scope:555", false);
    let seen = iterate(&mut w, 1, true, picture(1, 1, 1), Polled::Empty, 1);
    assert_eq!(seen.connects.len(), 1);
    assert_eq!(seen.grabs, 1);
    assert!(w.is_connected());
}

#[test]
fn disconnected_after_connect_fails() {
    let mut w = worker("scope:555", false);
    for k in 1..4u64 {
        let seen = iterate(&mut w, k, false, picture(1, 1, 1), Polled::Empty, k);
        assert_eq!(seen.connects, vec!["scope:555".to_string()]);
        assert_eq!(seen.grabs, 0);
        assert!(seen.frames.is_empty());
        assert!(!w.is_connected());
    }
}

#[test]
fn failed_connect_shows_black_frame_when_asked_to() {
    let mut w = worker("scope:555", true);
    let seen = iterate(&mut w, 1, false, None, Polled::Empty, 1);
    assert_eq!(seen.connects.len(), 1);
    assert_eq!(seen.frames.len(), 1);
    assert_eq!(seen.frames[0].0, 800);
    assert_eq!(&seen.frames[0].3[..4], &[0, 0, 0, 0xff]);
}

#[test]
fn disconnected_after_connect_succeeds_and_grab_fails() {
    let mut w = worker("scope:555", false);
    let seen = iterate(&mut w, 1, true, None, Polled::Empty, 1);
    assert_eq!(seen.connects.len(), 1);
    assert_eq!(seen.grabs, 1);
    assert!(!w.is_connected());
}

#[test]
fn update_with_same_settings_still_disconnects() {
    let mut w = worker("scope:555", true);
    iterate(&mut w, 1, true, picture(1, 1, 1), Polled::Empty, 1);
    assert!(w.is_connected());
    let seen = iterate(&mut w, 2, true, picture(1, 1, 2), settings("scope:555", true), 2);
    assert!(seen.connects.is_empty());
    assert_eq!(seen.frames.len(), 1);
    assert!(!w.is_connected());
    assert_eq!(w.settings().address, "scope:555");
    assert!(w.settings().blank);
    let seen = iterate(&mut w, 3, true, picture(1, 1, 3), Polled::Empty, 3);
    assert_eq!(seen.connects, vec!["scope:555".to_string()]);
    assert!(w.is_connected());
}

#[test]
fn update_replaces_settings_as_a_whole() {
    let mut w = worker("first:1", true);
    iterate(&mut w, 1, false, None, settings("second:2", false), 1);
    assert_eq!(w.settings().address, "second:2");
    assert!(!w.settings().blank);
    let seen = iterate(&mut w, 2, false, None, Polled::Empty, 2);
    assert_eq!(seen.connects, vec!["second:2".to_string()]);
    assert!(seen.frames.is_empty());
}

#[test]
fn one_message_is_taken_up_per_iteration() {
    let mut w = worker("", false);
    let first = iterate(&mut w, 0, true, None, settings("a:1", false), 1);
    assert!(matches!(first.last, Action::Sleep { .. }));
    assert_eq!(w.settings().address, "a:1");
    iterate(&mut w, 1, false, None, settings("b:2", false), 1);
    assert_eq!(w.settings().address, "b:2");
}

#[test]
fn sleep_is_what_is_left_of_the_period() {
    let mut w = worker("", false);
    let seen = iterate(&mut w, 1_000, true, None, Polled::Empty, 40_001_000);
    assert!(matches!(seen.last, Action::Sleep { nanos: 60_000_000 }));
    assert_eq!(w.deadline(), 100_001_000);
    assert_eq!(w.phase(), Phase::Idle);
}

#[test]
fn no_sleep_once_the_deadline_has_passed() {
    let mut w = worker("", false);
    let seen = iterate(&mut w, 0, true, None, Polled::Empty, 100_000_000);
    assert!(matches!(seen.last, Action::Proceed));
    let seen = iterate(&mut w, 5, true, None, Polled::Empty, 3_000_000_005);
    assert!(matches!(seen.last, Action::Proceed));
    let seen = iterate(&mut w, 5, true, None, Polled::Empty, 100_000_004);
    assert!(matches!(seen.last, Action::Sleep { nanos: 1 }));
}

#[test]
fn deadline_stops_at_the_end_of_the_clock() {
    let mut w = worker("", false);
    let seen = iterate(&mut w, u64::MAX - 5, true, None, Polled::Empty, u64::MAX - 2);
    assert_eq!(w.deadline(), u64::MAX);
    assert!(matches!(seen.last, Action::Sleep { nanos: 2 }));
}

#[test]
fn unexpected_event_changes_nothing_and_repeats_the_action() {
    let mut w = worker("", false);
    assert!(matches!(w.step(Event::Published), Action::Proceed));
    assert!(matches!(w.step(Event::Connected { ok: true }), Action::Proceed));
    assert!(!w.is_connected());
    assert_eq!(w.phase(), Phase::Idle);
    iterate(&mut w, 0, true, None, settings("scope:555", true), 1);
    let a = w.step(Event::Begin { now: 7 });
    assert!(matches!(a, Action::Connect { ref address, timeout_ms: 1000 } if address == "scope:555"));
    assert_eq!(w.phase(), Phase::Connecting);
    let a = w.step(Event::Begin { now: 900 });
    assert!(matches!(a, Action::Connect { ref address, timeout_ms: 1000 } if address == "scope:555"));
    assert_eq!(w.deadline(), 100_000_007);
    assert!(matches!(w.step(Event::Grabbed { bitmap: picture(1, 1, 1) }), Action::Connect { .. }));
    assert_eq!(w.frame().width(), 800);
    assert!(matches!(w.step(Event::Connected { ok: true }), Action::Grab { timeout_ms: 2000 }));
    assert_eq!(w.phase(), Phase::Grabbing);
    assert!(matches!(w.step(Event::Polled { polled: Polled::Abandoned, now: 9 }), Action::Grab { .. }));
    assert!(w.is_connected());
    assert!(matches!(w.step(Event::Grabbed { bitmap: picture(1, 1, 1) }), Action::Publish));
    assert_eq!(w.phase(), Phase::Publishing);
    assert!(matches!(w.step(Event::Begin { now: 1 }), Action::Publish));
    assert!(matches!(w.step(Event::Published), Action::Poll));
    assert_eq!(w.phase(), Phase::Polling);
    assert!(matches!(w.step(Event::Published), Action::Poll));
}

#[test]
fn buffer_never_shrinks_over_a_worker_life() {
    let mut w = worker("scope:555", true);
    let mut last = w.frame().data().len();
    let dims = [(10u32, 10u32), (1000, 500), (1, 1), (0, 0), (1200, 600), (800, 480)];
    for (k, (width, height)) in dims.iter().enumerate() {
        iterate(&mut w, k as u64, true, picture(*width, *height, 1), Polled::Empty, k as u64);
        assert!(w.frame().data().len() >= last);
        last = w.frame().data().len();
        iterate(&mut w, k as u64, true, None, settings("scope:555", true), k as u64);
        assert!(w.frame().data().len() >= last);
        last = w.frame().data().len();
    }
    assert_eq!(last, 2_880_000);
}

#[test]
fn link_and_phase_compare_by_variant() {
    assert_eq!(Link::Connected, Link::Connected);
    assert_ne!(Link::Connected, Link::Disconnected);
    assert_ne!(Phase::Idle, Phase::Stopped);
}
