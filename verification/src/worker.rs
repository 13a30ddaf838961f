//! The polling worker as a state machine.
//!
//! A worker performs nothing itself. Whoever drives it hands it an event, and
//! the worker answers with the next action: connect, grab, publish the frame,
//! look at the message queue, sleep. Performing the action yields the next
//! event. One round from `Begin` to `Sleep` or `Proceed` is one iteration.

use vstd::prelude::*;
use crate::control::{MessageView, PolledView, SettingsView};
use crate::control::{Message, Polled, Settings};
use crate::frame::{Bitmap, BitmapView, Frame, FrameView};

verus! {

/// Length of one iteration, start to start, in nanoseconds.
pub const PERIOD_NS: u64 = 100_000_000;

/// How long a connection attempt may take, in milliseconds.
pub const CONNECT_TIMEOUT_MS: u64 = 1000;

/// How long a screen grab may take, in milliseconds.
pub const GRAB_TIMEOUT_MS: u64 = 2000;

/// Whether a session with the oscilloscope is open.
#[derive(Debug, Clone, Copy, PartialEq, Eq, Structural)]
pub enum Link {
    Disconnected,
    Connected,
}

/// Which event a worker waits for.
#[derive(Debug, Clone, Copy, PartialEq, Eq, Structural)]
pub enum Phase {
    /// Between iterations: waits for `Begin`.
    Idle,
    /// Waits for the outcome of a connection attempt.
    Connecting,
    /// Waits for the outcome of a screen grab.
    Grabbing,
    /// Waits for the frame to be handed to the sink.
    Publishing,
    /// Waits for a look at the message queue.
    Polling,
    /// Has been told to stop. Answers everything with `Exit`.
    Stopped,
}

/// What an event is.
pub enum EventView {
    Begin { now: u64 },
    Connected { ok: bool },
    Grabbed { bitmap: Option<BitmapView> },
    Published,
    Polled { polled: PolledView, now: u64 },
}

/// What has happened since the worker's last action. Times are nanoseconds
/// on a clock that never runs backwards.
pub enum Event {
    /// An iteration starts at time `now`.
    Begin { now: u64 },
    /// The connection attempt ended. A timeout is a failure.
    Connected { ok: bool },
    /// The screen grab ended. A failure or a timeout gives no bitmap.
    Grabbed { bitmap: Option<Bitmap> },
    /// The frame was handed to the sink.
    Published,
    /// The message queue was looked at, and then the clock, which read `now`.
    Polled { polled: Polled, now: u64 },
}

impl View for Event {
    type V = EventView;

    open spec fn view(&self) -> EventView {
        match self {
            Event::Begin { now } => EventView::Begin { now: *now },
            Event::Connected { ok } => EventView::Connected { ok: *ok },
            Event::Grabbed { bitmap: Some(b) } => EventView::Grabbed { bitmap: Some(b@) },
            Event::Grabbed { bitmap: None } => EventView::Grabbed { bitmap: None },
            Event::Published => EventView::Published,
            Event::Polled { polled, now } => EventView::Polled { polled: polled@, now: *now },
        }
    }
}

impl Event {
    /// A bitmap that comes with the event is well formed.
    pub open spec fn wf(&self) -> bool {
        self matches Event::Grabbed { bitmap: Some(b) } ==> b.wf()
    }
}

impl EventView {
    /// A bitmap that comes with the event is well formed.
    pub open spec fn wf(self) -> bool {
        self matches EventView::Grabbed { bitmap: Some(b) } ==> b.wf()
    }
}

/// What an action is.
pub enum ActionView {
    Connect { address: Seq<char>, timeout_ms: u64 },
    Grab { timeout_ms: u64 },
    Publish,
    Poll,
    Sleep { nanos: u64 },
    Proceed,
    Exit,
}

/// What the driver of a worker is to do next.
#[derive(Debug)]
pub enum Action {
    /// Open a session with `address`, giving up after `timeout_ms`. Answer
    /// with `Connected`.
    Connect { address: String, timeout_ms: u64 },
    /// Grab the screen over the open session, giving up after `timeout_ms`.
    /// Answer with `Grabbed`.
    Grab { timeout_ms: u64 },
    /// Hand the worker's frame to the sink. Answer with `Published`.
    Publish,
    /// Look at the message queue without waiting, then read the clock.
    /// Answer with `Polled`.
    Poll,
    /// Sleep for `nanos`, which is not zero. Answer with `Begin`.
    Sleep { nanos: u64 },
    /// Answer with `Begin` at once.
    Proceed,
    /// Stop driving the worker.
    Exit,
}

impl View for Action {
    type V = ActionView;

    open spec fn view(&self) -> ActionView {
        match self {
            Action::Connect { address, timeout_ms } => ActionView::Connect {
                address: address@,
                timeout_ms: *timeout_ms,
            },
            Action::Grab { timeout_ms } => ActionView::Grab { timeout_ms: *timeout_ms },
            Action::Publish => ActionView::Publish,
            Action::Poll => ActionView::Poll,
            Action::Sleep { nanos } => ActionView::Sleep { nanos: *nanos },
            Action::Proceed => ActionView::Proceed,
            Action::Exit => ActionView::Exit,
        }
    }
}

/// The time an iteration that started at `start` is to end.
pub open spec fn deadline_after(start: u64) -> u64 {
    if start + PERIOD_NS <= u64::MAX {
        (start + PERIOD_NS) as u64
    } else {
        u64::MAX
    }
}

/// What a worker is.
pub struct WorkerView {
    pub settings: SettingsView,
    pub link: Link,
    pub frame: FrameView,
    pub phase: Phase,
    pub deadline: u64,
}

impl WorkerView {
    /// The frame is well formed, and a worker waits for the outcome of a
    /// connection attempt only while disconnected with an address, and for
    /// the outcome of a grab only while connected.
    pub open spec fn wf(self) -> bool {
        &&& self.frame.wf()
        &&& self.phase == Phase::Connecting ==> self.link == Link::Disconnected
            && self.settings.address.len() > 0
        &&& self.phase == Phase::Grabbing ==> self.link == Link::Connected
    }

    /// A new worker: disconnected, between iterations, with the settings its
    /// owner made it with and the initial frame.
    pub open spec fn initial(settings: SettingsView) -> WorkerView {
        WorkerView {
            settings,
            link: Link::Disconnected,
            frame: FrameView::initial(),
            phase: Phase::Idle,
            deadline: 0,
        }
    }

    /// The action that the worker's phase waits for the outcome of.
    pub open spec fn pending(self) -> ActionView {
        match self.phase {
            Phase::Idle => ActionView::Proceed,
            Phase::Connecting => ActionView::Connect {
                address: self.settings.address,
                timeout_ms: CONNECT_TIMEOUT_MS,
            },
            Phase::Grabbing => ActionView::Grab { timeout_ms: GRAB_TIMEOUT_MS },
            Phase::Publishing => ActionView::Publish,
            Phase::Polling => ActionView::Poll,
            Phase::Stopped => ActionView::Exit,
        }
    }

    /// Moves to `phase` and asks for the action that belongs to it.
    pub open spec fn wait_in(self, phase: Phase) -> (WorkerView, ActionView) {
        let next = WorkerView { phase, ..self };
        (next, next.pending())
    }

    /// With nothing to show from the oscilloscope: a black frame if the
    /// settings ask for one, else straight on to the message queue.
    pub open spec fn show_blank(self) -> (WorkerView, ActionView) {
        if self.settings.blank {
            (WorkerView { frame: self.frame.cleared(), ..self }).wait_in(Phase::Publishing)
        } else {
            self.wait_in(Phase::Polling)
        }
    }

    /// Grabs the screen if connected, else goes on without.
    pub open spec fn try_grab(self) -> (WorkerView, ActionView) {
        if self.link == Link::Connected {
            self.wait_in(Phase::Grabbing)
        } else {
            self.show_blank()
        }
    }

    /// Connects if disconnected and there is an address, else goes on as it is.
    pub open spec fn try_connect(self) -> (WorkerView, ActionView) {
        if self.link == Link::Disconnected && self.settings.address.len() > 0 {
            self.wait_in(Phase::Connecting)
        } else {
            self.try_grab()
        }
    }

    /// Ends the iteration at time `now`: sleeps until the deadline if it has
    /// not passed.
    pub open spec fn rest(self, now: u64) -> (WorkerView, ActionView) {
        let next = WorkerView { phase: Phase::Idle, ..self };
        if now < self.deadline {
            (next, ActionView::Sleep { nanos: (self.deadline - now) as u64 })
        } else {
            (next, ActionView::Proceed)
        }
    }

    /// Takes up what the message queue gave. `End` and an abandoned queue
    /// stop the worker. New settings replace the old and close the session,
    /// whatever they say.
    pub open spec fn heed(self, polled: PolledView, now: u64) -> (WorkerView, ActionView) {
        match polled {
            PolledView::Message(MessageView::End) | PolledView::Abandoned => self.wait_in(
                Phase::Stopped,
            ),
            PolledView::Message(MessageView::Update(settings)) => (WorkerView {
                settings,
                link: Link::Disconnected,
                ..self
            }).rest(now),
            PolledView::Empty => self.rest(now),
        }
    }

    /// The worker after `event`, and the action it answers with. An event
    /// that the phase does not wait for changes nothing and is answered with
    /// the pending action once more.
    pub open spec fn step(self, event: EventView) -> (WorkerView, ActionView) {
        match (self.phase, event) {
            (Phase::Idle, EventView::Begin { now }) => (WorkerView {
                deadline: deadline_after(now),
                ..self
            }).try_connect(),
            (Phase::Connecting, EventView::Connected { ok }) => (WorkerView {
                link: if ok {
                    Link::Connected
                } else {
                    Link::Disconnected
                },
                ..self
            }).try_grab(),
            (Phase::Grabbing, EventView::Grabbed { bitmap: Some(b) }) => (WorkerView {
                frame: self.frame.loaded(b),
                ..self
            }).wait_in(Phase::Publishing),
            (Phase::Grabbing, EventView::Grabbed { bitmap: None }) => (WorkerView {
                link: Link::Disconnected,
                ..self
            }).show_blank(),
            (Phase::Publishing, EventView::Published) => self.wait_in(Phase::Polling),
            (Phase::Polling, EventView::Polled { polled, now }) => self.heed(polled, now),
            _ => (self, self.pending()),
        }
    }
}

/// The worker's state: settings, link, frame buffer, and where in the
/// iteration it stands.
pub struct Worker {
    settings: Settings,
    link: Link,
    frame: Frame,
    phase: Phase,
    deadline: u64,
}

impl View for Worker {
    type V = WorkerView;

    closed spec fn view(&self) -> WorkerView {
        WorkerView {
            settings: self.settings@,
            link: self.link,
            frame: self.frame@,
            phase: self.phase,
            deadline: self.deadline,
        }
    }
}

impl Worker {
    pub open spec fn wf(&self) -> bool {
        self@.wf()
    }

    /// A worker before its first iteration. The settings are in force from
    /// the first iteration on, until new ones arrive through the queue.
    pub fn new(settings: Settings) -> (w: Worker)
        ensures
            w.wf(),
            w@ == WorkerView::initial(settings@),
    {
        Worker {
            settings,
            link: Link::Disconnected,
            frame: Frame::new(),
            phase: Phase::Idle,
            deadline: 0,
        }
    }

    /// Whether a session is open.
    pub fn is_connected(&self) -> (b: bool)
        ensures
            b == (self@.link == Link::Connected),
    {
        self.link == Link::Connected
    }

    /// Whether the worker has been told to stop.
    pub fn is_stopped(&self) -> (b: bool)
        ensures
            b == (self@.phase == Phase::Stopped),
    {
        self.phase == Phase::Stopped
    }

    /// The event the worker waits for.
    pub fn phase(&self) -> (p: Phase)
        ensures
            p == self@.phase,
    {
        self.phase
    }

    /// The settings in use.
    pub fn settings(&self) -> (s: &Settings)
        ensures
            s@ == self@.settings,
    {
        &self.settings
    }

    /// The frame to hand to the sink.
    pub fn frame(&self) -> (f: &Frame)
        ensures
            f@ == self@.frame,
            self.wf() ==> f.wf(),
    {
        &self.frame
    }

    /// The time the current iteration is to end.
    pub fn deadline(&self) -> (d: u64)
        ensures
            d == self@.deadline,
    {
        self.deadline
    }

    /// The action that belongs to the worker's phase.
    fn pending(&self) -> (action: Action)
        ensures
            action@ == self@.pending(),
    {
        match self.phase {
            Phase::Idle => Action::Proceed,
            Phase::Connecting => Action::Connect {
                address: self.settings.address.clone(),
                timeout_ms: CONNECT_TIMEOUT_MS,
            },
            Phase::Grabbing => Action::Grab { timeout_ms: GRAB_TIMEOUT_MS },
            Phase::Publishing => Action::Publish,
            Phase::Polling => Action::Poll,
            Phase::Stopped => Action::Exit,
        }
    }

    fn wait_in(&mut self, phase: Phase) -> (action: Action)
        ensures
            (final(self)@, action@) == old(self)@.wait_in(phase),
    {
        self.phase = phase;
        self.pending()
    }

    fn show_blank(&mut self) -> (action: Action)
        requires
            old(self)@.frame.wf(),
        ensures
            (final(self)@, action@) == old(self)@.show_blank(),
    {
        if self.settings.blank {
            self.frame.blank();
            self.wait_in(Phase::Publishing)
        } else {
            self.wait_in(Phase::Polling)
        }
    }

    fn try_grab(&mut self) -> (action: Action)
        requires
            old(self)@.frame.wf(),
        ensures
            (final(self)@, action@) == old(self)@.try_grab(),
    {
        if self.link == Link::Connected {
            self.wait_in(Phase::Grabbing)
        } else {
            self.show_blank()
        }
    }

    fn try_connect(&mut self) -> (action: Action)
        requires
            old(self)@.frame.wf(),
        ensures
            (final(self)@, action@) == old(self)@.try_connect(),
    {
        if self.link == Link::Disconnected && self.settings.has_address() {
            self.wait_in(Phase::Connecting)
        } else {
            self.try_grab()
        }
    }

    fn rest(&mut self, now: u64) -> (action: Action)
        ensures
            (final(self)@, action@) == old(self)@.rest(now),
    {
        self.phase = Phase::Idle;
        if now < self.deadline {
            Action::Sleep { nanos: self.deadline - now }
        } else {
            Action::Proceed
        }
    }

    fn heed(&mut self, polled: Polled, now: u64) -> (action: Action)
        ensures
            (final(self)@, action@) == old(self)@.heed(polled@, now),
    {
        match polled {
            Polled::Message(Message::End) => self.wait_in(Phase::Stopped),
            Polled::Abandoned => self.wait_in(Phase::Stopped),
            Polled::Message(Message::Update(settings)) => {
                self.settings = settings;
                self.link = Link::Disconnected;
                self.rest(now)
            },
            Polled::Empty => self.rest(now),
        }
    }

    /// Takes `event` and answers with the next action, as
    /// [`WorkerView::step`] says.
    pub fn step(&mut self, event: Event) -> (action: Action)
        requires
            old(self).wf(),
            event.wf(),
        ensures
            final(self).wf(),
            (final(self)@, action@) == old(self)@.step(event@),
            final(self)@.frame.data.len() >= old(self)@.frame.data.len(),
    {
        proof {
            lemma_step_keeps_wf(self@, event@);
            lemma_step_never_shrinks(self@, event@);
        }
        match event {
            Event::Begin { now } => {
                if self.phase == Phase::Idle {
                    self.deadline = if now <= u64::MAX - PERIOD_NS {
                        now + PERIOD_NS
                    } else {
                        u64::MAX
                    };
                    self.try_connect()
                } else {
                    self.pending()
                }
            },
            Event::Connected { ok } => {
                if self.phase == Phase::Connecting {
                    self.link = if ok {
                        Link::Connected
                    } else {
                        Link::Disconnected
                    };
                    self.try_grab()
                } else {
                    self.pending()
                }
            },
            Event::Grabbed { bitmap } => {
                if self.phase == Phase::Grabbing {
                    match bitmap {
                        Some(b) => {
                            self.frame.load(&b);
                            self.wait_in(Phase::Publishing)
                        },
                        None => {
                            self.link = Link::Disconnected;
                            self.show_blank()
                        },
                    }
                } else {
                    self.pending()
                }
            },
            Event::Published => {
                if self.phase == Phase::Publishing {
                    self.wait_in(Phase::Polling)
                } else {
                    self.pending()
                }
            },
            Event::Polled { polled, now } => {
                if self.phase == Phase::Polling {
                    self.heed(polled, now)
                } else {
                    self.pending()
                }
            },
        }
    }
}

/// A step keeps a well-formed worker well formed.
pub proof fn lemma_step_keeps_wf(w: WorkerView, event: EventView)
    requires
        w.wf(),
        event.wf(),
    ensures
        w.step(event).0.wf(),
{
}

/// No step shortens the frame buffer.
pub proof fn lemma_step_never_shrinks(w: WorkerView, event: EventView)
    ensures
        w.step(event).0.frame.data.len() >= w.frame.data.len(),
{
}

} // verus!
