//! Whole iterations and runs of a worker, and what holds of them.
//!
//! An iteration is what a worker does between one `Begin` and the next, given
//! what the outside world would answer to each of its actions.

use vstd::prelude::*;
use crate::control::{MessageView, PolledView, SettingsView};
use crate::frame::{blanked, frame_len, lemma_blanking_exact, BitmapView, FrameView};
use crate::worker::{deadline_after, lemma_step_keeps_wf, lemma_step_never_shrinks};
use crate::worker::{ActionView, EventView, Link, Phase, WorkerView};
use crate::worker::{CONNECT_TIMEOUT_MS, PERIOD_NS};

verus! {

/// What the outside world answers during one iteration, whether or not the
/// worker comes to ask.
pub struct Outcomes {
    /// The clock when the iteration starts.
    pub start: u64,
    /// Whether a connection attempt succeeds.
    pub connect: bool,
    /// What a screen grab gives.
    pub grab: Option<BitmapView>,
    /// What the message queue holds.
    pub polled: PolledView,
    /// The clock after the message queue was looked at.
    pub end: u64,
}

/// What one iteration did.
pub struct Round {
    /// The worker after the iteration.
    pub worker: WorkerView,
    /// The worker's last answer: `Sleep`, `Proceed` or `Exit`.
    pub action: ActionView,
    /// Whether a connection was attempted.
    pub tried_connect: bool,
    /// Whether a screen grab was attempted.
    pub tried_grab: bool,
    /// The frame that was published, if one was.
    pub published: Option<FrameView>,
}

/// One iteration of `w`: `Begin`, then each action of the worker answered
/// from `o`, up to and including the look at the message queue.
pub open spec fn iteration(w: WorkerView, o: Outcomes) -> Round {
    let (w1, a1) = w.step(EventView::Begin { now: o.start });
    let tried_connect = a1 is Connect;
    let (w2, a2) = if tried_connect {
        w1.step(EventView::Connected { ok: o.connect })
    } else {
        (w1, a1)
    };
    let tried_grab = a2 is Grab;
    let (w3, a3) = if tried_grab {
        w2.step(EventView::Grabbed { bitmap: o.grab })
    } else {
        (w2, a2)
    };
    let published = if a3 is Publish {
        Some(w3.frame)
    } else {
        None
    };
    let (w4, a4) = if a3 is Publish {
        w3.step(EventView::Published)
    } else {
        (w3, a3)
    };
    let (w5, a5) = w4.step(EventView::Polled { polled: o.polled, now: o.end });
    Round { worker: w5, action: a5, tried_connect, tried_grab, published }
}

/// The worker after a run of events, one step for each.
pub open spec fn run(w: WorkerView, events: Seq<EventView>) -> WorkerView
    decreases events.len(),
{
    if events.len() == 0 {
        w
    } else {
        run(w, events.drop_last()).step(events.last()).0
    }
}

/// Whether the queue held new settings.
pub open spec fn is_update(polled: PolledView) -> bool {
    polled matches PolledView::Message(MessageView::Update(_))
}

/// Whether the queue told the worker to stop.
pub open spec fn is_stop(polled: PolledView) -> bool {
    polled is Abandoned || polled == PolledView::Message(MessageView::End)
}

/// Which attempts an iteration makes. A connection is attempted exactly when
/// the worker starts disconnected with an address. A grab is attempted exactly
/// when the worker starts connected or has just connected. So a worker that is
/// connected never connects again.
pub proof fn lemma_iteration_attempts(w: WorkerView, o: Outcomes)
    requires
        w.wf(),
        w.phase == Phase::Idle,
    ensures
        iteration(w, o).tried_connect <==> w.link == Link::Disconnected
            && w.settings.address.len() > 0,
        iteration(w, o).tried_grab <==> w.link == Link::Connected || (iteration(
            w,
            o,
        ).tried_connect && o.connect),
{
}

/// The link after an iteration. If new settings arrived, the worker is
/// disconnected. Otherwise it is connected exactly when the last attempt of
/// the iteration succeeded: the grab if one was made, else the connection
/// attempt, which then failed. An iteration without any attempt leaves the
/// worker disconnected as it was.
pub proof fn lemma_link_after_iteration(w: WorkerView, o: Outcomes)
    requires
        w.wf(),
        w.phase == Phase::Idle,
    ensures
        is_update(o.polled) ==> iteration(w, o).worker.link == Link::Disconnected,
        !is_update(o.polled) && iteration(w, o).tried_grab ==> (iteration(w, o).worker.link
            == Link::Connected <==> o.grab is Some),
        !is_update(o.polled) && !iteration(w, o).tried_grab ==> iteration(w, o).worker.link
            == Link::Disconnected,
        !iteration(w, o).tried_grab && iteration(w, o).tried_connect ==> !o.connect,
        !iteration(w, o).tried_grab && !iteration(w, o).tried_connect ==> w.link
            == Link::Disconnected,
{
}

/// New settings always close the session, also when they equal the settings
/// in use.
pub proof fn lemma_update_disconnects(w: WorkerView, now: u64)
    requires
        w.phase == Phase::Polling,
    ensures
        w.step(
            EventView::Polled {
                polled: PolledView::Message(MessageView::Update(w.settings)),
                now,
            },
        ).0.link == Link::Disconnected,
        w.step(
            EventView::Polled {
                polled: PolledView::Message(MessageView::Update(w.settings)),
                now,
            },
        ).0.settings == w.settings,
        forall|s: SettingsView|
            (#[trigger] w.step(
                EventView::Polled { polled: PolledView::Message(MessageView::Update(s)), now },
            )).0.link == Link::Disconnected && w.step(
                EventView::Polled { polled: PolledView::Message(MessageView::Update(s)), now },
            ).0.settings == s,
{
}

/// An iteration in which the settings in use arrive again ends disconnected
/// with the same settings, and the next iteration connects anew if there is
/// an address.
pub proof fn lemma_same_settings_reconnect(w: WorkerView, o: Outcomes, next: Outcomes)
    requires
        w.wf(),
        w.phase == Phase::Idle,
        o.polled == PolledView::Message(MessageView::Update(w.settings)),
    ensures
        iteration(w, o).worker.link == Link::Disconnected,
        iteration(w, o).worker.settings == w.settings,
        iteration(w, o).worker.phase == Phase::Idle,
        iteration(iteration(w, o).worker, next).tried_connect <==> w.settings.address.len() > 0,
{
}

/// What the outside world answers is well formed: a bitmap that a grab gives
/// covers its dimensions.
pub open spec fn outcomes_wf(o: Outcomes) -> bool {
    o.grab matches Some(b) ==> b.wf()
}

/// How an iteration ends. A stop request or an abandoned queue stops the
/// worker with `Exit`. Otherwise the worker is idle again and sleeps for what
/// is left of the period, if anything is: never longer than one period on a
/// clock that does not run backwards.
pub proof fn lemma_iteration_end(w: WorkerView, o: Outcomes)
    requires
        w.wf(),
        w.phase == Phase::Idle,
        outcomes_wf(o),
    ensures
        iteration(w, o).worker.wf(),
        is_stop(o.polled) ==> iteration(w, o).worker.phase == Phase::Stopped && iteration(
            w,
            o,
        ).action == ActionView::Exit,
        !is_stop(o.polled) ==> iteration(w, o).worker.phase == Phase::Idle,
        !is_stop(o.polled) && o.end < deadline_after(o.start) ==> iteration(w, o).action == (
        ActionView::Sleep { nanos: (deadline_after(o.start) - o.end) as u64 }),
        !is_stop(o.polled) && o.end >= deadline_after(o.start) ==> iteration(w, o).action
            == ActionView::Proceed,
        o.start <= o.end ==> (iteration(w, o).action matches ActionView::Sleep { nanos }
            ==> 0 < nanos <= PERIOD_NS),
{
    let e0 = EventView::Begin { now: o.start };
    let (w1, a1) = w.step(e0);
    lemma_step_keeps_wf(w, e0);
    let e1 = EventView::Connected { ok: o.connect };
    let (w2, a2) = if a1 is Connect {
        w1.step(e1)
    } else {
        (w1, a1)
    };
    if a1 is Connect {
        lemma_step_keeps_wf(w1, e1);
    }
    let e2 = EventView::Grabbed { bitmap: o.grab };
    let (w3, a3) = if a2 is Grab {
        w2.step(e2)
    } else {
        (w2, a2)
    };
    if a2 is Grab {
        lemma_step_keeps_wf(w2, e2);
    }
    let (w4, a4) = if a3 is Publish {
        w3.step(EventView::Published)
    } else {
        (w3, a3)
    };
    lemma_step_keeps_wf(w4, EventView::Polled { polled: o.polled, now: o.end });
}

/// What an iteration publishes. After a grab that succeeded: the frame with
/// the bitmap loaded into it. Without one, while the settings ask for black
/// frames: the frame in use painted black, with its dimensions kept. Else
/// nothing.
pub proof fn lemma_iteration_publishes(w: WorkerView, o: Outcomes)
    requires
        w.wf(),
        w.phase == Phase::Idle,
    ensures
        iteration(w, o).tried_grab && o.grab is Some ==> iteration(w, o).published == Some(
            w.frame.loaded(o.grab->0),
        ),
        !(iteration(w, o).tried_grab && o.grab is Some) && w.settings.blank ==> iteration(
            w,
            o,
        ).published == Some(w.frame.cleared()),
        !(iteration(w, o).tried_grab && o.grab is Some) && !w.settings.blank ==> iteration(
            w,
            o,
        ).published is None,
        is_update(o.polled) ==> iteration(w, o).worker.settings == o.polled->Message_0->Update_0,
        !is_update(o.polled) ==> iteration(w, o).worker.settings == w.settings,
        iteration(w, o).published matches Some(f) ==> iteration(w, o).worker.frame == f,
        iteration(w, o).published is None ==> iteration(w, o).worker.frame == w.frame,
{
}

/// A black frame has a zero in every colour byte of its visible part, and
/// the dimensions it had before.
pub proof fn lemma_cleared_is_black(f: FrameView)
    requires
        f.wf(),
    ensures
        f.cleared().wf(),
        f.cleared().width == f.width,
        f.cleared().height == f.height,
        f.cleared().data.len() == f.data.len(),
        forall|j: int|
            #![trigger f.cleared().data[j]]
            0 <= j < frame_len(f.width, f.height) && j % 4 != 3 ==> f.cleared().data[j] == 0,
        forall|j: int|
            #![trigger f.cleared().data[j]]
            0 <= j < f.data.len() && (j % 4 == 3 || j >= frame_len(f.width, f.height))
                ==> f.cleared().data[j] == f.data[j],
{
    lemma_blanking_exact(f.data, frame_len(f.width, f.height));
    assert(f.cleared().data == blanked(f.data, frame_len(f.width, f.height)));
}

/// A stopped worker stays as it is and answers every event with `Exit`: after
/// a stop request nothing is connected, grabbed or published again.
pub proof fn lemma_stopped_stays_stopped(w: WorkerView, event: EventView)
    requires
        w.phase == Phase::Stopped,
    ensures
        w.step(event) == (w, ActionView::Exit),
{
}

/// A stop request that the worker finds in the queue stops it at once,
/// whether or not it is connected.
pub proof fn lemma_stop_request_stops(w: WorkerView, now: u64)
    requires
        w.phase == Phase::Polling,
    ensures
        w.step(
            EventView::Polled { polled: PolledView::Message(MessageView::End), now },
        ).1 == ActionView::Exit,
        w.step(
            EventView::Polled { polled: PolledView::Message(MessageView::End), now },
        ).0.phase == Phase::Stopped,
        w.step(EventView::Polled { polled: PolledView::Abandoned, now }).1 == ActionView::Exit,
        w.step(EventView::Polled { polled: PolledView::Abandoned, now }).0.phase
            == Phase::Stopped,
{
}

/// A run of steps from a run: the worker after the first `n` events.
pub open spec fn run_to(w: WorkerView, events: Seq<EventView>, n: int) -> WorkerView {
    run(w, events.take(n))
}

/// The frame buffer never shrinks. Over any run of events, whatever
/// dimensions the bitmaps in it report, the buffer after a longer part of
/// the run is at least as long as after a shorter part.
pub proof fn lemma_capacity_never_shrinks(w: WorkerView, events: Seq<EventView>, i: int, j: int)
    requires
        0 <= i <= j <= events.len(),
    ensures
        run_to(w, events, i).frame.data.len() <= run_to(w, events, j).frame.data.len(),
        run_to(w, events, 0) == w,
        run_to(w, events, events.len() as int) == run(w, events),
    decreases j - i,
{
    assert(events.take(events.len() as int) =~= events);
    if i < j {
        lemma_capacity_never_shrinks(w, events, i, j - 1);
        assert(events.take(j).drop_last() =~= events.take(j - 1));
        lemma_step_never_shrinks(run_to(w, events, j - 1), events.take(j).last());
    }
}

/// A run of well-formed events keeps a well-formed worker well formed.
pub proof fn lemma_run_keeps_wf(w: WorkerView, events: Seq<EventView>)
    requires
        w.wf(),
        forall|k: int| 0 <= k < events.len() ==> (#[trigger] events[k]).wf(),
    ensures
        run(w, events).wf(),
    decreases events.len(),
{
    if events.len() > 0 {
        lemma_run_keeps_wf(w, events.drop_last());
        lemma_step_keeps_wf(run(w, events.drop_last()), events.last());
    }
}

/// The worker after one iteration for each of `rounds`, in their order.
pub open spec fn iterations(w: WorkerView, rounds: Seq<Outcomes>) -> WorkerView
    decreases rounds.len(),
{
    if rounds.len() == 0 {
        w
    } else {
        iteration(iterations(w, rounds.drop_last()), rounds.last()).worker
    }
}

/// The rounds are well formed, and none of them tells the worker to stop.
pub open spec fn keeps_running(rounds: Seq<Outcomes>) -> bool {
    forall|k: int|
        0 <= k < rounds.len() ==> outcomes_wf(#[trigger] rounds[k]) && !is_stop(rounds[k].polled)
}

/// A worker that is not told to stop is idle and well formed after every
/// iteration.
pub proof fn lemma_iterations_keep_running(w: WorkerView, rounds: Seq<Outcomes>)
    requires
        w.wf(),
        w.phase == Phase::Idle,
        keeps_running(rounds),
    ensures
        iterations(w, rounds).wf(),
        iterations(w, rounds).phase == Phase::Idle,
    decreases rounds.len(),
{
    if rounds.len() > 0 {
        lemma_iterations_keep_running(w, rounds.drop_last());
        lemma_iteration_end(iterations(w, rounds.drop_last()), rounds.last());
    }
}

/// The link after any sequence of iterations depends on the last one alone.
/// Whatever the outcomes before, the worker ends disconnected if new
/// settings arrived in the last iteration or if that iteration attempted no
/// grab, and else connected exactly when its grab succeeded. The last
/// iteration attempts a grab exactly when it starts connected, or connects.
pub proof fn lemma_link_after_iterations(w: WorkerView, rounds: Seq<Outcomes>, last: Outcomes)
    requires
        w.wf(),
        w.phase == Phase::Idle,
        keeps_running(rounds),
    ensures
        iterations(w, rounds.push(last)) == iteration(iterations(w, rounds), last).worker,
        iterations(w, rounds.push(last)).link == if !is_update(last.polled) && iteration(
            iterations(w, rounds),
            last,
        ).tried_grab && last.grab is Some {
            Link::Connected
        } else {
            Link::Disconnected
        },
        iteration(iterations(w, rounds), last).tried_grab <==> iterations(w, rounds).link
            == Link::Connected || (iterations(w, rounds).settings.address.len() > 0
            && last.connect),
{
    assert(rounds.push(last).drop_last() =~= rounds);
    lemma_iterations_keep_running(w, rounds);
    lemma_link_after_iteration(iterations(w, rounds), last);
    lemma_iteration_attempts(iterations(w, rounds), last);
}

/// The settings a worker is made with are in force from its first iteration.
/// It connects to their address if they have one. Without one it publishes
/// the initial frame painted black if they ask for black frames, and else
/// goes straight to the message queue. Unless new settings arrive, they are
/// the worker's settings after the iteration too.
pub proof fn lemma_settings_in_force_from_creation(settings: SettingsView, o: Outcomes)
    ensures
        WorkerView::initial(settings).wf(),
        WorkerView::initial(settings).settings == settings,
        WorkerView::initial(settings).step(EventView::Begin { now: o.start }).1
            == if settings.address.len() > 0 {
            ActionView::Connect { address: settings.address, timeout_ms: CONNECT_TIMEOUT_MS }
        } else if settings.blank {
            ActionView::Publish
        } else {
            ActionView::Poll
        },
        iteration(WorkerView::initial(settings), o).tried_connect <==> settings.address.len() > 0,
        iteration(WorkerView::initial(settings), o).tried_grab <==> settings.address.len() > 0
            && o.connect,
        !(iteration(WorkerView::initial(settings), o).tried_grab && o.grab is Some)
            ==> iteration(WorkerView::initial(settings), o).published == if settings.blank {
            Some(FrameView::initial().cleared())
        } else {
            None
        },
        !is_update(o.polled) ==> iteration(WorkerView::initial(settings), o).worker.settings
            == settings,
{
}

/// Painting a frame black twice is painting it once.
pub proof fn lemma_cleared_twice(f: FrameView)
    ensures
        f.cleared().cleared() == f.cleared(),
{
    assert(f.cleared().cleared().data =~= f.cleared().data);
}

/// The rounds are well formed, and in none of them does the queue hold
/// anything but nothing.
pub open spec fn undisturbed(rounds: Seq<Outcomes>) -> bool {
    forall|k: int|
        0 <= k < rounds.len() ==> outcomes_wf(#[trigger] rounds[k]) && !is_stop(rounds[k].polled)
            && !is_update(rounds[k].polled)
}

/// A worker without an address that is asked for black frames shows one in
/// every iteration. Left undisturbed for any number of iterations, it stays
/// disconnected with its settings, and the next iteration attempts neither a
/// connection nor a grab and publishes exactly the frame the worker started
/// with, painted black.
pub proof fn lemma_black_frame_every_iteration(
    w: WorkerView,
    rounds: Seq<Outcomes>,
    next: Outcomes,
)
    requires
        w.wf(),
        w.phase == Phase::Idle,
        w.link == Link::Disconnected,
        w.settings.address.len() == 0,
        w.settings.blank,
        undisturbed(rounds),
    ensures
        iterations(w, rounds).wf(),
        iterations(w, rounds).phase == Phase::Idle,
        iterations(w, rounds).link == Link::Disconnected,
        iterations(w, rounds).settings == w.settings,
        iterations(w, rounds).frame.cleared() == w.frame.cleared(),
        !iteration(iterations(w, rounds), next).tried_connect,
        !iteration(iterations(w, rounds), next).tried_grab,
        iteration(iterations(w, rounds), next).published == Some(w.frame.cleared()),
    decreases rounds.len(),
{
    if rounds.len() > 0 {
        let before = iterations(w, rounds.drop_last());
        lemma_black_frame_every_iteration(w, rounds.drop_last(), rounds.last());
        lemma_iteration_end(before, rounds.last());
        lemma_link_after_iteration(before, rounds.last());
        lemma_iteration_publishes(before, rounds.last());
        lemma_cleared_twice(w.frame);
    }
}

/// A worker made without an address and asked for black frames publishes one
/// frame in every iteration from the first, and never connects or grabs: as
/// long as nothing arrives through the queue, each iteration publishes the
/// initial frame painted black, 800 by 480, every colour byte zero and every
/// filler byte as it was.
pub proof fn lemma_black_frames_from_creation(
    settings: SettingsView,
    rounds: Seq<Outcomes>,
    next: Outcomes,
)
    requires
        settings.address.len() == 0,
        settings.blank,
        undisturbed(rounds),
    ensures
        !iteration(iterations(WorkerView::initial(settings), rounds), next).tried_connect,
        !iteration(iterations(WorkerView::initial(settings), rounds), next).tried_grab,
        iteration(iterations(WorkerView::initial(settings), rounds), next).published == Some(
            FrameView::initial().cleared(),
        ),
        FrameView::initial().cleared().width == 800,
        FrameView::initial().cleared().height == 480,
        FrameView::initial().cleared().data.len() == 1_536_000,
        forall|j: int|
            #![trigger FrameView::initial().cleared().data[j]]
            0 <= j < 1_536_000 ==> FrameView::initial().cleared().data[j] == if j % 4 == 3 {
                crate::frame::FILLER
            } else {
                0u8
            },
{
    lemma_black_frame_every_iteration(WorkerView::initial(settings), rounds, next);
    lemma_cleared_is_black(FrameView::initial());
}

} // verus!
