use vstd::prelude::*;
use crate::bus::{
    step_spec, subscribe_request, BusActionView, BusEventView, FrameView, Notice, Phase,
    Termination,
};

verus! {

/// The phase reached and the actions issued when a session in phase `p`
/// is given `events` in order.
pub open spec fn run_from(p: Phase, events: Seq<BusEventView>) -> (Phase, Seq<BusActionView>)
    decreases events.len(),
{
    if events.len() == 0 {
        (p, Seq::empty())
    } else {
        let before = run_from(p, events.drop_last());
        let st = step_spec(before.0, events.last());
        (st.0, before.1.push(st.1))
    }
}

pub open spec fn subscribe_action() -> BusActionView {
    BusActionView::Send(FrameView::Text(subscribe_request()))
}

/// An action that touches the connection: anything but `Abort` and `Idle`.
pub open spec fn uses_connection(a: BusActionView) -> bool {
    !(a is Abort) && !(a is Idle)
}

/// Number of `Release` actions in `acts`.
pub open spec fn release_count(acts: Seq<BusActionView>) -> nat
    decreases acts.len(),
{
    if acts.len() == 0 {
        0
    } else {
        release_count(acts.drop_last()) + if acts.last() is Release {
            1nat
        } else {
            0nat
        }
    }
}

/// A session that has sent no subscribe frame is connecting, or stopped
/// before its connection existed.
pub open spec fn before_subscribe(p: Phase) -> bool {
    p == Phase::Connecting || p == Phase::Finished(Termination::ConnectFailed)
}

/// Handshake ordering: from a fresh session, whatever events arrive, every
/// action that uses the connection is the subscribe frame itself or comes
/// after it.
pub proof fn lemma_subscribe_precedes_traffic(events: Seq<BusEventView>)
    ensures
        ({
            let acts = run_from(Phase::Connecting, events).1;
            forall|i: int|
                0 <= i < acts.len() && uses_connection(#[trigger] acts[i]) ==> exists|j: int|
                    0 <= j <= i && acts[j] == subscribe_action()
        }),
        !before_subscribe(run_from(Phase::Connecting, events).0) ==> exists|j: int|
            0 <= j < run_from(Phase::Connecting, events).1.len() && run_from(
                Phase::Connecting,
                events,
            ).1[j] == subscribe_action(),
    decreases events.len(),
{
    if events.len() > 0 {
        let prev = events.drop_last();
        lemma_subscribe_precedes_traffic(prev);
        let before = run_from(Phase::Connecting, prev);
        let acts = run_from(Phase::Connecting, events).1;
        assert(acts == before.1.push(step_spec(before.0, events.last()).1));
        assert forall|i: int|
            0 <= i < acts.len() && uses_connection(#[trigger] acts[i]) implies exists|j: int|
                0 <= j <= i && acts[j] == subscribe_action() by {
            if i < before.1.len() {
                assert(acts[i] == before.1[i]);
                let j = choose|j: int| 0 <= j <= i && before.1[j] == subscribe_action();
                assert(acts[j] == before.1[j]);
            } else if before.0 == Phase::Connecting {
                assert(acts[i] == subscribe_action());
            } else {
                let j = choose|j: int| 0 <= j < before.1.len() && before.1[j] == subscribe_action();
                assert(acts[j] == before.1[j]);
            }
        }
        if !before_subscribe(run_from(Phase::Connecting, events).0) {
            if before_subscribe(before.0) {
                assert(acts[before.1.len() as int] == subscribe_action());
            } else {
                let j = choose|j: int| 0 <= j < before.1.len() && before.1[j] == subscribe_action();
                assert(acts[j] == before.1[j]);
            }
        }
    }
}

/// Liveness echo: a probe received while listening is answered by exactly
/// one response with the same payload; until that send is settled no other
/// event is acted on, and once it went out the session listens again.
pub proof fn lemma_ping_answered(payload: Seq<u8>, next: BusEventView)
    ensures
        step_spec(Phase::Listening, BusEventView::Received(FrameView::Ping(payload))).0
            == Phase::Replying,
        step_spec(Phase::Listening, BusEventView::Received(FrameView::Ping(payload))).1
            == BusActionView::Send(FrameView::Pong(payload)),
        next is Sent ==> step_spec(Phase::Replying, next).0 == Phase::Listening
            && step_spec(Phase::Replying, next).1 == BusActionView::Await,
        !(next is Sent) && !(next is SendFailed) ==> step_spec(Phase::Replying, next) == (
            Phase::Replying,
            BusActionView::Idle,
            None::<Notice>,
        ),
{
}

/// `n` timer ticks, each probe sent successfully.
pub open spec fn quiet_ticks(n: nat) -> Seq<BusEventView>
    decreases n,
{
    if n == 0 {
        Seq::empty()
    } else {
        quiet_ticks((n - 1) as nat).push(BusEventView::Tick).push(BusEventView::Sent)
    }
}

/// The actions owed for `n` quiet ticks: a probe with an empty payload,
/// then waiting again, `n` times over.
pub open spec fn probes(n: nat) -> Seq<BusActionView>
    decreases n,
{
    if n == 0 {
        Seq::empty()
    } else {
        probes((n - 1) as nat).push(BusActionView::Send(FrameView::Ping(Seq::empty()))).push(
            BusActionView::Await,
        )
    }
}

/// Periodic probing: with no inbound traffic, a listening session answers
/// every timer tick with one liveness probe, for any number of ticks, and
/// keeps listening.
pub proof fn lemma_probe_every_tick(n: nat)
    ensures
        run_from(Phase::Listening, quiet_ticks(n)) == (Phase::Listening, probes(n)),
    decreases n,
{
    if n > 0 {
        lemma_probe_every_tick((n - 1) as nat);
        let m = (n - 1) as nat;
        let with_tick = quiet_ticks(m).push(BusEventView::Tick);
        assert(quiet_ticks(n).drop_last() =~= with_tick);
        assert(with_tick.drop_last() =~= quiet_ticks(m));
        let ping = BusActionView::Send(FrameView::Ping(Seq::empty()));
        assert(run_from(Phase::Listening, with_tick).0 == Phase::Probing);
        assert(run_from(Phase::Listening, with_tick).1 =~= probes(m).push(ping));
        assert(run_from(Phase::Listening, quiet_ticks(n)).1 =~= probes(m).push(ping).push(
            BusActionView::Await,
        ));
    }
}

/// A stopped session stays stopped: it ignores every later event and
/// issues only `Idle`.
pub proof fn lemma_finished_is_final(t: Termination, events: Seq<BusEventView>)
    ensures
        run_from(Phase::Finished(t), events).0 == Phase::Finished(t),
        forall|i: int|
            0 <= i < events.len() ==> #[trigger] run_from(Phase::Finished(t), events).1[i]
                == BusActionView::Idle,
        run_from(Phase::Finished(t), events).1.len() == events.len(),
    decreases events.len(),
{
    if events.len() > 0 {
        lemma_finished_is_final(t, events.drop_last());
        let acts = run_from(Phase::Finished(t), events).1;
        assert forall|i: int| 0 <= i < events.len() implies #[trigger] acts[i]
            == BusActionView::Idle by {
            if i < events.len() - 1 {
                assert(acts[i] == run_from(Phase::Finished(t), events.drop_last()).1[i]);
            }
        }
    }
}

/// Clean termination on close: a close frame while listening stops the
/// session without an error and releases the connection.
pub proof fn lemma_close_is_clean()
    ensures
        step_spec(Phase::Listening, BusEventView::Received(FrameView::Close)).0 == Phase::Finished(
            Termination::ClosedByServer,
        ),
        step_spec(Phase::Listening, BusEventView::Received(FrameView::Close)).1
            == BusActionView::Release,
        !Termination::ClosedByServer.surfaces_error_spec(),
{
}

/// Fatal send failure: a failed liveness response or probe stops the
/// session, without an error to its caller, and releases the connection.
pub proof fn lemma_send_failure_ends(p: Phase)
    requires
        p == Phase::Replying || p == Phase::Probing,
    ensures
        step_spec(p, BusEventView::SendFailed).0 is Finished,
        step_spec(p, BusEventView::SendFailed).1 == BusActionView::Release,
        !step_spec(p, BusEventView::SendFailed).0->Finished_0.surfaces_error_spec(),
{
}

/// Release exactly once: from a fresh session, whatever events arrive, the
/// connection is released at most once, and exactly once when the session
/// stopped after its connection was established.
pub proof fn lemma_release_once(events: Seq<BusEventView>)
    ensures
        release_count(run_from(Phase::Connecting, events).1) == if run_from(
            Phase::Connecting,
            events,
        ).0 is Finished && run_from(Phase::Connecting, events).0 != Phase::Finished(
            Termination::ConnectFailed,
        ) {
            1nat
        } else {
            0nat
        },
    decreases events.len(),
{
    if events.len() > 0 {
        lemma_release_once(events.drop_last());
        let before = run_from(Phase::Connecting, events.drop_last());
        let acts = run_from(Phase::Connecting, events).1;
        assert(acts.drop_last() =~= before.1);
    }
}

} // verus!
