//! Properties of whole runs of chunk deliveries.
use vstd::prelude::*;
use crate::message::{FwState, Message};
use crate::session::{accepted, discards, on_chunk_step, percent, start_step, SessionModel, SessionState};

verus! {

/// One chunk delivery with the outcome of its flash operations.
pub struct ChunkEvent {
    pub len: nat,
    pub write_ok: bool,
    pub commit_ok: bool,
}

/// The session and every report after the deliveries `steps`, in order.
pub open spec fn run(s: SessionModel, steps: Seq<ChunkEvent>) -> (SessionModel, Seq<Message>)
    decreases steps.len(),
{
    if steps.len() == 0 {
        (s, seq![])
    } else {
        let prev = run(s, steps.drop_last());
        let e = steps.last();
        let next = on_chunk_step(prev.0, e.len, e.write_ok, e.commit_ok);
        (next.0, prev.1 + next.1)
    }
}

/// Bytes delivered by `steps` in all.
pub open spec fn delivered(steps: Seq<ChunkEvent>) -> nat
    decreases steps.len(),
{
    if steps.len() == 0 {
        0
    } else {
        delivered(steps.drop_last()) + steps.last().len
    }
}

pub open spec fn flash_succeeds(steps: Seq<ChunkEvent>) -> bool {
    forall|i: int| 0 <= i < steps.len() ==> #[trigger] steps[i].write_ok && steps[i].commit_ok
}

pub open spec fn is_progress(m: Message) -> bool {
    m is Progress
}

/// Progress never falls as more bytes arrive.
pub proof fn percent_monotone(total: nat, a: nat, b: nat)
    requires
        a <= b,
    ensures
        percent(total, a) <= percent(total, b),
{
    if total > 0 {
        assert(a * 100 <= b * 100) by (nonlinear_arith)
            requires a <= b;
        vstd::arithmetic::div_mod::lemma_div_is_ordered((a * 100) as int, (b * 100) as int, total as int);
    }
}

proof fn percent_full(total: nat)
    requires
        total > 0,
    ensures
        percent(total, total) == 100,
{
    vstd::arithmetic::div_mod::lemma_div_multiples_vanish(100, total as int);
    assert(total * 100 == 100 * total) by (nonlinear_arith);
}

/// A single delivery keeps the session well formed, keeps its size, never
/// lowers the received count, and reports as progress the percentage of
/// what it has received afterwards.
pub proof fn step_bounds(s: SessionModel, len: nat, write_ok: bool, commit_ok: bool)
    requires
        s.wf(),
    ensures
        ({
            let (t, out) = on_chunk_step(s, len, write_ok, commit_ok);
            &&& t.wf()
            &&& t.total_size == s.total_size
            &&& s.received <= t.received <= t.total_size
            &&& forall|i: int| 0 <= i < out.len() && is_progress(#[trigger] out[i])
                ==> out[i]->Progress_0 as nat == percent(t.total_size, t.received)
            &&& forall|i: int, j: int| 0 <= i < j < out.len() ==> !(is_progress(#[trigger] out[i])
                && is_progress(#[trigger] out[j]))
        }),
{
    let (t, out) = on_chunk_step(s, len, write_ok, commit_ok);
    if !discards(s) {
        let r = s.received + accepted(s, len);
        assert(r <= s.total_size);
        if s.total_size > 0 {
            assert(r * 100 <= s.total_size * 100) by (nonlinear_arith)
                requires r <= s.total_size;
            vstd::arithmetic::div_mod::lemma_div_is_ordered((r * 100) as int, (s.total_size * 100) as int, s.total_size as int);
            vstd::arithmetic::div_mod::lemma_div_multiples_vanish(100, s.total_size as int);
            assert(s.total_size * 100 == 100 * s.total_size) by (nonlinear_arith);
        }
    }
}

/// Across any run of deliveries the session stays well formed, keeps its
/// size, and its received count only grows and never passes the size.
pub proof fn run_keeps_counts(s: SessionModel, steps: Seq<ChunkEvent>)
    requires
        s.wf(),
    ensures
        run(s, steps).0.wf(),
        run(s, steps).0.total_size == s.total_size,
        s.received <= run(s, steps).0.received <= s.total_size,
    decreases steps.len(),
{
    if steps.len() > 0 {
        run_keeps_counts(s, steps.drop_last());
        let prev = run(s, steps.drop_last());
        let e = steps.last();
        step_bounds(prev.0, e.len, e.write_ok, e.commit_ok);
    }
}

/// Progress reports within a run never go down: each reported percentage is
/// at least every one reported before it.
pub proof fn run_progress_non_decreasing(s: SessionModel, steps: Seq<ChunkEvent>)
    requires
        s.wf(),
    ensures
        forall|i: int, j: int|
            0 <= i < j < run(s, steps).1.len() && is_progress(#[trigger] run(s, steps).1[i])
                && is_progress(#[trigger] run(s, steps).1[j]) ==> run(s, steps).1[i]->Progress_0
                <= run(s, steps).1[j]->Progress_0,
        forall|i: int|
            0 <= i < run(s, steps).1.len() && is_progress(#[trigger] run(s, steps).1[i])
                ==> run(s, steps).1[i]->Progress_0 as nat <= percent(
                run(s, steps).0.total_size,
                run(s, steps).0.received,
            ),
    decreases steps.len(),
{
    if steps.len() > 0 {
        let pre = steps.drop_last();
        run_progress_non_decreasing(s, pre);
        run_keeps_counts(s, pre);
        let prev = run(s, pre);
        let e = steps.last();
        let next = on_chunk_step(prev.0, e.len, e.write_ok, e.commit_ok);
        step_bounds(prev.0, e.len, e.write_ok, e.commit_ok);
        percent_monotone(prev.0.total_size, prev.0.received, next.0.received);
        let out = run(s, steps).1;
        assert(out == prev.1 + next.1);
        assert forall|i: int, j: int|
            0 <= i < j < out.len() && is_progress(#[trigger] out[i]) && is_progress(
                #[trigger] out[j],
            ) implies out[i]->Progress_0 <= out[j]->Progress_0 by {
            if j < prev.1.len() {
            } else if i < prev.1.len() {
                assert(out[j] == next.1[j - prev.1.len()]);
            } else {
                assert(out[i] == next.1[i - prev.1.len()]);
                assert(out[j] == next.1[j - prev.1.len()]);
            }
        }
        assert forall|i: int|
            0 <= i < out.len() && is_progress(#[trigger] out[i]) implies out[i]->Progress_0 as nat
            <= percent(next.0.total_size, next.0.received) by {
            if i >= prev.1.len() {
                assert(out[i] == next.1[i - prev.1.len()]);
            }
        }
    }
}

/// An image of size zero never starts a download: the session is either left
/// as it was, when a download already runs, or fails.
pub proof fn zero_size_never_downloads(s: SessionModel, open_ok: bool)
    ensures
        start_step(s, 0, open_ok).0 == s || start_step(s, 0, open_ok).0.state
            == SessionState::Failed,
        start_step(s, 0, open_ok).0.state == SessionState::Downloading ==> s.state
            == SessionState::Downloading,
{
}

/// Once a session has succeeded or failed, deliveries change nothing and
/// report nothing.
pub proof fn terminal_discards(s: SessionModel, steps: Seq<ChunkEvent>)
    requires
        s.state == SessionState::Succeeded || s.state == SessionState::Failed,
    ensures
        run(s, steps) == (s, Seq::<Message>::empty()),
    decreases steps.len(),
{
    if steps.len() > 0 {
        terminal_discards(s, steps.drop_last());
        assert(run(s, steps).1 =~= Seq::<Message>::empty());
    }
}

/// Deliveries to a download that just started, whose lengths sum to the image
/// size and whose writes and commit succeed, end in success with every byte
/// received, and the last two reports are progress 100 and the success state.
pub proof fn complete_run_succeeds(s: SessionModel, steps: Seq<ChunkEvent>)
    requires
        s.wf(),
        s.state == SessionState::Downloading,
        s.received == 0,
        flash_succeeds(steps),
        delivered(steps) == s.total_size,
    ensures
        run(s, steps).0.state == SessionState::Succeeded,
        run(s, steps).0.received == s.total_size,
        run(s, steps).1.len() >= 2,
        run(s, steps).1[run(s, steps).1.len() - 2] == Message::Progress(100),
        run(s, steps).1.last() == Message::State(FwState::Success),
{
    run_partial(s, steps);
}

proof fn run_partial(s: SessionModel, steps: Seq<ChunkEvent>)
    requires
        s.wf(),
        s.state == SessionState::Downloading,
        s.received == 0,
        flash_succeeds(steps),
        delivered(steps) <= s.total_size,
    ensures
        run(s, steps).0.received == delivered(steps),
        run(s, steps).0.total_size == s.total_size,
        delivered(steps) < s.total_size ==> run(s, steps).0.state == SessionState::Downloading,
        delivered(steps) == s.total_size ==> {
            &&& run(s, steps).0.state == SessionState::Succeeded
            &&& run(s, steps).1.len() >= 2
            &&& run(s, steps).1[run(s, steps).1.len() - 2] == Message::Progress(100)
            &&& run(s, steps).1.last() == Message::State(FwState::Success)
        },
    decreases steps.len(),
{
    if steps.len() > 0 {
        let pre = steps.drop_last();
        assert(flash_succeeds(pre)) by {
            assert forall|i: int| 0 <= i < pre.len() implies #[trigger] pre[i].write_ok
                && pre[i].commit_ok by {
                assert(pre[i] == steps[i]);
                assert(steps[i].write_ok && steps[i].commit_ok);
            }
        }
        let e = steps.last();
        assert(e.write_ok && e.commit_ok) by {
            assert(steps[steps.len() - 1] == e);
            assert(steps[steps.len() - 1].write_ok && steps[steps.len() - 1].commit_ok);
        }
        run_partial(s, pre);
        let prev = run(s, pre);
        if e.len > 0 {
            percent_full(s.total_size);
        } else if delivered(pre) == s.total_size {
            assert(run(s, steps).1 =~= prev.1);
        }
    }
}

} // verus!
