//! What holds of every run of a write session.
//!
//! A run is a sequence of polls, each with the event that the driver reported.
//! The statements here speak of [`write_step`] and [`close_step`], which
//! `ObjectWriter::poll_write` and `ObjectWriter::poll_close` are proved to follow.

use vstd::prelude::*;

use crate::object::writer::close_enabled;
use crate::object::writer::close_step;
use crate::object::writer::write_enabled;
use crate::object::writer::write_step;
use crate::object::writer::Event;
use crate::object::writer::State;
use crate::object::writer::Step;

verus! {

/// One poll of a session.
pub enum Call<W> {
    /// A poll of a write of the given bytes.
    Write(Seq<u8>, Event<W>),
    /// A poll of a flush.
    Flush,
    /// A poll of a close.
    Close(Event<W>),
}

/// What a poll asks of the driver.
pub enum Answer<W> {
    Write(Step<(W, Seq<u8>), usize>),
    Flush(Step<W, ()>),
    Close(Step<W, ()>),
}

/// Whether the poll may be made in state `s`.
pub open spec fn enabled<W>(s: State<W>, call: Call<W>) -> bool {
    match call {
        Call::Write(_, ev) => write_enabled(s, ev),
        Call::Flush => true,
        Call::Close(ev) => close_enabled(s, ev),
    }
}

/// The state after the poll.
pub open spec fn next_state<W>(s: State<W>, call: Call<W>) -> State<W> {
    match call {
        Call::Write(buf, ev) => write_step(s, ev, buf).0,
        Call::Flush => s,
        Call::Close(ev) => close_step(s, ev).0,
    }
}

/// What the poll asks of the driver.
pub open spec fn answer<W>(s: State<W>, call: Call<W>) -> Answer<W> {
    match call {
        Call::Write(buf, ev) => Answer::Write(write_step(s, ev, buf).1),
        Call::Flush => Answer::Flush(Step::Ready(Ok(()))),
        Call::Close(ev) => Answer::Close(close_step(s, ev).1),
    }
}

/// The state that a session which starts in `s` is in after all of `calls`.
pub open spec fn state_after<W>(s: State<W>, calls: Seq<Call<W>>) -> State<W>
    decreases calls.len(),
{
    if calls.len() == 0 {
        s
    } else {
        next_state(state_after(s, calls.drop_last()), calls.last())
    }
}

/// The state that the poll at index `i` meets.
pub open spec fn state_before<W>(s: State<W>, calls: Seq<Call<W>>, i: int) -> State<W> {
    state_after(s, calls.take(i))
}

/// What the poll at index `i` asks of the driver.
pub open spec fn answer_at<W>(s: State<W>, calls: Seq<Call<W>>, i: int) -> Answer<W> {
    answer(state_before(s, calls, i), calls[i])
}

/// Whether every poll of the run may be made in the state that it meets.
pub open spec fn admissible<W>(s: State<W>, calls: Seq<Call<W>>) -> bool {
    forall|i: int| 0 <= i < calls.len() ==> enabled(#[trigger] state_before(s, calls, i), calls[i])
}

/// Whether the poll at index `k` reports that the append in flight has finished.
pub open spec fn append_acknowledged<W>(calls: Seq<Call<W>>, k: int) -> bool {
    calls[k] matches Call::Write(_, ev) && ev is Finished
}

/// Whether the poll at index `i` makes the driver start an append.
pub open spec fn append_issued<W>(s: State<W>, calls: Seq<Call<W>>, i: int) -> bool {
    answer_at(s, calls, i) matches Answer::Write(step) && step is Start
}

/// The number of block writers that the session holds: one when idle, else none.
pub open spec fn held<W>(s: State<W>) -> nat {
    if s is Idle {
        1
    } else {
        0
    }
}

/// The number of block writers that the poll brings back from an operation.
pub open spec fn brought_back<W>(call: Call<W>) -> nat {
    match call {
        Call::Write(_, ev) => if ev is Finished {
            1
        } else {
            0
        },
        Call::Flush => 0,
        Call::Close(ev) => if ev is Finished {
            1
        } else {
            0
        },
    }
}

/// The number of block writers that the answer hands to a new operation.
pub open spec fn handed_out<W>(answer: Answer<W>) -> nat {
    match answer {
        Answer::Write(step) => if step is Start {
            1
        } else {
            0
        },
        Answer::Flush(_) => 0,
        Answer::Close(step) => if step is Start {
            1
        } else {
            0
        },
    }
}

/// The run without its flushes.
pub open spec fn without_flushes<W>(calls: Seq<Call<W>>) -> Seq<Call<W>>
    decreases calls.len(),
{
    if calls.len() == 0 {
        calls
    } else if calls.last() is Flush {
        without_flushes(calls.drop_last())
    } else {
        without_flushes(calls.drop_last()).push(calls.last())
    }
}

/// A session is in exactly one of its three states: it holds the block writer,
/// or an append in flight does, or a close in flight does.
pub proof fn lemma_one_holder<W>(s: State<W>)
    ensures
        (s is Idle && !(s is Write) && !(s is Close)) || (!(s is Idle) && s is Write && !(s
            is Close)) || (!(s is Idle) && !(s is Write) && s is Close),
        held(s) == 1 <==> s is Idle,
{
}

/// No poll makes or loses a block writer: what the session holds and what comes
/// back from an operation is what the session holds afterwards and what goes
/// out to a new operation. Where a writer goes out or comes back, it is the
/// same one.
pub proof fn lemma_poll_keeps_the_writer<W>(s: State<W>, call: Call<W>)
    requires
        enabled(s, call),
    ensures
        held(s) + brought_back(call) == held(next_state(s, call)) + handed_out(answer(s, call)),
        held(next_state(s, call)) + handed_out(answer(s, call)) <= 1,
        answer(s, call) matches Answer::Write(Step::Start((w, _))) ==> s == State::Idle(w),
        answer(s, call) matches Answer::Close(Step::Start(w)) ==> s == State::Idle(w),
        call matches Call::Write(_, Event::Finished(w, _)) ==> next_state(s, call) == State::Idle(w),
        call matches Call::Close(Event::Finished(w, _)) ==> next_state(s, call) == State::Idle(w),
{
}

/// The state after one poll more.
pub proof fn lemma_state_after_push<W>(s: State<W>, calls: Seq<Call<W>>, i: int)
    requires
        0 <= i < calls.len(),
    ensures
        state_before(s, calls, i + 1) == next_state(state_before(s, calls, i), calls[i]),
{
    assert(calls.take(i + 1).drop_last() =~= calls.take(i));
    assert(calls.take(i + 1).last() == calls[i]);
}

/// Flushes change nothing: a run and the same run without its flushes end in the
/// same state, so every poll that follows is answered alike.
pub proof fn lemma_flushes_change_nothing<W>(s: State<W>, calls: Seq<Call<W>>, then: Call<W>)
    ensures
        state_after(s, without_flushes(calls)) == state_after(s, calls),
        answer(state_after(s, without_flushes(calls)), then) == answer(state_after(s, calls), then),
        next_state(state_after(s, without_flushes(calls)), then) == next_state(
            state_after(s, calls),
            then,
        ),
    decreases calls.len(),
{
    if calls.len() > 0 {
        lemma_flushes_change_nothing(s, calls.drop_last(), then);
        if !(calls.last() is Flush) {
            let kept = without_flushes(calls.drop_last());
            assert(kept.push(calls.last()).drop_last() =~= kept);
            assert(kept.push(calls.last()).last() == calls.last());
        }
    }
}

/// While no poll reports that the append in flight has finished, it stays in
/// flight, with the size that it was started with.
pub proof fn lemma_append_stays_in_flight<W>(
    s: State<W>,
    calls: Seq<Call<W>>,
    i: int,
    j: int,
    size: usize,
)
    requires
        admissible(s, calls),
        0 <= i <= j <= calls.len(),
        state_before(s, calls, i) == State::<W>::Write(size),
        forall|k: int| i <= k < j ==> !append_acknowledged(calls, k),
    ensures
        state_before(s, calls, j) == State::<W>::Write(size),
    decreases j - i,
{
    if i < j {
        lemma_append_stays_in_flight(s, calls, i, j - 1, size);
        lemma_state_after_push(s, calls, j - 1);
        assert(enabled(state_before(s, calls, j - 1), calls[j - 1]));
        assert(!append_acknowledged(calls, j - 1));
    }
}

/// Appends do not overlap: between two polls that each make the driver start an
/// append, a poll reports that the first append has finished.
pub proof fn lemma_appends_in_order<W>(s: State<W>, calls: Seq<Call<W>>, i: int, j: int)
    requires
        admissible(s, calls),
        0 <= i < j < calls.len(),
        append_issued(s, calls, i),
        append_issued(s, calls, j),
    ensures
        exists|k: int| i < k < j && append_acknowledged(calls, k),
{
    if !(exists|k: int| i < k < j && append_acknowledged(calls, k)) {
        lemma_state_after_push(s, calls, i);
        assert(enabled(state_before(s, calls, i), calls[i]));
        let size = state_before(s, calls, i + 1)->Write_0;
        assert(state_before(s, calls, i + 1) == State::<W>::Write(size));
        lemma_append_stays_in_flight(s, calls, i + 1, j, size);
        assert(false);
    }
}

/// A write reports the size of its own bytes: where a poll makes the driver start
/// an append of `buf`, the first later poll that reports the append as finished
/// and well reports `buf.len()` bytes as written, however many polls lie between.
pub proof fn lemma_write_reports_its_size<W>(
    s: State<W>,
    calls: Seq<Call<W>>,
    i: int,
    j: int,
    buf: Seq<u8>,
)
    requires
        admissible(s, calls),
        0 <= i < j < calls.len(),
        buf.len() <= usize::MAX,
        append_issued(s, calls, i),
        calls[i] matches Call::Write(bytes, _) && bytes == buf,
        forall|k: int| i < k < j ==> !append_acknowledged(calls, k),
        calls[j] matches Call::Write(_, Event::Finished(_, outcome)) && outcome is Ok,
    ensures
        answer_at(s, calls, j) == Answer::<W>::Write(Step::Ready(Ok(buf.len() as usize))),
        state_before(s, calls, j + 1) is Idle,
{
    lemma_state_after_push(s, calls, i);
    lemma_state_after_push(s, calls, j);
    assert(enabled(state_before(s, calls, i), calls[i]));
    lemma_append_stays_in_flight(s, calls, i + 1, j, buf.len() as usize);
}

} // verus!
