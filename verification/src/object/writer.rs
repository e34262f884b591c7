//! Write sessions on one object.
//!
//! A backend hands out a block writer with two operations, append and close.
//! [`ObjectWriter`] puts a poll-driven write / flush / close surface on a block
//! writer whose operations suspend; [`BlockingObjectWriter`] does the same for one
//! whose operations return when they are done.
//!
//! The session of an [`ObjectWriter`] never runs the backend itself. A driver owns
//! the operation in flight, tells the session what happened to it as an
//! [`Event`], and does what the returned [`Step`] says. All decisions are taken
//! here: when an append may start, which byte count a finished write reports,
//! and where the block writer is at each moment.

use bytes::Bytes;
use vstd::prelude::*;

use crate::buffer::contents;
use crate::buffer::from_vec;
use crate::error::Error;

verus! {

/// Where the block writer of a session is.
pub enum State<W> {
    /// The session holds the block writer; nothing is in flight.
    Idle(W),
    /// An append in flight holds the block writer. The number is the size of the
    /// block that it was started with, which the write reports when it completes.
    Write(usize),
    /// A close in flight holds the block writer.
    Close,
}

impl<W> State<W> {
    /// The name of the state, as it is shown in diagnostics.
    pub open spec fn spec_name(&self) -> Seq<char> {
        match self {
            State::Idle(_) => "Idle"@,
            State::Write(_) => "Write"@,
            State::Close => "Close"@,
        }
    }

    /// The name of the state, as it is shown in diagnostics.
    pub fn name(&self) -> (name: &'static str)
        ensures
            name@ == self.spec_name(),
    {
        match self {
            State::Idle(_) => "Idle",
            State::Write(_) => "Write",
            State::Close => "Close",
        }
    }
}

/// What the driver reports to a poll.
pub enum Event<W> {
    /// The caller has invoked the operation.
    Called,
    /// The operation in flight was resumed and is still suspended.
    Suspended,
    /// The operation in flight ran to its end. It gives the block writer back,
    /// whether it succeeded or failed.
    Finished(W, Result<(), Error>),
}

/// What a poll asks of the driver.
pub enum Step<S, T> {
    /// Start the backend operation on what is handed over, keep it in flight, and
    /// poll again with [`Event::Called`].
    Start(S),
    /// Resume the operation in flight, and poll again with what came of it:
    /// [`Event::Suspended`] or [`Event::Finished`].
    Resume,
    /// Tell the caller that the operation is not ready yet.
    Pending,
    /// Tell the caller that the operation is over, with this result.
    Ready(Result<T, Error>),
}

/// What a completed write reports: the size of the block where the append
/// succeeded, else the backend's error as it came.
pub open spec fn write_result(size: usize, outcome: Result<(), Error>) -> Result<usize, Error> {
    match outcome {
        Ok(_) => Ok(size),
        Err(e) => Err(e),
    }
}

/// The append outcome that a write result stands for.
pub open spec fn append_outcome(written: Result<usize, Error>) -> Result<(), Error> {
    match written {
        Ok(_) => Ok(()),
        Err(e) => Err(e),
    }
}

/// What a completed write reports: the size of the block where the append
/// succeeded, else the backend's error as it came.
pub fn report_write(size: usize, outcome: Result<(), Error>) -> (written: Result<usize, Error>)
    ensures
        written == write_result(size, outcome),
{
    match outcome {
        Ok(_) => Ok(size),
        Err(e) => Err(e),
    }
}

/// Whether a write may be polled in state `s` with event `ev`.
///
/// A write is never polled while a close is in flight, and with nothing in
/// flight there is nothing that could have been resumed.
pub open spec fn write_enabled<W>(s: State<W>, ev: Event<W>) -> bool {
    match s {
        State::Idle(_) => ev is Called,
        State::Write(_) => true,
        State::Close => false,
    }
}

/// One poll of a write: the state after it and what the driver is asked to do.
///
/// From `Idle` the block writer leaves the session together with a copy of the
/// caller's bytes, and the size of that copy is recorded. While the append is in
/// flight no second one starts. When it has finished, the block writer is back in
/// the session and the recorded size is reported, on success; a failure is
/// reported as it came.
pub open spec fn write_step<W>(s: State<W>, ev: Event<W>, buf: Seq<u8>) -> (
    State<W>,
    Step<(W, Seq<u8>), usize>,
)
    recommends
        write_enabled(s, ev),
{
    match s {
        State::Idle(w) => (State::Write(buf.len() as usize), Step::Start((w, buf))),
        State::Write(size) => match ev {
            Event::Called => (s, Step::Resume),
            Event::Suspended => (s, Step::Pending),
            Event::Finished(w, outcome) => (State::Idle(w), Step::Ready(write_result(size, outcome))),
        },
        State::Close => (s, Step::Pending),
    }
}

/// Whether a close may be polled in state `s` with event `ev`.
pub open spec fn close_enabled<W>(s: State<W>, ev: Event<W>) -> bool {
    match s {
        State::Idle(_) => ev is Called,
        State::Write(_) => false,
        State::Close => true,
    }
}

/// One poll of a close: the state after it and what the driver is asked to do.
pub open spec fn close_step<W>(s: State<W>, ev: Event<W>) -> (State<W>, Step<W, ()>)
    recommends
        close_enabled(s, ev),
{
    match s {
        State::Idle(w) => (State::Close, Step::Start(w)),
        State::Close => match ev {
            Event::Called => (s, Step::Resume),
            Event::Suspended => (s, Step::Pending),
            Event::Finished(w, outcome) => (State::Idle(w), Step::Ready(outcome)),
        },
        State::Write(_) => (s, Step::Pending),
    }
}

/// A step of a write with the block that it hands over taken by its contents.
pub open spec fn block_view<W>(step: Step<(W, Bytes), usize>) -> Step<(W, Seq<u8>), usize> {
    match step {
        Step::Start((w, block)) => Step::Start((w, contents(block))),
        Step::Resume => Step::Resume,
        Step::Pending => Step::Pending,
        Step::Ready(r) => Step::Ready(r),
    }
}

/// A write session on a block writer whose operations suspend.
///
/// It is meant for appending many blocks, each of which is a request to the
/// backend. Blocks of 4 MiB, but for the last one, suit most backends.
pub struct ObjectWriter<W> {
    state: State<W>,
}

impl<W> View for ObjectWriter<W> {
    type V = State<W>;

    closed spec fn view(&self) -> State<W> {
        self.state
    }
}

impl<W> ObjectWriter<W> {
    /// A session on the block writer that the backend has opened. It starts
    /// idle.
    pub fn create(w: W) -> (session: Self)
        ensures
            session@ == State::Idle(w),
    {
        ObjectWriter { state: State::Idle(w) }
    }

    /// The state of the session.
    pub fn state(&self) -> (state: &State<W>)
        ensures
            *state == self@,
    {
        &self.state
    }

    /// Whether a write may be polled now with `event`.
    pub fn can_poll_write(&self, event: &Event<W>) -> (enabled: bool)
        ensures
            enabled == write_enabled(self@, *event),
    {
        match &self.state {
            State::Idle(_) => match event {
                Event::Called => true,
                _ => false,
            },
            State::Write(_) => true,
            State::Close => false,
        }
    }

    /// Whether a close may be polled now with `event`.
    pub fn can_poll_close(&self, event: &Event<W>) -> (enabled: bool)
        ensures
            enabled == close_enabled(self@, *event),
    {
        match &self.state {
            State::Idle(_) => match event {
                Event::Called => true,
                _ => false,
            },
            State::Write(_) => false,
            State::Close => true,
        }
    }

    /// Lends the block writer for one append of `bs`, which the caller runs to its
    /// end before it touches the session again. The session stays idle.
    pub fn append(&mut self, bs: Bytes) -> (lent: (&mut W, Bytes))
        requires
            old(self)@ is Idle,
        ensures
            *lent.0 == old(self)@->Idle_0,
            lent.1 == bs,
            final(self)@ == State::Idle(*final(lent.0)),
    {
        match &mut self.state {
            State::Idle(w) => (w, bs),
            _ => vstd::pervasive::unreached(),
        }
    }

    /// Lends the block writer for its close, which the caller runs to its end
    /// before it touches the session again. The session stays idle.
    pub fn close(&mut self) -> (lent: &mut W)
        requires
            old(self)@ is Idle,
        ensures
            *lent == old(self)@->Idle_0,
            final(self)@ == State::Idle(*final(lent)),
    {
        match &mut self.state {
            State::Idle(w) => w,
            _ => vstd::pervasive::unreached(),
        }
    }

    /// One poll of a write of `buf`. See [`write_step`].
    pub fn poll_write(&mut self, buf: &[u8], event: Event<W>) -> (step: Step<(W, Bytes), usize>)
        requires
            write_enabled(old(self)@, event),
        ensures
            (final(self)@, block_view(step)) == write_step(old(self)@, event, buf@),
    {
        match &self.state {
            State::Idle(_) => {
                let bs = from_vec(vstd::slice::slice_to_vec(buf));
                let size = bs.len();
                let mut taken = State::Write(size);
                core::mem::swap(&mut self.state, &mut taken);
                match taken {
                    State::Idle(w) => Step::Start((w, bs)),
                    _ => vstd::pervasive::unreached(),
                }
            },
            State::Write(size) => {
                let size = *size;
                match event {
                    Event::Called => Step::Resume,
                    Event::Suspended => Step::Pending,
                    Event::Finished(w, outcome) => {
                        self.state = State::Idle(w);
                        Step::Ready(report_write(size, outcome))
                    },
                }
            },
            State::Close => vstd::pervasive::unreached(),
        }
    }

    /// A flush has nothing to do: every write that was reported as done has
    /// reached the backend. It is ready at once, and the session is as before.
    pub fn poll_flush(&mut self) -> (step: Step<W, ()>)
        ensures
            step == Step::<W, ()>::Ready(Ok(())),
            final(self)@ == old(self)@,
    {
        Step::Ready(Ok(()))
    }

    /// One poll of a close. See [`close_step`].
    pub fn poll_close(&mut self, event: Event<W>) -> (step: Step<W, ()>)
        requires
            close_enabled(old(self)@, event),
        ensures
            (final(self)@, step) == close_step(old(self)@, event),
    {
        match &self.state {
            State::Idle(_) => {
                let mut taken = State::Close;
                core::mem::swap(&mut self.state, &mut taken);
                match taken {
                    State::Idle(w) => Step::Start(w),
                    _ => vstd::pervasive::unreached(),
                }
            },
            State::Write(_) => vstd::pervasive::unreached(),
            State::Close => match event {
                Event::Called => Step::Resume,
                Event::Suspended => Step::Pending,
                Event::Finished(w, outcome) => {
                    self.state = State::Idle(w);
                    Step::Ready(outcome)
                },
            },
        }
    }
}

/// A block writer whose operations return when the backend has answered.
///
/// Backends implement it. Each operation comes with a relation that says which
/// outcomes the implementation admits; one that says nothing admits them all.
/// The sessions here rely on no particular relation: they promise that what they
/// did to the block writer is one call that its relation admits.
pub trait BlockingWrite: Sized {
    /// Whether one append of `block` may turn `self` into `after` with `outcome`.
    open spec fn appends(&self, block: Seq<u8>, after: &Self, outcome: Result<(), Error>) -> bool {
        true
    }

    /// Whether one close may turn `self` into `after` with `outcome`.
    open spec fn closes(&self, after: &Self, outcome: Result<(), Error>) -> bool {
        true
    }

    /// Appends one block to the object.
    fn append(&mut self, bs: Bytes) -> (outcome: Result<(), Error>)
        ensures
            old(self).appends(contents(bs), final(self), outcome),
    ;

    /// Closes the object and makes sure that all blocks are stored.
    fn close(&mut self) -> (outcome: Result<(), Error>)
        ensures
            old(self).closes(final(self), outcome),
    ;
}

/// A write session on a block writer whose operations block. It works like
/// [`ObjectWriter`], without any state of its own.
pub struct BlockingObjectWriter<W: BlockingWrite> {
    pub inner: W,
}

impl<W: BlockingWrite> BlockingObjectWriter<W> {
    /// A session on the block writer that the backend has opened.
    pub fn create(w: W) -> (session: Self)
        ensures
            session.inner == w,
    {
        BlockingObjectWriter { inner: w }
    }

    /// Appends `bs` as one block: one append on the block writer, with its
    /// outcome as it came.
    pub fn append(&mut self, bs: Bytes) -> (outcome: Result<(), Error>)
        ensures
            old(self).inner.appends(contents(bs), &final(self).inner, outcome),
    {
        self.inner.append(bs)
    }

    /// Closes the object: one close on the block writer, with its outcome as it
    /// came.
    pub fn close(&mut self) -> (outcome: Result<(), Error>)
        ensures
            old(self).inner.closes(&final(self).inner, outcome),
    {
        self.inner.close()
    }

    /// Writes all of `buf` as one block and reports its size, or the backend's
    /// error as it came.
    pub fn write(&mut self, buf: &[u8]) -> (written: Result<usize, Error>)
        ensures
            old(self).inner.appends(buf@, &final(self).inner, append_outcome(written)),
            written == write_result(buf@.len() as usize, append_outcome(written)),
    {
        let bs = from_vec(vstd::slice::slice_to_vec(buf));
        let size = bs.len();
        let outcome = self.append(bs);
        let written = report_write(size, outcome);
        assert(append_outcome(written) == outcome) by {
            if outcome is Ok {
                assert(outcome->Ok_0 == ());
            }
        }
        written
    }

    /// A flush has nothing to do: every write that has returned has reached the
    /// backend.
    pub fn flush(&mut self) -> (flushed: Result<(), Error>)
        ensures
            flushed == Ok::<(), Error>(()),
            *final(self) == *old(self),
    {
        Ok(())
    }
}

} // verus!
