//! Taking a bus apart.

use vstd::prelude::*;

use super::{Line, Pins};
use crate::operation::{
    each, lemma_each_push, run, trace, Exchange, Operation, Progress,
};

verus! {

/// What taking a bus apart asks for.
#[derive(Clone, Copy, PartialEq, Eq, Structural, Debug)]
pub enum ReleaseRequest {
    /// Put the pin of the line back in the mode that it was configured in.
    RestoreMode(Line),
}

/// How far a bus is taken apart.
#[derive(Clone, Copy, PartialEq, Eq, Structural, Debug)]
pub enum ReleaseStage {
    /// The pin of this line has to be put back.
    Restore(Line),
    /// Both pins are put back.
    Done,
}

/// A bus that is being taken apart.
#[derive(Debug)]
pub struct Release<I2C, PINS: Pins<I2C>> {
    state: ReleaseState<I2C, PINS>,
}

/// What a bus that is being taken apart consists of.
#[derive(Debug)]
pub struct ReleaseState<I2C, PINS: Pins<I2C>> {
    pub i2c: I2C,
    pub pins: PINS,
    pub stage: ReleaseStage,
}

impl<I2C, PINS> ReleaseState<I2C, PINS> where PINS: Pins<I2C> {
    /// The bus before the first request.
    pub open spec fn start(i2c: I2C, pins: PINS) -> Self {
        ReleaseState { i2c, pins, stage: ReleaseStage::Restore(Line::Scl) }
    }

    /// The pending request, or the end.
    pub open spec fn progress(self) -> Progress<ReleaseRequest, ()> {
        match self.stage {
            ReleaseStage::Restore(line) => Progress::Pending(ReleaseRequest::RestoreMode(line)),
            ReleaseStage::Done => Progress::Finished(()),
        }
    }

    /// The bus after the pending request was carried out.
    pub open spec fn next(self) -> Self {
        match self.stage {
            ReleaseStage::Restore(Line::Scl) => ReleaseState {
                pins: self.pins.restored(Line::Scl),
                stage: ReleaseStage::Restore(Line::Sda),
                ..self
            },
            ReleaseStage::Restore(Line::Sda) => ReleaseState {
                pins: self.pins.restored(Line::Sda),
                stage: ReleaseStage::Done,
                ..self
            },
            ReleaseStage::Done => self,
        }
    }
}

impl<I2C, PINS> View for Release<I2C, PINS> where PINS: Pins<I2C> {
    type V = ReleaseState<I2C, PINS>;

    closed spec fn view(&self) -> ReleaseState<I2C, PINS> {
        self.state
    }
}

impl<I2C, PINS> Release<I2C, PINS> where PINS: Pins<I2C> {
    /// Prepares to take apart the bus of `i2c` and `pins`.
    pub(crate) fn new(i2c: I2C, pins: PINS) -> (release: Self)
        ensures
            release@ == ReleaseState::<I2C, PINS>::start(i2c, pins),
    {
        Release { state: ReleaseState { i2c, pins, stage: ReleaseStage::Restore(Line::Scl) } }
    }

    /// Returns the pins.
    pub fn pins(&self) -> (pins: &PINS)
        ensures
            *pins == self@.pins,
    {
        &self.state.pins
    }

    /// Returns the peripheral and the pins, or the bus itself as long as it is not taken apart.
    pub fn finish(self) -> (parts: Result<(I2C, PINS), Self>)
        ensures
            parts is Ok <==> self.progress() is Finished,
            parts matches Ok(parts) ==> parts.0 == self@.i2c && parts.1 == self@.pins,
            parts matches Err(release) ==> release == self,
    {
        match self.state.stage {
            ReleaseStage::Done => Ok((self.state.i2c, self.state.pins)),
            ReleaseStage::Restore(_) => Err(self),
        }
    }
}

impl<I2C, PINS> Operation for Release<I2C, PINS> where PINS: Pins<I2C> {
    type Request = ReleaseRequest;

    type Output = ();

    open spec fn progress(self) -> Progress<ReleaseRequest, ()> {
        self@.progress()
    }

    closed spec fn after(self, value: u32) -> Self {
        Release { state: self.state.next() }
    }

    fn poll(&self) -> (progress: Progress<ReleaseRequest, ()>) {
        match self.state.stage {
            ReleaseStage::Restore(line) => Progress::Pending(ReleaseRequest::RestoreMode(line)),
            ReleaseStage::Done => Progress::Finished(()),
        }
    }

    fn reply(&mut self, value: u32)
        ensures
            final(self)@ == old(self)@.next(),
    {
        match self.state.stage {
            ReleaseStage::Restore(Line::Scl) => {
                self.state.pins.restore_line_mode(Line::Scl);
                self.state.stage = ReleaseStage::Restore(Line::Sda);
            },
            ReleaseStage::Restore(Line::Sda) => {
                self.state.pins.restore_line_mode(Line::Sda);
                self.state.stage = ReleaseStage::Done;
            },
            ReleaseStage::Done => {},
        }
    }

    proof fn lemma_finished_is_final(self, value: u32) {
    }
}

/// The requests that take a bus apart, in order: the clock line is put back, then the data line.
pub open spec fn takes_apart(
    before: Seq<Exchange<ReleaseRequest>>,
    exchange: Exchange<ReleaseRequest>,
) -> bool {
    exchange.request == ReleaseRequest::RestoreMode(
        if before.len() == 0 {
            Line::Scl
        } else {
            Line::Sda
        },
    )
}

/// What a bus that is being taken apart consists of goes through the stages of
/// [`ReleaseState::next`].
pub proof fn law_release_step<I2C, PINS: Pins<I2C>>(release: Release<I2C, PINS>, value: u32)
    ensures
        release.after(value)@ == release@.next(),
{
}

/// Taking a bus apart takes two requests, which are those of [`takes_apart`]. Each pin is put back
/// when its turn comes, and the peripheral is kept.
pub proof fn law_release<I2C, PINS: Pins<I2C>>(
    release: Release<I2C, PINS>,
    i2c: I2C,
    pins: PINS,
    replies: Seq<u32>,
)
    requires
        release@ == ReleaseState::<I2C, PINS>::start(i2c, pins),
    ensures
        ({
            let state = run(release, replies);
            let exchanged = trace(release, replies);
            &&& each(exchanged, |b, e| takes_apart(b, e))
            &&& exchanged.len() == if replies.len() < 2 {
                replies.len() as int
            } else {
                2
            }
            &&& state.progress() is Finished <==> replies.len() >= 2
            &&& state@.i2c == i2c
            &&& state@.pins == if replies.len() == 0 {
                pins
            } else if replies.len() == 1 {
                pins.restored(Line::Scl)
            } else {
                pins.restored(Line::Scl).restored(Line::Sda)
            }
        }),
{
    lemma_release_run(release, i2c, pins, replies);
}

proof fn lemma_release_run<I2C, PINS: Pins<I2C>>(
    release: Release<I2C, PINS>,
    i2c: I2C,
    pins: PINS,
    replies: Seq<u32>,
)
    requires
        release@ == ReleaseState::<I2C, PINS>::start(i2c, pins),
    ensures
        ({
            let state = run(release, replies);
            let exchanged = trace(release, replies);
            &&& each(exchanged, |b, e| takes_apart(b, e))
            &&& exchanged.len() == if replies.len() < 2 {
                replies.len() as int
            } else {
                2
            }
            &&& state@.i2c == i2c
            &&& if replies.len() == 0 {
                state@.pins == pins && state@.stage == ReleaseStage::Restore(Line::Scl)
            } else if replies.len() == 1 {
                &&& state@.pins == pins.restored(Line::Scl)
                &&& state@.stage == ReleaseStage::Restore(Line::Sda)
            } else {
                &&& state@.pins == pins.restored(Line::Scl).restored(Line::Sda)
                &&& state@.stage == ReleaseStage::Done
            }
        }),
    decreases replies.len(),
{
    if replies.len() > 0 {
        let shorter = replies.drop_last();
        lemma_release_run(release, i2c, pins, shorter);
        if let Progress::Pending(request) = run(release, shorter).progress() {
            lemma_each_push(
                trace(release, shorter),
                Exchange { request, reply: replies.last() },
                |b, e| takes_apart(b, e),
            );
        }
    }
}

/// A bus that is being taken apart comes apart if and only if both of its requests were answered,
/// into the peripheral that it was made of and the pins, both put back. Before that it is returned as
/// it stands.
pub proof fn law_finish<I2C, PINS: Pins<I2C>>(
    release: Release<I2C, PINS>,
    i2c: I2C,
    pins: PINS,
    replies: Seq<u32>,
    result: Result<(I2C, PINS), Release<I2C, PINS>>,
)
    requires
        release@ == ReleaseState::<I2C, PINS>::start(i2c, pins),
        call_ensures(Release::<I2C, PINS>::finish, (run(release, replies),), result),
    ensures
        result is Ok <==> replies.len() >= 2,
        result matches Ok(parts) ==> parts.0 == i2c && parts.1 == pins.restored(
            Line::Scl,
        ).restored(Line::Sda),
        result matches Err(unfinished) ==> unfinished == run(release, replies),
{
    law_release(release, i2c, pins, replies);
}

} // verus!
