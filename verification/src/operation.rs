//! Operations that are carried out one access at a time.

use vstd::prelude::*;

verus! {

/// One access to a register of type `R`.
#[derive(PartialEq, Eq, Debug)]
pub enum Access<R> {
    /// Read the register.
    Read(R),
    /// Write the value to the register.
    Write(R, u32),
}

/// Where an operation stands.
#[derive(PartialEq, Eq, Debug)]
pub enum Progress<Q, T> {
    /// The operation waits for this request to be carried out.
    Pending(Q),
    /// The operation is over, with this result.
    Finished(T),
}

/// An operation that asks for one request at a time.
///
/// Whoever runs it carries out the pending request and answers with [`Operation::reply`]: with the
/// value that was read, or, for a request that yields no value, with any number.
pub trait Operation: Sized {
    /// What the operation asks for.
    type Request;

    /// What the operation ends with.
    type Output;

    /// Where the operation stands.
    spec fn progress(self) -> Progress<Self::Request, Self::Output>;

    /// The operation after the pending request was answered with `value`.
    spec fn after(self, value: u32) -> Self;

    /// Returns the pending request, or the result.
    fn poll(&self) -> (progress: Progress<Self::Request, Self::Output>)
        ensures
            progress == self.progress(),
    ;

    /// Takes the answer to the pending request.
    fn reply(&mut self, value: u32)
        ensures
            *final(self) == old(self).after(value),
    ;

    /// An operation that is over stays as it is.
    proof fn lemma_finished_is_final(self, value: u32)
        requires
            self.progress() is Finished,
        ensures
            self.after(value) == self,
    ;
}

/// A request that was carried out, with the answer that it got.
pub struct Exchange<Q> {
    pub request: Q,
    pub reply: u32,
}

/// The operation after its requests were answered with `replies`, one after the other.
pub open spec fn run<O: Operation>(operation: O, replies: Seq<u32>) -> O
    decreases replies.len(),
{
    if replies.len() == 0 {
        operation
    } else {
        run(operation, replies.drop_last()).after(replies.last())
    }
}

/// What was exchanged while the requests of the operation were answered with `replies`. Answers
/// that come after the end are not part of it.
pub open spec fn trace<O: Operation>(operation: O, replies: Seq<u32>) -> Seq<Exchange<O::Request>>
    decreases replies.len(),
{
    if replies.len() == 0 {
        Seq::empty()
    } else {
        let before = trace(operation, replies.drop_last());
        match run(operation, replies.drop_last()).progress() {
            Progress::Pending(request) => before.push(Exchange { request, reply: replies.last() }),
            Progress::Finished(_) => before,
        }
    }
}

/// Whether every exchange of `trace` obeys `rule`, which is told what came before it.
pub open spec fn each<Q>(
    trace: Seq<Exchange<Q>>,
    rule: spec_fn(Seq<Exchange<Q>>, Exchange<Q>) -> bool,
) -> bool {
    forall|i: int| 0 <= i < trace.len() ==> rule(trace.take(i), #[trigger] trace[i])
}

/// A rule that holds of a trace and of one more exchange holds of the two together.
pub proof fn lemma_each_push<Q>(
    trace: Seq<Exchange<Q>>,
    exchange: Exchange<Q>,
    rule: spec_fn(Seq<Exchange<Q>>, Exchange<Q>) -> bool,
)
    requires
        each(trace, rule),
        rule(trace, exchange),
    ensures
        each(trace.push(exchange), rule),
{
    let longer = trace.push(exchange);
    assert forall|i: int| 0 <= i < longer.len() implies rule(
        longer.take(i),
        #[trigger] longer[i],
    ) by {
        assert(longer.take(i) =~= trace.take(i));
        if i == trace.len() {
            assert(trace.take(i) =~= trace);
        } else {
            assert(longer[i] == trace[i]);
        }
    }
}

} // verus!
