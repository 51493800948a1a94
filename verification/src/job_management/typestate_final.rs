//! The typed core of the crate: a job's lifecycle stage is its type.
//!
//! A `Job<I, Pending<I>>` holds exactly one input; `start` consumes it and
//! yields a `Job<I, Running>`, which holds nothing; `finish` consumes that and
//! yields a `Job<I, Done<O>>`, which holds exactly one output. No operation
//! exists to read an output before `finish` or an input after `start`, and a
//! consumed job cannot be transitioned twice — misuse fails to compile rather
//! than at run time. The identity assigned by `new` is carried unchanged
//! through both transitions.

use crate::job_management::ident::fresh_id;
use crate::job_management::sealed::Sealed;
use core::marker::PhantomData;
use uuid::Uuid;
use vstd::prelude::*;

verus! {

/// The capability of being a lifecycle stage. Its supertrait lives in a
/// private module, so only `Pending`, `Running` and `Done` implement it:
/// the set of stages is closed.
pub trait JobStatus<I>: Sealed {

}

/// Stage marker: the job has not started and owns its input.
pub struct Pending<I>(I);

/// Stage marker: the job is being executed and owns nothing.
pub struct Running;

/// Stage marker: the job has finished and owns its output.
pub struct Done<O>(O);

impl<I> Sealed for Pending<I> {

}

impl Sealed for Running {

}

impl<O> Sealed for Done<O> {

}

impl<I> JobStatus<I> for Pending<I> {

}

impl<I> JobStatus<I> for Running {

}

impl<I, O> JobStatus<I> for Done<O> {

}

/// A unit of asynchronous work, tagged with the stage `S` it is in. The
/// wrapped stage value decides which data the job holds, and the concrete
/// type decides which operations exist at all.
pub struct Job<I, S> where S: JobStatus<I> {
    id: Uuid,
    status: S,
    _phantom: PhantomData<I>,
}

impl<I, S> Job<I, S> where S: JobStatus<I> {
    /// The identity assigned at construction, invariant under transitions.
    pub closed spec fn id_spec(&self) -> Uuid {
        self.id
    }

    /// The stage value the job currently wraps.
    pub closed spec fn status_spec(&self) -> S {
        self.status
    }

    fn with_id_status(id: Uuid, status: S) -> (r: Self)
        ensures
            r == (Job { id, status, _phantom: PhantomData }),
            r.id_spec() == id,
            r.status_spec() == status,
    {
        Job { id, status, _phantom: PhantomData }
    }

    /// The job's identity, for external correlation; the lifecycle never
    /// consults it.
    pub fn id(&self) -> (r: Uuid)
        ensures
            r == self.id_spec(),
    {
        self.id
    }
}

impl<I> Job<I, Pending<I>> {
    /// The input a pending job owns.
    pub closed spec fn input_spec(&self) -> I {
        self.status.0
    }

    /// Makes a pending job owning `input`, under a freshly generated
    /// identity. Always succeeds.
    pub fn new(input: I) -> (r: Self)
        ensures
            r.input_spec() == input,
    {
        Job::with_id_status(fresh_id(), Pending(input))
    }

    /// The exact running job `start` yields: the same identity, the input
    /// discarded.
    pub closed spec fn start_model(self) -> Job<I, Running> {
        Job { id: self.id, status: Running, _phantom: PhantomData }
    }

    /// Begins execution: consumes the pending job, discards its input, and
    /// yields a running job under the same identity. Total — no stage check
    /// and no failure case, since only a pending job has this operation.
    pub fn start(self) -> (r: Job<I, Running>)
        ensures
            r == self.start_model(),
            r.id_spec() == self.id_spec(),
    {
        Job::with_id_status(self.id, Running)
    }

    /// Read-only access to the input. Unconditional: a pending job always
    /// owns one.
    pub fn input(&self) -> (r: &I)
        ensures
            *r == self.input_spec(),
    {
        self.status.input()
    }

    /// Mutable access to the input; the identity is untouched.
    pub fn input_mut(&mut self) -> (r: &mut I)
        ensures
            *r == old(self).input_spec(),
            final(self).input_spec() == *final(r),
            final(self).id_spec() == old(self).id_spec(),
    {
        self.status.input_mut()
    }

    /// Replaces the input with `input` and returns the previous one. Always
    /// succeeds: the type system keeps this operation off started jobs.
    pub fn set_input(&mut self, input: I) -> (r: I)
        ensures
            r == old(self).input_spec(),
            final(self).input_spec() == input,
            final(self).id_spec() == old(self).id_spec(),
    {
        let mut previous = input;
        core::mem::swap(self.status.input_mut(), &mut previous);
        previous
    }
}

impl<I> Job<I, Running> {
    /// The exact done job `finish` yields: the same identity, the output
    /// attached.
    pub closed spec fn finish_model<O>(self, output: O) -> Job<I, Done<O>> {
        Job { id: self.id, status: Done(output), _phantom: PhantomData }
    }

    /// Completes execution: consumes the running job, attaches `output`, and
    /// yields a done job under the same identity. Total for the same
    /// structural reason as `start`.
    pub fn finish<O>(self, output: O) -> (r: Job<I, Done<O>>)
        ensures
            r == self.finish_model(output),
            r.id_spec() == self.id_spec(),
            r.output_spec() == output,
    {
        Job::with_id_status(self.id, Done(output))
    }
}

/// Law: whatever the input and output, taking a pending job through `start`
/// and then `finish` yields a done job with the pending job's identity.
pub proof fn lemma_identity_preserved<I, O>(pending: Job<I, Pending<I>>, output: O)
    ensures
        pending.start_model().finish_model(output).id_spec() == pending.id_spec(),
{
}

/// Law: whatever the input, a job finished with `output` holds exactly
/// `output`.
pub proof fn lemma_output_roundtrip<I, O>(pending: Job<I, Pending<I>>, output: O)
    ensures
        pending.start_model().finish_model(output).output_spec() == output,
{
}

impl<I, O> Job<I, Done<O>> {
    /// The output a done job owns.
    pub closed spec fn output_spec(&self) -> O {
        self.status.0
    }

    /// Read-only access to the output. Unconditional: a done job always
    /// owns one.
    pub fn output(&self) -> (r: &O)
        ensures
            *r == self.output_spec(),
    {
        self.status.output()
    }

    /// Extracts the owned output, discarding the job wrapper.
    pub fn into_output(self) -> (r: O)
        ensures
            r == self.output_spec(),
    {
        self.status.into_output()
    }
}

impl<I> Pending<I> {
    fn input(&self) -> (r: &I)
        ensures
            *r == self.0,
    {
        &self.0
    }

    fn input_mut(&mut self) -> (r: &mut I)
        ensures
            *r == old(self).0,
            final(self).0 == *final(r),
    {
        &mut self.0
    }
}

impl<O> Done<O> {
    fn output(&self) -> (r: &O)
        ensures
            *r == self.0,
    {
        &self.0
    }

    fn into_output(self) -> (r: O)
        ensures
            r == self.0,
    {
        self.0
    }
}

} // verus!
