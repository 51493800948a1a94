//! A first typed encoding of the lifecycle: stages are types, as in
//! `typestate_final`, but every stage still answers every accessor, with
//! `None` for data the stage does not hold. The stage capability carries the
//! accessors, so `Job` can offer them generically — the price is that a
//! caller holding a `Job<I, O, Pending<I>>` must still unwrap an `Option`
//! the type system could have discharged.

use crate::job_management::ident::fresh_id;
use crate::job_management::sealed::Sealed;
use core::marker::PhantomData;
use uuid::Uuid;
use vstd::prelude::*;

verus! {

/// The capability of being a lifecycle stage, carrying stage-checked
/// accessors. The supertrait lives in a private module, so only `Pending`,
/// `Running` and `Done` implement this: the set of stages is closed.
pub trait JobStatus<I, O>: Sealed + Sized {
    /// The input this stage holds, if any.
    spec fn input_spec(&self) -> Option<I>;

    /// The output this stage holds, if any.
    spec fn output_spec(&self) -> Option<O>;

    fn input(&self) -> (r: Option<&I>)
        ensures
            (match r {
                Some(i) => self.input_spec() == Some(*i),
                None => self.input_spec() is None,
            }),
    ;

    fn input_mut(&mut self) -> (r: Option<&mut I>)
        ensures
            (match r {
                Some(m) => old(self).input_spec() == Some(*m)
                    && final(self).input_spec() == Some(*final(m))
                    && final(self).output_spec() == old(self).output_spec(),
                None => old(self).input_spec() is None && *final(self) == *old(self),
            }),
    ;

    fn output(&self) -> (r: Option<&O>)
        ensures
            (match r {
                Some(o) => self.output_spec() == Some(*o),
                None => self.output_spec() is None,
            }),
    ;

    fn into_output(self) -> (r: Option<O>)
        ensures
            r == self.output_spec(),
    ;
}

/// Stage marker: the job has not started and owns its input.
pub struct Pending<I>(I);

/// Stage marker: the job is being executed and owns nothing.
pub struct Running;

/// Stage marker: the job has finished and owns its output.
pub struct Done<O>(O);

impl<I> Sealed for Pending<I> {

}

impl Sealed for Running {

}

impl<O> Sealed for Done<O> {

}

impl<I, O> JobStatus<I, O> for Pending<I> {
    closed spec fn input_spec(&self) -> Option<I> {
        Some(self.0)
    }

    closed spec fn output_spec(&self) -> Option<O> {
        None
    }

    fn input(&self) -> (r: Option<&I>) {
        Some(&self.0)
    }

    fn input_mut(&mut self) -> (r: Option<&mut I>) {
        Some(&mut self.0)
    }

    fn output(&self) -> (r: Option<&O>) {
        None
    }

    fn into_output(self) -> (r: Option<O>) {
        None
    }
}

impl<I, O> JobStatus<I, O> for Running {
    closed spec fn input_spec(&self) -> Option<I> {
        None
    }

    closed spec fn output_spec(&self) -> Option<O> {
        None
    }

    fn input(&self) -> (r: Option<&I>) {
        None
    }

    fn input_mut(&mut self) -> (r: Option<&mut I>) {
        None
    }

    fn output(&self) -> (r: Option<&O>) {
        None
    }

    fn into_output(self) -> (r: Option<O>) {
        None
    }
}

impl<I, O> JobStatus<I, O> for Done<O> {
    closed spec fn input_spec(&self) -> Option<I> {
        None
    }

    closed spec fn output_spec(&self) -> Option<O> {
        Some(self.0)
    }

    fn input(&self) -> (r: Option<&I>) {
        None
    }

    fn input_mut(&mut self) -> (r: Option<&mut I>) {
        None
    }

    fn output(&self) -> (r: Option<&O>) {
        Some(&self.0)
    }

    fn into_output(self) -> (r: Option<O>) {
        Some(self.0)
    }
}

/// A unit of asynchronous work, tagged with the stage `S` it is in. Both the
/// input and the output type are fixed at construction.
pub struct Job<I, O, S> where S: JobStatus<I, O> {
    id: Uuid,
    status: S,
    _phantom: PhantomData<(I, O)>,
}

impl<I, O> Job<I, O, Pending<I>> {
    /// The input a pending job owns.
    pub closed spec fn pending_input_spec(&self) -> I {
        self.status.0
    }

    /// Makes a pending job owning `input`, under a freshly generated
    /// identity. Always succeeds.
    pub fn new(input: I) -> (r: Self)
        ensures
            r.pending_input_spec() == input,
            r.input_spec() == Some(input),
            r.output_spec() is None,
    {
        Job::with_id_status(fresh_id(), Pending(input))
    }

    /// Begins execution: consumes the pending job, discards its input, and
    /// yields a running job under the same identity.
    pub fn start(self) -> (r: Job<I, O, Running>)
        ensures
            r.id_spec() == self.id_spec(),
            r.input_spec() is None,
            r.output_spec() is None,
    {
        Job::with_id_status(self.id, Running)
    }
}

impl<I, O> Job<I, O, Running> {
    /// Completes execution: consumes the running job, attaches `output`, and
    /// yields a done job under the same identity.
    pub fn finish(self, output: O) -> (r: Job<I, O, Done<O>>)
        ensures
            r.id_spec() == self.id_spec(),
            r.done_output_spec() == output,
            r.output_spec() == Some(output),
            r.input_spec() is None,
    {
        Job::with_id_status(self.id, Done(output))
    }
}

impl<I, O> Job<I, O, Done<O>> {
    /// The output a done job owns.
    pub closed spec fn done_output_spec(&self) -> O {
        self.status.0
    }
}

impl<I, O, S> Job<I, O, S> where S: JobStatus<I, O> {
    /// The identity assigned at construction, invariant under transitions.
    pub closed spec fn id_spec(&self) -> Uuid {
        self.id
    }

    /// The input the job's stage holds, if any.
    pub closed spec fn input_spec(&self) -> Option<I> {
        self.status.input_spec()
    }

    /// The output the job's stage holds, if any.
    pub closed spec fn output_spec(&self) -> Option<O> {
        self.status.output_spec()
    }

    fn with_id_status(id: Uuid, status: S) -> (r: Self)
        ensures
            r.id_spec() == id,
            r.status == status,
    {
        Job { id, status, _phantom: PhantomData }
    }

    /// The job's identity, for external correlation.
    pub fn id(&self) -> (r: Uuid)
        ensures
            r == self.id_spec(),
    {
        self.id
    }

    /// The input, present exactly while the job is pending.
    pub fn input(&self) -> (r: Option<&I>)
        ensures
            (match r {
                Some(i) => self.input_spec() == Some(*i),
                None => self.input_spec() is None,
            }),
    {
        self.status.input()
    }

    /// Mutable access to the input, present exactly while the job is
    /// pending; the identity and any output are untouched.
    pub fn input_mut(&mut self) -> (r: Option<&mut I>)
        ensures
            (match r {
                Some(m) => old(self).input_spec() == Some(*m)
                    && final(self).input_spec() == Some(*final(m))
                    && final(self).output_spec() == old(self).output_spec(),
                None => old(self).input_spec() is None && *final(self) == *old(self),
            }),
            final(self).id_spec() == old(self).id_spec(),
    {
        self.status.input_mut()
    }

    /// The output, present exactly once the job is done.
    pub fn output(&self) -> (r: Option<&O>)
        ensures
            (match r {
                Some(o) => self.output_spec() == Some(*o),
                None => self.output_spec() is None,
            }),
    {
        self.status.output()
    }

    /// Consumes the job and extracts its output, present exactly once the
    /// job is done.
    pub fn into_output(self) -> (r: Option<O>)
        ensures
            r == self.output_spec(),
    {
        self.status.into_output()
    }
}

} // verus!
