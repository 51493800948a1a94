//! The lifecycle with independently tracked fields: a stage tag beside an
//! optional input and an optional output, nothing tying them together. The
//! relation the typed core gets for free — pending holds only an input, done
//! holds only an output — is stated here as `consistent` and has to be proved
//! at every step. A transition called in the wrong stage is ruled out by
//! precondition: the operation is partial where the typed one is total.

use crate::job_management::ident::fresh_id;
use uuid::Uuid;
use vstd::prelude::*;

verus! {

/// A unit of asynchronous work: a stage tag beside the optionally-present
/// input and output.
pub struct Job<I, O> {
    id: Uuid,
    status: JobStatus,
    input: Option<I>,
    output: Option<O>,
}

/// The bare stage tag.
pub enum JobStatus {
    Pending,
    Running,
    Done,
}

impl<I, O> Job<I, O> {
    /// The identity assigned at construction, invariant under transitions.
    pub closed spec fn id_spec(&self) -> Uuid {
        self.id
    }

    /// The stage tag.
    pub closed spec fn status_spec(&self) -> JobStatus {
        self.status
    }

    /// The optionally-present input.
    pub closed spec fn input_spec(&self) -> Option<I> {
        self.input
    }

    /// The optionally-present output.
    pub closed spec fn output_spec(&self) -> Option<O> {
        self.output
    }

    /// The stage tag agrees with the data: a pending job holds exactly an
    /// input, a running job holds nothing, a done job holds exactly an
    /// output. `new`, `run` and `finish` keep every job inside this relation;
    /// nothing in the representation itself does.
    pub open spec fn consistent(&self) -> bool {
        match self.status_spec() {
            JobStatus::Pending => self.input_spec() is Some && self.output_spec() is None,
            JobStatus::Running => self.input_spec() is None && self.output_spec() is None,
            JobStatus::Done => self.input_spec() is None && self.output_spec() is Some,
        }
    }

    /// Makes a pending job owning `input`, under a freshly generated
    /// identity. Always succeeds.
    pub fn new(input: I) -> (r: Self)
        ensures
            r.status_spec() is Pending,
            r.input_spec() == Some(input),
            r.output_spec() is None,
            r.consistent(),
    {
        Job { id: fresh_id(), status: JobStatus::Pending, input: Some(input), output: None }
    }

    /// Begins execution: consumes the pending job and yields a running one,
    /// discarding the input, under the same identity. Calling it on any
    /// other stage is forbidden outright — where the tagged encoding answers
    /// misuse with `None`, this one refuses it, and the stage check falls on
    /// the caller.
    pub fn run(self) -> (r: Self)
        requires
            self.status_spec() is Pending,
        ensures
            r.id_spec() == self.id_spec(),
            r.status_spec() is Running,
            r.input_spec() is None,
            r.output_spec() is None,
            r.consistent(),
    {
        Job { id: self.id, status: JobStatus::Running, input: None, output: None }
    }

    /// Completes execution: consumes the running job and yields a done one
    /// owning `output`, under the same identity. Calling it on any other
    /// stage is forbidden, as with `run`.
    pub fn finish(self, output: O) -> (r: Self)
        requires
            self.status_spec() is Running,
        ensures
            r.id_spec() == self.id_spec(),
            r.status_spec() is Done,
            r.input_spec() is None,
            r.output_spec() == Some(output),
            r.consistent(),
    {
        Job { id: self.id, status: JobStatus::Done, input: None, output: Some(output) }
    }

    /// The input, if the job still holds one.
    pub fn input(&self) -> (r: Option<&I>)
        ensures
            (match r {
                Some(i) => self.input_spec() == Some(*i),
                None => self.input_spec() is None,
            }),
    {
        self.input.as_ref()
    }

    /// Mutable access to the input, if the job still holds one; the
    /// identity, stage and output are untouched.
    pub fn input_mut(&mut self) -> (r: Option<&mut I>)
        ensures
            (match r {
                Some(m) => old(self).input_spec() == Some(*m)
                    && final(self).input_spec() == Some(*final(m)),
                None => old(self).input_spec() is None && final(self).input_spec() is None,
            }),
            final(self).id_spec() == old(self).id_spec(),
            final(self).status_spec() == old(self).status_spec(),
            final(self).output_spec() == old(self).output_spec(),
    {
        self.input.as_mut()
    }

    /// Replaces the input with `input` and returns the previous one, if the
    /// job still holds one; otherwise leaves the job unchanged and returns
    /// `None`.
    pub fn set_input(&mut self, input: I) -> (r: Option<I>)
        ensures
            (match r {
                Some(previous) => old(self).input_spec() == Some(previous)
                    && final(self).input_spec() == Some(input),
                None => old(self).input_spec() is None && *final(self) == *old(self),
            }),
            final(self).id_spec() == old(self).id_spec(),
            final(self).status_spec() == old(self).status_spec(),
            final(self).output_spec() == old(self).output_spec(),
    {
        let mut previous = input;
        match self.input.as_mut() {
            Some(i) => {
                core::mem::swap(i, &mut previous);
                Some(previous)
            },
            None => None,
        }
    }

    /// The output, if the job holds one.
    pub fn output(&self) -> (r: Option<&O>)
        ensures
            (match r {
                Some(o) => self.output_spec() == Some(*o),
                None => self.output_spec() is None,
            }),
    {
        self.output.as_ref()
    }

    /// Consumes the job and extracts its output, if it holds one.
    pub fn into_output(self) -> (r: Option<O>)
        ensures
            r == self.output_spec(),
    {
        self.output
    }
}

} // verus!
