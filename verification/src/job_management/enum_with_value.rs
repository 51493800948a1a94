//! The lifecycle as a single tagged union: one `Job` type whose `JobStatus`
//! payload says which stage it is in and carries that stage's data. A caller
//! in the wrong stage is answered at run time with `None` — a recoverable,
//! inspectable error the typed core (`typestate_final`) rules out at compile
//! time instead.

use crate::job_management::ident::fresh_id;
use uuid::Uuid;
use vstd::prelude::*;

verus! {

/// A unit of asynchronous work whose stage is tracked by a runtime tag.
pub struct Job<I, O> {
    id: Uuid,
    status: JobStatus<I, O>,
}

/// The stage tag, carrying the data the stage owns.
pub enum JobStatus<I, O> {
    Pending(I),
    Running,
    Done(O),
}

impl<I, O> Job<I, O> {
    /// The identity assigned at construction, invariant under transitions.
    pub closed spec fn id_spec(&self) -> Uuid {
        self.id
    }

    /// The stage tag and the data it owns.
    pub closed spec fn status_spec(&self) -> JobStatus<I, O> {
        self.status
    }

    /// Makes a pending job owning `input`, under a freshly generated
    /// identity. Always succeeds.
    pub fn new(input: I) -> (r: Self)
        ensures
            r.status_spec() == (JobStatus::<I, O>::Pending(input)),
    {
        Job { id: fresh_id(), status: JobStatus::Pending(input) }
    }

    /// Begins execution: yields a running job under the same identity if
    /// this job is pending, and `None` otherwise — the runtime check the
    /// typed encoding does away with.
    pub fn start(self) -> (r: Option<Job<I, O>>)
        ensures
            (match r {
                Some(j) => self.status_spec() is Pending && j.id_spec() == self.id_spec()
                    && j.status_spec() == (JobStatus::<I, O>::Running),
                None => !(self.status_spec() is Pending),
            }),
    {
        if let JobStatus::Pending(_) = self.status {
            Some(Job { id: self.id, status: JobStatus::Running })
        } else {
            None
        }
    }

    /// The input, present exactly while the job is pending.
    pub fn input(&self) -> (r: Option<&I>)
        ensures
            (match r {
                Some(i) => self.status_spec() == (JobStatus::<I, O>::Pending(*i)),
                None => !(self.status_spec() is Pending),
            }),
    {
        if let JobStatus::Pending(i) = &self.status {
            Some(i)
        } else {
            None
        }
    }

    /// Mutable access to the input, present exactly while the job is
    /// pending; the identity is untouched either way.
    pub fn input_mut(&mut self) -> (r: Option<&mut I>)
        ensures
            (match r {
                Some(m) => old(self).status_spec() == (JobStatus::<I, O>::Pending(*m))
                    && final(self).status_spec() == (JobStatus::<I, O>::Pending(*final(m))),
                None => !(old(self).status_spec() is Pending) && *final(self) == *old(self),
            }),
            final(self).id_spec() == old(self).id_spec(),
    {
        if let JobStatus::Pending(i) = &mut self.status {
            Some(i)
        } else {
            None
        }
    }

    /// Replaces the input with `input` and returns the previous one, if the
    /// job is pending; otherwise leaves the job unchanged and returns `None`.
    pub fn set_input(&mut self, input: I) -> (r: Option<I>)
        ensures
            (match r {
                Some(previous) => old(self).status_spec() == (JobStatus::<I, O>::Pending(
                    previous,
                )) && final(self).status_spec() == (JobStatus::<I, O>::Pending(input)),
                None => !(old(self).status_spec() is Pending) && *final(self) == *old(self),
            }),
            final(self).id_spec() == old(self).id_spec(),
    {
        let mut previous = input;
        match self.input_mut() {
            Some(i) => {
                core::mem::swap(i, &mut previous);
                Some(previous)
            },
            None => None,
        }
    }

    /// The output, present exactly once the job is done.
    pub fn output(&self) -> (r: Option<&O>)
        ensures
            (match r {
                Some(o) => self.status_spec() == (JobStatus::<I, O>::Done(*o)),
                None => !(self.status_spec() is Done),
            }),
    {
        if let JobStatus::Done(o) = &self.status {
            Some(o)
        } else {
            None
        }
    }

    /// Consumes the job and extracts its output, present exactly once the
    /// job is done.
    pub fn into_output(self) -> (r: Option<O>)
        ensures
            (match r {
                Some(o) => self.status_spec() == (JobStatus::<I, O>::Done(o)),
                None => !(self.status_spec() is Done),
            }),
    {
        if let JobStatus::Done(o) = self.status {
            Some(o)
        } else {
            None
        }
    }
}

} // verus!
