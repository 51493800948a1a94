use job_lifecycle::job_management::typestate_naive::Job;
use job_lifecycle::job_management::typestate_naive::Pending;

#[test]
fn pending_answers_input_only() {
    let mut job: Job<i32, i32, Pending<i32>> = Job::new(42);
    assert_eq!(job.input(), Some(&42));
    assert_eq!(job.input_mut(), Some(&mut 42));
    assert_eq!(job.output(), None);
    assert_eq!(job.into_output(), None);
}

#[test]
fn running_answers_nothing() {
    let job: Job<i32, i32, Pending<i32>> = Job::new(42);
    let job = job.start();
    assert_eq!(job.input(), None);
    assert_eq!(job.output(), None);
    assert_eq!(job.into_output(), None);
}

#[test]
fn done_answers_output_only() {
    let job: Job<i32, i32, Pending<i32>> = Job::new(42);
    let job = job.start().finish(43);
    assert_eq!(job.input(), None);
    assert_eq!(job.output(), Some(&43));
    assert_eq!(job.into_output(), Some(43));
}

#[test]
fn identity_survives_the_whole_lifecycle() {
    let pending: Job<u8, u8, Pending<u8>> = Job::new(1);
    let id = pending.id();
    let running = pending.start();
    assert_eq!(running.id(), id);
    let done = running.finish(2);
    assert_eq!(done.id(), id);
}

#[test]
fn input_mut_edits_a_pending_job() {
    let mut job: Job<i32, i32, Pending<i32>> = Job::new(7);
    if let Some(input) = job.input_mut() {
        *input = 8;
    }
    assert_eq!(job.input(), Some(&8));
}
