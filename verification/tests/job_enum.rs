use job_lifecycle::job_management::enum_with_value::Job;

#[test]
fn pending_job_answers_input_accessors() {
    let mut job: Job<i32, i32> = Job::new(42);
    assert_eq!(job.input(), Some(&42));
    assert_eq!(job.input_mut(), Some(&mut 42));
    assert_eq!(job.output(), None);
}

#[test]
fn start_succeeds_once_and_only_once() {
    let job: Job<i32, i32> = Job::new(42);
    let running = job.start().expect("a pending job starts");
    assert!(running.input().is_none());
    assert!(running.output().is_none());
    // A second start finds the job no longer pending: the runtime check the
    // typed encoding replaces with a compile error.
    assert!(running.start().is_none());
}

#[test]
fn set_input_replaces_while_pending() {
    let mut job: Job<i32, i32> = Job::new(1);
    assert_eq!(job.set_input(2), Some(1));
    assert_eq!(job.input(), Some(&2));
}

#[test]
fn set_input_refused_once_running() {
    let job: Job<i32, i32> = Job::new(1);
    let mut running = job.start().expect("a pending job starts");
    assert_eq!(running.set_input(2), None);
    assert_eq!(running.input(), None);
}

#[test]
fn no_output_before_done() {
    let job: Job<i32, i32> = Job::new(1);
    let running = job.start().expect("a pending job starts");
    assert_eq!(running.into_output(), None);
}
