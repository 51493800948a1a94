use job_lifecycle::job_management::naive::Job;

#[test]
fn lifecycle_moves_data_stage_by_stage() {
    let job: Job<i32, i32> = Job::new(42);
    assert_eq!(job.input(), Some(&42));
    assert_eq!(job.output(), None);

    let job = job.run();
    assert_eq!(job.input(), None);
    assert_eq!(job.output(), None);

    let job = job.finish(43);
    assert_eq!(job.input(), None);
    assert_eq!(job.output(), Some(&43));
    assert_eq!(job.into_output(), Some(43));
}

#[test]
fn set_input_replaces_while_an_input_is_held() {
    let mut job: Job<String, i32> = Job::new(String::from("a"));
    assert_eq!(job.set_input(String::from("b")), Some(String::from("a")));
    assert_eq!(job.input(), Some(&String::from("b")));
}

#[test]
fn set_input_refused_once_the_input_is_gone() {
    let job: Job<i32, i32> = Job::new(1);
    let mut job = job.run();
    assert_eq!(job.set_input(2), None);
    assert_eq!(job.input(), None);
}

#[test]
fn input_mut_edits_a_held_input() {
    let mut job: Job<i32, i32> = Job::new(10);
    if let Some(input) = job.input_mut() {
        *input = 20;
    }
    assert_eq!(job.input(), Some(&20));
}
