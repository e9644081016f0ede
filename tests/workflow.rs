use cs_club::echo::{echo, EchoRequest, EchoResponse};
use cs_club::workflow::{question_run, run_with_tasks, WorkflowRun, QUESTION_TEXT};

fn s(t: &str) -> String {
    t.to_string()
}

#[test]
fn echo_returns_message_unchanged() {
    assert_eq!(echo(EchoRequest { message: s("hello") }), EchoResponse { message: s("hello") });
    assert_eq!(echo(EchoRequest { message: s("") }), EchoResponse { message: s("") });
}

#[test]
fn run_with_tasks_inputs() {
    let todo = s("1. Finish project presentation\n2. Debug code\n3. Prepare demo");
    let schedule = s("9:00 AM - Team meeting\n11:00 AM - Coding session");
    assert_eq!(
        run_with_tasks(todo.clone(), schedule.clone()),
        WorkflowRun {
            inputs: vec![(s("to_do_list"), todo), (s("daily_schedule"), schedule)],
            user: s("Moof"),
        }
    );
}

#[test]
fn question_run_inputs() {
    let r = question_run();
    assert_eq!(r.user, "Moof");
    assert_eq!(r.inputs, vec![(s("meow"), s(QUESTION_TEXT))]);
    assert!(QUESTION_TEXT.starts_with("What's the best City for tech?"));
}
