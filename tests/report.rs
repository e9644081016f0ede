use cs_club::report::{debug_workflow_result, OutputsSummary, ResultSummary, RunSummary};
use cs_club::text::decimal_string;

fn s(t: &str) -> String {
    t.to_string()
}

fn run(outputs: Option<OutputsSummary>, extra: Vec<(String, String)>) -> RunSummary {
    RunSummary {
        status: s("Succeeded"),
        error: s("None"),
        total_tokens: Some(120),
        elapsed_time: s("Some(1.5)"),
        total_steps: 3,
        created_at: 1700000000,
        finished_at: 1700000005,
        outputs,
        extra,
    }
}

const HEAD: &str = "Status: Succeeded\nError: None\nTotal tokens: Some(120)\nElapsed time: Some(1.5)\n\
Total steps: 3\nCreated at: 1700000000\nFinished at: 1700000005\n\nOutputs:\n";

#[test]
fn decimal_string_values() {
    assert_eq!(decimal_string(0), "0");
    assert_eq!(decimal_string(7), "7");
    assert_eq!(decimal_string(10), "10");
    assert_eq!(decimal_string(1234567890), "1234567890");
    assert_eq!(decimal_string(u64::MAX), u64::MAX.to_string());
}

#[test]
fn report_with_string_result() {
    let outputs = OutputsSummary {
        raw: s("Object {\"result\": String(\"hi\")}"),
        result: Some(ResultSummary { debug: s("String(\"hi\")"), text: Some(s("hi")) }),
    };
    let r = debug_workflow_result(&run(Some(outputs), vec![(s("sequence_number"), s("Number(4)"))]));
    let expected = format!(
        "{}Raw outputs: Object {{\"result\": String(\"hi\")}}\nAvailable keys in outputs:\n\
         \nValue of 'result' key: String(\"hi\")\n'result' as string: hi\n\
         \nExtra fields:\nsequence_number: Number(4)\n",
        HEAD
    );
    assert_eq!(r, expected);
}

#[test]
fn report_with_non_string_result() {
    let outputs = OutputsSummary {
        raw: s("Object {\"result\": Number(1)}"),
        result: Some(ResultSummary { debug: s("Number(1)"), text: None }),
    };
    let r = debug_workflow_result(&run(Some(outputs), vec![]));
    let expected = format!(
        "{}Raw outputs: Object {{\"result\": Number(1)}}\nAvailable keys in outputs:\n\
         \nValue of 'result' key: Number(1)\n'result' is not a string\n\nExtra fields:\n",
        HEAD
    );
    assert_eq!(r, expected);
}

#[test]
fn report_without_result_key() {
    let outputs = OutputsSummary { raw: s("Object {}"), result: None };
    let r = debug_workflow_result(&run(Some(outputs), vec![]));
    let expected = format!(
        "{}Raw outputs: Object {{}}\nAvailable keys in outputs:\nNo 'result' key found in outputs\n\nExtra fields:\n",
        HEAD
    );
    assert_eq!(r, expected);
}

#[test]
fn report_without_outputs() {
    let mut summary = run(None, vec![(s("a"), s("Null")), (s("b"), s("Bool(true)"))]);
    summary.total_tokens = None;
    let r = debug_workflow_result(&summary);
    let expected = "Status: Succeeded\nError: None\nTotal tokens: None\nElapsed time: Some(1.5)\n\
Total steps: 3\nCreated at: 1700000000\nFinished at: 1700000005\n\nOutputs:\nNo outputs available\n\
\nExtra fields:\na: Null\nb: Bool(true)\n";
    assert_eq!(r, expected);
}
