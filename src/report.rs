//! A readable report of a finished workflow run.

use vstd::prelude::*;
use crate::text::{decimal, decimal_string};

verus! {

/// The output key that the report looks into.
pub const RESULT_KEY: &'static str = "result";

/// The output named by the report's key.
pub struct ResultSummary {
    /// Its debug text.
    pub debug: String,
    /// Its text, where it is a string.
    pub text: Option<String>,
}

/// The outputs of a run.
pub struct OutputsSummary {
    /// Their debug text.
    pub raw: String,
    /// The output under the report's key, if there is one.
    pub result: Option<ResultSummary>,
}

/// What a finished run tells. Values that only their own debug form can show
/// (the status, the error, the elapsed time) are held as that text.
pub struct RunSummary {
    pub status: String,
    pub error: String,
    pub total_tokens: Option<u32>,
    pub elapsed_time: String,
    pub total_steps: u32,
    pub created_at: u64,
    pub finished_at: u64,
    pub outputs: Option<OutputsSummary>,
    /// Each further field of the run, by name, with its debug text.
    pub extra: Vec<(String, String)>,
}

/// The debug form of an optional count: `Some(n)` or `None`.
pub open spec fn optional_count(n: Option<u32>) -> Seq<char> {
    match n {
        Some(v) => "Some("@ + decimal(v as nat) + ")"@,
        None => "None"@,
    }
}

/// The outputs part of the report.
pub open spec fn outputs_part(outputs: Option<OutputsSummary>) -> Seq<char> {
    match outputs {
        Some(o) => "Raw outputs: "@ + o.raw@ + "\n"@ + "Available keys in outputs:\n"@ + match o.result {
            Some(res) => "\nValue of 'result' key: "@ + res.debug@ + "\n"@ + match res.text {
                Some(t) => "'result' as string: "@ + t@ + "\n"@,
                None => "'result' is not a string\n"@,
            },
            None => "No 'result' key found in outputs\n"@,
        },
        None => "No outputs available\n"@,
    }
}

/// One line for each further field, in order.
pub open spec fn extra_part(extra: Seq<(String, String)>) -> Seq<char>
    decreases extra.len(),
{
    if extra.len() == 0 {
        Seq::empty()
    } else {
        extra_part(extra.drop_last()) + extra.last().0@ + ": "@ + extra.last().1@ + "\n"@
    }
}

/// The whole report of a run.
pub open spec fn report_of(run: RunSummary) -> Seq<char> {
    "Status: "@ + run.status@ + "\n"@ + "Error: "@ + run.error@ + "\n"@ + "Total tokens: "@
        + optional_count(run.total_tokens) + "\n"@ + "Elapsed time: "@ + run.elapsed_time@
        + "\n"@ + "Total steps: "@ + decimal(run.total_steps as nat) + "\n"@ + "Created at: "@
        + decimal(run.created_at as nat) + "\n"@ + "Finished at: "@ + decimal(
        run.finished_at as nat,
    ) + "\n"@ + "\nOutputs:\n"@ + outputs_part(run.outputs) + "\nExtra fields:\n"@ + extra_part(
        run.extra@,
    )
}

fn push_optional_count(s: &mut String, n: Option<u32>)
    ensures
        final(s)@ == old(s)@ + optional_count(n),
{
    match n {
        Some(v) => {
            let ghost start = s@;
            s.append("Some(");
            s.append(decimal_string(v as u64).as_str());
            s.append(")");
            assert(s@ =~= start + optional_count(n));
        },
        None => s.append("None"),
    }
}

fn push_outputs(s: &mut String, outputs: &Option<OutputsSummary>)
    ensures
        final(s)@ == old(s)@ + outputs_part(*outputs),
{
    let ghost start = s@;
    match outputs {
        Some(o) => {
            s.append("Raw outputs: ");
            s.append(o.raw.as_str());
            s.append("\n");
            s.append("Available keys in outputs:\n");
            match &o.result {
                Some(res) => {
                    s.append("\nValue of 'result' key: ");
                    s.append(res.debug.as_str());
                    s.append("\n");
                    match &res.text {
                        Some(t) => {
                            s.append("'result' as string: ");
                            s.append(t.as_str());
                            s.append("\n");
                        },
                        None => s.append("'result' is not a string\n"),
                    }
                },
                None => s.append("No 'result' key found in outputs\n"),
            }
        },
        None => s.append("No outputs available\n"),
    }
    assert(s@ =~= start + outputs_part(*outputs));
}

fn push_extra(s: &mut String, extra: &Vec<(String, String)>)
    ensures
        final(s)@ == old(s)@ + extra_part(extra@),
{
    let ghost start = s@;
    let mut i: usize = 0;
    while i < extra.len()
        invariant
            0 <= i <= extra@.len(),
            s@ == start + extra_part(extra@.subrange(0, i as int)),
        decreases extra@.len() - i,
    {
        s.append(extra[i].0.as_str());
        s.append(": ");
        s.append(extra[i].1.as_str());
        s.append("\n");
        assert(extra@.subrange(0, i + 1).drop_last() =~= extra@.subrange(0, i as int));
        assert(s@ =~= start + extra_part(extra@.subrange(0, i + 1)));
        i = i + 1;
    }
    assert(extra@.subrange(0, extra@.len() as int) =~= extra@);
}

/// The report of a finished run: its status, error, token count, elapsed
/// time, step count and timestamps, one line each; then its outputs, the
/// output under the report's key and whether it is a string; then each
/// further field.
pub fn debug_workflow_result(run: &RunSummary) -> (r: String)
    ensures
        r@ == report_of(*run),
{
    let mut s = String::new();
    s.append("Status: ");
    s.append(run.status.as_str());
    s.append("\n");
    s.append("Error: ");
    s.append(run.error.as_str());
    s.append("\n");
    s.append("Total tokens: ");
    push_optional_count(&mut s, run.total_tokens);
    s.append("\n");
    s.append("Elapsed time: ");
    s.append(run.elapsed_time.as_str());
    s.append("\n");
    s.append("Total steps: ");
    s.append(decimal_string(run.total_steps as u64).as_str());
    s.append("\n");
    s.append("Created at: ");
    s.append(decimal_string(run.created_at).as_str());
    s.append("\n");
    s.append("Finished at: ");
    s.append(decimal_string(run.finished_at).as_str());
    s.append("\n");
    s.append("\nOutputs:\n");
    push_outputs(&mut s, &run.outputs);
    s.append("\nExtra fields:\n");
    push_extra(&mut s, &run.extra);
    s
}

} // verus!
