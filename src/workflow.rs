//! What is sent to the hosted workflow service.

use vstd::prelude::*;
use crate::tasks::pairs_view;

verus! {

/// Where the workflow service is reached.
pub const API_BASE_URL: &'static str = "https://api.dify.ai";

/// How long a call to the workflow service may take, in seconds.
pub const TIMEOUT_SECS: u64 = 60;

/// The user that runs are made for.
pub const WORKFLOW_USER: &'static str = "Moof";

/// The input that holds the to-do list.
pub const TO_DO_LIST_INPUT: &'static str = "to_do_list";

/// The input that holds the daily schedule.
pub const DAILY_SCHEDULE_INPUT: &'static str = "daily_schedule";

/// The input that holds the fixed question.
pub const QUESTION_INPUT: &'static str = "meow";

/// The fixed question.
pub const QUESTION_TEXT: &'static str = "What's the best City for tech? What's the best college for someone living there to pursue programming on a budget, who's just starting school? I would like community college options. Also, who can I network with on campus maximize my chances? What should I do while networking in the event that the economy is not conducive towards internships? Be specific.";

/// One blocking run of the workflow: its named text inputs, each name once,
/// and the user it is made for.
#[derive(Debug, PartialEq, Eq)]
pub struct WorkflowRun {
    pub inputs: Vec<(String, String)>,
    pub user: String,
}

/// The run that asks the fixed question.
pub fn question_run() -> (r: WorkflowRun)
    ensures
        pairs_view(r.inputs@) == seq![(QUESTION_INPUT@, QUESTION_TEXT@)],
        r.user@ == WORKFLOW_USER@,
{
    let mut inputs: Vec<(String, String)> = Vec::new();
    inputs.push((String::from_str(QUESTION_INPUT), String::from_str(QUESTION_TEXT)));
    let r = WorkflowRun { inputs, user: String::from_str(WORKFLOW_USER) };
    assert(pairs_view(r.inputs@) =~= seq![(QUESTION_INPUT@, QUESTION_TEXT@)]);
    r
}

/// The run that hands the workflow a to-do list and a daily schedule.
pub fn run_with_tasks(to_do_list: String, daily_schedule: String) -> (r: WorkflowRun)
    ensures
        pairs_view(r.inputs@) == seq![
            (TO_DO_LIST_INPUT@, to_do_list@),
            (DAILY_SCHEDULE_INPUT@, daily_schedule@),
        ],
        r.user@ == WORKFLOW_USER@,
{
    let ghost todo = to_do_list@;
    let ghost schedule = daily_schedule@;
    let mut inputs: Vec<(String, String)> = Vec::new();
    inputs.push((String::from_str(TO_DO_LIST_INPUT), to_do_list));
    inputs.push((String::from_str(DAILY_SCHEDULE_INPUT), daily_schedule));
    let r = WorkflowRun { inputs, user: String::from_str(WORKFLOW_USER) };
    assert(pairs_view(r.inputs@) =~= seq![
        (TO_DO_LIST_INPUT@, todo),
        (DAILY_SCHEDULE_INPUT@, schedule),
    ]);
    r
}

} // verus!
