//! Picking the suggested tasks out of the workflow's answer.

use vstd::prelude::*;
use crate::json::{JsonValue, member_of, parse_json, parsed_json};
use crate::text::{decimal, decimal_string};

verus! {

/// The output that holds the answer, as JSON text.
pub const JSON_RESPONSE_KEY: &'static str = "json response";

/// The member of the answer that holds the life tasks.
pub const LIFE_TASKS_KEY: &'static str = "lifeTasks";

/// The member of the answer that holds the work tasks.
pub const WORK_TASKS_KEY: &'static str = "workTasks";

/// Life task `i` is named this followed by `i`.
pub const LIFE_TASK_PREFIX: &'static str = "lifeTask";

/// Work task `i` is named this followed by `i`.
pub const WORK_TASK_PREFIX: &'static str = "workTask";

/// How many life tasks are picked, numbered from 1.
pub const LIFE_TASK_COUNT: u64 = 1;

/// How many work tasks are picked, numbered from 1.
pub const WORK_TASK_COUNT: u64 = 2;

/// What stands for a task that the answer left out or gave as no string.
pub const EMPTY_TASK: &'static str = "(LLM generated empty task)";

/// The tasks picked from an answer, each as its name and its text.
#[derive(Debug, PartialEq, Eq)]
pub struct ChoicesResponse {
    pub life_tasks: Vec<(String, String)>,
    pub work_tasks: Vec<(String, String)>,
}

/// Why no tasks could be picked.
#[derive(Clone, Copy, Debug, PartialEq, Eq, Structural)]
pub enum ChoicesError {
    /// The outputs hold no JSON document under the answer's key.
    NoJsonResponse,
    /// The answer's life tasks are missing or not an object.
    LifeTasksNotObject,
    /// The answer's work tasks are missing or not an object.
    WorkTasksNotObject,
}

/// Name and text of each pair, as character sequences.
pub open spec fn pairs_view(v: Seq<(String, String)>) -> Seq<(Seq<char>, Seq<char>)> {
    v.map_values(|p: (String, String)| (p.0@, p.1@))
}

/// The name of task `i` of a kind.
pub open spec fn task_key(prefix: Seq<char>, i: nat) -> Seq<char> {
    prefix + decimal(i)
}

/// The text of the task named `key`: the member's text where it is a string,
/// else the placeholder.
pub open spec fn task_text(section: Seq<(String, JsonValue)>, key: Seq<char>) -> Seq<char> {
    match member_of(section, key) {
        Some(JsonValue::Str(s)) => s@,
        _ => EMPTY_TASK@,
    }
}

/// Tasks 1 to `count` of a kind, in order, each with its name.
pub open spec fn tasks_of(section: Seq<(String, JsonValue)>, prefix: Seq<char>, count: nat) -> Seq<
    (Seq<char>, Seq<char>),
> {
    Seq::new(
        count,
        |k: int|
            (task_key(prefix, (k + 1) as nat), task_text(section, task_key(prefix, (k + 1) as nat))),
    )
}

/// The life tasks and the work tasks that an answer yields.
pub open spec fn choices_of(answer: JsonValue) -> Result<
    (Seq<(Seq<char>, Seq<char>)>, Seq<(Seq<char>, Seq<char>)>),
    ChoicesError,
> {
    match answer.member(LIFE_TASKS_KEY@) {
        Some(JsonValue::Object(life)) => match answer.member(WORK_TASKS_KEY@) {
            Some(JsonValue::Object(work)) => Ok(
                (
                    tasks_of(life@, LIFE_TASK_PREFIX@, LIFE_TASK_COUNT as nat),
                    tasks_of(work@, WORK_TASK_PREFIX@, WORK_TASK_COUNT as nat),
                ),
            ),
            _ => Err(ChoicesError::WorkTasksNotObject),
        },
        _ => Err(ChoicesError::LifeTasksNotObject),
    }
}

/// The answer document that the workflow's outputs hold: the JSON text under
/// the answer's key, parsed.
pub open spec fn json_response_of(outputs: Option<JsonValue>) -> Option<JsonValue> {
    match outputs {
        Some(o) => match o.member(JSON_RESPONSE_KEY@) {
            Some(JsonValue::Str(s)) => parsed_json(s@),
            _ => None,
        },
        None => None,
    }
}

/// The text of the task named `key` in `section`.
pub fn task_from(section: &Vec<(String, JsonValue)>, key: &String) -> (r: String)
    ensures
        r@ == task_text(section@, key@),
{
    match crate::json::lookup(section, key) {
        Some(JsonValue::Str(s)) => s.clone(),
        _ => String::from_str(EMPTY_TASK),
    }
}

/// Tasks 1 to `count` named with `prefix`, in order, each with its text.
pub fn collect_tasks(section: &Vec<(String, JsonValue)>, prefix: &str, count: u64) -> (r: Vec<
    (String, String),
>)
    requires
        count < u64::MAX,
    ensures
        pairs_view(r@) == tasks_of(section@, prefix@, count as nat),
{
    let mut out: Vec<(String, String)> = Vec::new();
    let mut i: u64 = 1;
    while i <= count
        invariant
            1 <= i <= count + 1,
            count < u64::MAX,
            pairs_view(out@) =~= tasks_of(section@, prefix@, count as nat).subrange(0, i - 1),
        decreases count + 1 - i,
    {
        let mut key = String::from_str(prefix);
        key.append(decimal_string(i).as_str());
        let task = task_from(section, &key);
        assert(key@ == task_key(prefix@, i as nat));
        let ghost before = out@;
        out.push((key, task));
        assert(pairs_view(out@) =~= pairs_view(before).push(
            (task_key(prefix@, i as nat), task_text(section@, task_key(prefix@, i as nat))),
        ));
        i = i + 1;
    }
    assert(pairs_view(out@) =~= tasks_of(section@, prefix@, count as nat));
    out
}

/// The tasks that an answer yields: the first life task and the first two
/// work tasks, each the member's text or the placeholder.
pub fn tasks_from_json(answer: &JsonValue) -> (r: Result<ChoicesResponse, ChoicesError>)
    ensures
        match r {
            Ok(c) => choices_of(*answer) == Ok::<_, ChoicesError>(
                (pairs_view(c.life_tasks@), pairs_view(c.work_tasks@)),
            ),
            Err(e) => choices_of(*answer) == Err::<
                (Seq<(Seq<char>, Seq<char>)>, Seq<(Seq<char>, Seq<char>)>),
                _,
            >(e),
        },
{
    let life_key = String::from_str(LIFE_TASKS_KEY);
    let work_key = String::from_str(WORK_TASKS_KEY);
    let life = match answer.get(&life_key) {
        Some(JsonValue::Object(f)) => f,
        _ => {
            return Err(ChoicesError::LifeTasksNotObject);
        },
    };
    let work = match answer.get(&work_key) {
        Some(JsonValue::Object(f)) => f,
        _ => {
            return Err(ChoicesError::WorkTasksNotObject);
        },
    };
    Ok(
        ChoicesResponse {
            life_tasks: collect_tasks(life, LIFE_TASK_PREFIX, LIFE_TASK_COUNT),
            work_tasks: collect_tasks(work, WORK_TASK_PREFIX, WORK_TASK_COUNT),
        },
    )
}

/// The answer document in the workflow's outputs: the member under the
/// answer's key, where it is a string that parses as JSON.
pub fn extract_json_response(outputs: Option<&JsonValue>) -> (r: Option<JsonValue>)
    ensures
        r == json_response_of(
            match outputs {
                Some(o) => Some(*o),
                None => None,
            },
        ),
{
    match outputs {
        Some(o) => {
            let key = String::from_str(JSON_RESPONSE_KEY);
            match o.get(&key) {
                Some(JsonValue::Str(s)) => parse_json(s.as_str()),
                _ => None,
            }
        },
        None => None,
    }
}

/// The tasks that the workflow's outputs yield: the answer document is read
/// from them and the tasks picked from it.
pub fn choices_from_outputs(outputs: Option<&JsonValue>) -> (r: Result<ChoicesResponse, ChoicesError>)
    ensures
        match json_response_of(
            match outputs {
                Some(o) => Some(*o),
                None => None,
            },
        ) {
            None => r == Err::<ChoicesResponse, _>(ChoicesError::NoJsonResponse),
            Some(answer) => match r {
                Ok(c) => choices_of(answer) == Ok::<_, ChoicesError>(
                    (pairs_view(c.life_tasks@), pairs_view(c.work_tasks@)),
                ),
                Err(e) => choices_of(answer) == Err::<
                    (Seq<(Seq<char>, Seq<char>)>, Seq<(Seq<char>, Seq<char>)>),
                    _,
                >(e),
            },
        },
{
    match extract_json_response(outputs) {
        Some(answer) => tasks_from_json(&answer),
        None => Err(ChoicesError::NoJsonResponse),
    }
}

} // verus!
