//! The rows of the episodic store as library values: what a stored skill
//! row gives back.

use vstd::prelude::*;
use crate::outside::{
    is_json_null, is_rfc3339_utc, json_null, json_parse, normalized_time, now_rfc3339, parse_json,
    rfc3339_in_utc,
};
use crate::types::Skill;

verus! {

/// The parameters of a stored skill: the JSON its text holds, or `null`
/// when the text is not JSON.
pub fn parameters_or_null(parsed: Option<serde_json::Value>) -> (r: serde_json::Value)
    ensures
        parsed matches Some(v) ==> r == v,
        parsed is None ==> is_json_null(r),
{
    match parsed {
        Some(v) => v,
        None => json_null(),
    }
}

/// The skill a stored row describes. The texts are kept; the parameters are
/// parsed (`null` when they do not parse); the counts are read as unsigned;
/// the creation time is rewritten in UTC, or is the present time when it
/// does not parse; the time of last use is kept, rewritten in UTC, only when
/// given and parsable.
pub fn skill_from_row(
    id: String,
    name: String,
    description: String,
    source_code: String,
    tool_name: String,
    parameters: &str,
    success_count: i32,
    failure_count: i32,
    created_at: &str,
    last_used: Option<&str>,
) -> (r: Skill)
    ensures
        r.id == id,
        r.name == name,
        r.description == description,
        r.source_code == source_code,
        r.tool_name == tool_name,
        json_parse(parameters@) matches Some(v) ==> r.parameters == v,
        json_parse(parameters@) is None ==> is_json_null(r.parameters),
        r.success_count == success_count as u32,
        r.failure_count == failure_count as u32,
        rfc3339_in_utc(created_at@) matches Some(t) ==> r.created_at@ == t,
        rfc3339_in_utc(created_at@) is None ==> is_rfc3339_utc(r.created_at@),
        match last_used {
            Some(l) => match rfc3339_in_utc(l@) {
                Some(t) => r.last_used matches Some(u) && u@ == t,
                None => r.last_used is None,
            },
            None => r.last_used is None,
        },
{
    let created = match normalized_time(created_at) {
        Some(t) => t,
        None => now_rfc3339(),
    };
    let used = match last_used {
        Some(l) => normalized_time(l),
        None => None,
    };
    Skill {
        id,
        name,
        description,
        source_code,
        tool_name,
        parameters: parameters_or_null(parse_json(parameters)),
        success_count: success_count as u32,
        failure_count: failure_count as u32,
        created_at: created,
        last_used: used,
    }
}

} // verus!
