//! The instruction that asks a completion service for a course schedule,
//! built around a stored report.
use vstd::prelude::*;
use vstd::string::StringExecFns;

verus! {

/// Opens the fenced block that holds the report.
pub const REPORT_OPENING: &'static str = "```what if report\n\n";

/// Closes the report and states the task and the answer's schema.
pub const TASK_AND_SCHEMA: &'static str = "\n```\n\nGiven the above report. Create a schedule for the student. Make sure to take into account the classes they have currently taken and the required classes in the document above. Respond in valid json according to the following schema: {user_message: \"message to the user explaining your reasoning for choosing each course / a general overview\", semesters: [{year: \"year here\", classes: [{code: \"title here\"}]}]}. Do not change the title of classes or assume their names. Use the names listed in the document for the titles of the classes. In addition here is the student's major: ";

/// Comes between the major and the campus.
pub const CAMPUS_LEAD: &'static str = ", campus: ";

/// Comes between the campus and the query.
pub const QUERY_LEAD: &'static str = ", and an additional query from the user: \"";

/// Ends the instruction.
pub const CLOSING: &'static str = "\". That may be blank.";

/// The instruction for a report and the student's major, campus and query.
pub open spec fn prompt_text(
    report: Seq<char>,
    major: Seq<char>,
    campus: Seq<char>,
    query: Seq<char>,
) -> Seq<char> {
    REPORT_OPENING@ + report + TASK_AND_SCHEMA@ + major + CAMPUS_LEAD@ + campus + QUERY_LEAD@
        + query + CLOSING@
}

/// Builds the instruction that asks for a schedule from `report`, given the
/// student's major, campus and free-form query.
pub fn recommendation_prompt(report: &str, major: &str, campus: &str, query: &str) -> (r: String)
    ensures
        r@ == prompt_text(report@, major@, campus@, query@),
{
    let mut r = String::from_str(REPORT_OPENING);
    r.append(report);
    r.append(TASK_AND_SCHEMA);
    r.append(major);
    r.append(CAMPUS_LEAD);
    r.append(campus);
    r.append(QUERY_LEAD);
    r.append(query);
    r.append(CLOSING);
    r
}

} // verus!
