//! How a failed run is reported.
//!
//! A run fails at exactly one stage. The report names that stage with a
//! short prefix and then gives the driver's own words, or a fixed
//! placeholder where the driver had none to give.

use vstd::prelude::*;
use vstd::string::StringExecFns;

verus! {

/// The driver calls of a run, in the order in which they are first made.
#[derive(Clone, Copy, Debug, PartialEq, Eq, Structural)]
pub enum Stage {
    /// Creating the driver environment.
    Environment,
    /// Opening the connection to the data source.
    Connection,
    /// Allocating the statement on the connection.
    Statement,
    /// Executing the statement text.
    Execution,
    /// Asking how many columns the result set has.
    ColumnCount,
    /// Fetching the next row.
    Fetch,
    /// Reading one column of the current row.
    ColumnRead,
}

/// A failed driver call: where it happened and what the driver said.
#[derive(Clone, Debug, PartialEq, Eq)]
pub struct Failure {
    pub stage: Stage,
    /// The driver's error text; `None` where it supplied no error record.
    pub detail: Option<String>,
}

/// A failure as the contracts see it.
pub struct FailureView {
    pub stage: Stage,
    pub detail: Option<Seq<char>>,
}

impl View for Failure {
    type V = FailureView;

    open spec fn view(&self) -> FailureView {
        FailureView { stage: self.stage, detail: self.detail.deep_view() }
    }
}

/// The words that open the report of a failure at `stage`.
pub open spec fn stage_prefix(stage: Stage) -> Seq<char> {
    match stage {
        Stage::Environment => "When `create_environment_v3`: "@,
        Stage::Connection => "When instatiating connection: "@,
        Stage::Statement => "When allocating statement: "@,
        Stage::Execution => "When executing statement: "@,
        Stage::ColumnCount => "When counting result columns: "@,
        Stage::Fetch => "When fetching row: "@,
        Stage::ColumnRead => "When reading column value: "@,
    }
}

/// What stands in for the driver's words where it gave none.
pub open spec fn missing_detail() -> Seq<char> {
    "Empty option (no error struct)"@
}

/// The driver's words, or the placeholder.
pub open spec fn detail_text(detail: Option<Seq<char>>) -> Seq<char> {
    match detail {
        Some(words) => words,
        None => missing_detail(),
    }
}

/// The full report of a failure.
pub open spec fn failure_message(failure: FailureView) -> Seq<char> {
    stage_prefix(failure.stage) + detail_text(failure.detail)
}

/// `word` stands somewhere in `text`, unbroken.
pub open spec fn occurs_in(word: Seq<char>, text: Seq<char>) -> bool {
    exists|at: int|
        0 <= at && at + word.len() <= text.len() && #[trigger] text.subrange(
            at,
            at + word.len(),
        ) == word
}

/// The report of a failed connection attempt holds the word `connection`,
/// whatever the driver said.
pub proof fn lemma_connection_failure_says_connection(detail: Option<Seq<char>>)
    ensures
        occurs_in(
            "connection"@,
            failure_message(FailureView { stage: Stage::Connection, detail }),
        ),
{
    reveal_strlit("connection");
    reveal_strlit("When instatiating connection: ");
    let prefix = "When instatiating connection: "@;
    let message = failure_message(FailureView { stage: Stage::Connection, detail });
    assert(message == prefix + detail_text(detail));
    assert(message.subrange(18, 18int + "connection"@.len()) =~= "connection"@);
}

/// The opening words for a failure at `stage`.
pub fn prefix_for(stage: Stage) -> (prefix: &'static str)
    ensures
        prefix@ == stage_prefix(stage),
{
    match stage {
        Stage::Environment => "When `create_environment_v3`: ",
        Stage::Connection => "When instatiating connection: ",
        Stage::Statement => "When allocating statement: ",
        Stage::Execution => "When executing statement: ",
        Stage::ColumnCount => "When counting result columns: ",
        Stage::Fetch => "When fetching row: ",
        Stage::ColumnRead => "When reading column value: ",
    }
}

impl Failure {
    /// The report to show for this failure: the stage's opening words, then
    /// the driver's text or the placeholder.
    pub fn message(&self) -> (text: String)
        ensures
            text@ == failure_message(self@),
    {
        let mut text = String::from_str(prefix_for(self.stage));
        match &self.detail {
            Some(words) => text.append(words.as_str()),
            None => text.append("Empty option (no error struct)"),
        }
        text
    }
}

} // verus!
