//! Whole runs: a session fed with the driver's replies, one after another.

use vstd::prelude::*;
use vstd::string::StringExecFns;
use crate::failure::{
    failure_message, lemma_connection_failure_says_connection, occurs_in, FailureView, Stage,
};
use crate::protocol::{Reply, ReplyView, RequestView};
use crate::render::{
    cells_text, lemma_cells_text_push, lemma_rows_text_push, no_data_notice, rows_text,
};
use crate::session::{
    exit_status, lemma_step_keeps_wf, lemma_step_never_goes_back, next_phase, pending_stage,
    phase_wf, printed, progress, request_for, width, PhaseView, Session,
};
use crate::settings::{Settings, SettingsView};

verus! {

/// The replies of a list, as the contracts see them.
pub open spec fn replies_view(replies: Seq<Reply>) -> Seq<ReplyView> {
    replies.map_values(|reply: Reply| reply@)
}

/// The phase that a run is in after the driver has said `replies`, one
/// after another, to a run that was in `phase`.
pub open spec fn run(phase: PhaseView, replies: Seq<ReplyView>) -> PhaseView
    decreases replies.len(),
{
    if replies.len() == 0 {
        phase
    } else {
        next_phase(run(phase, replies.drop_last()), replies.last())
    }
}

/// All that is printed while the driver says `replies` to a run that was
/// in `phase` and executes `sql`.
pub open spec fn output(sql: Seq<char>, phase: PhaseView, replies: Seq<ReplyView>) -> Seq<char>
    decreases replies.len(),
{
    if replies.len() == 0 {
        Seq::empty()
    } else {
        output(sql, phase, replies.drop_last()) + printed(
            sql,
            run(phase, replies.drop_last()),
            replies.last(),
        )
    }
}

/// Runs a session from its start over a list of replies, and returns it
/// with all that was printed on the way. A reply that answers nothing is
/// passed over.
pub fn replay(settings: Settings, replies: Vec<Reply>) -> (ended: (Session, String))
    ensures
        ended.0@.settings == settings@,
        ended.0@.phase == run(PhaseView::Environment, replies_view(replies@)),
        ended.1@ == output(settings@.sql, PhaseView::Environment, replies_view(replies@)),
{
    let ghost sql = settings@.sql;
    let ghost all = replies_view(replies@);
    let mut session = Session::new(settings);
    let mut text = String::new();
    for reply in it: replies
        invariant
            it.seq() == replies@,
            all == replies_view(replies@),
            sql == settings@.sql,
            session@.settings == settings@,
            session@.phase == run(PhaseView::Environment, all.take(it.index() as int)),
            text@ == output(sql, PhaseView::Environment, all.take(it.index() as int)),
    {
        proof {
            let i = it.index() as int;
            assert(reply == replies@[i]);
            assert(all.take(i + 1).drop_last() =~= all.take(i));
            assert(all.take(i + 1).last() == reply@);
        }
        match session.advance(reply) {
            Some(words) => text.append(words.as_str()),
            None => {},
        }
    }
    proof {
        assert(all.take(all.len() as int) =~= all);
    }
    (session, text)
}

/// The request that is due after the first `after` of `replies` have been
/// said to a run from its start.
pub open spec fn asked(settings: SettingsView, replies: Seq<ReplyView>, after: int) -> RequestView {
    request_for(settings, run(PhaseView::Environment, replies.take(after)))
}

/// What the driver says while it serves one row: that there is a row, then
/// the value of each of its cells, first column first.
pub open spec fn row_replies(row: Seq<Option<Seq<char>>>) -> Seq<ReplyView> {
    seq![ReplyView::Row] + row.map_values(|cell: Option<Seq<char>>| ReplyView::Value(cell))
}

/// What the driver says while it serves `rows`, first row first.
pub open spec fn rows_replies(rows: Seq<Seq<Option<Seq<char>>>>) -> Seq<ReplyView>
    decreases rows.len(),
{
    if rows.len() == 0 {
        Seq::empty()
    } else {
        rows_replies(rows.drop_last()) + row_replies(rows.last())
    }
}

/// The replies up to the executed statement, when every call succeeds:
/// environment, connection, statement.
pub open spec fn opening() -> Seq<ReplyView> {
    seq![ReplyView::Done, ReplyView::Done, ReplyView::Done]
}

/// The replies of a driver for which every call succeeds and whose
/// statement returns no result set.
pub open spec fn served_no_data() -> Seq<ReplyView> {
    opening().push(ReplyView::NoData)
}

/// The replies of a driver for which every call succeeds and whose
/// statement returns `rows`, after it has reported `reported` columns.
pub open spec fn served_rows(reported: i16, rows: Seq<Seq<Option<Seq<char>>>>) -> Seq<ReplyView> {
    opening().push(ReplyView::Data).push(ReplyView::Columns(reported)) + rows_replies(rows)
        + seq![ReplyView::EndOfRows]
}

/// One more reply takes the run one step further and adds what is printed
/// for it.
pub proof fn lemma_run_push(
    sql: Seq<char>,
    phase: PhaseView,
    replies: Seq<ReplyView>,
    reply: ReplyView,
)
    ensures
        run(phase, replies.push(reply)) == next_phase(run(phase, replies), reply),
        output(sql, phase, replies.push(reply)) == output(sql, phase, replies) + printed(
            sql,
            run(phase, replies),
            reply,
        ),
{
    assert(replies.push(reply).drop_last() =~= replies);
    assert(replies.push(reply).last() == reply);
}

/// A run over two lists of replies put together is the run over the first,
/// carried on over the second; what it prints is what the two print.
pub proof fn lemma_run_concat(
    sql: Seq<char>,
    phase: PhaseView,
    front: Seq<ReplyView>,
    back: Seq<ReplyView>,
)
    ensures
        run(phase, front + back) == run(run(phase, front), back),
        output(sql, phase, front + back) == output(sql, phase, front) + output(
            sql,
            run(phase, front),
            back,
        ),
    decreases back.len(),
{
    if back.len() == 0 {
        assert(front + back =~= front);
        assert(output(sql, phase, front) + Seq::<char>::empty() =~= output(sql, phase, front));
    } else {
        lemma_run_concat(sql, phase, front, back.drop_last());
        assert((front + back).drop_last() =~= front + back.drop_last());
        assert((front + back).last() == back.last());
        assert(output(sql, phase, front + back) =~= output(sql, phase, front) + output(
            sql,
            run(phase, front),
            back,
        ));
    }
}

/// A run that is over stays as it ended, whatever is said to it, and
/// prints nothing more.
pub proof fn lemma_finished_run_stays(sql: Seq<char>, phase: PhaseView, replies: Seq<ReplyView>)
    requires
        pending_stage(phase) is None,
    ensures
        run(phase, replies) == phase,
        output(sql, phase, replies) == Seq::<char>::empty(),
    decreases replies.len(),
{
    if replies.len() > 0 {
        lemma_finished_run_stays(sql, phase, replies.drop_last());
        assert(output(sql, phase, replies) =~= Seq::<char>::empty());
    }
}

/// Whatever the driver says, the column that a run reads next is one of the
/// row's columns, counted from 1.
pub proof fn lemma_run_keeps_wf(phase: PhaseView, replies: Seq<ReplyView>)
    requires
        phase_wf(phase),
    ensures
        phase_wf(run(phase, replies)),
    decreases replies.len(),
{
    if replies.len() > 0 {
        lemma_run_keeps_wf(phase, replies.drop_last());
        lemma_step_keeps_wf(run(phase, replies.drop_last()), replies.last());
    }
}

/// Within a row the columns are read in ascending order, from 1 to the
/// count: once the driver has announced a row of `columns` cells and given
/// the first `read` of them, the run has printed exactly those, in order,
/// and asks for column `read + 1`, or for the next row when none is left.
pub proof fn lemma_columns_are_read_in_order(
    sql: Seq<char>,
    columns: u16,
    row: Seq<Option<Seq<char>>>,
    read: int,
)
    requires
        row.len() == columns,
        0 <= read <= columns,
    ensures
        ({
            let said = row_replies(row).take(read + 1);
            let start = PhaseView::Fetch { columns };
            &&& run(start, said) == if read < columns {
                PhaseView::Read { columns, column: (read + 1) as u16 }
            } else {
                start
            }
            &&& output(sql, start, said) == cells_text(row.take(read))
        }),
    decreases read,
{
    let start = PhaseView::Fetch { columns };
    let all = row_replies(row);
    let said = all.take(read + 1);
    if read == 0 {
        assert(said =~= Seq::<ReplyView>::empty().push(ReplyView::Row));
        lemma_run_push(sql, start, Seq::empty(), ReplyView::Row);
        assert(row.take(0) =~= Seq::empty());
        assert(output(sql, start, said) =~= Seq::<char>::empty());
    } else {
        lemma_columns_are_read_in_order(sql, columns, row, read - 1);
        let before = all.take(read);
        let value = ReplyView::Value(row[read - 1]);
        assert(all[read] == value);
        assert(said =~= before.push(value));
        lemma_run_push(sql, start, before, value);
        assert(row.take(read) =~= row.take(read - 1).push(row[read - 1]));
        lemma_cells_text_push(row.take(read - 1), row[read - 1]);
    }
}

/// A served row is printed cell by cell, and leaves the run waiting for
/// the next row.
pub proof fn lemma_row_is_printed(sql: Seq<char>, columns: u16, row: Seq<Option<Seq<char>>>)
    requires
        row.len() == columns,
    ensures
        run(PhaseView::Fetch { columns }, row_replies(row)) == (PhaseView::Fetch { columns }),
        output(sql, PhaseView::Fetch { columns }, row_replies(row)) == cells_text(row),
{
    lemma_columns_are_read_in_order(sql, columns, row, columns as int);
    assert(row_replies(row).take(columns + 1) =~= row_replies(row));
    assert(row.take(columns as int) =~= row);
}

/// Served rows are printed one after another, each cell by cell, and leave
/// the run waiting for the next row.
pub proof fn lemma_rows_are_printed(
    sql: Seq<char>,
    columns: u16,
    rows: Seq<Seq<Option<Seq<char>>>>,
)
    requires
        forall|r: int| 0 <= r < rows.len() ==> (#[trigger] rows[r]).len() == columns,
    ensures
        run(PhaseView::Fetch { columns }, rows_replies(rows)) == (PhaseView::Fetch { columns }),
        output(sql, PhaseView::Fetch { columns }, rows_replies(rows)) == rows_text(rows),
    decreases rows.len(),
{
    let start = PhaseView::Fetch { columns };
    if rows.len() == 0 {
        assert(rows.flatten() =~= Seq::empty());
    } else {
        let front = rows.drop_last();
        let row = rows.last();
        lemma_rows_are_printed(sql, columns, front);
        lemma_row_is_printed(sql, columns, row);
        lemma_run_concat(sql, start, rows_replies(front), row_replies(row));
        assert(rows =~= front.push(row));
        lemma_rows_text_push(front, row);
    }
}

/// After three calls that succeeded, the run waits for the statement to be
/// executed and has printed nothing.
pub proof fn lemma_opening_reaches_execution(sql: Seq<char>)
    ensures
        run(PhaseView::Environment, opening()) == PhaseView::Execution,
        output(sql, PhaseView::Environment, opening()) == Seq::<char>::empty(),
{
    let start = PhaseView::Environment;
    let none = Seq::<ReplyView>::empty();
    let one = none.push(ReplyView::Done);
    let two = one.push(ReplyView::Done);
    lemma_run_push(sql, start, none, ReplyView::Done);
    lemma_run_push(sql, start, one, ReplyView::Done);
    lemma_run_push(sql, start, two, ReplyView::Done);
    assert(opening() =~= two.push(ReplyView::Done));
    assert(output(sql, start, opening()) =~= Seq::<char>::empty());
}

/// A statement that returns no result set: the run ends well, and all it
/// prints is the one line that says so.
pub proof fn lemma_no_data_prints_notice(sql: Seq<char>)
    ensures
        run(PhaseView::Environment, served_no_data()) == PhaseView::Succeeded,
        output(sql, PhaseView::Environment, served_no_data()) == no_data_notice(sql),
{
    lemma_opening_reaches_execution(sql);
    lemma_run_push(sql, PhaseView::Environment, opening(), ReplyView::NoData);
    assert(Seq::<char>::empty() + no_data_notice(sql) =~= no_data_notice(sql));
}

/// A statement that returns a result set of `rows`, each as long as the
/// reported column count asks: the run ends well, and what it prints is the
/// text of the rows, each cell once, row after row and column after column.
/// With no row at all, it prints nothing.
pub proof fn lemma_result_is_printed(
    sql: Seq<char>,
    reported: i16,
    rows: Seq<Seq<Option<Seq<char>>>>,
)
    requires
        forall|r: int| 0 <= r < rows.len() ==> (#[trigger] rows[r]).len() == width(reported),
    ensures
        run(PhaseView::Environment, served_rows(reported, rows)) == PhaseView::Succeeded,
        output(sql, PhaseView::Environment, served_rows(reported, rows)) == rows_text(rows),
        rows.len() == 0 ==> output(sql, PhaseView::Environment, served_rows(reported, rows))
            == Seq::<char>::empty(),
{
    let start = PhaseView::Environment;
    let columns = width(reported);
    let fetch = PhaseView::Fetch { columns };
    let executed = opening().push(ReplyView::Data);
    let counted = executed.push(ReplyView::Columns(reported));
    lemma_opening_reaches_execution(sql);
    lemma_run_push(sql, start, opening(), ReplyView::Data);
    lemma_run_push(sql, start, executed, ReplyView::Columns(reported));
    assert(run(start, counted) == fetch);
    assert(output(sql, start, counted) =~= Seq::<char>::empty());
    lemma_rows_are_printed(sql, columns, rows);
    lemma_run_concat(sql, start, counted, rows_replies(rows));
    let fetched = counted + rows_replies(rows);
    assert(run(start, fetched) == fetch);
    assert(output(sql, start, fetched) =~= rows_text(rows));
    assert(served_rows(reported, rows) =~= fetched.push(ReplyView::EndOfRows));
    lemma_run_push(sql, start, fetched, ReplyView::EndOfRows);
    assert(output(sql, start, served_rows(reported, rows)) =~= rows_text(rows));
    if rows.len() == 0 {
        assert(rows.flatten() =~= Seq::empty());
    }
}

/// The first failed call ends the run. Let the driver say `front`, after
/// which the run still waits for a call; let that call fail; let anything
/// follow. Then the run ends with that failure, at the stage of that call;
/// nothing is printed after it; every request after it is `Stop`; and the
/// process is to end with status 1.
pub proof fn lemma_failure_ends_run(
    settings: SettingsView,
    front: Seq<ReplyView>,
    detail: Option<Seq<char>>,
    rest: Seq<ReplyView>,
)
    requires
        pending_stage(run(PhaseView::Environment, front)) is Some,
    ensures
        ({
            let start = PhaseView::Environment;
            let replies = front.push(ReplyView::Failed(detail)) + rest;
            let failure = FailureView { stage: pending_stage(run(start, front))->0, detail };
            &&& run(start, replies) == PhaseView::Failed(failure)
            &&& output(settings.sql, start, replies) == output(settings.sql, start, front)
            &&& exit_status(run(start, replies)) == Some(1u8)
            &&& forall|after: int|
                front.len() < after <= replies.len() ==> #[trigger] asked(settings, replies, after)
                    == RequestView::Stop
            &&& forall|after: int|
                0 <= after <= front.len() ==> #[trigger] asked(settings, replies, after) == asked(
                    settings,
                    front,
                    after,
                )
        }),
{
    let sql = settings.sql;
    let start = PhaseView::Environment;
    let failed = front.push(ReplyView::Failed(detail));
    let replies = failed + rest;
    let failure = FailureView { stage: pending_stage(run(start, front))->0, detail };
    let ended = PhaseView::Failed(failure);
    lemma_run_push(sql, start, front, ReplyView::Failed(detail));
    assert(run(start, failed) == ended);
    assert(output(sql, start, failed) =~= output(sql, start, front));
    lemma_finished_run_stays(sql, ended, rest);
    lemma_run_concat(sql, start, failed, rest);
    assert(output(sql, start, replies) =~= output(sql, start, front));
    assert forall|after: int| front.len() < after <= replies.len() implies #[trigger] asked(
        settings,
        replies,
        after,
    ) == RequestView::Stop by {
        let more = rest.take(after - failed.len());
        assert(replies.take(after) =~= failed + more);
        lemma_finished_run_stays(sql, ended, more);
        lemma_run_concat(sql, start, failed, more);
    }
    assert forall|after: int| 0 <= after <= front.len() implies #[trigger] asked(
        settings,
        replies,
        after,
    ) == asked(settings, front, after) by {
        assert(replies.take(after) =~= front.take(after));
    }
}

/// If the environment cannot be created, nothing else is tried: the only
/// request of the run is the one to create it, so no connection is
/// attempted and no statement executed. The run ends with a failure at that
/// stage and the process with status 1.
pub proof fn lemma_failed_environment_ends_run(
    settings: SettingsView,
    detail: Option<Seq<char>>,
    rest: Seq<ReplyView>,
)
    ensures
        ({
            let start = PhaseView::Environment;
            let replies = seq![ReplyView::Failed(detail)] + rest;
            let failure = FailureView { stage: Stage::Environment, detail };
            &&& run(start, replies) == PhaseView::Failed(failure)
            &&& output(settings.sql, start, replies) == Seq::<char>::empty()
            &&& exit_status(run(start, replies)) == Some(1u8)
            &&& asked(settings, replies, 0) == RequestView::CreateEnvironment
            &&& forall|after: int|
                0 < after <= replies.len() ==> #[trigger] asked(settings, replies, after)
                    == RequestView::Stop
            &&& forall|after: int|
                0 <= after <= replies.len() ==> !(#[trigger] asked(settings, replies, after)
                    is Connect) && !(asked(settings, replies, after) is Execute)
        }),
{
    let front = Seq::<ReplyView>::empty();
    let replies = seq![ReplyView::Failed(detail)] + rest;
    lemma_failure_ends_run(settings, front, detail, rest);
    assert(front.push(ReplyView::Failed(detail)) + rest =~= replies);
    assert(replies.take(0) =~= front);
    assert forall|after: int| 0 <= after <= replies.len() implies !(#[trigger] asked(
        settings,
        replies,
        after,
    ) is Connect) && !(asked(settings, replies, after) is Execute) by {
        if after == 0 {
        } else {
            assert(asked(settings, replies, after) == RequestView::Stop);
        }
    }
}

/// If the connection cannot be opened, no statement is executed: the run
/// asks for the environment, then for the connection, and then for nothing
/// more. It ends with a failure at that stage, whose report holds the word
/// `connection`, and the process with status 1.
pub proof fn lemma_failed_connection_ends_run(
    settings: SettingsView,
    detail: Option<Seq<char>>,
    rest: Seq<ReplyView>,
)
    ensures
        ({
            let start = PhaseView::Environment;
            let replies = seq![ReplyView::Done, ReplyView::Failed(detail)] + rest;
            let failure = FailureView { stage: Stage::Connection, detail };
            &&& run(start, replies) == PhaseView::Failed(failure)
            &&& output(settings.sql, start, replies) == Seq::<char>::empty()
            &&& exit_status(run(start, replies)) == Some(1u8)
            &&& occurs_in("connection"@, failure_message(failure))
            &&& asked(settings, replies, 0) == RequestView::CreateEnvironment
            &&& asked(settings, replies, 1) == request_for(settings, PhaseView::Connection)
            &&& forall|after: int|
                1 < after <= replies.len() ==> #[trigger] asked(settings, replies, after)
                    == RequestView::Stop
            &&& forall|after: int|
                0 <= after <= replies.len() ==> !(#[trigger] asked(settings, replies, after)
                    is Execute)
        }),
{
    let sql = settings.sql;
    let start = PhaseView::Environment;
    let front = Seq::<ReplyView>::empty().push(ReplyView::Done);
    let replies = seq![ReplyView::Done, ReplyView::Failed(detail)] + rest;
    lemma_run_push(sql, start, Seq::empty(), ReplyView::Done);
    assert(run(start, front) == PhaseView::Connection);
    assert(output(sql, start, front) =~= Seq::<char>::empty());
    lemma_failure_ends_run(settings, front, detail, rest);
    assert(front.push(ReplyView::Failed(detail)) + rest =~= replies);
    lemma_connection_failure_says_connection(detail);
    assert(front.take(0) =~= Seq::<ReplyView>::empty());
    assert(front.take(1) =~= front);
    assert(asked(settings, replies, 0) == asked(settings, front, 0));
    assert(asked(settings, replies, 1) == asked(settings, front, 1));
    assert forall|after: int| 0 <= after <= replies.len() implies !(#[trigger] asked(
        settings,
        replies,
        after,
    ) is Execute) by {
        if after == 0 {
        } else if after == 1 {
        } else {
            assert(asked(settings, replies, after) == RequestView::Stop);
        }
    }
}

/// A run sends no statement of its own making: whenever it asks for a
/// statement to be executed, the text is the one from its settings.
pub proof fn lemma_only_the_given_statement_is_executed(
    settings: SettingsView,
    replies: Seq<ReplyView>,
    after: int,
)
    ensures
        asked(settings, replies, after) matches RequestView::Execute { sql } ==> sql
            == settings.sql,
{
}

/// A run depends on nothing but its settings and what the driver says.
/// Two runs whose settings read the same, and to which the driver says the
/// same, end in the same phase, print the same text and make the same
/// requests on the way.
pub proof fn lemma_rerun_is_identical(
    first: Settings,
    second: Settings,
    first_replies: Seq<Reply>,
    second_replies: Seq<Reply>,
)
    requires
        first@ == second@,
        replies_view(first_replies) == replies_view(second_replies),
    ensures
        run(PhaseView::Environment, replies_view(first_replies)) == run(
            PhaseView::Environment,
            replies_view(second_replies),
        ),
        output(first@.sql, PhaseView::Environment, replies_view(first_replies)) == output(
            second@.sql,
            PhaseView::Environment,
            replies_view(second_replies),
        ),
        forall|after: int|
            asked(first@, replies_view(first_replies), after) == asked(
                second@,
                replies_view(second_replies),
                after,
            ),
{
}

/// A run never goes back to an earlier call: after any part of the replies
/// it stands no further along than after all of them.
pub proof fn lemma_run_never_goes_back(phase: PhaseView, replies: Seq<ReplyView>, after: int)
    requires
        0 <= after <= replies.len(),
    ensures
        progress(run(phase, replies.take(after))) <= progress(run(phase, replies)),
    decreases replies.len(),
{
    if after == replies.len() {
        assert(replies.take(after) =~= replies);
    } else {
        let front = replies.drop_last();
        lemma_run_never_goes_back(phase, front, after);
        assert(front.take(after) =~= replies.take(after));
        lemma_step_never_goes_back(run(phase, front), replies.last());
    }
}

/// A run that ended because the environment could not be created has
/// attempted no connection and executed no statement, whatever the driver
/// said and in whatever order: on its whole way it asked for nothing but
/// the environment, and then for nothing more.
pub proof fn lemma_environment_failure_means_no_connection(
    settings: SettingsView,
    replies: Seq<ReplyView>,
)
    requires
        run(PhaseView::Environment, replies) matches PhaseView::Failed(failure) && failure.stage
            == Stage::Environment,
    ensures
        exit_status(run(PhaseView::Environment, replies)) == Some(1u8),
        forall|after: int|
            0 <= after <= replies.len() ==> {
                let request = #[trigger] asked(settings, replies, after);
                request == RequestView::CreateEnvironment || request == RequestView::Stop
            },
{
    assert forall|after: int| 0 <= after <= replies.len() implies {
        let request = #[trigger] asked(settings, replies, after);
        request == RequestView::CreateEnvironment || request == RequestView::Stop
    } by {
        lemma_run_never_goes_back(PhaseView::Environment, replies, after);
    }
}

/// A run that ended because the connection could not be opened has
/// executed no statement, whatever the driver said and in whatever order:
/// on its whole way it asked for the environment and for the connection
/// only. Its report holds the word `connection`, and the process is to end
/// with status 1.
pub proof fn lemma_connection_failure_means_nothing_executed(
    settings: SettingsView,
    replies: Seq<ReplyView>,
)
    requires
        run(PhaseView::Environment, replies) matches PhaseView::Failed(failure) && failure.stage
            == Stage::Connection,
    ensures
        exit_status(run(PhaseView::Environment, replies)) == Some(1u8),
        run(PhaseView::Environment, replies) matches PhaseView::Failed(failure) && occurs_in(
            "connection"@,
            failure_message(failure),
        ),
        forall|after: int|
            0 <= after <= replies.len() ==> {
                let request = #[trigger] asked(settings, replies, after);
                &&& !(request is Execute)
                &&& !(request is AllocateStatement)
                &&& !(request is CountColumns)
                &&& !(request is FetchRow)
                &&& !(request is ReadColumn)
            },
{
    let ended = run(PhaseView::Environment, replies);
    lemma_connection_failure_says_connection(ended->Failed_0.detail);
    assert forall|after: int| 0 <= after <= replies.len() implies {
        let request = #[trigger] asked(settings, replies, after);
        &&& !(request is Execute)
        &&& !(request is AllocateStatement)
        &&& !(request is CountColumns)
        &&& !(request is FetchRow)
        &&& !(request is ReadColumn)
    } by {
        lemma_run_never_goes_back(PhaseView::Environment, replies, after);
    }
}

} // verus!
