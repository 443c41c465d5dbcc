//! One run, as a state machine.
//!
//! A [`Session`] knows how far the run has come. It names the driver call
//! that is due ([`Session::request`]), takes the driver's answer
//! ([`Session::advance`]) and hands back what is to be printed for it. It
//! makes no call itself.
//!
//! The run is a straight line up to the executed statement: environment,
//! connection, statement, execution. A statement without a result set ends
//! it with a notice. One with a result set has its columns counted, then its
//! rows fetched one by one until none is left; in each row the columns are
//! read in ascending order, from 1 to the count. The first failed call ends
//! the run.

use vstd::prelude::*;
use crate::failure::{Failure, FailureView, Stage};
use crate::protocol::{Reply, ReplyView, Request, RequestView};
use crate::render::{cell_text, no_data_notice, render_cell, render_no_data};
use crate::settings::{Settings, SettingsView};

verus! {

/// How far a run has come: the call it waits for, or how it ended.
#[derive(Clone, Debug, PartialEq, Eq)]
pub enum Phase {
    /// The environment is to be created.
    Environment,
    /// The connection is to be opened.
    Connection,
    /// The statement is to be allocated.
    Statement,
    /// The statement is to be executed.
    Execution,
    /// The columns of the result set are to be counted.
    ColumnCount,
    /// The next row is to be fetched; each row has `columns` columns.
    Fetch { columns: u16 },
    /// The column `column` of the current row is to be read.
    Read { columns: u16, column: u16 },
    /// The run ended well.
    Succeeded,
    /// The run ended with this failure.
    Failed(Failure),
}

/// A phase as the contracts see it.
pub enum PhaseView {
    Environment,
    Connection,
    Statement,
    Execution,
    ColumnCount,
    Fetch { columns: u16 },
    Read { columns: u16, column: u16 },
    Succeeded,
    Failed(FailureView),
}

impl View for Phase {
    type V = PhaseView;

    open spec fn view(&self) -> PhaseView {
        match self {
            Phase::Environment => PhaseView::Environment,
            Phase::Connection => PhaseView::Connection,
            Phase::Statement => PhaseView::Statement,
            Phase::Execution => PhaseView::Execution,
            Phase::ColumnCount => PhaseView::ColumnCount,
            Phase::Fetch { columns } => PhaseView::Fetch { columns: *columns },
            Phase::Read { columns, column } => PhaseView::Read {
                columns: *columns,
                column: *column,
            },
            Phase::Succeeded => PhaseView::Succeeded,
            Phase::Failed(failure) => PhaseView::Failed(failure@),
        }
    }
}

/// The column being read is one of the row's columns, counted from 1.
pub open spec fn phase_wf(phase: PhaseView) -> bool {
    match phase {
        PhaseView::Read { columns, column } => 1 <= column <= columns,
        _ => true,
    }
}

/// The number of columns to read in each row, for a count that the driver
/// reported: the count itself, or none where it is not positive.
pub open spec fn width(reported: i16) -> u16 {
    if reported > 0 {
        reported as u16
    } else {
        0
    }
}

/// The call that a phase waits for; `None` once the run is over.
pub open spec fn pending_stage(phase: PhaseView) -> Option<Stage> {
    match phase {
        PhaseView::Environment => Some(Stage::Environment),
        PhaseView::Connection => Some(Stage::Connection),
        PhaseView::Statement => Some(Stage::Statement),
        PhaseView::Execution => Some(Stage::Execution),
        PhaseView::ColumnCount => Some(Stage::ColumnCount),
        PhaseView::Fetch { .. } => Some(Stage::Fetch),
        PhaseView::Read { .. } => Some(Stage::ColumnRead),
        PhaseView::Succeeded => None,
        PhaseView::Failed(_) => None,
    }
}

/// The request that a phase makes of the caller.
pub open spec fn request_for(settings: SettingsView, phase: PhaseView) -> RequestView {
    match phase {
        PhaseView::Environment => RequestView::CreateEnvironment,
        PhaseView::Connection => RequestView::Connect {
            dsn: settings.dsn,
            user: settings.user,
            password: settings.password,
        },
        PhaseView::Statement => RequestView::AllocateStatement,
        PhaseView::Execution => RequestView::Execute { sql: settings.sql },
        PhaseView::ColumnCount => RequestView::CountColumns,
        PhaseView::Fetch { .. } => RequestView::FetchRow,
        PhaseView::Read { column, .. } => RequestView::ReadColumn { column },
        PhaseView::Succeeded => RequestView::Stop,
        PhaseView::Failed(_) => RequestView::Stop,
    }
}

/// `reply` is a possible answer to the call that `phase` waits for.
pub open spec fn answers(phase: PhaseView, reply: ReplyView) -> bool {
    match reply {
        ReplyView::Failed(_) => pending_stage(phase) is Some,
        ReplyView::Done => phase is Environment || phase is Connection || phase is Statement,
        ReplyView::NoData => phase is Execution,
        ReplyView::Data => phase is Execution,
        ReplyView::Columns(_) => phase is ColumnCount,
        ReplyView::Row => phase is Fetch,
        ReplyView::EndOfRows => phase is Fetch,
        ReplyView::Value(_) => phase is Read,
    }
}

/// The phase that follows `phase` once the driver has said `reply`. A reply
/// that answers nothing leaves the phase as it is.
pub open spec fn next_phase(phase: PhaseView, reply: ReplyView) -> PhaseView {
    if !answers(phase, reply) {
        phase
    } else {
        match reply {
            ReplyView::Failed(detail) => PhaseView::Failed(
                FailureView { stage: pending_stage(phase)->0, detail },
            ),
            ReplyView::Done => match phase {
                PhaseView::Environment => PhaseView::Connection,
                PhaseView::Connection => PhaseView::Statement,
                _ => PhaseView::Execution,
            },
            ReplyView::NoData => PhaseView::Succeeded,
            ReplyView::Data => PhaseView::ColumnCount,
            ReplyView::Columns(reported) => PhaseView::Fetch { columns: width(reported) },
            ReplyView::Row => match phase {
                PhaseView::Fetch { columns } if columns > 0 => PhaseView::Read {
                    columns,
                    column: 1,
                },
                _ => phase,
            },
            ReplyView::EndOfRows => PhaseView::Succeeded,
            ReplyView::Value(_) => match phase {
                PhaseView::Read { columns, column } if column < columns => PhaseView::Read {
                    columns,
                    column: (column + 1) as u16,
                },
                PhaseView::Read { columns, .. } => PhaseView::Fetch { columns },
                _ => phase,
            },
        }
    }
}

/// What is printed when the driver says `reply` in `phase`, for a run that
/// executes `sql`: the notice for a statement without a result set, the
/// text of a cell for a value that was read, and nothing otherwise.
pub open spec fn printed(sql: Seq<char>, phase: PhaseView, reply: ReplyView) -> Seq<char> {
    if !answers(phase, reply) {
        Seq::empty()
    } else {
        match reply {
            ReplyView::NoData => no_data_notice(sql),
            ReplyView::Value(value) => cell_text(value),
            _ => Seq::empty(),
        }
    }
}

/// The status that the process ends with: 0 after a run that ended well, 1
/// after one that failed, none while the run is under way.
pub open spec fn exit_status(phase: PhaseView) -> Option<u8> {
    match phase {
        PhaseView::Succeeded => Some(0u8),
        PhaseView::Failed(_) => Some(1u8),
        _ => None,
    }
}

/// How far along the line of calls a phase stands: the place of the call
/// it waits for, or of the call that failed, or past them all after a run
/// that ended well. Fetching a row and reading its columns share a place,
/// since a run goes back and forth between them.
pub open spec fn progress(phase: PhaseView) -> nat {
    match phase {
        PhaseView::Succeeded => 6,
        PhaseView::Failed(failure) => stage_place(failure.stage),
        _ => stage_place(pending_stage(phase)->0),
    }
}

/// The place of a call in the line of calls.
pub open spec fn stage_place(stage: Stage) -> nat {
    match stage {
        Stage::Environment => 0,
        Stage::Connection => 1,
        Stage::Statement => 2,
        Stage::Execution => 3,
        Stage::ColumnCount => 4,
        Stage::Fetch => 5,
        Stage::ColumnRead => 5,
    }
}

/// No reply takes a run back to an earlier call.
pub proof fn lemma_step_never_goes_back(phase: PhaseView, reply: ReplyView)
    ensures
        progress(phase) <= progress(next_phase(phase, reply)),
{
}

/// A step keeps the column being read within the row.
pub proof fn lemma_step_keeps_wf(phase: PhaseView, reply: ReplyView)
    requires
        phase_wf(phase),
    ensures
        phase_wf(next_phase(phase, reply)),
{
}

/// The state of one run.
#[derive(Debug)]
pub struct Session {
    settings: Settings,
    phase: Phase,
}

/// A session as the contracts see it.
pub struct SessionView {
    pub settings: SettingsView,
    pub phase: PhaseView,
}

impl View for Session {
    type V = SessionView;

    closed spec fn view(&self) -> SessionView {
        SessionView { settings: self.settings@, phase: self.phase@ }
    }
}

/// The step of the machine, on plain values: the phase after `reply` and
/// the text to print for it, or `None` where `reply` answers nothing.
fn step(phase: &Phase, sql: &str, reply: Reply) -> (taken: Option<(Phase, String)>)
    ensures
        taken is Some <==> answers(phase@, reply@),
        taken matches Some((next, text)) ==> next@ == next_phase(phase@, reply@) && text@
            == printed(sql@, phase@, reply@),
{
    match reply {
        Reply::Failed(detail) => {
            let stage = match phase {
                Phase::Environment => Stage::Environment,
                Phase::Connection => Stage::Connection,
                Phase::Statement => Stage::Statement,
                Phase::Execution => Stage::Execution,
                Phase::ColumnCount => Stage::ColumnCount,
                Phase::Fetch { .. } => Stage::Fetch,
                Phase::Read { .. } => Stage::ColumnRead,
                _ => { return None; },
            };
            Some((Phase::Failed(Failure { stage, detail }), String::new()))
        },
        Reply::Done => match phase {
            Phase::Environment => Some((Phase::Connection, String::new())),
            Phase::Connection => Some((Phase::Statement, String::new())),
            Phase::Statement => Some((Phase::Execution, String::new())),
            _ => None,
        },
        Reply::NoData => match phase {
            Phase::Execution => Some((Phase::Succeeded, render_no_data(sql))),
            _ => None,
        },
        Reply::Data => match phase {
            Phase::Execution => Some((Phase::ColumnCount, String::new())),
            _ => None,
        },
        Reply::Columns(reported) => match phase {
            Phase::ColumnCount => {
                let columns: u16 = if reported > 0 {
                    reported as u16
                } else {
                    0
                };
                Some((Phase::Fetch { columns }, String::new()))
            },
            _ => None,
        },
        Reply::Row => match phase {
            Phase::Fetch { columns } => {
                if *columns > 0 {
                    Some((Phase::Read { columns: *columns, column: 1 }, String::new()))
                } else {
                    Some((Phase::Fetch { columns: *columns }, String::new()))
                }
            },
            _ => None,
        },
        Reply::EndOfRows => match phase {
            Phase::Fetch { .. } => Some((Phase::Succeeded, String::new())),
            _ => None,
        },
        Reply::Value(value) => match phase {
            Phase::Read { columns, column } => {
                let text = render_cell(&value);
                if *column < *columns {
                    Some((Phase::Read { columns: *columns, column: *column + 1 }, text))
                } else {
                    Some((Phase::Fetch { columns: *columns }, text))
                }
            },
            _ => None,
        },
    }
}

impl Session {
    #[verifier::type_invariant]
    spec fn well_formed(self) -> bool {
        phase_wf(self.phase@)
    }

    /// A run that has made no call yet.
    pub fn new(settings: Settings) -> (session: Session)
        ensures
            session@ == (SessionView { settings: settings@, phase: PhaseView::Environment }),
    {
        Session { settings, phase: Phase::Environment }
    }

    /// The call that is due, with its arguments; `Stop` once the run is
    /// over. A column to read is one of the row's, counted from 1.
    pub fn request(&self) -> (request: Request)
        ensures
            request@ == request_for(self@.settings, self@.phase),
            phase_wf(self@.phase),
    {
        proof {
            use_type_invariant(self);
        }
        match &self.phase {
            Phase::Environment => Request::CreateEnvironment,
            Phase::Connection => Request::Connect {
                dsn: self.settings.dsn.clone(),
                user: self.settings.user.clone(),
                password: self.settings.password.clone(),
            },
            Phase::Statement => Request::AllocateStatement,
            Phase::Execution => Request::Execute { sql: self.settings.sql.clone() },
            Phase::ColumnCount => Request::CountColumns,
            Phase::Fetch { .. } => Request::FetchRow,
            Phase::Read { column, .. } => Request::ReadColumn { column: *column },
            Phase::Succeeded => Request::Stop,
            Phase::Failed(_) => Request::Stop,
        }
    }

    /// Takes the driver's answer to the call that was due. Where `reply` is
    /// such an answer, the run moves on and the text to print for it comes
    /// back (empty for most replies). Where it is not, nothing changes and
    /// `None` comes back.
    pub fn advance(&mut self, reply: Reply) -> (text: Option<String>)
        ensures
            final(self)@.settings == old(self)@.settings,
            final(self)@.phase == next_phase(old(self)@.phase, reply@),
            text is Some <==> answers(old(self)@.phase, reply@),
            text matches Some(words) ==> words@ == printed(
                old(self)@.settings.sql,
                old(self)@.phase,
                reply@,
            ),
    {
        proof {
            use_type_invariant(&*self);
            lemma_step_keeps_wf(self.phase@, reply@);
        }
        match step(&self.phase, self.settings.sql.as_str(), reply) {
            Some((next, words)) => {
                self.phase = next;
                Some(words)
            },
            None => None,
        }
    }

    /// How far the run has come.
    pub fn phase(&self) -> (phase: &Phase)
        ensures
            phase@ == self@.phase,
            phase_wf(phase@),
    {
        proof {
            use_type_invariant(self);
        }
        &self.phase
    }

    /// The settings that the run was started with.
    pub fn settings(&self) -> (settings: &Settings)
        ensures
            settings@ == self@.settings,
    {
        &self.settings
    }

    /// Whether the run is over, well or not.
    pub fn is_over(&self) -> (over: bool)
        ensures
            over == (pending_stage(self@.phase) is None),
    {
        match &self.phase {
            Phase::Succeeded => true,
            Phase::Failed(_) => true,
            _ => false,
        }
    }

    /// The failure that ended the run, if one did.
    pub fn failure(&self) -> (failure: Option<&Failure>)
        ensures
            match failure {
                Some(found) => self@.phase == PhaseView::Failed(found@),
                None => !(self@.phase is Failed),
            },
    {
        match &self.phase {
            Phase::Failed(failure) => Some(failure),
            _ => None,
        }
    }

    /// The status for the process to end with: 0 after a run that ended
    /// well, 1 after one that failed, `None` while the run is under way.
    pub fn exit_code(&self) -> (code: Option<u8>)
        ensures
            code == exit_status(self@.phase),
    {
        match &self.phase {
            Phase::Succeeded => Some(0),
            Phase::Failed(_) => Some(1),
            _ => None,
        }
    }
}

} // verus!
