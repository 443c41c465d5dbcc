use rowdump::{Failure, Phase, Reply, Request, Session, Settings, Stage};

fn fresh() -> Session {
    Session::new(Settings::default())
}

fn value(text: &str) -> Reply {
    Reply::Value(Some(text.to_string()))
}

/// Feeds replies that must all be answers, and returns what was printed.
fn feed(session: &mut Session, replies: Vec<Reply>) -> String {
    let mut printed = String::new();
    for reply in replies {
        match session.advance(reply) {
            Some(text) => printed.push_str(&text),
            None => panic!("reply was not an answer"),
        }
    }
    printed
}

fn up_to_execution() -> Session {
    let mut session = fresh();
    feed(&mut session, vec![Reply::Done, Reply::Done, Reply::Done]);
    session
}

fn up_to_fetch(reported: i16) -> Session {
    let mut session = up_to_execution();
    feed(&mut session, vec![Reply::Data, Reply::Columns(reported)]);
    session
}

#[test]
fn new_session_asks_for_the_environment() {
    let session = fresh();
    assert_eq!(*session.phase(), Phase::Environment);
    assert_eq!(session.request(), Request::CreateEnvironment);
    assert!(!session.is_over());
    assert_eq!(session.exit_code(), None);
    assert_eq!(session.failure(), None);
    assert_eq!(*session.settings(), Settings::default());
}

#[test]
fn connect_request_carries_the_settings() {
    let mut session = Session::new(Settings::new("warehouse", "reader", "pw", "select 1"));
    assert_eq!(session.advance(Reply::Done), Some(String::new()));
    assert_eq!(
        session.request(),
        Request::Connect {
            dsn: "warehouse".to_string(),
            user: "reader".to_string(),
            password: "pw".to_string(),
        }
    );
}

#[test]
fn requests_follow_the_straight_line() {
    let mut session = Session::new(Settings::new("d", "u", "p", "select 1"));
    assert_eq!(session.request(), Request::CreateEnvironment);
    session.advance(Reply::Done);
    assert!(matches!(session.request(), Request::Connect { .. }));
    session.advance(Reply::Done);
    assert_eq!(session.request(), Request::AllocateStatement);
    session.advance(Reply::Done);
    assert_eq!(session.request(), Request::Execute { sql: "select 1".to_string() });
    session.advance(Reply::Data);
    assert_eq!(session.request(), Request::CountColumns);
    session.advance(Reply::Columns(2));
    assert_eq!(session.request(), Request::FetchRow);
    session.advance(Reply::EndOfRows);
    assert_eq!(session.request(), Request::Stop);
}

#[test]
fn no_data_prints_one_notice_and_ends_well() {
    let mut session = up_to_execution();
    let printed = session.advance(Reply::NoData);
    assert_eq!(
        printed,
        Some("statement `select * from foo;` resulted in no returned data\n".to_string())
    );
    assert_eq!(*session.phase(), Phase::Succeeded);
    assert!(session.is_over());
    assert_eq!(session.exit_code(), Some(0));
    assert_eq!(session.request(), Request::Stop);
}

#[test]
fn data_with_zero_rows_prints_nothing() {
    let mut session = up_to_fetch(3);
    let printed = feed(&mut session, vec![Reply::EndOfRows]);
    assert_eq!(printed, "");
    assert_eq!(*session.phase(), Phase::Succeeded);
    assert_eq!(session.exit_code(), Some(0));
}

#[test]
fn two_rows_of_two_columns() {
    let mut session = up_to_fetch(2);
    let printed = feed(
        &mut session,
        vec![
            Reply::Row,
            value("a"),
            value("b"),
            Reply::Row,
            value("c"),
            Reply::Value(None),
            Reply::EndOfRows,
        ],
    );
    assert_eq!(printed, " a b c NULL");
    assert_eq!(*session.phase(), Phase::Succeeded);
}

#[test]
fn each_value_is_printed_as_it_is_read() {
    let mut session = up_to_fetch(2);
    assert_eq!(session.advance(Reply::Row), Some(String::new()));
    assert_eq!(session.advance(value("x")), Some(" x".to_string()));
    assert_eq!(session.advance(Reply::Value(None)), Some(" NULL".to_string()));
}

#[test]
fn columns_are_read_in_ascending_order_from_one() {
    let mut session = up_to_fetch(3);
    for _row in 0..2 {
        assert_eq!(session.request(), Request::FetchRow);
        session.advance(Reply::Row);
        for column in 1..=3u16 {
            assert_eq!(session.request(), Request::ReadColumn { column });
            assert_eq!(*session.phase(), Phase::Read { columns: 3, column });
            session.advance(value("v"));
        }
    }
    assert_eq!(session.request(), Request::FetchRow);
    assert_eq!(*session.phase(), Phase::Fetch { columns: 3 });
}

#[test]
fn single_column_rows() {
    let mut session = up_to_fetch(1);
    let printed =
        feed(&mut session, vec![Reply::Row, value("1"), Reply::Row, value("2"), Reply::EndOfRows]);
    assert_eq!(printed, " 1 2");
}

#[test]
fn zero_columns_reads_nothing_in_a_row() {
    let mut session = up_to_fetch(0);
    assert_eq!(*session.phase(), Phase::Fetch { columns: 0 });
    assert_eq!(session.advance(Reply::Row), Some(String::new()));
    assert_eq!(session.request(), Request::FetchRow);
    assert_eq!(session.advance(Reply::Row), Some(String::new()));
    assert_eq!(session.advance(Reply::EndOfRows), Some(String::new()));
    assert_eq!(*session.phase(), Phase::Succeeded);
}

#[test]
fn negative_column_count_reads_nothing() {
    let mut session = up_to_fetch(-4);
    assert_eq!(*session.phase(), Phase::Fetch { columns: 0 });
    session.advance(Reply::Row);
    assert_eq!(session.request(), Request::FetchRow);
}

#[test]
fn largest_column_count_is_kept() {
    let session = up_to_fetch(i16::MAX);
    assert_eq!(*session.phase(), Phase::Fetch { columns: 32767 });
}

#[test]
fn environment_failure_ends_the_run() {
    let mut session = fresh();
    assert_eq!(session.advance(Reply::Failed(None)), Some(String::new()));
    let expected = Failure { stage: Stage::Environment, detail: None };
    assert_eq!(*session.phase(), Phase::Failed(expected.clone()));
    assert_eq!(session.failure(), Some(&expected));
    assert_eq!(session.request(), Request::Stop);
    assert_eq!(session.exit_code(), Some(1));
    assert!(session.is_over());
    assert_eq!(
        session.failure().unwrap().message(),
        "When `create_environment_v3`: Empty option (no error struct)"
    );
}

#[test]
fn connection_failure_ends_the_run_before_any_statement() {
    let mut session = fresh();
    let mut requests = vec![session.request()];
    session.advance(Reply::Done);
    requests.push(session.request());
    session.advance(Reply::Failed(Some("SQL1013N  database not found".to_string())));
    requests.push(session.request());
    assert_eq!(requests.len(), 3);
    assert_eq!(requests[0], Request::CreateEnvironment);
    assert!(matches!(requests[1], Request::Connect { .. }));
    assert_eq!(requests[2], Request::Stop);
    assert!(!requests.iter().any(|request| matches!(request, Request::Execute { .. })));
    assert_eq!(session.exit_code(), Some(1));
    let message = session.failure().unwrap().message();
    assert_eq!(message, "When instatiating connection: SQL1013N  database not found");
    assert!(message.contains("connection"));
}

#[test]
fn failure_at_each_later_stage() {
    let detail = || Reply::Failed(Some("boom".to_string()));
    let at = |stage| Failure { stage, detail: Some("boom".to_string()) };

    let mut session = fresh();
    feed(&mut session, vec![Reply::Done, Reply::Done, detail()]);
    assert_eq!(session.failure(), Some(&at(Stage::Statement)));

    let mut session = up_to_execution();
    feed(&mut session, vec![detail()]);
    assert_eq!(session.failure(), Some(&at(Stage::Execution)));

    let mut session = up_to_execution();
    feed(&mut session, vec![Reply::Data, detail()]);
    assert_eq!(session.failure(), Some(&at(Stage::ColumnCount)));

    let mut session = up_to_fetch(2);
    feed(&mut session, vec![detail()]);
    assert_eq!(session.failure(), Some(&at(Stage::Fetch)));

    let mut session = up_to_fetch(2);
    feed(&mut session, vec![Reply::Row, value("a"), detail()]);
    assert_eq!(session.failure(), Some(&at(Stage::ColumnRead)));
    assert_eq!(session.exit_code(), Some(1));
}

#[test]
fn failure_in_the_middle_keeps_what_was_printed() {
    let mut session = up_to_fetch(2);
    let printed = feed(
        &mut session,
        vec![Reply::Row, value("a"), value("b"), Reply::Row, value("c"), Reply::Failed(None)],
    );
    assert_eq!(printed, " a b c");
    assert_eq!(
        session.failure().unwrap().message(),
        "When reading column value: Empty option (no error struct)"
    );
}

#[test]
fn reply_that_answers_nothing_changes_nothing() {
    let mut session = fresh();
    assert_eq!(session.advance(Reply::Row), None);
    assert_eq!(session.advance(Reply::NoData), None);
    assert_eq!(session.advance(Reply::Data), None);
    assert_eq!(session.advance(Reply::Columns(2)), None);
    assert_eq!(session.advance(Reply::EndOfRows), None);
    assert_eq!(session.advance(value("x")), None);
    assert_eq!(*session.phase(), Phase::Environment);

    let mut session = up_to_execution();
    assert_eq!(session.advance(Reply::Done), None);
    assert_eq!(*session.phase(), Phase::Execution);

    let mut session = up_to_fetch(2);
    assert_eq!(session.advance(value("x")), None);
    assert_eq!(session.advance(Reply::Done), None);
    assert_eq!(*session.phase(), Phase::Fetch { columns: 2 });
    session.advance(Reply::Row);
    assert_eq!(session.advance(Reply::Row), None);
    assert_eq!(session.advance(Reply::EndOfRows), None);
    assert_eq!(*session.phase(), Phase::Read { columns: 2, column: 1 });
}

#[test]
fn finished_run_takes_no_reply() {
    let mut session = up_to_execution();
    session.advance(Reply::NoData);
    for reply in [Reply::Done, Reply::Failed(None), Reply::Row, Reply::NoData] {
        assert_eq!(session.advance(reply), None);
    }
    assert_eq!(*session.phase(), Phase::Succeeded);

    let mut session = fresh();
    session.advance(Reply::Failed(Some("first".to_string())));
    assert_eq!(session.advance(Reply::Failed(Some("second".to_string()))), None);
    assert_eq!(session.advance(Reply::Done), None);
    assert_eq!(
        session.failure(),
        Some(&Failure { stage: Stage::Environment, detail: Some("first".to_string()) })
    );
}

#[test]
fn executed_statement_is_the_configured_one() {
    let mut session = Session::new(Settings::new("d", "u", "p", "select name from staff"));
    let mut executed = Vec::new();
    let replies = vec![
        Reply::Done,
        Reply::Done,
        Reply::Done,
        Reply::Data,
        Reply::Columns(1),
        Reply::Row,
        value("ann"),
        Reply::EndOfRows,
    ];
    for reply in replies {
        if let Request::Execute { sql } = session.request() {
            executed.push(sql);
        }
        session.advance(reply);
    }
    assert_eq!(executed, vec!["select name from staff".to_string()]);
}
