use rowdump::{Failure, Stage};

fn failure(stage: Stage, detail: Option<&str>) -> Failure {
    Failure { stage, detail: detail.map(|words| words.to_string()) }
}

#[test]
fn environment_failure_with_driver_text() {
    assert_eq!(
        failure(Stage::Environment, Some("State: HY000, Native error: -1")).message(),
        "When `create_environment_v3`: State: HY000, Native error: -1"
    );
}

#[test]
fn environment_failure_without_driver_text_uses_placeholder() {
    assert_eq!(
        failure(Stage::Environment, None).message(),
        "When `create_environment_v3`: Empty option (no error struct)"
    );
}

#[test]
fn connection_failure_with_driver_text() {
    assert_eq!(
        failure(Stage::Connection, Some("SQL30082N  Security processing failed")).message(),
        "When instatiating connection: SQL30082N  Security processing failed"
    );
}

#[test]
fn connection_failure_says_connection_whatever_the_detail() {
    assert!(failure(Stage::Connection, None).message().contains("connection"));
    assert!(failure(Stage::Connection, Some("")).message().contains("connection"));
    assert!(failure(Stage::Connection, Some("x")).message().contains("connection"));
}

#[test]
fn statement_stage_messages() {
    assert_eq!(
        failure(Stage::Statement, Some("no handle")).message(),
        "When allocating statement: no handle"
    );
    assert_eq!(
        failure(Stage::Execution, Some("SQL0204N  \"FOO\" is an undefined name.")).message(),
        "When executing statement: SQL0204N  \"FOO\" is an undefined name."
    );
    assert_eq!(
        failure(Stage::ColumnCount, Some("bad cursor")).message(),
        "When counting result columns: bad cursor"
    );
    assert_eq!(failure(Stage::Fetch, Some("link lost")).message(), "When fetching row: link lost");
    assert_eq!(
        failure(Stage::ColumnRead, Some("truncated")).message(),
        "When reading column value: truncated"
    );
}

#[test]
fn every_stage_falls_back_to_the_placeholder() {
    let stages = [
        Stage::Environment,
        Stage::Connection,
        Stage::Statement,
        Stage::Execution,
        Stage::ColumnCount,
        Stage::Fetch,
        Stage::ColumnRead,
    ];
    for stage in stages {
        let message = failure(stage, None).message();
        assert!(message.starts_with("When "));
        assert!(message.ends_with(": Empty option (no error struct)"));
    }
}

#[test]
fn empty_detail_is_kept_empty() {
    assert_eq!(failure(Stage::Fetch, Some("")).message(), "When fetching row: ");
}
