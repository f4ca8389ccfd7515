use tinydb::insert::ParseError;
use tinydb::record::to_fixlen_array;
use tinydb::shell::{Response, Shell};

fn ids(sh: &Shell) -> Vec<u8> {
    sh.table().scan().iter().map(|r| r.id).collect()
}

#[test]
fn inserted_record_is_selected_back() {
    let mut sh = Shell::new();
    assert!(matches!(sh.execute("insert 12 alice alice@example.com"), Response::Inserted));
    assert!(matches!(sh.execute("select"), Response::Select));
    let rows = sh.table().scan();
    assert_eq!(rows.len(), 1);
    assert_eq!(rows[0].id, 12);
    assert_eq!(rows[0].username, to_fixlen_array("alice"));
    assert_eq!(rows[0].email, to_fixlen_array("alice@example.com"));
}

#[test]
fn unrecognized_input_is_named_and_table_kept() {
    let mut sh = Shell::new();
    sh.execute("insert 1 a a@b.c");
    let before = format!("{:?}", sh.table());
    match sh.execute("update 1 a") {
        Response::UnrecognizedInput(m) => assert_eq!(m, "Unrecognized input: update 1 a"),
        other => panic!("unexpected response {:?}", other),
    }
    match sh.execute(".tables") {
        Response::UnrecognizedMeta(m) => assert_eq!(m, "unrecognized meta command: .tables"),
        other => panic!("unexpected response {:?}", other),
    }
    assert_eq!(format!("{:?}", sh.table()), before);
    assert!(sh.is_running());
}

#[test]
fn empty_line_is_unrecognized() {
    let mut sh = Shell::new();
    match sh.execute("") {
        Response::UnrecognizedInput(m) => assert_eq!(m, "Unrecognized input: "),
        other => panic!("unexpected response {:?}", other),
    }
}

#[test]
fn failed_insert_reports_and_keeps_table() {
    let mut sh = Shell::new();
    assert!(matches!(
        sh.execute("insert one bob bob@example.com"),
        Response::InsertFailed(ParseError::NoRegexMatch)
    ));
    assert!(matches!(sh.execute("insert 300 bob b@e.c"), Response::InsertFailed(ParseError::IdOutOfRange)));
    assert!(matches!(
        sh.execute("insert 1 alice alice@example.com extra"),
        Response::InsertFailed(ParseError::NoRegexMatch)
    ));
    assert!(sh.table().scan().is_empty());
}

#[test]
fn select_twice_shows_the_same_table() {
    let mut sh = Shell::new();
    sh.execute("insert 1 a a@b.c");
    sh.execute("insert 2 b b@b.c");
    assert!(matches!(sh.execute("select"), Response::Select));
    let first = format!("{:?}", sh.table());
    assert!(matches!(sh.execute("select"), Response::Select));
    let second = format!("{:?}", sh.table());
    assert_eq!(first, second);
}

#[test]
fn selectx_runs_a_select() {
    let mut sh = Shell::new();
    assert!(matches!(sh.execute("selectx"), Response::Select));
}

#[test]
fn username_of_33_characters_is_rejected() {
    let mut sh = Shell::new();
    sh.execute("insert 1 a a@b.c");
    let line = format!("insert 2 {} u@e.c", "u".repeat(33));
    assert!(matches!(sh.execute(&line), Response::InsertFailed(ParseError::FieldTooLong)));
    assert_eq!(ids(&sh), vec![1]);
}

#[test]
fn records_come_back_in_insertion_order() {
    let mut sh = Shell::new();
    for line in ["insert 3 c c@x.y", "insert 1 a a@x.y", "insert 2 b b@x.y"] {
        assert!(matches!(sh.execute(line), Response::Inserted));
    }
    assert!(matches!(sh.execute("select"), Response::Select));
    assert_eq!(ids(&sh), vec![3, 1, 2]);
}

#[test]
fn duplicate_ids_are_kept() {
    let mut sh = Shell::new();
    sh.execute("insert 4 a a@x.y");
    sh.execute("insert 4 a a@x.y");
    assert_eq!(ids(&sh), vec![4, 4]);
}

#[test]
fn exit_stops_handling_queued_lines() {
    let mut sh = Shell::new();
    sh.execute("insert 1 a a@x.y");
    let mut handled = 0;
    for line in [".exit", "insert 2 b b@x.y", ".tables", "select"] {
        let r = sh.execute(line);
        assert!(matches!(r, Response::Exit), "{}", line);
        handled += 1;
    }
    assert_eq!(handled, 4);
    assert!(!sh.is_running());
    assert_eq!(ids(&sh), vec![1]);
}
