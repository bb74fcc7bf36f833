use calendar_core::input::{Command, CommandParser, InputHandler, InputResult};
use calendar_core::migrations::{Migrations, INITIAL_SCHEMA};
use calendar_core::validation::Validator;

#[test]
fn commands_are_read_by_their_first_word() {
    let parser = CommandParser;
    assert_eq!(parser.parse_command("/help"), Some(Command::Help));
    assert_eq!(parser.parse_command("/today"), Some(Command::ShowToday));
    assert_eq!(parser.parse_command("/settings"), Some(Command::Settings));
    assert_eq!(parser.parse_command("/clear"), Some(Command::Clear));
    assert_eq!(parser.parse_command("/exit"), Some(Command::Exit));
    assert_eq!(parser.parse_command("/quit now"), Some(Command::Exit));
    assert_eq!(
        parser.parse_command("/search team meeting"),
        Some(Command::Search("team meeting".to_string()))
    );
    assert_eq!(parser.parse_command("/search"), Some(Command::Search(String::new())));
    assert_eq!(parser.parse_command("/export  ics"), Some(Command::Export(" ics".to_string())));
    assert_eq!(parser.parse_command("/unknown"), None);
    assert_eq!(parser.parse_command(" /help"), None);
    assert_eq!(parser.parse_command(""), None);
    assert_eq!(parser.parse_command("/helpme"), None);
}

#[test]
fn json_and_commands_are_told_apart() {
    let parser = CommandParser;
    assert!(parser.is_json("  {\"a\": 1}  "));
    assert!(parser.is_json("{}"));
    assert!(!parser.is_json("{"));
    assert!(!parser.is_json("[1]"));
    assert!(!parser.is_json("   "));
    assert!(parser.is_command("/help"));
    assert!(!parser.is_command(" /help"));
    assert!(!parser.is_command(""));
}

#[test]
fn input_is_handled_by_its_kind() {
    let mut handler = InputHandler::new();
    assert_eq!(handler.handle_input("   "), InputResult::Clear);
    assert_eq!(handler.handle_input(" /help "), InputResult::ShowHelp);
    assert_eq!(
        handler.handle_input("/today"),
        InputResult::Info("Showing today's events".to_string())
    );
    assert_eq!(handler.handle_input("/search lunch"), InputResult::Search("lunch".to_string()));
    assert_eq!(handler.handle_input("/settings"), InputResult::OpenSettings);
    assert_eq!(handler.handle_input("/clear"), InputResult::Clear);
    assert_eq!(handler.handle_input("/export csv"), InputResult::Export("csv".to_string()));
    assert_eq!(handler.handle_input("/exit"), InputResult::Exit);
    assert_eq!(
        handler.handle_input(" {\"event\": \"x\"} "),
        InputResult::Info("JSON input detected".to_string())
    );
    assert_eq!(
        handler.handle_input("  Lunch tomorrow  "),
        InputResult::Processing("Lunch tomorrow".to_string())
    );
    assert_eq!(handler.execute_command(Command::Help), InputResult::ShowHelp);
}

#[test]
fn an_empty_history_has_nothing_to_step_to() {
    let mut handler = InputHandler::new();
    assert_eq!(handler.history_up(), None);
    assert_eq!(handler.history_down(), None);
    handler.handle_input("Lunch tomorrow");
    assert_eq!(handler.history_up(), None);
}

#[test]
fn times_are_validated() {
    assert_eq!(Validator::validate_time("14:00"), Ok(()));
    assert_eq!(Validator::validate_time("9:05"), Ok(()));
    assert_eq!(Validator::validate_time("23:59"), Ok(()));
    assert_eq!(Validator::validate_time("00:00"), Ok(()));
    assert_eq!(
        Validator::validate_time("24:00"),
        Err("Invalid time format: 24:00".to_string())
    );
    assert!(Validator::validate_time("12:60").is_err());
    assert!(Validator::validate_time("12:5").is_err());
    assert!(Validator::validate_time(" 12:00").is_err());
    assert!(Validator::validate_time("").is_err());
}

#[test]
fn dates_are_validated_by_shape() {
    assert_eq!(Validator::validate_date("2026-01-20"), Ok(()));
    assert_eq!(Validator::validate_date("2026-99-99"), Ok(()));
    assert_eq!(
        Validator::validate_date("2026-1-20"),
        Err("Invalid date format: 2026-1-20".to_string())
    );
    assert!(Validator::validate_date("2026-01-20 ").is_err());
    assert!(Validator::validate_date("20260120").is_err());
}

#[test]
fn colours_are_validated() {
    assert_eq!(Validator::validate_hex_color("#3B82F6"), Ok(()));
    assert_eq!(Validator::validate_hex_color("#zzzzzz"), Ok(()));
    assert_eq!(
        Validator::validate_hex_color("3B82F6#"),
        Err("Invalid hex color: 3B82F6#".to_string())
    );
    assert!(Validator::validate_hex_color("#FFF").is_err());
    assert!(Validator::validate_hex_color("").is_err());
    assert!(Validator::validate_hex_color("#3B82F6F").is_err());
    assert!(Validator::validate_hex_color("#\u{e9}abcd").is_ok());
}

#[test]
fn input_is_sanitized_by_trimming() {
    assert_eq!(Validator::sanitize_input("  hello world \n"), "hello world");
    assert_eq!(Validator::sanitize_input("\t"), "");
    assert_eq!(Validator::verdict(true, "bad: ", "x"), Ok(()));
    assert_eq!(Validator::verdict(false, "bad: ", "x"), Err("bad: x".to_string()));
}

#[test]
fn the_schema_has_the_events_table_and_its_indexes() {
    let migrations = Migrations::get_migrations();
    assert_eq!(migrations.len(), 1);
    assert_eq!(migrations[0], INITIAL_SCHEMA);
    for column in [
        "id TEXT PRIMARY KEY",
        "created_at TEXT NOT NULL",
        "date TEXT NOT NULL",
        "priority TEXT NOT NULL DEFAULT 'medium'",
        "category TEXT NOT NULL DEFAULT 'other'",
        "status TEXT NOT NULL DEFAULT 'confirmed'",
        "visibility TEXT NOT NULL DEFAULT 'private'",
        "recurring TEXT",
        "reminder TEXT",
        "location TEXT",
        "metadata TEXT NOT NULL DEFAULT '{}'",
        "ON events(date)",
        "ON events(category)",
        "ON events(priority)",
        "CREATE TABLE IF NOT EXISTS schema_migrations",
    ] {
        assert!(migrations[0].contains(column));
    }
    let conn = rusqlite::Connection::open_in_memory().unwrap();
    conn.execute_batch(migrations[0]).unwrap();
    conn.execute_batch(migrations[0]).unwrap();
    let pragmas = Migrations::get_pragmas();
    assert_eq!(pragmas.len(), 3);
    assert_eq!((pragmas[0].name, pragmas[0].value), ("journal_mode", "WAL"));
    assert_eq!((pragmas[1].name, pragmas[1].value), ("synchronous", "NORMAL"));
    assert_eq!((pragmas[2].name, pragmas[2].value), ("cache_size", "-64000"));
}
