use pocato::{
    added_message, delete_task, deleted_message, join_words, parse_cli, parse_num, title_is_blank,
    updated_message, white_space, CliError, Command, Config, CrudError, Deletion, IconColor, Reply, Task,
    TaskState, TaskStore,
};

fn run(store: &mut TaskStore, command: Command) -> Result<Reply, CliError> {
    parse_cli(store, command)
}

fn arg(s: &str) -> String {
    s.to_string()
}

#[test]
fn test_commands() {
    let nerd = Config { nerd_font: true };
    let mut store = TaskStore::new();

    // add "Clean room"
    match run(&mut store, Command::Add { create_args: vec![arg("Clean room")] }) {
        Ok(Reply::Added(t)) => {
            assert_eq!((t.title.as_str(), t.id), ("Clean room", 1));
            assert_eq!(t.state.get_icon(&nerd), "\u{f096}");
            assert_eq!(
                added_message(&t, &t.state.get_icon(&nerd)),
                "Added new task:\n\u{f096}  \u{1b}[1;34mClean room\u{1b}[0m (#1)"
            );
        }
        other => panic!("unexpected {:?}", other),
    }

    // add ""
    assert_eq!(
        run(&mut store, Command::Add { create_args: vec![arg("")] }),
        Err(CliError::CrudError(CrudError::EmptyTitle))
    );

    // show 1, and show
    for task_id in [Some(arg("1")), None] {
        match run(&mut store, Command::Show { task_id }) {
            Ok(Reply::Shown(v)) => {
                assert_eq!(v.len(), 1);
                assert_eq!((v[0].title.as_str(), v[0].id), ("Clean room", 1));
                assert_eq!(v[0].state.get_icon(&nerd), "\u{f096}");
                assert_eq!(v[0].state.icon_color(), IconColor::White);
            }
            other => panic!("unexpected {:?}", other),
        }
    }

    // show 2
    assert_eq!(
        run(&mut store, Command::Show { task_id: Some(arg("2")) }),
        Err(CliError::CrudError(CrudError::TaskNotFound))
    );

    // show not_valid_number
    let parse_error = "df".parse::<i64>().unwrap_err();
    assert_eq!(
        run(&mut store, Command::Show { task_id: Some(arg("not_valid_number")) }),
        Err(CliError::InvalidArgumentFormat(parse_error))
    );

    let steps = [
        (Command::Start { task_id: arg("1") }, TaskState::Started, "\u{1b}[33m\u{f044}\u{1b}[0m",
            "Started:\n\u{1b}[33m\u{f044}\u{1b}[0m  \u{1b}[1;34mClean room\u{1b}[0m (#1)"),
        (Command::Block { task_id: arg("1") }, TaskState::Blocked, "\u{1b}[34m\u{f256}\u{1b}[0m",
            "Blocked:\n\u{1b}[34m\u{f256}\u{1b}[0m  \u{1b}[1;34mClean room\u{1b}[0m (#1)"),
        (Command::Someday { task_id: arg("1") }, TaskState::Someday, "\u{1b}[33m\u{f006}\u{1b}[0m",
            "Someday:\n\u{1b}[33m\u{f006}\u{1b}[0m  \u{1b}[1;34mClean room\u{1b}[0m (#1)"),
        (Command::Cancel { task_id: arg("1") }, TaskState::Cancelled, "\u{1b}[31m\u{f014}\u{1b}[0m",
            "Cancelled:\n\u{1b}[31m\u{f014}\u{1b}[0m  \u{1b}[1;34mClean room\u{1b}[0m (#1)"),
        (Command::Pause { task_id: arg("1") }, TaskState::Paused, "\u{1b}[37m\u{f520}\u{1b}[0m",
            "Paused:\n\u{1b}[37m\u{f520}\u{1b}[0m  \u{1b}[1;34mClean room\u{1b}[0m (#1)"),
        (Command::Finish { task_id: arg("1") }, TaskState::Finished, "\u{1b}[32m\u{f046}\u{1b}[0m",
            "Finished:\n\u{1b}[32m\u{f046}\u{1b}[0m  \u{1b}[1;34mClean room\u{1b}[0m (#1)"),
    ];
    let ansi = |c: IconColor| match c {
        IconColor::White => 37,
        IconColor::Yellow => 33,
        IconColor::Green => 32,
        IconColor::Blue => 34,
        IconColor::Red => 31,
    };
    for (command, state, icon, expected) in steps {
        match run(&mut store, command) {
            Ok(Reply::Updated(t)) => {
                assert_eq!(t.state, state);
                assert_eq!((t.title.as_str(), t.id), ("Clean room", 1));
                let shown = format!("\u{1b}[{}m{}\u{1b}[0m", ansi(t.state.icon_color()), t.state.get_icon(&nerd));
                assert_eq!(shown, icon);
                assert_eq!(updated_message(&t, icon), expected);
            }
            other => panic!("unexpected {:?}", other),
        }
    }

    // delete 1
    match run(&mut store, Command::Delete { task_id: arg("1") }) {
        Ok(Reply::ConfirmDelete(t)) => {
            assert_eq!((t.title.as_str(), t.id), ("Clean room", 1));
            assert_eq!(store.len(), 1);
            match delete_task(&mut store, t.id, true) {
                Ok(Deletion::Deleted(d)) => {
                    assert_eq!(deleted_message(&d), "Deleted:\n\u{1b}[34mClean room\u{1b}[0m (#1)")
                }
                other => panic!("unexpected {:?}", other),
            }
        }
        other => panic!("unexpected {:?}", other),
    }
    assert_eq!(store.len(), 0);
}

#[test]
fn add_joins_its_words() {
    let mut store = TaskStore::new();
    match run(&mut store, Command::Add { create_args: vec![arg("Clean"), arg("the"), arg("room")] }) {
        Ok(Reply::Added(t)) => assert_eq!(t.title, "Clean the room"),
        other => panic!("unexpected {:?}", other),
    }
    assert_eq!(
        run(&mut store, Command::Add { create_args: vec![] }),
        Err(CliError::CrudError(CrudError::EmptyTitle))
    );
    assert_eq!(
        run(&mut store, Command::Add { create_args: vec![arg(" "), arg("")] }),
        Err(CliError::CrudError(CrudError::EmptyTitle))
    );
    assert_eq!(
        run(&mut store, Command::Add { create_args: vec![arg("Clean the"), arg("room")] }),
        Err(CliError::CrudError(CrudError::DuplicateTitle))
    );
    assert_eq!(store.len(), 1);
}

#[test]
fn state_commands_reject_bad_identifiers() {
    let mut store = TaskStore::new();
    run(&mut store, Command::Add { create_args: vec![arg("a")] }).unwrap();
    assert!(matches!(
        run(&mut store, Command::Finish { task_id: arg("x1") }),
        Err(CliError::InvalidArgumentFormat(_))
    ));
    assert_eq!(
        run(&mut store, Command::Finish { task_id: arg("2") }),
        Err(CliError::CrudError(CrudError::TaskNotFound))
    );
    assert!(matches!(
        run(&mut store, Command::Delete { task_id: arg("") }),
        Err(CliError::InvalidArgumentFormat(_))
    ));
    assert_eq!(
        run(&mut store, Command::Delete { task_id: arg("0") }),
        Err(CliError::CrudError(CrudError::TaskNotFound))
    );
    assert_eq!(store.find_all()[0].state, TaskState::Pending);
}

#[test]
fn delete_command_only_asks() {
    let mut store = TaskStore::new();
    run(&mut store, Command::Add { create_args: vec![arg("a")] }).unwrap();
    assert!(matches!(run(&mut store, Command::Delete { task_id: arg("1") }), Ok(Reply::ConfirmDelete(_))));
    assert_eq!(store.len(), 1);
    assert_eq!(delete_task(&mut store, 1, false), Ok(Deletion::NotDeleted));
    assert_eq!(store.len(), 1);
}

#[test]
fn numbers_parse_as_decimal_integers() {
    assert_eq!(parse_num(arg("1")), Ok(1));
    assert_eq!(parse_num(arg("-5")), Ok(-5));
    assert_eq!(parse_num(arg("+7")), Ok(7));
    assert_eq!(parse_num(arg("0042")), Ok(42));
    assert_eq!(parse_num(arg("9223372036854775807")), Ok(i64::MAX));
    assert_eq!(parse_num(arg("-9223372036854775808")), Ok(i64::MIN));
    for bad in ["", "+", "-", " 1", "1 ", "1_000", "12a", "9223372036854775808", "not_valid_number"] {
        assert!(matches!(parse_num(arg(bad)), Err(CliError::InvalidArgumentFormat(_))), "{bad:?}");
    }
}

#[test]
fn words_join_with_single_spaces() {
    assert_eq!(join_words(&vec![arg("Clean"), arg("room")]), "Clean room");
    assert_eq!(join_words(&vec![arg("one")]), "one");
    assert_eq!(join_words(&vec![]), "");
    assert_eq!(join_words(&vec![arg("a"), arg(""), arg("b")]), "a  b");
}

#[test]
fn blank_titles_are_white_space_only() {
    assert!(title_is_blank(""));
    assert!(title_is_blank(" \t\r\n\u{b}\u{c}"));
    assert!(title_is_blank("\u{85}\u{a0}\u{1680}\u{2000}\u{200a}\u{2028}\u{2029}\u{202f}\u{205f}\u{3000}"));
    assert!(!title_is_blank("a"));
    assert!(!title_is_blank("  a  "));
    assert!(!title_is_blank("\u{200b}"));
}

#[test]
fn state_names_round_trip() {
    let states = [
        (TaskState::Pending, "Pending"),
        (TaskState::Started, "Started"),
        (TaskState::Finished, "Finished"),
        (TaskState::Blocked, "Blocked"),
        (TaskState::Someday, "Someday"),
        (TaskState::Cancelled, "Cancelled"),
        (TaskState::Paused, "Paused"),
    ];
    for (state, name) in states {
        assert_eq!(state.to_string(), name);
        assert_eq!(TaskState::to_state(name.to_string()), Ok(state));
    }
    assert_eq!(
        TaskState::to_state("pending".to_string()),
        Err(CrudError::UnknownStatus("pending".to_string()))
    );
    assert_eq!(TaskState::to_state("".to_string()), Err(CrudError::UnknownStatus("".to_string())));
}

#[test]
fn ascii_glyphs_without_nerd_font() {
    let plain = Config::default();
    assert!(!plain.nerd_font);
    let expected = [
        (TaskState::Pending, "[ ]", IconColor::White),
        (TaskState::Started, "[|]", IconColor::Yellow),
        (TaskState::Finished, "[\u{221a}]", IconColor::Green),
        (TaskState::Blocked, "[#]", IconColor::Blue),
        (TaskState::Someday, "[~]", IconColor::Yellow),
        (TaskState::Cancelled, "[x]", IconColor::Red),
        (TaskState::Paused, "[-]", IconColor::White),
    ];
    for (state, glyph, color) in expected {
        assert_eq!(state.get_icon(&plain), glyph);
        assert_eq!(state.icon_color(), color);
    }
}

#[test]
fn messages_write_identifiers_in_decimal() {
    let mut t = Task::new("Water plants".to_string(), 1207);
    assert_eq!(
        added_message(&t, "[ ]"),
        "Added new task:\n[ ]  \u{1b}[1;34mWater plants\u{1b}[0m (#1207)"
    );
    t.state = TaskState::Finished;
    assert_eq!(
        updated_message(&t, "[x]"),
        "Finished:\n[x]  \u{1b}[1;34mWater plants\u{1b}[0m (#1207)"
    );
    t.id = 0;
    assert_eq!(deleted_message(&t), "Deleted:\n\u{1b}[34mWater plants\u{1b}[0m (#0)");
    t.id = -40;
    assert_eq!(deleted_message(&t), "Deleted:\n\u{1b}[34mWater plants\u{1b}[0m (#-40)");
    t.id = i64::MAX;
    assert_eq!(deleted_message(&t), "Deleted:\n\u{1b}[34mWater plants\u{1b}[0m (#9223372036854775807)");
    t.id = i64::MIN;
    assert_eq!(deleted_message(&t), "Deleted:\n\u{1b}[34mWater plants\u{1b}[0m (#-9223372036854775808)");
}

#[test]
fn white_space_matches_std() {
    for u in 0u32..0x3100 {
        if let Some(c) = char::from_u32(u) {
            assert_eq!(white_space(c), c.is_whitespace(), "{u:#x}");
        }
    }
}
