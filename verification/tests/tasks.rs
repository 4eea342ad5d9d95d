use tuidui::display::{
    display_task, display_tasks, format_due_date, status_mark_of, task_details, task_heading,
};
use tuidui::save::{save_dir, save_file_path};
use tuidui::system_time_format::{
    deserialize, serialize, DateParseError, MAX_UTC_TIMESTAMP, MIN_UTC_TIMESTAMP,
};
use tuidui::task::{
    default_system_time, epoch_seconds, ClockReading, Task, TaskPriority, TaskState, Tasks,
};

fn task(title: &str, state: TaskState, priority: TaskPriority, due: Option<i64>) -> Task {
    Task {
        title: title.to_string(),
        description: None,
        due_date: due,
        state,
        priority: Some(priority),
        time_estimation_minutes: None,
        tags: None,
        created_at: None,
        modified_at: None,
        deleted_at: None,
    }
}

#[test]
fn new_task_list_is_empty() {
    assert!(Tasks::new().tasks.is_empty());
}

#[test]
fn task_state_defaults_to_pending() {
    assert_eq!(TaskState::default(), TaskState::Pending);
}

#[test]
fn priority_names() {
    assert_eq!(TaskPriority::Low.to_string(), "Low");
    assert_eq!(TaskPriority::Medium.to_string(), "Medium");
    assert_eq!(TaskPriority::High.to_string(), "High");
    assert_eq!(TaskPriority::Critical.to_string(), "Critical");
}

#[test]
fn default_time_is_now() {
    let before = chrono::Utc::now().timestamp();
    let t = default_system_time().expect("a time");
    let after = chrono::Utc::now().timestamp();
    assert!(before <= t && t <= after);
}

#[test]
fn status_marks() {
    assert_eq!(status_mark_of(&TaskState::Pending), " ");
    assert_eq!(status_mark_of(&TaskState::Completed), "x");
    assert_eq!(status_mark_of(&TaskState::OnHold), "-");
    assert_eq!(status_mark_of(&TaskState::NeedInfo), "?");
    assert_eq!(status_mark_of(&TaskState::InProgress), "…");
    assert_eq!(status_mark_of(&TaskState::Cancelled), "!");
    let all = [
        TaskState::Pending,
        TaskState::Completed,
        TaskState::OnHold,
        TaskState::NeedInfo,
        TaskState::InProgress,
        TaskState::Cancelled,
    ];
    let marks: std::collections::HashSet<&str> = all.iter().map(status_mark_of).collect();
    assert_eq!(marks.len(), all.len());
}

#[test]
fn display_task_without_description_or_date() {
    let t = task("Buy milk", TaskState::Pending, TaskPriority::Low, None);
    assert_eq!(
        display_task(&t),
        "\n\t[ ]\tBuy milk\n\t\tPriority:Low\t\tDue date: None\n"
    );
}

#[test]
fn display_task_with_description_and_date() {
    let mut t = task("Ship it", TaskState::InProgress, TaskPriority::Critical, Some(1_730_390_400));
    t.description = Some("release 1.0".to_string());
    assert_eq!(
        display_task(&t),
        "\n\t[…]\tShip it\n\t\trelease 1.0\n\t\tPriority:Critical\t\tDue date: 2024/10/31\n"
    );
}

#[test]
fn display_tasks_concatenates_in_order() {
    let a = task("A", TaskState::Completed, TaskPriority::High, Some(0));
    let b = task("B", TaskState::Cancelled, TaskPriority::Medium, Some(-1));
    let both = display_tasks(&vec![a.clone(), b.clone()]);
    assert_eq!(both, format!("{}{}", display_task(&a), display_task(&b)));
    assert!(both.contains("Due date: 1970/01/01"));
    assert!(both.contains("Due date: 1969/12/31"));
    assert_eq!(display_tasks(&vec![]), "");
}

#[test]
fn due_dates_at_the_edges_of_chrono() {
    assert!(chrono::DateTime::from_timestamp(MAX_UTC_TIMESTAMP, 0).is_some());
    assert!(chrono::DateTime::from_timestamp(MAX_UTC_TIMESTAMP + 1, 0).is_none());
    assert!(chrono::DateTime::from_timestamp(MIN_UTC_TIMESTAMP, 0).is_some());
    assert!(chrono::DateTime::from_timestamp(MIN_UTC_TIMESTAMP - 1, 0).is_none());
    assert_eq!(format_due_date(MAX_UTC_TIMESTAMP), "+262142/12/31");
    assert_eq!(format_due_date(MIN_UTC_TIMESTAMP), "-262143/01/01");
}

#[test]
fn serialize_writes_the_utc_date() {
    assert_eq!(serialize(&Some(0)), Some("1970-01-01".to_string()));
    assert_eq!(serialize(&Some(1_730_419_199)), Some("2024-10-31".to_string()));
    assert_eq!(serialize(&Some(1_730_419_200)), Some("2024-11-01".to_string()));
    assert_eq!(serialize(&None), None);
}

#[test]
fn deserialize_reads_midnight_utc() {
    assert_eq!(deserialize(Some("2024-10-31".to_string())), Ok(Some(1_730_332_800)));
    assert_eq!(deserialize(Some("1970-01-01".to_string())), Ok(Some(0)));
    assert_eq!(deserialize(None), Ok(None));
}

#[test]
fn absent_date_round_trips() {
    assert_eq!(deserialize(serialize(&None)), Ok(None));
}

#[test]
fn saved_date_reads_back_as_its_midnight() {
    let t = 1_730_390_400 + 3_600 * 5;
    assert_eq!(deserialize(serialize(&Some(t))), Ok(Some(1_730_332_800)));
}

#[test]
fn deserialize_errors_match_chrono() {
    for text in ["bad", "2024-13-01", "2024-02-30", "2024-10", "2024-10-31x"] {
        let ours = deserialize(Some(text.to_string())).unwrap_err();
        let theirs = chrono::NaiveDate::parse_from_str(text, "%Y-%m-%d").unwrap_err();
        assert_eq!(ours.message(), theirs.to_string(), "for {text}");
    }
    assert_eq!(deserialize(Some("bad".to_string())), Err(DateParseError::Invalid));
    assert_eq!(deserialize(Some("2024-13-01".to_string())), Err(DateParseError::OutOfRange));
    let theirs = chrono::NaiveDate::parse_from_str("2024-02-30", "%Y-%m-%d").unwrap_err();
    let expected = if theirs.kind() == chrono::format::ParseErrorKind::OutOfRange {
        DateParseError::OutOfRange
    } else {
        DateParseError::Impossible
    };
    assert_eq!(deserialize(Some("2024-02-30".to_string())), Err(expected));
    assert_eq!(deserialize(Some("2024-10".to_string())), Err(DateParseError::TooShort));
    assert_eq!(deserialize(Some("2024-10-31x".to_string())), Err(DateParseError::TooLong));
}

#[test]
fn parse_error_messages() {
    assert_eq!(DateParseError::Impossible.message(), "no possible date and time matching input");
    assert_eq!(DateParseError::NotEnough.message(), "input is not enough for unique date and time");
    assert_eq!(DateParseError::BadFormat.message(), "bad or unsupported format string");
}

#[test]
fn loaded_lists_are_appended_in_order() {
    let mut all = Tasks::new();
    all.append_loaded(Tasks { tasks: vec![task("a", TaskState::Pending, TaskPriority::Low, None)] });
    all.append_loaded(Tasks {
        tasks: vec![
            task("b", TaskState::Pending, TaskPriority::Low, None),
            task("c", TaskState::Pending, TaskPriority::Low, None),
        ],
    });
    all.append_loaded(Tasks::new());
    let titles: Vec<&str> = all.tasks.iter().map(|t| t.title.as_str()).collect();
    assert_eq!(titles, vec!["a", "b", "c"]);
}

#[test]
fn save_paths() {
    assert_eq!(save_dir(), "./data/save");
    assert_eq!(save_file_path(), "./data/save/tuidui_save.json");
}

#[test]
fn clock_readings_round_down() {
    let r = |after_epoch, secs, nanos| epoch_seconds(ClockReading { after_epoch, secs, nanos });
    assert_eq!(r(true, 5, 999_999_999), 5);
    assert_eq!(r(true, 0, 0), 0);
    assert_eq!(r(false, 5, 0), -5);
    assert_eq!(r(false, 5, 1), -6);
    assert_eq!(r(false, 0, 500), -1);
    assert_eq!(r(true, u64::MAX, 0), i64::MAX);
    assert_eq!(r(false, u64::MAX, 0), i64::MIN);
    assert_eq!(r(false, 1u64 << 63, 0), i64::MIN);
    assert_eq!(r(false, (1u64 << 63) - 1, 1), i64::MIN);
}

/// The first second of year 0 and the last second of year 9999.
const YEAR_0_START: i64 = -62_167_219_200;
const YEAR_9999_END: i64 = 253_402_300_799;

#[test]
fn saved_dates_read_back_as_their_day_start() {
    assert_eq!(serialize(&Some(YEAR_0_START)), Some("0000-01-01".to_string()));
    assert_eq!(serialize(&Some(YEAR_9999_END)), Some("9999-12-31".to_string()));
    assert_eq!(serialize(&Some(YEAR_0_START - 1)), Some("-0001-12-31".to_string()));
    assert_eq!(serialize(&Some(YEAR_9999_END + 1)), Some("+10000-01-01".to_string()));
    for t in [
        MIN_UTC_TIMESTAMP,
        MIN_UTC_TIMESTAMP + 86_399,
        YEAR_0_START - 1,
        YEAR_0_START,
        -1,
        0,
        86_399,
        YEAR_9999_END,
        YEAR_9999_END + 1,
        MAX_UTC_TIMESTAMP,
    ] {
        let day = t - t.rem_euclid(86_400);
        assert_eq!(deserialize(serialize(&Some(t))), Ok(Some(day)), "for {t}");
    }
}

#[test]
fn canonical_date_texts_are_written_back_unchanged() {
    for s in [
        "0000-01-01",
        "0999-03-07",
        "1970-01-01",
        "2024-02-29",
        "9999-12-31",
        "-0001-12-31",
        "-0412-05-06",
        "-12345-06-07",
        "-262143-01-01",
        "+10000-01-01",
        "+262142-12-31",
    ] {
        let t = deserialize(Some(s.to_string())).unwrap();
        assert_eq!(serialize(&t), Some(s.to_string()), "for {s}");
    }
}

#[test]
fn other_date_shapes_read_but_are_written_otherwise() {
    let t = deserialize(Some("+0100-01-01".to_string())).unwrap();
    assert_eq!(serialize(&t), Some("0100-01-01".to_string()));
    let t = deserialize(Some("2024-1-5".to_string())).unwrap();
    assert_eq!(serialize(&t), Some("2024-01-05".to_string()));
}

#[test]
fn heading_and_details_make_the_task_text() {
    let mut t = task("Plan", TaskState::OnHold, TaskPriority::High, None);
    t.description = Some("next week".to_string());
    assert_eq!(task_heading(&t), "\n\t[-]\tPlan\n\t\tnext week\n");
    assert_eq!(task_details(&t), "\t\tPriority:High\t\tDue date: None\n");
    assert_eq!(format!("{}{}", task_heading(&t), task_details(&t)), display_task(&t));
    let mut no_priority = t.clone();
    no_priority.priority = None;
    assert_eq!(task_heading(&no_priority), task_heading(&t));
}
