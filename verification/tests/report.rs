use cargo_embed::log_name::{log_name, log_name_at};
use cargo_embed::report::{error_report, labelled_report, labelled_status, status_line, StatusWord};
use cargo_embed::text::{characters, decimal, lines, same_text, spaces};

#[test]
fn lines_end_at_line_feeds() {
    assert_eq!(lines("a\nb\r\n\nc"), vec!["a", "b", "", "c"]);
    assert_eq!(lines("a\nb\n"), vec!["a", "b"]);
    assert_eq!(lines(""), Vec::<String>::new());
    assert_eq!(lines("\n"), vec![""]);
    assert_eq!(lines("a\rb\r\r\nc\r"), vec!["a\rb\r", "c\r"]);
}

#[test]
fn lines_are_those_of_the_standard_library() {
    for text in ["", "\n", "\r\n", "x", "x\r", "\r\r\n\n\ry\r\n", "\u{e9}\n\u{1f600}\r\n."] {
        let expected: Vec<String> = text.lines().map(|line| line.to_string()).collect();
        assert_eq!(lines(text), expected);
    }
}

#[test]
fn decimals_are_those_of_the_standard_library() {
    for n in [0, 1, 9, 10, 11, 99, 100, 1337, 4000, u32::MAX as u64, u64::MAX] {
        assert_eq!(decimal(n), n.to_string());
    }
}

#[test]
fn small_texts() {
    assert_eq!(spaces(0), "");
    assert_eq!(spaces(3), "   ");
    assert!(same_text("chip", "chip"));
    assert!(!same_text("chip", "Chip"));
    assert!(!same_text("chip", "chips"));
    assert_eq!(characters("\u{e9}x"), vec!['\u{e9}', 'x']);
}

#[test]
fn report_under_any_label() {
    assert_eq!(labelled_report("a\nb\nc", "E", 1), "       E a\n         b\n         c\n");
}

#[test]
fn status_under_any_word() {
    assert_eq!(labelled_status("Word", "text"), "    Word text");
}

// The switch for colors belongs to the whole process, so only one test may turn it.
#[test]
fn reports_and_status_with_and_without_colors() {
    colored::control::set_override(false);
    assert_eq!(
        error_report("failed to flash a.out\n\nCaused by:\n    no target"),
        "       Error failed to flash a.out\n             \n             Caused by:\n                 no target\n"
    );
    assert_eq!(error_report(""), "");
    let report = lines(&error_report("first\n\nthird"));
    assert_eq!(report.len(), 3);
    assert_eq!(report[0], "       Error first");
    assert_eq!(report[2], "             third");
    assert_eq!(status_line(StatusWord::Flashing, "target/debug/a"), "    Flashing target/debug/a");
    assert_eq!(status_line(StatusWord::Finished, "in 1.5s"), "    Finished in 1.5s");

    colored::control::set_override(true);
    assert_eq!(
        error_report("one\ntwo"),
        "       \u{1b}[1;31mError\u{1b}[0m one\n             two\n"
    );
    assert_eq!(
        status_line(StatusWord::Finished, "in 1.5s"),
        "    \u{1b}[1;32mFinished\u{1b}[0m in 1.5s"
    );
}

#[test]
fn log_name_ends_with_the_time() {
    let name = log_name("blinky_2");
    let (session, stamp) = name.rsplit_once('_').unwrap();
    assert_eq!(session, "blinky_2");
    let parsed = chrono::DateTime::parse_from_rfc3339(stamp).unwrap();
    assert_eq!(parsed.to_rfc3339(), stamp);
    let (date, time) = stamp.split_once('T').unwrap();
    assert_eq!(date.split('-').map(|part| part.len()).collect::<Vec<usize>>(), vec![4, 2, 2]);
    assert_eq!(&time[2..3], ":");
    assert_eq!(&time[5..6], ":");
    let (clock, offset) = time.split_at(time.len() - 6);
    assert!(offset.starts_with('+') || offset.starts_with('-'));
    assert_eq!(&offset[3..4], ":");
    assert!([8, 12, 15, 18].contains(&clock.len()));
    assert_eq!(log_name_at(session, stamp), name);
}

#[test]
fn log_name_at_a_given_time() {
    assert_eq!(
        log_name_at("--release", "2021-03-04T05:06:07+00:00"),
        "--release_2021-03-04T05:06:07+00:00"
    );
}
