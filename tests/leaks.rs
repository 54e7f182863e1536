use cargo_valgrind::leak::{Function, Leak};
use cargo_valgrind::report::{ErrorRecord, Frame, Kind, Report, Resources};
use cargo_valgrind::text::{decimal_string, parse_hex, tool_error_message};
use cargo_valgrind::valgrind;

fn frame(function: Option<&str>, file: Option<&str>, line: Option<usize>) -> Frame {
    Frame {
        instruction_pointer: 0x4848899,
        object: Some("/usr/lib/valgrind/vgpreload_memcheck.so".to_string()),
        directory: Some("/src".to_string()),
        function: function.map(|s| s.to_string()),
        file: file.map(|s| s.to_string()),
        line,
    }
}

fn record(unique: u64, kind: Kind, bytes: usize, frames: Vec<Frame>) -> ErrorRecord {
    ErrorRecord { unique, kind, resources: Resources { bytes, blocks: 1 }, stack_trace: frames }
}

#[test]
fn single_definitely_lost_leak() {
    let report = Report {
        errors: vec![record(
            1,
            Kind::LeakDefinitelyLost,
            40,
            vec![frame(Some("leaky"), Some("main.c"), Some(12))],
        )],
    };
    let leaks = valgrind(&report);
    let expected = Leak::new(
        40,
        Kind::LeakDefinitelyLost,
        vec![Function::new(Some("leaky".to_string()), Some("main.c".to_string()), Some(12))],
    );
    assert_eq!(leaks, vec![expected]);
    assert_eq!(leaks[0].leaked_bytes(), 40);
    assert_eq!(leaks[0].leak_kind(), Kind::LeakDefinitelyLost);
    assert_eq!(leaks[0].back_trace().len(), 1);
    assert_eq!(leaks[0].back_trace()[0].to_string(), "leaky (main.c:12)");
}

#[test]
fn empty_report_has_no_leaks() {
    let report = Report { errors: vec![] };
    assert!(valgrind(&report).is_empty());
}

#[test]
fn leaks_keep_record_order_and_fields() {
    let report = Report {
        errors: vec![
            record(1, Kind::LeakStillReachable, 8, vec![]),
            record(
                2,
                Kind::LeakIndirectlyLost,
                1024,
                vec![frame(Some("inner"), None, None), frame(None, Some("lib.rs"), Some(7))],
            ),
            record(3, Kind::InvalidRead, 0, vec![frame(None, None, None)]),
        ],
    };
    let leaks = valgrind(&report);
    assert_eq!(leaks.len(), 3);
    assert_eq!(leaks[0].leaked_bytes(), 8);
    assert_eq!(leaks[0].leak_kind(), Kind::LeakStillReachable);
    assert!(leaks[0].back_trace().is_empty());
    assert_eq!(leaks[1].leaked_bytes(), 1024);
    assert_eq!(leaks[1].leak_kind(), Kind::LeakIndirectlyLost);
    let trace = leaks[1].back_trace();
    assert_eq!(trace[0].name(), Some("inner"));
    assert_eq!(trace[0].file(), None);
    assert_eq!(trace[0].line(), None);
    assert_eq!(trace[1].name(), None);
    assert_eq!(trace[1].file(), Some("lib.rs"));
    assert_eq!(trace[1].line(), Some(7));
    assert_eq!(leaks[2].leak_kind(), Kind::InvalidRead);
    assert_eq!(leaks[2].back_trace()[0], Function::new(None, None, None));
}

#[test]
fn display_without_name_reads_unknown() {
    let f = Function::new(None, Some("a.rs".to_string()), Some(3));
    assert_eq!(f.name(), None);
    assert_eq!(f.to_string(), "unknown (a.rs:3)");
    assert_eq!(Function::new(None, None, None).to_string(), "unknown");
}

#[test]
fn display_with_file_and_no_line() {
    let f = Function::new(Some("main".to_string()), Some("src/main.rs".to_string()), None);
    assert_eq!(f.to_string(), "main (src/main.rs)");
}

#[test]
fn display_without_file() {
    let f = Function::new(Some("main".to_string()), None, Some(9));
    assert_eq!(f.to_string(), "main");
}

#[test]
fn display_line_numbers() {
    let f = Function::new(Some("g".to_string()), Some("x.c".to_string()), Some(0));
    assert_eq!(f.to_string(), "g (x.c:0)");
    let f = Function::new(Some("g".to_string()), Some("x.c".to_string()), Some(1907));
    assert_eq!(f.to_string(), "g (x.c:1907)");
}

#[test]
fn decimal_rendering() {
    assert_eq!(decimal_string(0), "0");
    assert_eq!(decimal_string(9), "9");
    assert_eq!(decimal_string(10), "10");
    assert_eq!(decimal_string(65535), "65535");
    assert_eq!(decimal_string(usize::MAX), usize::MAX.to_string());
}

#[test]
fn tool_message_strips_prefix_and_white_space() {
    assert_eq!(tool_error_message("error: no such file\n"), "no such file");
    assert_eq!(tool_error_message("error: error: twice  \n\n"), "twice");
    assert_eq!(tool_error_message("  plain text\t"), "plain text");
    assert_eq!(tool_error_message(""), "");
    assert_eq!(tool_error_message("error: "), "");
    assert_eq!(tool_error_message("warning: error: x"), "warning: error: x");
}

#[test]
fn hexadecimal_numerals() {
    assert_eq!(parse_hex("0x1a"), Some(26));
    assert_eq!(parse_hex("0XFF"), Some(255));
    assert_eq!(parse_hex("4848899"), Some(0x4848899));
    assert_eq!(parse_hex("0xffffffffffffffff"), Some(u64::MAX));
    assert_eq!(parse_hex("0x10000000000000000"), None);
    assert_eq!(parse_hex("0x"), None);
    assert_eq!(parse_hex(""), None);
    assert_eq!(parse_hex("0x1g"), None);
}
