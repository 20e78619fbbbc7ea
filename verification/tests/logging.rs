use smoldot_flutter::logging::{LogLevel, level_code, make_log_entry};

#[test]
fn severity_codes_are_fixed() {
    assert_eq!(level_code(LogLevel::Trace), 5000);
    assert_eq!(level_code(LogLevel::Debug), 10000);
    assert_eq!(level_code(LogLevel::Info), 20000);
    assert_eq!(level_code(LogLevel::Warn), 30000);
    assert_eq!(level_code(LogLevel::Error), 40000);
}

#[test]
fn entries_keep_their_record() {
    let e = make_log_entry(
        1700000000123,
        LogLevel::Warn,
        String::from("src/api.rs"),
        String::from("queue saturated"),
    );
    assert_eq!(e.time_millis, 1700000000123);
    assert_eq!(e.level, 30000);
    assert_eq!(e.tag, "src/api.rs");
    assert_eq!(e.msg, "queue saturated");
}
