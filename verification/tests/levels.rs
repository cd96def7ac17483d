use jlogger_tracing::LevelFilter;

#[test]
fn parse_recognized_tokens() {
    assert_eq!(LevelFilter::from_text("off"), LevelFilter::OFF);
    assert_eq!(LevelFilter::from_text("error"), LevelFilter::ERROR);
    assert_eq!(LevelFilter::from_text("warn"), LevelFilter::WARN);
    assert_eq!(LevelFilter::from_text("info"), LevelFilter::INFO);
    assert_eq!(LevelFilter::from_text("debug"), LevelFilter::DEBUG);
    assert_eq!(LevelFilter::from_text("trace"), LevelFilter::TRACE);
}

#[test]
fn parse_unrecognized_tokens_fail_closed() {
    assert_eq!(LevelFilter::from_text(""), LevelFilter::OFF);
    assert_eq!(LevelFilter::from_text("Error"), LevelFilter::OFF);
    assert_eq!(LevelFilter::from_text("DEBUG"), LevelFilter::OFF);
    assert_eq!(LevelFilter::from_text("verbose"), LevelFilter::OFF);
    assert_eq!(LevelFilter::from_text("warn "), LevelFilter::OFF);
    assert_eq!(LevelFilter::from_text("tracing"), LevelFilter::OFF);
}

#[test]
fn parse_from_owned_string() {
    assert_eq!(LevelFilter::from(String::from("debug")), LevelFilter::DEBUG);
    assert_eq!(LevelFilter::from(String::from("nonsense")), LevelFilter::OFF);
}

#[test]
fn canonical_text_round_trips() {
    let all = [
        LevelFilter::OFF,
        LevelFilter::ERROR,
        LevelFilter::WARN,
        LevelFilter::INFO,
        LevelFilter::DEBUG,
        LevelFilter::TRACE,
    ];
    for level in all {
        assert_eq!(LevelFilter::from_text(level.canonical_text()), level);
    }
}

#[test]
fn severity_orders_levels() {
    assert!(LevelFilter::OFF.rank() < LevelFilter::ERROR.rank());
    assert!(LevelFilter::ERROR.rank() < LevelFilter::WARN.rank());
    assert!(LevelFilter::WARN.rank() < LevelFilter::INFO.rank());
    assert!(LevelFilter::INFO.rank() < LevelFilter::DEBUG.rank());
    assert!(LevelFilter::DEBUG.rank() < LevelFilter::TRACE.rank());
    assert!(LevelFilter::ERROR.le(LevelFilter::ERROR));
    assert!(LevelFilter::ERROR.le(LevelFilter::TRACE));
    assert!(!LevelFilter::TRACE.le(LevelFilter::DEBUG));
}

#[test]
fn five_character_tags() {
    assert_eq!(LevelFilter::ERROR.tag(), "ERROR");
    assert_eq!(LevelFilter::WARN.tag(), "WARN ");
    assert_eq!(LevelFilter::INFO.tag(), "INFO ");
    assert_eq!(LevelFilter::DEBUG.tag(), "DEBUG");
    assert_eq!(LevelFilter::TRACE.tag(), "TRACE");
    assert_eq!(LevelFilter::OFF.tag().len(), 5);
}
