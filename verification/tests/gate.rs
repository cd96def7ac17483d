use jlogger_tracing::writer::{effective_level, record_enabled, reported_count};
use jlogger_tracing::{JloggerMakeWriter, LevelFilter};

#[test]
fn warn_threshold_gates_by_strictness() {
    let threshold = LevelFilter::WARN;
    assert!(record_enabled(LevelFilter::ERROR, threshold));
    assert!(record_enabled(LevelFilter::WARN, threshold));
    assert!(!record_enabled(LevelFilter::INFO, threshold));
    assert!(!record_enabled(LevelFilter::DEBUG, threshold));
    assert!(!record_enabled(LevelFilter::TRACE, threshold));
}

#[test]
fn off_threshold_passes_nothing() {
    for record in [
        LevelFilter::ERROR,
        LevelFilter::WARN,
        LevelFilter::INFO,
        LevelFilter::DEBUG,
        LevelFilter::TRACE,
    ] {
        assert!(!record_enabled(record, LevelFilter::OFF));
    }
}

#[test]
fn trace_threshold_passes_every_record() {
    for record in [
        LevelFilter::ERROR,
        LevelFilter::WARN,
        LevelFilter::INFO,
        LevelFilter::DEBUG,
        LevelFilter::TRACE,
    ] {
        assert!(record_enabled(record, LevelFilter::TRACE));
    }
}

#[test]
fn effective_level_prefers_override() {
    assert_eq!(
        effective_level(Some("warn"), LevelFilter::ERROR),
        LevelFilter::WARN
    );
    assert_eq!(effective_level(None, LevelFilter::ERROR), LevelFilter::ERROR);
    assert_eq!(
        effective_level(Some("nonsense"), LevelFilter::TRACE),
        LevelFilter::OFF
    );
}

#[test]
fn writer_selection_gates_per_record() {
    let config = JloggerMakeWriter::new(true, true, LevelFilter::INFO);
    let passing = config.make_writer_for(LevelFilter::INFO, None);
    assert!(passing.log_file);
    assert!(passing.log_console);
    let suppressed = config.make_writer_for(LevelFilter::DEBUG, None);
    assert!(!suppressed.log_file);
    assert!(!suppressed.log_console);
}

#[test]
fn override_loosens_static_configuration() {
    let config = JloggerMakeWriter::new(false, true, LevelFilter::ERROR);
    let without = config.make_writer_for(LevelFilter::DEBUG, None);
    assert!(!without.log_console);
    let with = config.make_writer_for(LevelFilter::DEBUG, Some("debug"));
    assert!(with.log_console);
    assert!(!with.log_file);
}

#[test]
fn override_tightens_too() {
    let config = JloggerMakeWriter::new(true, true, LevelFilter::TRACE);
    let gated = config.make_writer_for(LevelFilter::ERROR, Some("junk"));
    assert!(!gated.log_file);
    assert!(!gated.log_console);
}

#[test]
fn reported_count_takes_the_smaller_of_two() {
    assert_eq!(reported_count(10, 7, 100), 7);
    assert_eq!(reported_count(7, 10, 100), 7);
    assert_eq!(reported_count(5, 5, 100), 5);
}

#[test]
fn reported_count_single_destination() {
    assert_eq!(reported_count(9, 0, 5), 9);
    assert_eq!(reported_count(0, 9, 5), 9);
}

#[test]
fn reported_count_no_destination_is_a_full_no_op() {
    assert_eq!(reported_count(0, 0, 42), 42);
    assert_eq!(reported_count(0, 0, 0), 0);
}
