use jlogger_tracing::line::assemble_line;
use jlogger_tracing::{
    append_bytes, process_record, InstallError, JloggerBuilder, JloggerMakeWriter, LevelFilter,
    LoggerRegistry, LogTimeFormat, SpanEventPolicy,
};

#[test]
fn builder_defaults() {
    let builder = JloggerBuilder::new();
    assert_eq!(builder.max_level, LevelFilter::INFO);
    assert!(builder.log_console);
    assert!(builder.log_file.is_none());
    assert!(builder.log_file_append);
    assert!(!builder.log_runtime);
    assert_eq!(builder.time_format, LogTimeFormat::TimeNone);
    assert_eq!(builder.span_events, SpanEventPolicy::SpanNone);
    let by_default = JloggerBuilder::default();
    assert_eq!(by_default.max_level, LevelFilter::INFO);
}

#[test]
fn build_plans_the_configuration() {
    let plan = JloggerBuilder::new()
        .max_level(LevelFilter::DEBUG)
        .log_console(true)
        .log_time(LogTimeFormat::TimeStamp)
        .log_runtime(true)
        .tracing_span_event(SpanEventPolicy::SpanActive)
        .log_file(Some(("/tmp/my_log.log", false)))
        .build();
    assert_eq!(plan.writer_config.max_level, LevelFilter::DEBUG);
    assert!(plan.writer_config.log_console);
    assert!(plan.writer_config.log_file);
    let file_plan = plan.file_plan.unwrap();
    assert_eq!(file_plan.path, "/tmp/my_log.log");
    assert!(file_plan.remove_first);
    assert_eq!(plan.time_format, LogTimeFormat::TimeStamp);
    assert!(plan.show_runtime);
    assert_eq!(plan.span_events, SpanEventPolicy::SpanActive);
    assert_eq!(plan.backbone_level, LevelFilter::TRACE);
}

#[test]
fn build_without_file_plans_none() {
    let plan = JloggerBuilder::new().log_console(false).build();
    assert!(plan.file_plan.is_none());
    assert!(!plan.writer_config.log_file);
    assert!(!plan.writer_config.log_console);
}

#[test]
fn append_mode_keeps_the_file_plan_gentle() {
    let plan = JloggerBuilder::new().log_file(Some(("/tmp/a.log", true))).build();
    assert!(!plan.file_plan.unwrap().remove_first);
    let unchanged = JloggerBuilder::new().log_file(None).build();
    assert!(unchanged.file_plan.is_none());
}

#[test]
fn registry_rejects_a_second_install() {
    let mut registry = LoggerRegistry::new();
    assert!(registry.install().is_ok());
    assert_eq!(registry.install(), Err(InstallError::AlreadyInstalled));
    assert!(registry.installed);
}

#[test]
fn rebuild_without_append_keeps_only_the_second_run() {
    let first = JloggerBuilder::new()
        .log_file(Some(("/tmp/p.log", false)))
        .build()
        .file_plan
        .unwrap();
    let mut file = first.open_result(b"stale".to_vec());
    append_bytes(&mut file, b"first run");
    let second = JloggerBuilder::new()
        .log_file(Some(("/tmp/p.log", false)))
        .build()
        .file_plan
        .unwrap();
    file = second.open_result(file);
    append_bytes(&mut file, b"second run");
    assert_eq!(file, b"second run".to_vec());
}

#[test]
fn rebuild_with_append_concatenates_both_runs() {
    let first = JloggerBuilder::new()
        .log_file(Some(("/tmp/p.log", false)))
        .build()
        .file_plan
        .unwrap();
    let mut file = first.open_result(Vec::new());
    append_bytes(&mut file, b"first run;");
    let second = JloggerBuilder::new()
        .log_file(Some(("/tmp/p.log", true)))
        .build()
        .file_plan
        .unwrap();
    file = second.open_result(file);
    append_bytes(&mut file, b"second run");
    assert_eq!(file, b"first run;second run".to_vec());
}

#[test]
fn info_record_renders_exactly() {
    let config = JloggerMakeWriter::new(false, true, LevelFilter::INFO);
    let line = process_record(&config, None, LevelFilter::INFO, "", Some("worker"), "hello");
    assert_eq!(line.unwrap(), "INFO  worker : hello");
}

#[test]
fn debug_record_under_info_prints_nothing() {
    let config = JloggerMakeWriter::new(false, true, LevelFilter::INFO);
    let line = process_record(&config, None, LevelFilter::DEBUG, "", Some("worker"), "hello");
    assert!(line.is_none());
}

#[test]
fn override_emits_a_debug_record_under_error() {
    let config = JloggerMakeWriter::new(false, true, LevelFilter::ERROR);
    let line = process_record(
        &config,
        Some("debug"),
        LevelFilter::DEBUG,
        "",
        None,
        "dynamic",
    );
    assert_eq!(line.unwrap(), "DEBUG : dynamic");
}

#[test]
fn assembled_line_with_time_and_no_tag() {
    let line = assemble_line("9080.163365118", LevelFilter::DEBUG, None, "this is debug");
    assert_eq!(line, "9080.163365118 DEBUG : this is debug");
    let bare = assemble_line("", LevelFilter::ERROR, None, "boom");
    assert_eq!(bare, "ERROR : boom");
}
