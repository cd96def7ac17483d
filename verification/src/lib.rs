//! A process-local logging facade: level filtering with a runtime override,
//! timestamp rendering, log-line assembly, and dual-destination dispatch.
//!
//! The crate holds the decision and formatting core. A host wires it to its
//! log backbone: it reads the status text, the override variable and the
//! clock, performs the planned file actions, and delivers the assembled
//! bytes.

use vstd::prelude::*;

pub mod boot;
pub mod level;
pub mod line;
pub mod text;
pub mod timer;
pub mod writer;

pub use level::LevelFilter;
pub use timer::JloggerTimer;
pub use timer::LogTimeFormat;
pub use writer::JloggerMakeWriter;
pub use writer::JloggerWriter;

use crate::line::{assemble_line, line_text};

verus! {

/// Whether scope enter and exit events are also emitted by the backbone;
/// pass-through configuration.
#[derive(Debug, PartialEq, Eq, Structural, Clone, Copy)]
pub enum SpanEventPolicy {
    /// No scope events.
    SpanNone,
    /// An event when a scope is created.
    SpanNew,
    /// An event on each scope entry.
    SpanEnter,
    /// An event on each scope exit.
    SpanExit,
    /// An event when a scope closes.
    SpanClose,
    /// Entry and exit events.
    SpanActive,
    /// All scope events.
    SpanFull,
}

/// The planned file action of a `build`: the destination path, and whether a
/// pre-existing file there is removed before opening (append disabled).
pub struct FilePlan {
    pub path: String,
    pub remove_first: bool,
}

impl FilePlan {
    /// The file bytes right after this plan's open step: cleared when the
    /// plan removes a pre-existing file first, kept in full otherwise.
    pub open spec fn contents_after_open(self, prior: Seq<u8>) -> Seq<u8> {
        if self.remove_first {
            Seq::<u8>::empty()
        } else {
            prior
        }
    }

    /// The open step of this plan, on the modelled file bytes.
    pub fn open_result(&self, prior: Vec<u8>) -> (r: Vec<u8>)
        ensures
            r@ == self.contents_after_open(prior@),
    {
        if self.remove_first {
            Vec::new()
        } else {
            prior
        }
    }
}

/// The file bytes after one record's bytes are appended.
pub open spec fn contents_after_write(cur: Seq<u8>, written: Seq<u8>) -> Seq<u8> {
    cur + written
}

/// One appending write, on the modelled file bytes.
pub fn append_bytes(cur: &mut Vec<u8>, written: &[u8])
    ensures
        final(cur)@ == contents_after_write(old(cur)@, written@),
{
    let mut i: usize = 0;
    while i < written.len()
        invariant
            i <= written@.len(),
            cur@ == old(cur)@ + written@.subrange(0, i as int),
        decreases written@.len() - i,
    {
        cur.push(written[i]);
        i = i + 1;
        proof {
            assert(cur@ =~= old(cur)@ + written@.subrange(0, i as int));
        }
    }
    proof {
        assert(cur@ =~= contents_after_write(old(cur)@, written@));
    }
}

/// Building twice against one path: with append disabled on the second
/// build only the second run's bytes remain; with append enabled the two
/// runs' bytes stand concatenated in call order.
pub proof fn lemma_append_semantics(
    prior: Seq<u8>,
    first: FilePlan,
    w1: Seq<u8>,
    second: FilePlan,
    w2: Seq<u8>,
)
    requires
        first.remove_first,
    ensures
        second.remove_first ==> contents_after_write(
            second.contents_after_open(contents_after_write(first.contents_after_open(prior), w1)),
            w2,
        ) =~= w2,
        !second.remove_first ==> contents_after_write(
            second.contents_after_open(contents_after_write(first.contents_after_open(prior), w1)),
            w2,
        ) =~= w1 + w2,
{
}

/// Everything a `build` decides, for the host to carry out: the sink
/// configuration, the planned file action, the timer format, whether lines
/// carry a runtime tag, the scope-event policy, and the level the backbone
/// itself is set to. The backbone level is always `TRACE`, so that the
/// sink's own gate, which honors the runtime override, stays the sole
/// authority.
pub struct BuildPlan {
    pub writer_config: JloggerMakeWriter,
    pub file_plan: Option<FilePlan>,
    pub time_format: LogTimeFormat,
    pub show_runtime: bool,
    pub span_events: SpanEventPolicy,
    pub backbone_level: LevelFilter,
}

/// Accumulates the logger configuration; every setter returns the updated
/// builder and `build` consumes it.
pub struct JloggerBuilder {
    pub max_level: LevelFilter,
    pub log_console: bool,
    pub log_file: Option<String>,
    pub log_file_append: bool,
    pub log_runtime: bool,
    pub time_format: LogTimeFormat,
    pub span_events: SpanEventPolicy,
}

impl JloggerBuilder {
    /// A builder with the default configuration: level `INFO`, console on,
    /// no file, append on, no runtime tag, no time prefix, no scope events.
    pub fn new() -> (r: Self)
        ensures
            r.max_level == LevelFilter::INFO,
            r.log_console == true,
            r.log_file is None,
            r.log_file_append == true,
            r.log_runtime == false,
            r.time_format == LogTimeFormat::TimeNone,
            r.span_events == SpanEventPolicy::SpanNone,
    {
        JloggerBuilder {
            max_level: LevelFilter::INFO,
            log_console: true,
            log_file: None,
            log_file_append: true,
            log_runtime: false,
            time_format: LogTimeFormat::TimeNone,
            span_events: SpanEventPolicy::SpanNone,
        }
    }

    /// Sets the maximum level to be output. Records above it are suppressed,
    /// and at run time the `JLOGGER_LEVEL` override takes precedence.
    pub fn max_level(self, max_level: LevelFilter) -> (r: Self)
        ensures
            r == (JloggerBuilder { max_level, ..self }),
    {
        JloggerBuilder { max_level, ..self }
    }

    /// Enables or disables the console destination.
    pub fn log_console(self, log_console: bool) -> (r: Self)
        ensures
            r == (JloggerBuilder { log_console, ..self }),
    {
        JloggerBuilder { log_console, ..self }
    }

    /// Sets the log file destination as a path and an append flag; with
    /// append disabled, a pre-existing file at the path is removed at build
    /// time. `None` leaves the file configuration unchanged.
    pub fn log_file(self, log_file: Option<(&str, bool)>) -> (r: Self)
        ensures
            r.max_level == self.max_level,
            r.log_console == self.log_console,
            r.log_runtime == self.log_runtime,
            r.time_format == self.time_format,
            r.span_events == self.span_events,
            match log_file {
                Some(f) => r.log_file matches Some(p) && p@ == f.0@ && r.log_file_append == f.1,
                None => r.log_file == self.log_file && r.log_file_append == self.log_file_append,
            },
    {
        match log_file {
            Some((path, append)) => JloggerBuilder {
                log_file: Some(path.to_owned()),
                log_file_append: append,
                ..self
            },
            None => self,
        }
    }

    /// Enables or disables the runtime tag (the emitting thread's name, or
    /// the process name when unset) in every record.
    pub fn log_runtime(self, log_runtime: bool) -> (r: Self)
        ensures
            r == (JloggerBuilder { log_runtime, ..self }),
    {
        JloggerBuilder { log_runtime, ..self }
    }

    /// Sets the time prefix format.
    pub fn log_time(self, time_format: LogTimeFormat) -> (r: Self)
        ensures
            r == (JloggerBuilder { time_format, ..self }),
    {
        JloggerBuilder { time_format, ..self }
    }

    /// Sets the scope-event policy passed through to the backbone.
    pub fn tracing_span_event(self, span_events: SpanEventPolicy) -> (r: Self)
        ensures
            r == (JloggerBuilder { span_events, ..self }),
    {
        JloggerBuilder { span_events, ..self }
    }

    /// Consumes the builder into the plan the host carries out. The sink
    /// keeps the configured level as its own gate, while the backbone is
    /// asked for everything (`TRACE`), so the runtime override can take
    /// effect without reconfiguring the backbone.
    pub fn build(self) -> (plan: BuildPlan)
        ensures
            plan.writer_config.log_file == self.log_file is Some,
            plan.writer_config.log_console == self.log_console,
            plan.writer_config.max_level == self.max_level,
            match self.log_file {
                Some(p) => plan.file_plan matches Some(fp) && fp.path@ == p@ && fp.remove_first
                    == !self.log_file_append,
                None => plan.file_plan is None,
            },
            plan.time_format == self.time_format,
            plan.show_runtime == self.log_runtime,
            plan.span_events == self.span_events,
            plan.backbone_level == LevelFilter::TRACE,
    {
        let has_file: bool = self.log_file.is_some();
        let file_plan: Option<FilePlan> = match self.log_file {
            Some(path) => Some(FilePlan { path, remove_first: !self.log_file_append }),
            None => None,
        };
        BuildPlan {
            writer_config: JloggerMakeWriter::new(has_file, self.log_console, self.max_level),
            file_plan,
            time_format: self.time_format,
            show_runtime: self.log_runtime,
            span_events: self.span_events,
            backbone_level: LevelFilter::TRACE,
        }
    }
}

impl Default for JloggerBuilder {
    /// The default configuration, as `new` gives it.
    fn default() -> (r: Self)
        ensures
            r.max_level == LevelFilter::INFO,
            r.log_console == true,
            r.log_file is None,
            r.log_file_append == true,
            r.log_runtime == false,
            r.time_format == LogTimeFormat::TimeNone,
            r.span_events == SpanEventPolicy::SpanNone,
    {
        JloggerBuilder::new()
    }
}

/// The error a second installation attempt returns.
#[derive(Debug, PartialEq, Eq, Structural, Clone, Copy)]
pub enum InstallError {
    /// A global logger is already installed in this registry.
    AlreadyInstalled,
}

/// The one-shot registration slot for the process-wide logger: set at most
/// once; a second attempt is rejected rather than overwriting.
pub struct LoggerRegistry {
    pub installed: bool,
}

impl LoggerRegistry {
    /// A fresh, empty registration slot.
    pub fn new() -> (r: LoggerRegistry)
        ensures
            !r.installed,
    {
        LoggerRegistry { installed: false }
    }

    /// Claims the slot: succeeds exactly on the first call, and the slot
    /// stays taken forever after.
    pub fn install(&mut self) -> (r: Result<(), InstallError>)
        ensures
            final(self).installed,
            r is Ok <==> !old(self).installed,
            r is Err ==> r == Err::<(), InstallError>(InstallError::AlreadyInstalled),
    {
        if self.installed {
            Err(InstallError::AlreadyInstalled)
        } else {
            self.installed = true;
            Ok(())
        }
    }
}

/// Runs one record through the pipeline: the sink gate decides against the
/// effective level, and a passing record with at least one destination
/// yields the assembled line; otherwise nothing is output.
pub fn process_record(
    config: &JloggerMakeWriter,
    env_override: Option<&str>,
    record_level: LevelFilter,
    time_prefix: &str,
    runtime_tag: Option<&str>,
    message: &str,
) -> (r: Option<String>)
    ensures
        ({
            let w = config.writer_for(
                record_level,
                match env_override {
                    Some(s) => Some(s@),
                    None => None,
                },
            );
            if w.delivers() {
                r matches Some(out) && out@ == line_text(
                    time_prefix@,
                    record_level,
                    match runtime_tag {
                        Some(t) => Some(t@),
                        None => None,
                    },
                    message@,
                )
            } else {
                r is None
            }
        }),
{
    let w: JloggerWriter = config.make_writer_for(record_level, env_override);
    if w.has_destination() {
        Some(assemble_line(time_prefix, record_level, runtime_tag, message))
    } else {
        None
    }
}

} // verus!
