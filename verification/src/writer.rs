//! Sink dispatch: per-record level gating with a runtime override, destination
//! selection, and the byte count reported for a dual-destination write.

use vstd::prelude::*;

use crate::level::{level_of_text, LevelFilter};

verus! {

/// A per-record byte sink: each flag enables one destination.
#[derive(Debug, PartialEq, Eq, Structural, Clone, Copy)]
pub struct JloggerWriter {
    pub log_file: bool,
    pub log_console: bool,
}

impl JloggerWriter {
    /// Whether this writer delivers bytes anywhere at all.
    pub open spec fn delivers(self) -> bool {
        self.log_file || self.log_console
    }

    /// Whether this writer delivers bytes anywhere at all.
    pub fn has_destination(&self) -> (r: bool)
        ensures
            r == self.delivers(),
    {
        self.log_file || self.log_console
    }
}

/// The byte count a dual-destination write reports, given the counts the file
/// and console destinations returned (zero standing for an inactive
/// destination) and the length of the buffer written. With both destinations
/// active it is the smaller of the two counts; with one, that destination's
/// count; with none, the full buffer length, as a successful no-op.
pub open spec fn reported_count_spec(file_written: int, console_written: int, buf_len: int) -> int {
    if file_written > 0 && console_written > 0 {
        if file_written <= console_written {
            file_written
        } else {
            console_written
        }
    } else if file_written > 0 {
        file_written
    } else if console_written > 0 {
        console_written
    } else {
        buf_len
    }
}

/// The byte count a dual-destination write reports.
pub fn reported_count(file_written: usize, console_written: usize, buf_len: usize) -> (r: usize)
    ensures
        r == reported_count_spec(file_written as int, console_written as int, buf_len as int),
{
    if file_written > 0 && console_written > 0 {
        if file_written <= console_written {
            file_written
        } else {
            console_written
        }
    } else if file_written > 0 {
        file_written
    } else if console_written > 0 {
        console_written
    } else {
        buf_len
    }
}

/// Whether a record at `record` passes a gate whose threshold is `threshold`.
/// `OFF` as a threshold passes nothing, and no record carries `OFF` itself.
pub open spec fn record_passes(record: LevelFilter, threshold: LevelFilter) -> bool {
    1 <= record.severity() && record.severity() <= threshold.severity()
}

/// Whether a record at `record` passes a gate whose threshold is `threshold`.
pub fn record_enabled(record: LevelFilter, threshold: LevelFilter) -> (r: bool)
    ensures
        r == record_passes(record, threshold),
{
    1 <= record.rank() && record.le(threshold)
}

/// The threshold actually used for a gating decision: the level the override
/// text denotes when an override is present, else the configured level.
pub open spec fn effective_level_spec(env: Option<Seq<char>>, configured: LevelFilter) -> LevelFilter {
    match env {
        Some(s) => level_of_text(s),
        None => configured,
    }
}

/// The threshold actually used for a gating decision.
pub fn effective_level(env: Option<&str>, configured: LevelFilter) -> (r: LevelFilter)
    ensures
        r == effective_level_spec(
            match env {
                Some(s) => Some(s@),
                None => None,
            },
            configured,
        ),
{
    match env {
        Some(s) => LevelFilter::from_text(s),
        None => configured,
    }
}

/// The sink configuration: which destinations exist and the configured
/// maximum level. Yields one `JloggerWriter` per record.
#[derive(Debug, PartialEq, Eq, Structural, Clone, Copy)]
pub struct JloggerMakeWriter {
    pub log_file: bool,
    pub log_console: bool,
    pub max_level: LevelFilter,
}

impl JloggerMakeWriter {
    /// The writer handed out for a record that passed the level check.
    pub open spec fn full_writer(self) -> JloggerWriter {
        JloggerWriter { log_file: self.log_file, log_console: self.log_console }
    }

    /// The writer handed out for a record, gated by the effective level:
    /// the full writer when the record passes, a discarding writer otherwise.
    pub open spec fn writer_for(self, record: LevelFilter, env: Option<Seq<char>>) -> JloggerWriter {
        if record_passes(record, effective_level_spec(env, self.max_level)) {
            self.full_writer()
        } else {
            JloggerWriter { log_file: false, log_console: false }
        }
    }

    pub fn new(log_file: bool, log_console: bool, max_level: LevelFilter) -> (r: Self)
        ensures
            r == (JloggerMakeWriter { log_file, log_console, max_level }),
    {
        JloggerMakeWriter { log_file, log_console, max_level }
    }

    /// The ungated writer: both configured destinations enabled.
    pub fn make_writer(&self) -> (w: JloggerWriter)
        ensures
            w == self.full_writer(),
    {
        JloggerWriter { log_file: self.log_file, log_console: self.log_console }
    }

    /// The writer for one record: the override text (if any) or the configured
    /// level sets the threshold, and a record below it gets a writer that
    /// discards everything.
    pub fn make_writer_for(&self, record: LevelFilter, env: Option<&str>) -> (w: JloggerWriter)
        ensures
            w == self.writer_for(
                record,
                match env {
                    Some(s) => Some(s@),
                    None => None,
                },
            ),
    {
        let threshold: LevelFilter = effective_level(env, self.max_level);
        if record_enabled(record, threshold) {
            self.make_writer()
        } else {
            JloggerWriter { log_file: false, log_console: false }
        }
    }
}

/// Strictness orders suppression: a record at level `b` is suppressed under any
/// threshold `a` stricter than `b`, and emitted under `b` itself or any
/// looser threshold.
pub proof fn lemma_level_gate(a: LevelFilter, b: LevelFilter)
    requires
        a.severity() < b.severity(),
    ensures
        !record_passes(b, a),
        record_passes(b, b),
        forall|c: LevelFilter| c.severity() >= b.severity() ==> record_passes(b, c),
{
}

/// A present override takes precedence over the configured level, whatever
/// both say; absent, the configured level alone decides.
pub proof fn lemma_override_precedence(text: Seq<char>, configured: LevelFilter)
    ensures
        effective_level_spec(Some(text), configured) == level_of_text(text),
        effective_level_spec(None, configured) == configured,
{
}

} // verus!
