//! Log levels: a totally ordered filter enum, parsed from lowercase text.

use vstd::prelude::*;

verus! {

/// A verbosity threshold, from most restrictive (`OFF`: nothing passes)
/// to least restrictive (`TRACE`: everything passes).
#[derive(Debug, PartialEq, Eq, Structural, PartialOrd, Clone, Copy)]
pub enum LevelFilter {
    OFF,
    ERROR,
    WARN,
    INFO,
    DEBUG,
    TRACE,
}

impl LevelFilter {
    /// Position of this level in the total order; `OFF` is lowest.
    pub open spec fn severity(self) -> nat {
        match self {
            LevelFilter::OFF => 0,
            LevelFilter::ERROR => 1,
            LevelFilter::WARN => 2,
            LevelFilter::INFO => 3,
            LevelFilter::DEBUG => 4,
            LevelFilter::TRACE => 5,
        }
    }

    /// The severity rank as a machine integer.
    pub fn rank(self) -> (r: u8)
        ensures
            r == self.severity(),
    {
        match self {
            LevelFilter::OFF => 0,
            LevelFilter::ERROR => 1,
            LevelFilter::WARN => 2,
            LevelFilter::INFO => 3,
            LevelFilter::DEBUG => 4,
            LevelFilter::TRACE => 5,
        }
    }

    /// Whether `self` is at most as verbose as `other` in the level order.
    pub fn le(self, other: Self) -> (r: bool)
        ensures
            r == (self.severity() <= other.severity()),
    {
        self.rank() <= other.rank()
    }
}

/// The level a text value denotes. Parsing is total: every string
/// outside the six recognized tokens denotes `OFF` (fail-safe closed).
pub open spec fn level_of_text(s: Seq<char>) -> LevelFilter {
    if s == "off"@ {
        LevelFilter::OFF
    } else if s == "error"@ {
        LevelFilter::ERROR
    } else if s == "warn"@ {
        LevelFilter::WARN
    } else if s == "info"@ {
        LevelFilter::INFO
    } else if s == "debug"@ {
        LevelFilter::DEBUG
    } else if s == "trace"@ {
        LevelFilter::TRACE
    } else {
        LevelFilter::OFF
    }
}

/// Whether a text value is one of the six recognized level tokens.
pub open spec fn is_level_token(s: Seq<char>) -> bool {
    s == "off"@ || s == "error"@ || s == "warn"@ || s == "info"@ || s == "debug"@ || s
        == "trace"@
}

/// Exec equality on string slices, stated over their views.
pub fn str_eq(a: &str, b: &str) -> (r: bool)
    ensures
        r == (a@ == b@),
{
    let oa: String = a.to_owned();
    let ob: String = b.to_owned();
    oa == ob
}

impl LevelFilter {
    /// Parse a level from text; unrecognized input maps to `OFF`.
    pub fn from_text(s: &str) -> (r: LevelFilter)
        ensures
            r == level_of_text(s@),
    {
        if str_eq(s, "off") {
            LevelFilter::OFF
        } else if str_eq(s, "error") {
            LevelFilter::ERROR
        } else if str_eq(s, "warn") {
            LevelFilter::WARN
        } else if str_eq(s, "info") {
            LevelFilter::INFO
        } else if str_eq(s, "debug") {
            LevelFilter::DEBUG
        } else if str_eq(s, "trace") {
            LevelFilter::TRACE
        } else {
            LevelFilter::OFF
        }
    }
}

/// The canonical lowercase token for a level: the text that parses back to it.
pub open spec fn canonical_of(l: LevelFilter) -> Seq<char> {
    match l {
        LevelFilter::OFF => "off"@,
        LevelFilter::ERROR => "error"@,
        LevelFilter::WARN => "warn"@,
        LevelFilter::INFO => "info"@,
        LevelFilter::DEBUG => "debug"@,
        LevelFilter::TRACE => "trace"@,
    }
}

/// The tag a log line carries for a level: its name, left-justified in a
/// five-character field.
pub open spec fn tag_of(l: LevelFilter) -> Seq<char> {
    match l {
        LevelFilter::OFF => "OFF  "@,
        LevelFilter::ERROR => "ERROR"@,
        LevelFilter::WARN => "WARN "@,
        LevelFilter::INFO => "INFO "@,
        LevelFilter::DEBUG => "DEBUG"@,
        LevelFilter::TRACE => "TRACE"@,
    }
}

impl LevelFilter {
    /// The canonical lowercase token for this level.
    pub fn canonical_text(self) -> (r: &'static str)
        ensures
            r@ == canonical_of(self),
    {
        match self {
            LevelFilter::OFF => "off",
            LevelFilter::ERROR => "error",
            LevelFilter::WARN => "warn",
            LevelFilter::INFO => "info",
            LevelFilter::DEBUG => "debug",
            LevelFilter::TRACE => "trace",
        }
    }

    /// The five-character tag for this level.
    pub fn tag(self) -> (r: &'static str)
        ensures
            r@ == tag_of(self),
    {
        match self {
            LevelFilter::OFF => "OFF  ",
            LevelFilter::ERROR => "ERROR",
            LevelFilter::WARN => "WARN ",
            LevelFilter::INFO => "INFO ",
            LevelFilter::DEBUG => "DEBUG",
            LevelFilter::TRACE => "TRACE",
        }
    }
}

/// Parsing is total and fail-safe closed: every text value denotes exactly
/// one level, and one outside the six recognized tokens denotes `OFF`.
pub proof fn lemma_parse_total(s: Seq<char>)
    ensures
        !is_level_token(s) ==> level_of_text(s) == LevelFilter::OFF,
        is_level_token(s) ==> canonical_of(level_of_text(s)) == s,
{
    reveal_strlit("off");
    reveal_strlit("error");
    reveal_strlit("warn");
    reveal_strlit("info");
    reveal_strlit("debug");
    reveal_strlit("trace");
}

/// Round trip: parsing a level's canonical token yields that level again,
/// for all six values.
pub proof fn lemma_canonical_round_trip(l: LevelFilter)
    ensures
        level_of_text(canonical_of(l)) == l,
{
    reveal_strlit("off");
    reveal_strlit("error");
    reveal_strlit("warn");
    reveal_strlit("info");
    reveal_strlit("debug");
    reveal_strlit("trace");
    assert("off"@.len() == 3);
    assert("error"@.len() == 5);
    assert("warn"@.len() == 4);
    assert("info"@.len() == 4);
    assert("debug"@.len() == 5);
    assert("trace"@.len() == 5);
    assert("error"@[0] == 'e' && "debug"@[0] == 'd' && "trace"@[0] == 't');
    assert("warn"@[0] == 'w' && "info"@[0] == 'i');
    match l {
        LevelFilter::OFF => assert(level_of_text(canonical_of(l)) == l),
        LevelFilter::ERROR => assert(level_of_text(canonical_of(l)) == l),
        LevelFilter::WARN => assert(level_of_text(canonical_of(l)) == l),
        LevelFilter::INFO => assert(level_of_text(canonical_of(l)) == l),
        LevelFilter::DEBUG => assert(level_of_text(canonical_of(l)) == l),
        LevelFilter::TRACE => assert(level_of_text(canonical_of(l)) == l),
    }
}

impl From<String> for LevelFilter {
    /// Parse a level from an owned text value; unrecognized input maps to `OFF`.
    fn from(s: String) -> (r: LevelFilter) {
        LevelFilter::from_text(s.as_str())
    }
}

impl vstd::std_specs::convert::FromSpecImpl<String> for LevelFilter {
    open spec fn obeys_from_spec() -> bool {
        true
    }

    open spec fn from_spec(s: String) -> LevelFilter {
        level_of_text(s@)
    }
}

} // verus!
