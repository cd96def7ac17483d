//! Log-line assembly: time prefix, level tag, optional runtime tag, message.

use vstd::prelude::*;

use crate::level::{tag_of, LevelFilter};

verus! {

/// The full text of one log line:
/// `[<time-prefix> ][<LEVEL, 5 chars> ][<runtime-tag> ]: <message>`,
/// where the time segment appears only when the prefix is nonempty and the
/// runtime segment only when a tag is present.
pub open spec fn line_text(
    time_prefix: Seq<char>,
    level: LevelFilter,
    runtime_tag: Option<Seq<char>>,
    message: Seq<char>,
) -> Seq<char> {
    (if time_prefix.len() > 0 {
        time_prefix + seq![' ']
    } else {
        Seq::<char>::empty()
    }) + tag_of(level) + seq![' '] + (match runtime_tag {
        Some(t) => t + seq![' '],
        None => Seq::<char>::empty(),
    }) + seq![':', ' '] + message
}

/// Assembles one log line from its already-rendered parts.
pub fn assemble_line(
    time_prefix: &str,
    level: LevelFilter,
    runtime_tag: Option<&str>,
    message: &str,
) -> (r: String)
    ensures
        r@ == line_text(
            time_prefix@,
            level,
            match runtime_tag {
                Some(t) => Some(t@),
                None => None,
            },
            message@,
        ),
{
    proof {
        reveal_strlit(" ");
        reveal_strlit(": ");
        assert(" "@.len() == 1);
        assert(": "@.len() == 2);
    }
    let mut out: String = String::new();
    if !time_prefix.is_empty() {
        out.append(time_prefix);
        out.append(" ");
    }
    out.append(level.tag());
    out.append(" ");
    match runtime_tag {
        Some(t) => {
            out.append(t);
            out.append(" ");
        },
        None => {},
    }
    out.append(": ");
    out.append(message);
    proof {
        assert(" "@ =~= seq![' ']);
        assert(": "@ =~= seq![':', ' ']);
        assert(out@ =~= line_text(
            time_prefix@,
            level,
            match runtime_tag {
                Some(t) => Some(t@),
                None => None,
            },
            message@,
        ));
    }
    out
}

} // verus!
