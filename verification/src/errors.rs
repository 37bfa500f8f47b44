//! Typed errors of the orchestration layer, and the bounded input prefix
//! attached to parse failures for diagnostics. No error is ever retried.

use vstd::prelude::*;
use vstd::string::StrSliceExecFns;

verus! {

/// How many characters of the offending input a parse error carries.
pub const INPUT_PREFIX_MAX_CHARS: usize = 500;

/// A failure of one run. Surfaced once to the caller, never retried.
#[derive(Debug)]
pub enum NestingError {
    /// The instance text does not parse into the expected schema; carries
    /// the parse diagnostic and a bounded prefix of the offending input.
    MalformedInput {
        /// The underlying parse diagnostic.
        detail: String,
        /// The first characters of the offending input.
        input_prefix: String,
    },
    /// Schema-valid input rejected by the importer's validation, or an
    /// instance whose quantities or areas exceed the representable range.
    ImportFailure {
        /// The collaborator-provided detail.
        detail: String,
    },
    /// The asynchronous dispatch of the blocking run could not complete;
    /// distinct from an optimization failure.
    JoinFailure {
        /// What the dispatcher reported.
        detail: String,
    },
}

/// The first `max` characters of `s`, or all of `s` when it is shorter.
pub open spec fn spec_bounded_prefix(s: Seq<char>, max: int) -> Seq<char> {
    if s.len() <= max {
        s
    } else {
        s.subrange(0, max)
    }
}

/// Takes the bounded prefix of `s` used in parse diagnostics.
pub fn bounded_prefix(s: &str, max: usize) -> (p: String)
    ensures
        p@ == spec_bounded_prefix(s@, max as int),
{
    let n = s.unicode_len();
    let cut: usize = if n < max {
        n
    } else {
        max
    };
    let pre = s.substring_char(0, cut);
    proof {
        if s@.len() <= max {
            assert(s@.subrange(0, cut as int) =~= s@);
        }
    }
    pre.to_owned()
}

} // verus!
