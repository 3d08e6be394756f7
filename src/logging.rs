//! Choice of the logging level.

use vstd::prelude::*;
use vstd::string::StringExecFns;

verus! {

/// The levels that a `RUST_LOG` value from the environment may keep.
pub open spec fn known_level(v: Seq<char>) -> bool {
    v == "error"@ || v == "warn"@ || v == "info"@ || v == "debug"@ || v == "trace"@
}

/// The level in force: the one requested on the command line, else the one
/// from the environment when it is known, else `off`.
pub open spec fn effective_log_level(
    env_value: Option<Seq<char>>,
    requested: Option<Seq<char>>,
) -> Seq<char> {
    match requested {
        Some(level) => level,
        None => match env_value {
            Some(v) => if known_level(v) {
                v
            } else {
                "off"@
            },
            None => "off"@,
        },
    }
}

fn is_known_level(v: &String) -> (r: bool)
    ensures
        r == known_level(v@),
{
    *v == String::from_str("error") || *v == String::from_str("warn") || *v == String::from_str(
        "info",
    ) || *v == String::from_str("debug") || *v == String::from_str("trace")
}

/// Resolves the logging level from the environment's value and the requested one.
pub fn log_level(env_value: Option<String>, requested: Option<String>) -> (r: String)
    ensures
        r@ == effective_log_level(
            match env_value {
                Some(v) => Some(v@),
                None => None,
            },
            match requested {
                Some(l) => Some(l@),
                None => None,
            },
        ),
{
    match requested {
        Some(level) => level,
        None => match env_value {
            Some(v) => if is_known_level(&v) {
                v
            } else {
                String::from_str("off")
            },
            None => String::from_str("off"),
        },
    }
}

} // verus!
