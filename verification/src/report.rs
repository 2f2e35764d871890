//! The one-line diagnostic that goes with each failure.

use vstd::prelude::*;
use vstd::string::*;
use crate::log::CONFIG_PATH;
use crate::status::Failure;

verus! {

/// The system's error text, or nothing where the system gave none.
pub open spec fn detail_text(detail: Option<Seq<char>>) -> Seq<char> {
    match detail {
        Some(text) => text,
        None => Seq::empty(),
    }
}

/// The diagnostic for failure `f`: it names the step that failed, the file or
/// program concerned, and ends with the system's error text where the system
/// gave one. A target that ended without a status gets no diagnostic.
///
/// For a missing configuration file `detail` tells whether an empty file could
/// be created in its place: it holds the error text where it could not.
pub open spec fn diagnostic_text(
    f: Failure,
    log_path: Seq<char>,
    program: Seq<char>,
    detail: Option<Seq<char>>,
) -> Option<Seq<char>> {
    let err = detail_text(detail);
    match f {
        Failure::ConfigMissing => match detail {
            None => Some(
                "you need to put a path to the program you want to proxy to "@ + CONFIG_PATH@,
            ),
            Some(text) => Some(
                "you need to create a file at "@ + CONFIG_PATH@ + ". couldn't create it: "@ + text,
            ),
        },
        Failure::ConfigUnreadable => Some("couldn't open the config file: "@ + err),
        Failure::ConfigMultipleLines => Some(CONFIG_PATH@ + " contains more than one line"@),
        Failure::ConfigEmpty => Some(CONFIG_PATH@ + " is empty. add a target program path"@),
        Failure::LogCreate => Some("couldn't create a log file at "@ + log_path + ": "@ + err),
        Failure::LogHeader => Some("couldn't write to log "@ + log_path + ": "@ + err),
        Failure::Spawn => Some("couldn't spawn "@ + program + ": "@ + err),
        Failure::Relay => Some("cannot log stdout: "@ + err),
        Failure::Wait => Some("failed to start "@ + program + ": "@ + err),
        Failure::NoStatus => None,
    }
}

/// The view of an optional text.
pub open spec fn opt_text(text: Option<String>) -> Option<Seq<char>> {
    match text {
        Some(t) => Some(t@),
        None => None,
    }
}

/// `head`, then `subject`, then `sep`, then `tail`.
fn compose(head: &str, subject: &str, sep: &str, tail: &str) -> (r: String)
    ensures
        r@ == head@ + subject@ + sep@ + tail@,
{
    let mut out = String::from_str(head);
    out.append(subject);
    out.append(sep);
    out.append(tail);
    out
}

/// The diagnostic for failure `f` of a run that logs to `log_path` and starts
/// `program`, with the system's error text `detail` where there is one.
pub fn diagnostic(f: Failure, log_path: &str, program: &str, detail: &Option<String>) -> (r: Option<
    String,
>)
    ensures
        opt_text(r) == diagnostic_text(f, log_path@, program@, opt_text(*detail)),
{
    let err: &str = match detail {
        Some(text) => text.as_str(),
        None => "",
    };
    proof {
        reveal_strlit("");
        assert(""@ =~= Seq::<char>::empty());
    }
    let r = match f {
        Failure::ConfigMissing => match detail {
            None => Some(
                compose(
                    "you need to put a path to the program you want to proxy to ",
                    CONFIG_PATH,
                    "",
                    "",
                ),
            ),
            Some(text) => Some(
                compose(
                    "you need to create a file at ",
                    CONFIG_PATH,
                    ". couldn't create it: ",
                    text.as_str(),
                ),
            ),
        },
        Failure::ConfigUnreadable => Some(compose("couldn't open the config file: ", "", "", err)),
        Failure::ConfigMultipleLines => Some(
            compose("", CONFIG_PATH, " contains more than one line", ""),
        ),
        Failure::ConfigEmpty => Some(
            compose("", CONFIG_PATH, " is empty. add a target program path", ""),
        ),
        Failure::LogCreate => Some(compose("couldn't create a log file at ", log_path, ": ", err)),
        Failure::LogHeader => Some(compose("couldn't write to log ", log_path, ": ", err)),
        Failure::Spawn => Some(compose("couldn't spawn ", program, ": ", err)),
        Failure::Relay => Some(compose("cannot log stdout: ", "", "", err)),
        Failure::Wait => Some(compose("failed to start ", program, ": ", err)),
        Failure::NoStatus => None,
    };
    proof {
        let want = diagnostic_text(f, log_path@, program@, opt_text(*detail));
        if r is Some {
            assert(want is Some);
            assert(r->Some_0@ =~= want->Some_0);
        }
    }
    r
}

} // verus!
