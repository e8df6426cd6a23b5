//! The lines that a measurement is reported with.
//!
//! A measured label gets one line for the standard output,
//! `<label>: <milliseconds>ms`, followed by ` - <message>` where a message
//! goes with it. A label that was not found gets one line for the error
//! stream, `Timer '<label>' does not exist`. Asking for silence drops the
//! first kind of line and never the second.

use vstd::prelude::*;
use vstd::string::StringExecFns;

verus! {

/// What is to be written for one measurement.
#[derive(Debug, PartialEq, Eq)]
pub enum Output {
    /// Nothing.
    Quiet,
    /// This line, on the standard output.
    Stdout(String),
    /// This line, on the error stream.
    Stderr(String),
}

/// The line for a label that was measured. `millis` is the elapsed time in
/// milliseconds as it is to be shown.
pub open spec fn measured_line(
    label: Seq<char>,
    millis: Seq<char>,
    message: Option<Seq<char>>,
) -> Seq<char> {
    match message {
        Some(text) => label + ": "@ + millis + "ms"@ + " - "@ + text,
        None => label + ": "@ + millis + "ms"@,
    }
}

/// The line for a label that was not found.
pub open spec fn missing_line(label: Seq<char>) -> Seq<char> {
    "Timer '"@ + label + "' does not exist"@
}

/// The characters of an optional piece of text.
pub open spec fn text_of(text: Option<&str>) -> Option<Seq<char>> {
    match text {
        Some(text) => Some(text@),
        None => None,
    }
}

/// Decides what is written for one measurement of `label`.
///
/// `millis` is the elapsed time in milliseconds as it is to be shown, or
/// `None` where the label was not found. `message` is an optional note to put
/// behind the time. `silent` asks for no line on the standard output.
pub fn report(label: &str, millis: Option<&str>, message: Option<&str>, silent: bool) -> (out: Output)
    ensures
        millis is None ==> (out matches Output::Stderr(line) && line@ == missing_line(label@)),
        millis is Some && silent ==> out is Quiet,
        millis is Some && !silent ==> (out matches Output::Stdout(line) && line@ == measured_line(
            label@,
            millis->0@,
            text_of(message),
        )),
{
    match millis {
        None => {
            let mut line = String::from_str("Timer '");
            line.append(label);
            line.append("' does not exist");
            Output::Stderr(line)
        },
        Some(shown) => {
            if silent {
                Output::Quiet
            } else {
                let mut line = String::from_str(label);
                line.append(": ");
                line.append(shown);
                line.append("ms");
                match message {
                    Some(text) => {
                        line.append(" - ");
                        line.append(text);
                    },
                    None => {},
                }
                Output::Stdout(line)
            }
        },
    }
}

} // verus!
