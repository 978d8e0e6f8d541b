//! The reporter: decides which line, if any, to print after an event.
//!
//! It compares the mute flag of the default source before the event with the
//! one after it and emits at most one line per event. A line is printed
//! exactly when the two differ; losing the default source is itself a
//! reported change.

use vstd::prelude::*;

verus! {

/// The one line printed when the effective mute state changes.
#[derive(Clone, Copy, Debug, PartialEq, Eq, Structural)]
pub enum ReportLine {
    Muted,
    Unmuted,
    NoDefault,
}

/// What the reporter emits for a transition of the default source's mute
/// flag: nothing when the flag is unchanged, otherwise the line named by the
/// new flag (`None` meaning the default source is gone).
pub open spec fn report_spec(old_mute: Option<bool>, new_mute: Option<bool>) -> Option<ReportLine> {
    if new_mute == old_mute {
        None
    } else {
        match new_mute {
            Some(true) => Some(ReportLine::Muted),
            Some(false) => Some(ReportLine::Unmuted),
            None => Some(ReportLine::NoDefault),
        }
    }
}

/// Decide the line to print for a mute-flag transition, if any.
pub fn report(old_mute: Option<bool>, new_mute: Option<bool>) -> (r: Option<ReportLine>)
    ensures
        r == report_spec(old_mute, new_mute),
{
    match (old_mute, new_mute) {
        (Some(o), Some(n)) if o == n => None,
        (None, None) => None,
        (_, Some(true)) => Some(ReportLine::Muted),
        (_, Some(false)) => Some(ReportLine::Unmuted),
        (_, None) => Some(ReportLine::NoDefault),
    }
}

/// The exact text of a report line, the library's sole observable output.
pub open spec fn line_text_spec(line: ReportLine) -> Seq<char> {
    match line {
        ReportLine::Muted => "MUTED"@,
        ReportLine::Unmuted => "UNMUTED"@,
        ReportLine::NoDefault => "No default source"@,
    }
}

/// The text to print for a report line.
pub fn line_text(line: ReportLine) -> (r: &'static str)
    ensures
        r@ == line_text_spec(line),
{
    match line {
        ReportLine::Muted => "MUTED",
        ReportLine::Unmuted => "UNMUTED",
        ReportLine::NoDefault => "No default source",
    }
}

} // verus!
