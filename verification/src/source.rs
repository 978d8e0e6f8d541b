//! A cached audio input source: the attributes the watcher keeps per source.

use vstd::prelude::*;

verus! {

/// The mathematical value of a cached source: its name and mute flag.
pub ghost struct SourceView {
    pub name: Seq<char>,
    pub mute: bool,
}

/// The cached attributes of one audio input source, keyed elsewhere by the
/// server-assigned identifier.
#[derive(Debug)]
pub struct SourceDatum {
    pub name: String,
    pub mute: bool,
}

impl Clone for SourceDatum {
    fn clone(&self) -> (r: Self)
        ensures
            r@ == self@,
    {
        SourceDatum { name: self.name.clone(), mute: self.mute }
    }
}

impl View for SourceDatum {
    type V = SourceView;

    open spec fn view(&self) -> SourceView {
        SourceView { name: self.name@, mute: self.mute }
    }
}

impl SourceDatum {
    /// Build a record from a source's name and mute flag.
    pub fn new(name: String, mute: bool) -> (r: Self)
        ensures
            r@ == (SourceView { name: name@, mute }),
    {
        SourceDatum { name, mute }
    }
}

/// The name to cache for a source as the server reported it: the reported
/// name, or `"unknown"` when the server reported none.
pub fn reported_name(name: Option<String>) -> (r: String)
    ensures
        r@ == match name {
            None => "unknown"@,
            Some(n) => n@,
        },
{
    match name {
        None => String::from_str("unknown"),
        Some(n) => n,
    }
}

} // verus!
