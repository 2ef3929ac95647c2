//! The part of a request path that names a resource.

use vstd::prelude::*;

verus! {

/// The text of an optional string.
pub open spec fn opt_text(s: Option<String>) -> Option<Seq<char>> {
    match s {
        Some(t) => Some(t@),
        None => None,
    }
}

/// The text of an optional string slice.
pub open spec fn opt_str_text(s: Option<&str>) -> Option<Seq<char>> {
    match s {
        Some(t) => Some(t@),
        None => None,
    }
}

/// A request path, split into the resource type it addresses and the id of
/// one instance of that type.
#[derive(Debug, PartialEq, Eq)]
pub struct ParsedPath {
    /// The resource type.
    pub controller: Option<String>,
    /// The resource instance.
    pub id: Option<String>,
}

/// What a `ParsedPath` holds, as text.
pub struct ParsedPathView {
    pub controller: Option<Seq<char>>,
    pub id: Option<Seq<char>>,
}

impl View for ParsedPath {
    type V = ParsedPathView;

    open spec fn view(&self) -> ParsedPathView {
        ParsedPathView { controller: opt_text(self.controller), id: opt_text(self.id) }
    }
}

/// A copy of an optional string.
pub fn clone_opt_text(s: &Option<String>) -> (copy: Option<String>)
    ensures
        opt_text(copy) == opt_text(*s),
{
    match s {
        Some(t) => Some(t.clone()),
        None => None,
    }
}

impl Clone for ParsedPath {
    fn clone(&self) -> (copy: ParsedPath)
        ensures
            copy@ == self@,
    {
        ParsedPath { controller: clone_opt_text(&self.controller), id: clone_opt_text(&self.id) }
    }
}

impl ParsedPath {
    /// A path made of the given parts.
    pub fn new(controller: Option<String>, id: Option<String>) -> (path: ParsedPath)
        ensures
            path@.controller == opt_text(controller),
            path@.id == opt_text(id),
    {
        ParsedPath { controller, id }
    }
}

} // verus!
