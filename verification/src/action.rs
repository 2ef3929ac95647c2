//! The action that a request asks for.

use crate::path::ParsedPath;
use crate::text::text_eq;
use vstd::prelude::*;

verus! {

/// What a request wants to do with a resource.
#[derive(Clone, Copy, Debug, PartialEq, Eq, Structural)]
pub enum Action {
    /// `POST` on a resource type: make a new instance.
    Create,
    /// `POST` on an instance: change it.
    Edit,
    /// `DELETE` on an instance: remove it.
    Delete,
    /// Anything else: look at the instance, or at the type as a whole.
    View,
}

/// The action that a request of the given method asks for, on a path that
/// does or does not name an instance. Methods are compared letter for letter;
/// every pair that names no change is a `View`.
pub open spec fn resolve_action(id_present: bool, method: Seq<char>) -> Action {
    if method == "POST"@ {
        if id_present {
            Action::Edit
        } else {
            Action::Create
        }
    } else if method == "DELETE"@ && id_present {
        Action::Delete
    } else {
        Action::View
    }
}

impl Action {
    /// The name under which grants for this action are stored.
    pub open spec fn name(self) -> Seq<char> {
        match self {
            Action::Create => "create"@,
            Action::Edit => "edit"@,
            Action::Delete => "delete"@,
            Action::View => "view"@,
        }
    }

    /// Whether the action is aimed at one existing instance.
    pub open spec fn needs_instance(self) -> bool {
        self == Action::Edit || self == Action::Delete
    }

    /// The action for a method and the presence of a resource id.
    pub fn resolve(id_present: bool, method: &str) -> (action: Action)
        ensures
            action == resolve_action(id_present, method@),
    {
        if text_eq(method, "POST") {
            if id_present {
                Action::Edit
            } else {
                Action::Create
            }
        } else if id_present && text_eq(method, "DELETE") {
            Action::Delete
        } else {
            Action::View
        }
    }

    /// The action that a request on `path` with `method` asks for.
    pub fn from_auth_z(path: &ParsedPath, method: &str) -> (action: Action)
        ensures
            action == resolve_action(path@.id is Some, method@),
    {
        Action::resolve(path.id.is_some(), method)
    }

    /// The name under which grants for this action are stored.
    pub fn as_str(self) -> (name: &'static str)
        ensures
            name@ == self.name(),
    {
        match self {
            Action::Create => "create",
            Action::Edit => "edit",
            Action::Delete => "delete",
            Action::View => "view",
        }
    }
}

impl vstd::std_specs::convert::FromSpecImpl<Action> for &'static str {
    open spec fn obeys_from_spec() -> bool {
        true
    }

    open spec fn from_spec(val: Action) -> &'static str {
        match val {
            Action::Create => "create",
            Action::Edit => "edit",
            Action::Delete => "delete",
            Action::View => "view",
        }
    }
}

impl From<Action> for &'static str {
    fn from(val: Action) -> (name: &'static str)
        ensures
            name@ == val.name(),
    {
        match val {
            Action::Create => "create",
            Action::Edit => "edit",
            Action::Delete => "delete",
            Action::View => "view",
        }
    }
}

/// An action aimed at one instance is only ever resolved from a path that
/// names one, and a path that names one never resolves to `Create`.
pub proof fn lemma_instance_actions_have_id(id_present: bool, method: Seq<char>)
    ensures
        resolve_action(id_present, method).needs_instance() ==> id_present,
        resolve_action(id_present, method) == Action::Create ==> !id_present,
{
}

/// The resolver's table, for every method and either kind of path: `POST`
/// edits the instance that the path names and creates one where it names
/// none; `DELETE` deletes the instance that the path names; every other
/// request, `GET` among them, views.
pub proof fn lemma_resolve_table(id_present: bool, method: Seq<char>)
    ensures
        method == "POST"@ && id_present ==> resolve_action(id_present, method) == Action::Edit,
        method == "POST"@ && !id_present ==> resolve_action(id_present, method) == Action::Create,
        method == "DELETE"@ && id_present ==> resolve_action(id_present, method) == Action::Delete,
        method == "DELETE"@ && !id_present ==> resolve_action(id_present, method) == Action::View,
        method != "POST"@ && method != "DELETE"@ ==> resolve_action(id_present, method)
            == Action::View,
        resolve_action(id_present, "GET"@) == Action::View,
{
    reveal_strlit("GET");
    reveal_strlit("POST");
    reveal_strlit("DELETE");
    assert("POST"@.len() == 4);
    assert("DELETE"@.len() == 6);
}

} // verus!
