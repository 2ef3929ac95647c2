//! Grants and conditions as they are taken in and handed out.

use crate::condition::attrib_of;
use crate::condition::value_type_of;
use crate::condition::Condition;
use crate::condition::ConditionValueType;
use crate::condition::ModelAttrib;
use crate::condition::ModelAttribResult;
use crate::error::AuthzError;
use crate::path::clone_opt_text;
use crate::path::opt_str_text;
use crate::path::opt_text;
use uuid::Uuid;
use vstd::prelude::*;

verus! {

/// The identifier of a grant towards the outside. Nothing is known of an
/// identifier but whether two are the same.
#[verifier::external_type_specification]
#[verifier::external_body]
pub struct ExUuid(uuid::Uuid);

/// A condition as a client names it: an attribute and the literal to hold
/// it against.
#[derive(Debug, PartialEq, Eq)]
pub struct SimpleCondition {
    name: String,
    value: Option<String>,
}

/// What a `SimpleCondition` holds, as text.
pub struct SimpleConditionView {
    pub name: Seq<char>,
    pub value: Option<Seq<char>>,
}

/// Whether a condition can be stored with a grant: its name has to be that of
/// a known attribute, and it has to carry a literal of the value type that
/// the condition on this attribute takes.
pub open spec fn validated(condition: SimpleConditionView) -> Result<(), AuthzError> {
    match attrib_of(condition.name) {
        Err(fault) => Err(fault),
        Ok(_) => match condition.value {
            None => Err(AuthzError::UnsupportedConditionValue),
            Some(literal) => match value_type_of(literal) {
                Err(fault) => Err(fault),
                Ok(_) => Ok(()),
            },
        },
    }
}

impl View for SimpleCondition {
    type V = SimpleConditionView;

    closed spec fn view(&self) -> SimpleConditionView {
        SimpleConditionView { name: self.name@, value: opt_text(self.value) }
    }
}

impl Clone for SimpleCondition {
    fn clone(&self) -> (copy: SimpleCondition)
        ensures
            copy@ == self@,
    {
        SimpleCondition { name: self.name.clone(), value: clone_opt_text(&self.value) }
    }
}

impl SimpleCondition {
    /// The condition on `name` with the literal `value`.
    pub fn new(name: String, value: Option<String>) -> (condition: SimpleCondition)
        ensures
            condition@.name == name@,
            condition@.value == opt_text(value),
    {
        SimpleCondition { name, value }
    }

    /// The name of the attribute.
    pub fn name(&self) -> (name: &str)
        ensures
            name@ == self@.name,
    {
        self.name.as_str()
    }

    /// The literal, if the condition carries one.
    pub fn value(&self) -> (value: Option<&str>)
        ensures
            opt_str_text(value) == self@.value,
    {
        match &self.value {
            Some(literal) => Some(literal.as_str()),
            None => None,
        }
    }

    /// Checks that the condition can be stored with a grant.
    pub fn validate(&self) -> (checked: Result<(), AuthzError>)
        ensures
            checked == validated(self@),
    {
        let attrib = match ModelAttrib::try_from(self.name.as_str()) {
            Ok(attrib) => attrib,
            Err(fault) => {
                return Err(fault);
            },
        };
        let expected = ModelAttribResult::from(attrib).get_value_type();
        match &self.value {
            None => Err(AuthzError::UnsupportedConditionValue),
            Some(literal) => match ConditionValueType::try_from(literal.as_str()) {
                Err(fault) => Err(fault),
                Ok(found) => {
                    if found == expected {
                        Ok(())
                    } else {
                        Err(AuthzError::UnsupportedConditionValue)
                    }
                },
            },
        }
    }
}

/// A grant as it is stored: a subject may do an action on the resources of
/// one type.
#[derive(Debug, PartialEq, Eq)]
pub struct Permission {
    /// The key of the grant in storage.
    pub id: i32,
    /// The identifier of the grant towards the outside.
    pub uuid: Uuid,
    /// Who is granted.
    pub subject: String,
    /// The resource type.
    pub object: String,
    /// The action.
    pub action: String,
}

impl Clone for Permission {
    fn clone(&self) -> (copy: Permission)
        ensures
            copy.id == self.id,
            copy.uuid == self.uuid,
            copy.subject@ == self.subject@,
            copy.object@ == self.object@,
            copy.action@ == self.action@,
    {
        Permission {
            id: self.id,
            uuid: self.uuid,
            subject: self.subject.clone(),
            object: self.object.clone(),
            action: self.action.clone(),
        }
    }
}

/// A grant as it is shown: without its key in storage.
#[derive(Eq, Ord, Hash, Debug, PartialEq, PartialOrd)]
pub struct SimplePermission {
    uuid: Uuid,
    subject: String,
    object: String,
    action: String,
}

impl Clone for SimplePermission {
    fn clone(&self) -> (copy: SimplePermission)
        ensures
            copy.uuid_spec() == self.uuid_spec(),
            copy.subject_text() == self.subject_text(),
            copy.object_text() == self.object_text(),
            copy.action_text() == self.action_text(),
    {
        SimplePermission {
            uuid: self.uuid,
            subject: self.subject.clone(),
            object: self.object.clone(),
            action: self.action.clone(),
        }
    }
}

impl SimplePermission {
    /// The identifier of the grant.
    pub closed spec fn uuid_spec(&self) -> Uuid {
        self.uuid
    }

    /// Who is granted.
    pub closed spec fn subject_text(&self) -> Seq<char> {
        self.subject@
    }

    /// The resource type.
    pub closed spec fn object_text(&self) -> Seq<char> {
        self.object@
    }

    /// The action.
    pub closed spec fn action_text(&self) -> Seq<char> {
        self.action@
    }

    /// The identifier of the grant.
    pub fn uuid(&self) -> (uuid: &Uuid)
        ensures
            *uuid == self.uuid_spec(),
    {
        &self.uuid
    }

    /// Who is granted.
    pub fn subject(&self) -> (subject: &str)
        ensures
            subject@ == self.subject_text(),
    {
        self.subject.as_str()
    }

    /// The resource type.
    pub fn object(&self) -> (object: &str)
        ensures
            object@ == self.object_text(),
    {
        self.object.as_str()
    }

    /// The action.
    pub fn action(&self) -> (action: &str)
        ensures
            action@ == self.action_text(),
    {
        self.action.as_str()
    }
}

impl vstd::std_specs::convert::FromSpecImpl<Permission> for SimplePermission {
    open spec fn obeys_from_spec() -> bool {
        true
    }

    closed spec fn from_spec(value: Permission) -> SimplePermission {
        SimplePermission {
            uuid: value.uuid,
            subject: value.subject,
            object: value.object,
            action: value.action,
        }
    }
}

impl From<Permission> for SimplePermission {
    fn from(value: Permission) -> (shown: SimplePermission)
        ensures
            shown.uuid_spec() == value.uuid,
            shown.subject_text() == value.subject@,
            shown.object_text() == value.object@,
            shown.action_text() == value.action@,
    {
        Self {
            uuid: value.uuid,
            subject: value.subject,
            object: value.object,
            action: value.action,
        }
    }
}

} // verus!
