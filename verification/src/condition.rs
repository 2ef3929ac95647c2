//! The conditions that a grant can carry, and how each is decided.
//!
//! A condition is stored as a name and a literal. The name selects an
//! attribute of the resource; the condition compares that attribute with the
//! subject of the request as the literal directs.

use crate::error::AuthzError;
use crate::path::opt_str_text;
use crate::text::decimal_string;
use crate::text::decimal_text;
use crate::text::text_eq;
use vstd::prelude::*;

verus! {

/// The kind of literal that a condition is stored with.
#[derive(Clone, Copy, Debug, PartialEq, Eq, Structural)]
pub enum ConditionValueType {
    /// `"true"` or `"false"`.
    Boolean,
}

/// The value type that a literal belongs to, if it belongs to one.
pub open spec fn value_type_of(literal: Seq<char>) -> Result<ConditionValueType, AuthzError> {
    if literal == "true"@ || literal == "false"@ {
        Ok(ConditionValueType::Boolean)
    } else {
        Err(AuthzError::UnsupportedConditionValue)
    }
}

impl vstd::std_specs::convert::TryFromSpecImpl<&str> for ConditionValueType {
    open spec fn obeys_try_from_spec() -> bool {
        true
    }

    open spec fn try_from_spec(value: &str) -> Result<Self, AuthzError> {
        value_type_of(value@)
    }
}

impl TryFrom<&str> for ConditionValueType {
    type Error = AuthzError;

    fn try_from(value: &str) -> (r: Result<Self, AuthzError>)
        ensures
            r == value_type_of(value@),
    {
        if text_eq(value, "true") || text_eq(value, "false") {
            Ok(ConditionValueType::Boolean)
        } else {
            Err(AuthzError::UnsupportedConditionValue)
        }
    }
}

/// A predicate over an attribute of the resource, the subject of the request
/// and the literal stored with the condition.
pub trait Condition<'a> {
    /// What `validate` decides.
    spec fn validates(
        &self,
        attribute: Option<i32>,
        subject: Option<Seq<char>>,
        condition_value: Seq<char>,
    ) -> bool;

    /// What `get_value_type` returns.
    spec fn value_type(&self) -> ConditionValueType;

    /// Validates the condition based on subject and value.
    fn validate(
        &self,
        attribute: Option<i32>,
        subject: Option<&'a str>,
        condition_value: &'a str,
    ) -> (valid: bool)
        ensures
            valid == self.validates(attribute, opt_str_text(subject), condition_value@),
    ;

    /// Returns the value type of the condition.
    fn get_value_type(&self) -> (t: ConditionValueType)
        ensures
            t == self.value_type(),
    ;
}

/// When the owner condition holds. It needs a subject. With the literal
/// `"true"` the attribute must be there and be written as the subject is; with
/// `"false"` it must be missing or be written otherwise; any other literal
/// lets every subject pass.
pub open spec fn owner_validates(
    attribute: Option<i32>,
    subject: Option<Seq<char>>,
    condition_value: Seq<char>,
) -> bool {
    match subject {
        None => false,
        Some(who) => {
            if condition_value == "true"@ {
                attribute is Some && who == decimal_text(attribute->0 as int)
            } else if condition_value == "false"@ {
                attribute is None || who != decimal_text(attribute->0 as int)
            } else {
                true
            }
        },
    }
}

/// When the login condition holds: whenever there is a subject.
pub open spec fn login_validates(subject: Option<Seq<char>>) -> bool {
    subject is Some
}

/// The subject owns the resource.
#[derive(Clone, Copy, Debug)]
pub struct Owner;

impl<'a> Condition<'a> for Owner {
    open spec fn validates(
        &self,
        attribute: Option<i32>,
        subject: Option<Seq<char>>,
        condition_value: Seq<char>,
    ) -> bool {
        owner_validates(attribute, subject, condition_value)
    }

    open spec fn value_type(&self) -> ConditionValueType {
        ConditionValueType::Boolean
    }

    fn validate(&self, attr: Option<i32>, subject: Option<&'a str>, condition_value: &'a str) -> (valid:
        bool) {
        let Some(subject) = subject else {
            return false;
        };
        if text_eq(condition_value, "true") {
            match attr {
                Some(owner) => text_eq(subject, decimal_string(owner as i64).as_str()),
                None => false,
            }
        } else if text_eq(condition_value, "false") {
            match attr {
                Some(owner) => !text_eq(subject, decimal_string(owner as i64).as_str()),
                None => true,
            }
        } else {
            true
        }
    }

    fn get_value_type(&self) -> (t: ConditionValueType) {
        ConditionValueType::Boolean
    }
}

/// The request comes from a known subject.
#[derive(Clone, Copy, Debug)]
pub struct Login;

impl<'a> Condition<'a> for Login {
    open spec fn validates(
        &self,
        attribute: Option<i32>,
        subject: Option<Seq<char>>,
        condition_value: Seq<char>,
    ) -> bool {
        login_validates(subject)
    }

    open spec fn value_type(&self) -> ConditionValueType {
        ConditionValueType::Boolean
    }

    fn validate(&self, _attr: Option<i32>, subject: Option<&'a str>, _condition_value: &'a str) -> (valid:
        bool) {
        subject.is_some()
    }

    fn get_value_type(&self) -> (t: ConditionValueType) {
        ConditionValueType::Boolean
    }
}

/// The attributes that a condition can name.
#[derive(Clone, Copy, Debug, PartialEq, Eq, Structural)]
pub enum ModelAttrib {
    /// The account that owns the resource; named `isOwner`.
    Owner,
    /// Nothing of the resource: the condition only asks for a subject; named
    /// `isLoggedIn`.
    Login,
}

/// The attribute that a condition name stands for, if it stands for one.
pub open spec fn attrib_of(name: Seq<char>) -> Result<ModelAttrib, AuthzError> {
    if name == "isOwner"@ {
        Ok(ModelAttrib::Owner)
    } else if name == "isLoggedIn"@ {
        Ok(ModelAttrib::Login)
    } else {
        Err(AuthzError::UnknownConditionName)
    }
}

impl vstd::std_specs::convert::TryFromSpecImpl<&str> for ModelAttrib {
    open spec fn obeys_try_from_spec() -> bool {
        true
    }

    open spec fn try_from_spec(value: &str) -> Result<Self, AuthzError> {
        attrib_of(value@)
    }
}

impl TryFrom<&str> for ModelAttrib {
    type Error = AuthzError;

    fn try_from(value: &str) -> (r: Result<Self, AuthzError>)
        ensures
            r == attrib_of(value@),
    {
        if text_eq(value, "isOwner") {
            Ok(ModelAttrib::Owner)
        } else if text_eq(value, "isLoggedIn") {
            Ok(ModelAttrib::Login)
        } else {
            Err(AuthzError::UnknownConditionName)
        }
    }
}

/// The condition that decides on an attribute.
#[derive(Clone, Copy, Debug)]
pub enum ModelAttribResult {
    /// Decides on `ModelAttrib::Owner`.
    Owner(Owner),
    /// Decides on `ModelAttrib::Login`.
    Login(Login),
}

/// What the condition for `attrib` decides.
pub open spec fn attrib_validates(
    attrib: ModelAttrib,
    attribute: Option<i32>,
    subject: Option<Seq<char>>,
    condition_value: Seq<char>,
) -> bool {
    match attrib {
        ModelAttrib::Owner => owner_validates(attribute, subject, condition_value),
        ModelAttrib::Login => login_validates(subject),
    }
}

impl ModelAttribResult {
    /// The attribute that this condition decides on.
    pub open spec fn attrib(self) -> ModelAttrib {
        match self {
            ModelAttribResult::Owner(_) => ModelAttrib::Owner,
            ModelAttribResult::Login(_) => ModelAttrib::Login,
        }
    }
}

impl<'a> Condition<'a> for ModelAttribResult {
    open spec fn validates(
        &self,
        attribute: Option<i32>,
        subject: Option<Seq<char>>,
        condition_value: Seq<char>,
    ) -> bool {
        attrib_validates(self.attrib(), attribute, subject, condition_value)
    }

    open spec fn value_type(&self) -> ConditionValueType {
        ConditionValueType::Boolean
    }

    fn validate(
        &self,
        attribute: Option<i32>,
        subject: Option<&'a str>,
        condition_value: &'a str,
    ) -> (valid: bool) {
        match self {
            ModelAttribResult::Owner(owner) => owner.validate(attribute, subject, condition_value),
            ModelAttribResult::Login(login) => login.validate(attribute, subject, condition_value),
        }
    }

    fn get_value_type(&self) -> (t: ConditionValueType) {
        match self {
            ModelAttribResult::Owner(owner) => owner.get_value_type(),
            ModelAttribResult::Login(login) => login.get_value_type(),
        }
    }
}

impl vstd::std_specs::convert::FromSpecImpl<ModelAttrib> for ModelAttribResult {
    open spec fn obeys_from_spec() -> bool {
        true
    }

    open spec fn from_spec(value: ModelAttrib) -> ModelAttribResult {
        match value {
            ModelAttrib::Owner => ModelAttribResult::Owner(Owner {  }),
            ModelAttrib::Login => ModelAttribResult::Login(Login {  }),
        }
    }
}

impl From<ModelAttrib> for ModelAttribResult {
    fn from(value: ModelAttrib) -> (condition: ModelAttribResult)
        ensures
            condition.attrib() == value,
    {
        match value {
            ModelAttrib::Owner => ModelAttribResult::Owner(Owner {  }),
            ModelAttrib::Login => ModelAttribResult::Login(Login {  }),
        }
    }
}

} // verus!
