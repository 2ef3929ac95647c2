//! Resource instances as the conditions see them: a closed set of resource
//! types, each exposing named attributes.

use crate::condition::ModelAttrib;
use crate::error::AuthzError;
use crate::text::text_eq;
use vstd::prelude::*;

verus! {

/// A resource instance that conditions can be evaluated on.
pub trait ModelPermission {
    /// What `get_attr` returns.
    spec fn attr(&self, name: ModelAttrib) -> Option<i32>;

    /// The value of the attribute `name` on this instance, if it has one.
    fn get_attr(&self, name: ModelAttrib) -> (value: Option<i32>)
        ensures
            value == self.attr(name),
    ;
}

/// A user, as far as authorization reads it.
#[derive(Clone, Copy, Debug, PartialEq, Eq, Structural)]
pub struct User {
    /// The account that the user belongs to.
    pub account_id: i32,
}

impl ModelPermission for User {
    open spec fn attr(&self, name: ModelAttrib) -> Option<i32> {
        match name {
            ModelAttrib::Owner => Some(self.account_id),
            ModelAttrib::Login => None,
        }
    }

    fn get_attr(&self, name: ModelAttrib) -> (value: Option<i32>) {
        match name {
            ModelAttrib::Owner => Some(self.account_id),
            ModelAttrib::Login => None,
        }
    }
}

/// An organization, as far as authorization reads it.
#[derive(Clone, Copy, Debug, PartialEq, Eq, Structural)]
pub struct Organization {
    /// The account that owns the organization.
    pub owner_account_id: i32,
}

impl ModelPermission for Organization {
    open spec fn attr(&self, name: ModelAttrib) -> Option<i32> {
        match name {
            ModelAttrib::Owner => Some(self.owner_account_id),
            ModelAttrib::Login => None,
        }
    }

    fn get_attr(&self, name: ModelAttrib) -> (value: Option<i32>) {
        match name {
            ModelAttrib::Owner => Some(self.owner_account_id),
            ModelAttrib::Login => None,
        }
    }
}

/// The resource types that have an attribute provider.
#[derive(Clone, Copy, Debug, PartialEq, Eq, Structural)]
pub enum ResourceKind {
    /// Stored under the tag `user`.
    User,
    /// Stored under the tag `organization`.
    Organization,
}

/// The resource type that a tag names, if it names one.
pub open spec fn kind_of(tag: Seq<char>) -> Result<ResourceKind, AuthzError> {
    if tag == "user"@ {
        Ok(ResourceKind::User)
    } else if tag == "organization"@ {
        Ok(ResourceKind::Organization)
    } else {
        Err(AuthzError::UnsupportedResourceType)
    }
}

impl ResourceKind {
    /// The resource type that `tag` names.
    pub fn from_tag(tag: &str) -> (kind: Result<ResourceKind, AuthzError>)
        ensures
            kind == kind_of(tag@),
    {
        if text_eq(tag, "user") {
            Ok(ResourceKind::User)
        } else if text_eq(tag, "organization") {
            Ok(ResourceKind::Organization)
        } else {
            Err(AuthzError::UnsupportedResourceType)
        }
    }
}

/// Which instance to load: its type and its id.
#[derive(Clone, Copy, Debug, PartialEq, Eq, Structural)]
pub struct ModelRequest {
    /// The resource type.
    pub kind: ResourceKind,
    /// The id of the instance.
    pub id: u32,
}

/// The key under which storage holds the account or the instance with the
/// number `id`: keys are signed, so the upper half of the numbers has none.
pub open spec fn storage_key(id: u32) -> Option<i32> {
    if id <= i32::MAX {
        Some(id as i32)
    } else {
        None
    }
}

/// The key under which storage holds the number `id`, if it holds it at all.
pub fn key_of(id: u32) -> (key: Option<i32>)
    ensures
        key == storage_key(id),
{
    if id <= 0x7fff_ffff {
        Some(id as i32)
    } else {
        None
    }
}

impl ModelRequest {
    /// The key of the instance in storage.
    pub fn key(&self) -> (key: Option<i32>)
        ensures
            key == storage_key(self.id),
    {
        key_of(self.id)
    }
}

/// One instance of any of the known resource types.
#[derive(Clone, Copy, Debug, PartialEq, Eq, Structural)]
pub enum ResourceModel {
    User(User),
    Organization(Organization),
}

impl ResourceModel {
    /// The resource type of this instance.
    pub open spec fn kind_spec(self) -> ResourceKind {
        match self {
            ResourceModel::User(_) => ResourceKind::User,
            ResourceModel::Organization(_) => ResourceKind::Organization,
        }
    }

    /// The resource type of this instance.
    pub fn kind(&self) -> (kind: ResourceKind)
        ensures
            kind == self.kind_spec(),
    {
        match self {
            ResourceModel::User(_) => ResourceKind::User,
            ResourceModel::Organization(_) => ResourceKind::Organization,
        }
    }
}

impl ModelPermission for ResourceModel {
    open spec fn attr(&self, name: ModelAttrib) -> Option<i32> {
        match self {
            ResourceModel::User(user) => user.attr(name),
            ResourceModel::Organization(organization) => organization.attr(name),
        }
    }

    fn get_attr(&self, name: ModelAttrib) -> (value: Option<i32>) {
        match self {
            ResourceModel::User(user) => user.get_attr(name),
            ResourceModel::Organization(organization) => organization.get_attr(name),
        }
    }
}

} // verus!
