//! The faults an authorization check can end in.

use vstd::prelude::*;

verus! {

/// Why a request was not allowed.
#[derive(Clone, Copy, Debug, PartialEq, Eq, Structural)]
pub enum AuthzError {
    /// The request lacks the resource type, or the resource id that the
    /// conditions of its grants have to be evaluated on.
    InvalidRequestShape,
    /// A stored condition carries a name that is no known attribute.
    UnknownConditionName,
    /// A condition literal is of no known value type.
    UnsupportedConditionValue,
    /// The resource type has no attribute provider.
    UnsupportedResourceType,
    /// Storage could not be read.
    StorageUnavailable,
    /// The subject holds no grant that authorizes the request.
    PermissionDenied,
}

impl AuthzError {
    /// The code under which the fault is reported to the caller.
    pub open spec fn code_text(self) -> Seq<char> {
        match self {
            AuthzError::InvalidRequestShape => "AUTHZ_INVALID_REQUEST"@,
            AuthzError::UnknownConditionName => "MODEL_ATTRIBUTE_NOT_DEFINED"@,
            AuthzError::UnsupportedConditionValue => "AUTHZ_CONDITION_VALUE_NOT_DEFINED"@,
            AuthzError::UnsupportedResourceType => "AUTHZ_RESOURCE_NOT_SUPPORTED"@,
            AuthzError::StorageUnavailable => "AUTHZ_STORAGE_UNAVAILABLE"@,
            AuthzError::PermissionDenied => "AUTHZ_PERMISSION_DENIED"@,
        }
    }

    /// The code under which the fault is reported to the caller.
    pub fn code(&self) -> (code: &'static str)
        ensures
            code@ == self.code_text(),
    {
        match self {
            AuthzError::InvalidRequestShape => "AUTHZ_INVALID_REQUEST",
            AuthzError::UnknownConditionName => "MODEL_ATTRIBUTE_NOT_DEFINED",
            AuthzError::UnsupportedConditionValue => "AUTHZ_CONDITION_VALUE_NOT_DEFINED",
            AuthzError::UnsupportedResourceType => "AUTHZ_RESOURCE_NOT_SUPPORTED",
            AuthzError::StorageUnavailable => "AUTHZ_STORAGE_UNAVAILABLE",
            AuthzError::PermissionDenied => "AUTHZ_PERMISSION_DENIED",
        }
    }
}

} // verus!
