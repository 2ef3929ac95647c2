//! The authorization decision.
//!
//! A check runs in up to three steps, and between the steps storage is read:
//! first the grants of the subject for the resource type and the action, then,
//! if those grants carry conditions, the resource instance that the
//! conditions are evaluated on. The controller decides; whoever drives it
//! reads storage and writes the audit record that a refusal carries.

use crate::action::resolve_action;
use crate::action::Action;
use crate::audit::AuditRecord;
use crate::audit::AuditRecordView;
use crate::condition::attrib_of;
use crate::condition::attrib_validates;
use crate::condition::Condition;
use crate::condition::ModelAttrib;
use crate::condition::ModelAttribResult;
use crate::error::AuthzError;
use crate::model::key_of;
use crate::model::kind_of;
use crate::model::storage_key;
use crate::model::ModelPermission;
use crate::model::ModelRequest;
use crate::model::ResourceKind;
use crate::path::opt_text;
use crate::path::ParsedPath;
use crate::path::ParsedPathView;
use crate::text::decimal_string;
use crate::text::decimal_text;
use crate::text::parse_u32;
use crate::text::parse_u32_spec;
use vstd::pervasive::cloned;
use vstd::prelude::*;

verus! {

/// A condition as it is stored with a grant.
#[derive(Debug, PartialEq, Eq)]
pub struct StoredCondition {
    /// The name of the attribute that the condition is about.
    pub name: String,
    /// The literal that the attribute is held against.
    pub value: String,
}

/// What a `StoredCondition` holds, as text.
pub struct StoredConditionView {
    pub name: Seq<char>,
    pub value: Seq<char>,
}

impl View for StoredCondition {
    type V = StoredConditionView;

    open spec fn view(&self) -> StoredConditionView {
        StoredConditionView { name: self.name@, value: self.value@ }
    }
}

impl StoredCondition {
    /// The condition `name` with the literal `value`.
    pub fn new(name: String, value: String) -> (condition: StoredCondition)
        ensures
            condition@.name == name@,
            condition@.value == value@,
    {
        StoredCondition { name, value }
    }
}

/// The texts of a list of stored conditions, in the order of the list.
pub open spec fn conditions_text(conditions: Seq<StoredCondition>) -> Seq<StoredConditionView> {
    conditions.map_values(|c: StoredCondition| c@)
}

/// What storage holds for one subject, resource type and action: the ids of
/// the grants, and the conditions of all those grants in storage order.
#[derive(Debug, PartialEq, Eq)]
pub struct GrantLookup {
    /// The ids of the matching grants.
    pub permissions: Vec<i32>,
    /// The conditions attached to the matching grants.
    pub conditions: Vec<StoredCondition>,
}

/// What a `GrantLookup` holds, as text.
pub struct GrantLookupView {
    pub permissions: Seq<i32>,
    pub conditions: Seq<StoredConditionView>,
}

impl View for GrantLookup {
    type V = GrantLookupView;

    open spec fn view(&self) -> GrantLookupView {
        GrantLookupView {
            permissions: self.permissions@,
            conditions: conditions_text(self.conditions@),
        }
    }
}

impl GrantLookup {
    /// What storage holds where it holds no grant.
    pub fn empty() -> (lookup: GrantLookup)
        ensures
            lookup@.permissions.len() == 0,
            lookup@.conditions.len() == 0,
    {
        GrantLookup { permissions: Vec::new(), conditions: Vec::new() }
    }
}

/// The grants to look for.
#[derive(Debug, PartialEq, Eq)]
pub struct GrantQuery {
    /// The subject; `None` for a request that nobody signed.
    pub account_id: Option<u32>,
    /// The resource type.
    pub object: String,
    /// The action asked for.
    pub action: Action,
}

/// What a `GrantQuery` holds, as text.
pub struct GrantQueryView {
    pub account_id: Option<u32>,
    pub object: Seq<char>,
    pub action: Action,
}

impl View for GrantQuery {
    type V = GrantQueryView;

    open spec fn view(&self) -> GrantQueryView {
        GrantQueryView { account_id: self.account_id, object: self.object@, action: self.action }
    }
}

impl GrantQuery {
    /// The key of the subject's account in storage. A request that nobody
    /// signed has none, and so has a subject beyond the range of the keys:
    /// storage holds no grant for either.
    pub fn account_key(&self) -> (key: Option<i32>)
        ensures
            key == match self.account_id {
                Some(id) => storage_key(id),
                None => None,
            },
    {
        match self.account_id {
            Some(id) => key_of(id),
            None => None,
        }
    }
}

/// One request to be authorized.
#[derive(Debug)]
pub struct CheckRequest {
    /// What is recorded if the request is refused.
    pub detail: AuditRecord,
    /// The subject; `None` for a request that nobody signed.
    pub account_id: Option<u32>,
    /// The resource that the request addresses.
    pub path: ParsedPath,
    /// The HTTP method.
    pub method: String,
}

/// What a `CheckRequest` holds, as text.
pub struct CheckRequestView {
    pub detail: AuditRecordView,
    pub account_id: Option<u32>,
    pub path: ParsedPathView,
    pub method: Seq<char>,
}

impl View for CheckRequest {
    type V = CheckRequestView;

    open spec fn view(&self) -> CheckRequestView {
        CheckRequestView {
            detail: self.detail@,
            account_id: self.account_id,
            path: self.path@,
            method: self.method@,
        }
    }
}

/// How a check ended, and the record to write if it ended in a refusal.
#[derive(Debug, PartialEq, Eq)]
pub struct Verdict {
    /// `Ok` allows the request.
    pub decision: Result<(), AuthzError>,
    /// The audit record to write.
    pub audit: Option<AuditRecord>,
}

/// What a `Verdict` holds, as text.
pub struct VerdictView {
    pub decision: Result<(), AuthzError>,
    pub audit: Option<AuditRecordView>,
}

impl View for Verdict {
    type V = VerdictView;

    open spec fn view(&self) -> VerdictView {
        VerdictView {
            decision: self.decision,
            audit: match self.audit {
                Some(record) => Some(record@),
                None => None,
            },
        }
    }
}

/// The verdict that allows a request: nothing is recorded.
pub open spec fn allowed() -> VerdictView {
    VerdictView { decision: Ok(()), audit: None }
}

/// The verdict that refuses `request` for `fault`: the request is recorded.
pub open spec fn refused(fault: AuthzError, request: CheckRequestView) -> VerdictView {
    VerdictView { decision: Err(fault), audit: Some(request.detail) }
}

impl Verdict {
    /// Allows the request.
    pub fn allow() -> (verdict: Verdict)
        ensures
            verdict@ == allowed(),
    {
        Verdict { decision: Ok(()), audit: None }
    }

    /// Refuses `request` for `fault`.
    pub fn refuse(fault: AuthzError, request: &CheckRequest) -> (verdict: Verdict)
        ensures
            verdict@ == refused(fault, request@),
    {
        Verdict { decision: Err(fault), audit: Some(request.detail.clone()) }
    }
}

/// What storage answered.
#[derive(Debug, PartialEq, Eq)]
pub enum StorageReply<T> {
    /// The data asked for.
    Loaded(T),
    /// Storage could not be read.
    Unavailable,
}

/// The subject as conditions see it: the decimal notation of the account id.
pub open spec fn subject_text(account_id: Option<u32>) -> Option<Seq<char>> {
    match account_id {
        Some(id) => Some(decimal_text(id as int)),
        None => None,
    }
}

/// The name of the condition is that of a known attribute.
pub open spec fn is_known(condition: StoredConditionView) -> bool {
    attrib_of(condition.name) is Ok
}

/// The condition has a known name and is satisfied on `model` for `subject`.
pub open spec fn holds<M: ModelPermission>(
    condition: StoredConditionView,
    model: M,
    subject: Option<Seq<char>>,
) -> bool {
    attrib_of(condition.name) matches Ok(attrib) && attrib_validates(
        attrib,
        model.attr(attrib),
        subject,
        condition.value,
    )
}

/// All conditions before position `i` have known names.
pub open spec fn known_before(conditions: Seq<StoredConditionView>, i: int) -> bool {
    forall|j: int| 0 <= j < i ==> is_known(#[trigger] conditions[j])
}

/// Whether a list of conditions authorizes: some condition holds, and no
/// condition before it has an unknown name. Conditions are alternatives, but a
/// name that cannot be read ends the evaluation in a refusal.
pub open spec fn conditions_allow<M: ModelPermission>(
    conditions: Seq<StoredConditionView>,
    model: M,
    subject: Option<Seq<char>>,
) -> bool {
    exists|i: int|
        0 <= i < conditions.len() && #[trigger] holds(conditions[i], model, subject)
            && known_before(conditions, i)
}

/// Which instance the conditions of a request on `path` are evaluated on. The
/// path has to name a resource type and an id that is an unsigned number of
/// 32 bits; the type has to be one with an attribute provider.
pub open spec fn model_request_of(path: ParsedPathView) -> Result<ModelRequest, AuthzError> {
    if path.controller is None || path.id is None {
        Err(AuthzError::InvalidRequestShape)
    } else {
        match parse_u32_spec(path.id->0) {
            None => Err(AuthzError::InvalidRequestShape),
            Some(id) => match kind_of(path.controller->0) {
                Err(fault) => Err(fault),
                Ok(kind) => Ok(ModelRequest { kind, id }),
            },
        }
    }
}

/// The outcome of a check of `request`, given what storage answers: `grants`
/// to the lookup of grants and `model` to the loading of the instance. The
/// instance is only read where the grants carry conditions.
pub open spec fn check_spec<M: ModelPermission>(
    request: CheckRequestView,
    grants: StorageReply<GrantLookupView>,
    model: StorageReply<M>,
) -> VerdictView {
    if request.path.controller is None {
        refused(AuthzError::InvalidRequestShape, request)
    } else {
        match grants {
            StorageReply::Unavailable => refused(AuthzError::StorageUnavailable, request),
            StorageReply::Loaded(lookup) => {
                if lookup.permissions.len() == 0 {
                    refused(AuthzError::PermissionDenied, request)
                } else if lookup.conditions.len() == 0 {
                    allowed()
                } else {
                    match model_request_of(request.path) {
                        Err(fault) => refused(fault, request),
                        Ok(_) => match model {
                            StorageReply::Unavailable => refused(
                                AuthzError::StorageUnavailable,
                                request,
                            ),
                            StorageReply::Loaded(instance) => {
                                if conditions_allow(
                                    lookup.conditions,
                                    instance,
                                    subject_text(request.account_id),
                                ) {
                                    allowed()
                                } else {
                                    refused(AuthzError::PermissionDenied, request)
                                }
                            },
                        },
                    }
                }
            },
        }
    }
}

/// Evaluates the conditions in order on `model` for the subject
/// `account_id`: the first condition that holds authorizes, the first name
/// that is unknown refuses, and so does the end of the list.
pub fn evaluate_conditions<M: ModelPermission>(
    conditions: &Vec<StoredCondition>,
    model: &M,
    account_id: Option<u32>,
) -> (allow: bool)
    ensures
        allow == conditions_allow(conditions_text(conditions@), *model, subject_text(account_id)),
{
    let inner_subject: Option<String> = match account_id {
        Some(id) => Some(decimal_string(id as i64)),
        None => None,
    };
    let ghost texts = conditions_text(conditions@);
    let ghost subject = subject_text(account_id);
    let mut k: usize = 0;
    while k < conditions.len()
        invariant
            k <= conditions.len(),
            texts == conditions_text(conditions@),
            subject == subject_text(account_id),
            subject == opt_text(inner_subject),
            forall|j: int| 0 <= j < k ==> is_known(#[trigger] texts[j]),
            forall|j: int| 0 <= j < k ==> !holds(#[trigger] texts[j], *model, subject),
        decreases conditions.len() - k,
    {
        let condition = &conditions[k];
        match ModelAttrib::try_from(condition.name.as_str()) {
            Err(_) => {
                assert(!is_known(texts[k as int]));
                return false;
            },
            Ok(model_attr) => {
                let attr = model.get_attr(model_attr);
                let valid = match &inner_subject {
                    Some(who) => ModelAttribResult::from(model_attr).validate(
                        attr,
                        Some(who.as_str()),
                        condition.value.as_str(),
                    ),
                    None => ModelAttribResult::from(model_attr).validate(
                        attr,
                        None,
                        condition.value.as_str(),
                    ),
                };
                if valid {
                    assert(holds(texts[k as int], *model, subject));
                    return true;
                }
            },
        }
        k += 1;
    }
    false
}

/// Where a check stands.
#[derive(Debug, PartialEq, Eq)]
pub enum CheckState {
    /// Nothing was asked of storage yet.
    Start,
    /// The grants were asked for.
    AwaitingGrants,
    /// The instance was asked for; these conditions wait for it.
    AwaitingModel { conditions: Vec<StoredCondition> },
    /// The verdict is out.
    Finished,
}

/// What a `CheckState` holds, as text.
pub enum CheckStateView {
    Start,
    AwaitingGrants,
    AwaitingModel { conditions: Seq<StoredConditionView> },
    Finished,
}

impl View for CheckState {
    type V = CheckStateView;

    open spec fn view(&self) -> CheckStateView {
        match self {
            CheckState::Start => CheckStateView::Start,
            CheckState::AwaitingGrants => CheckStateView::AwaitingGrants,
            CheckState::AwaitingModel { conditions } => CheckStateView::AwaitingModel {
                conditions: conditions_text(conditions@),
            },
            CheckState::Finished => CheckStateView::Finished,
        }
    }
}

/// What happened since the last step.
#[derive(Debug, PartialEq, Eq)]
pub enum CheckEvent<M> {
    /// The request came in.
    Begin,
    /// Storage answered the lookup of grants.
    Grants(StorageReply<GrantLookup>),
    /// Storage answered the loading of the instance.
    Model(StorageReply<M>),
}

/// What a `CheckEvent` holds, as text.
pub enum CheckEventView<M> {
    Begin,
    Grants(StorageReply<GrantLookupView>),
    Model(StorageReply<M>),
}

impl<M> View for CheckEvent<M> {
    type V = CheckEventView<M>;

    open spec fn view(&self) -> CheckEventView<M> {
        match self {
            CheckEvent::Begin => CheckEventView::Begin,
            CheckEvent::Grants(reply) => CheckEventView::Grants(reply_text(*reply)),
            CheckEvent::Model(reply) => CheckEventView::Model(*reply),
        }
    }
}

/// What is to be done next.
#[derive(Debug, PartialEq, Eq)]
pub enum CheckAction {
    /// Look up the grants and answer with `CheckEvent::Grants`.
    FindGrants(GrantQuery),
    /// Load the instance and answer with `CheckEvent::Model`.
    LoadModel(ModelRequest),
    /// Write the audit record of the verdict, if it has one, and return its
    /// decision.
    Finish(Verdict),
}

/// What a `CheckAction` holds, as text.
pub enum CheckActionView {
    FindGrants(GrantQueryView),
    LoadModel(ModelRequest),
    Finish(VerdictView),
}

impl View for CheckAction {
    type V = CheckActionView;

    open spec fn view(&self) -> CheckActionView {
        match self {
            CheckAction::FindGrants(query) => CheckActionView::FindGrants(query@),
            CheckAction::LoadModel(wanted) => CheckActionView::LoadModel(*wanted),
            CheckAction::Finish(verdict) => CheckActionView::Finish(verdict@),
        }
    }
}

/// One step of a check: the state it leads to and what to do next.
#[derive(Debug, PartialEq, Eq)]
pub struct Transition {
    pub next: CheckState,
    pub action: CheckAction,
}

/// What a `Transition` holds, as text.
pub struct TransitionView {
    pub next: CheckStateView,
    pub action: CheckActionView,
}

impl View for Transition {
    type V = TransitionView;

    open spec fn view(&self) -> TransitionView {
        TransitionView { next: self.next@, action: self.action@ }
    }
}

/// The step that ends a check with `verdict`.
pub open spec fn finish(verdict: VerdictView) -> TransitionView {
    TransitionView { next: CheckStateView::Finished, action: CheckActionView::Finish(verdict) }
}

/// The grants that a check of `request` looks for: those of its subject for
/// the resource type it names and the action it asks for.
pub open spec fn query_of(request: CheckRequestView) -> GrantQueryView
    recommends
        request.path.controller is Some,
{
    GrantQueryView {
        account_id: request.account_id,
        object: request.path.controller->0,
        action: resolve_action(request.path.id is Some, request.method),
    }
}

/// The first step: a request that names no resource type is refused, any
/// other asks for the grants of its subject for its type and action.
pub open spec fn begin_spec(request: CheckRequestView) -> TransitionView {
    if request.path.controller is None {
        finish(refused(AuthzError::InvalidRequestShape, request))
    } else {
        TransitionView {
            next: CheckStateView::AwaitingGrants,
            action: CheckActionView::FindGrants(query_of(request)),
        }
    }
}

/// The step on the grants: without a grant the request is refused, with
/// grants that carry no condition it is allowed, and otherwise the instance
/// that the path names is asked for.
pub open spec fn grants_spec(
    request: CheckRequestView,
    reply: StorageReply<GrantLookupView>,
) -> TransitionView {
    match reply {
        StorageReply::Unavailable => finish(refused(AuthzError::StorageUnavailable, request)),
        StorageReply::Loaded(lookup) => {
            if lookup.permissions.len() == 0 {
                finish(refused(AuthzError::PermissionDenied, request))
            } else if lookup.conditions.len() == 0 {
                finish(allowed())
            } else {
                match model_request_of(request.path) {
                    Err(fault) => finish(refused(fault, request)),
                    Ok(wanted) => TransitionView {
                        next: CheckStateView::AwaitingModel { conditions: lookup.conditions },
                        action: CheckActionView::LoadModel(wanted),
                    },
                }
            }
        },
    }
}

/// The step on the instance: the conditions decide.
pub open spec fn model_spec<M: ModelPermission>(
    request: CheckRequestView,
    conditions: Seq<StoredConditionView>,
    reply: StorageReply<M>,
) -> TransitionView {
    match reply {
        StorageReply::Unavailable => finish(refused(AuthzError::StorageUnavailable, request)),
        StorageReply::Loaded(instance) => {
            if conditions_allow(conditions, instance, subject_text(request.account_id)) {
                finish(allowed())
            } else {
                finish(refused(AuthzError::PermissionDenied, request))
            }
        },
    }
}

/// The text of what storage answered to the lookup of grants.
pub open spec fn reply_text(reply: StorageReply<GrantLookup>) -> StorageReply<GrantLookupView> {
    match reply {
        StorageReply::Loaded(lookup) => StorageReply::Loaded(lookup@),
        StorageReply::Unavailable => StorageReply::Unavailable,
    }
}

/// One step of a check. An event that does not answer what the state waits
/// for ends the check like an answer that never came.
pub open spec fn step_spec<M: ModelPermission>(
    request: CheckRequestView,
    state: CheckStateView,
    event: CheckEventView<M>,
) -> TransitionView {
    match (state, event) {
        (CheckStateView::Start, CheckEventView::Begin) => begin_spec(request),
        (CheckStateView::AwaitingGrants, CheckEventView::Grants(reply)) => grants_spec(
            request,
            reply,
        ),
        (CheckStateView::AwaitingModel { conditions }, CheckEventView::Model(reply)) => model_spec(
            request,
            conditions,
            reply,
        ),
        _ => finish(refused(AuthzError::StorageUnavailable, request)),
    }
}

/// The context of authorization: it decides, and carries the handle to
/// storage for whoever drives it.
#[derive(Debug)]
pub struct AuthZController<P> {
    db_pool: P,
}

impl<P: Clone> Clone for AuthZController<P> {
    fn clone(&self) -> (copy: Self)
        ensures
            cloned(self.pool_spec(), copy.pool_spec()),
    {
        Self { db_pool: self.db_pool.clone() }
    }
}

impl<P> AuthZController<P> {
    /// The handle to storage that the controller was made with.
    pub closed spec fn pool_spec(&self) -> P {
        self.db_pool
    }

    /// A controller that carries `db_pool`.
    pub fn new(db_pool: P) -> (controller: Self)
        ensures
            controller.pool_spec() == db_pool,
    {
        Self { db_pool }
    }

    /// The handle to storage.
    pub fn pool(&self) -> (pool: &P)
        ensures
            *pool == self.pool_spec(),
    {
        &self.db_pool
    }

    /// Selects the provider of the resource type `resource_name` for the
    /// instance `resource_id`.
    pub fn get_model(&self, resource_name: &str, resource_id: u32) -> (wanted: Result<
        ModelRequest,
        AuthzError,
    >)
        ensures
            wanted == match kind_of(resource_name@) {
                Ok(kind) => Ok::<ModelRequest, AuthzError>(ModelRequest { kind, id: resource_id }),
                Err(fault) => Err(fault),
            },
    {
        match ResourceKind::from_tag(resource_name) {
            Ok(kind) => Ok(ModelRequest { kind, id: resource_id }),
            Err(fault) => Err(fault),
        }
    }

    /// The instance that the conditions of a request on `path` are evaluated
    /// on.
    pub fn model_request(&self, path: &ParsedPath) -> (wanted: Result<ModelRequest, AuthzError>)
        ensures
            wanted == model_request_of(path@),
    {
        match &path.controller {
            None => Err(AuthzError::InvalidRequestShape),
            Some(controller) => match &path.id {
                None => Err(AuthzError::InvalidRequestShape),
                Some(id) => match parse_u32(id.as_str()) {
                    None => Err(AuthzError::InvalidRequestShape),
                    Some(resource_id) => self.get_model(controller.as_str(), resource_id),
                },
            },
        }
    }

    /// The first step of a check.
    pub fn begin(&self, request: &CheckRequest) -> (step: Transition)
        ensures
            step@ == begin_spec(request@),
    {
        let calculated_action = Action::from_auth_z(&request.path, request.method.as_str());
        match &request.path.controller {
            None => Transition {
                next: CheckState::Finished,
                action: CheckAction::Finish(
                    Verdict::refuse(AuthzError::InvalidRequestShape, request),
                ),
            },
            Some(object) => Transition {
                next: CheckState::AwaitingGrants,
                action: CheckAction::FindGrants(
                    GrantQuery {
                        account_id: request.account_id,
                        object: object.clone(),
                        action: calculated_action,
                    },
                ),
            },
        }
    }

    /// The step that follows the lookup of grants.
    pub fn on_grants(&self, request: &CheckRequest, reply: StorageReply<GrantLookup>) -> (step:
        Transition)
        ensures
            step@ == grants_spec(request@, reply_text(reply)),
    {
        let select_result = match reply {
            StorageReply::Unavailable => {
                return Transition {
                    next: CheckState::Finished,
                    action: CheckAction::Finish(
                        Verdict::refuse(AuthzError::StorageUnavailable, request),
                    ),
                };
            },
            StorageReply::Loaded(lookup) => lookup,
        };
        if select_result.permissions.len() == 0 {
            return Transition {
                next: CheckState::Finished,
                action: CheckAction::Finish(Verdict::refuse(AuthzError::PermissionDenied, request)),
            };
        }
        // Grants without conditions authorize as they are.
        if select_result.conditions.len() == 0 {
            return Transition {
                next: CheckState::Finished,
                action: CheckAction::Finish(Verdict::allow()),
            };
        }
        match self.model_request(&request.path) {
            Err(fault) => Transition {
                next: CheckState::Finished,
                action: CheckAction::Finish(Verdict::refuse(fault, request)),
            },
            Ok(wanted) => Transition {
                next: CheckState::AwaitingModel { conditions: select_result.conditions },
                action: CheckAction::LoadModel(wanted),
            },
        }
    }

    /// The step that follows the loading of the instance.
    pub fn on_model<M: ModelPermission>(
        &self,
        request: &CheckRequest,
        conditions: &Vec<StoredCondition>,
        reply: StorageReply<M>,
    ) -> (step: Transition)
        ensures
            step@ == model_spec(request@, conditions_text(conditions@), reply),
    {
        let verdict = match reply {
            StorageReply::Unavailable => Verdict::refuse(AuthzError::StorageUnavailable, request),
            StorageReply::Loaded(model) => {
                if evaluate_conditions(conditions, &model, request.account_id) {
                    Verdict::allow()
                } else {
                    Verdict::refuse(AuthzError::PermissionDenied, request)
                }
            },
        };
        Transition { next: CheckState::Finished, action: CheckAction::Finish(verdict) }
    }

    /// One step of a check of `request`: from the state that the check is
    /// in and what happened since, to the next state and what to do.
    pub fn step<M: ModelPermission>(
        &self,
        request: &CheckRequest,
        state: CheckState,
        event: CheckEvent<M>,
    ) -> (step: Transition)
        ensures
            step@ == step_spec(request@, state@, event@),
    {
        match (state, event) {
            (CheckState::Start, CheckEvent::Begin) => self.begin(request),
            (CheckState::AwaitingGrants, CheckEvent::Grants(reply)) => self.on_grants(
                request,
                reply,
            ),
            (CheckState::AwaitingModel { conditions }, CheckEvent::Model(reply)) => self.on_model(
                request,
                &conditions,
                reply,
            ),
            _ => Transition {
                next: CheckState::Finished,
                action: CheckAction::Finish(
                    Verdict::refuse(AuthzError::StorageUnavailable, request),
                ),
            },
        }
    }
}

} // verus!