//! What holds of every authorization check.

use crate::condition::attrib_of;
use crate::condition::attrib_validates;
use crate::condition::owner_validates;
use crate::condition::Condition;
use crate::condition::Login;
use crate::condition::ModelAttrib;
use crate::engine::allowed;
use crate::engine::check_spec;
use crate::engine::conditions_allow;
use crate::engine::finish;
use crate::engine::grants_spec;
use crate::engine::holds;
use crate::engine::is_known;
use crate::engine::known_before;
use crate::engine::model_request_of;
use crate::engine::query_of;
use crate::engine::refused;
use crate::engine::step_spec;
use crate::engine::subject_text;
use crate::engine::CheckActionView;
use crate::engine::CheckEventView;
use crate::engine::CheckRequestView;
use crate::engine::CheckStateView;
use crate::engine::GrantLookupView;
use crate::engine::StorageReply;
use crate::engine::StoredConditionView;
use crate::error::AuthzError;
use crate::model::ModelPermission;
use crate::repository::grant_matches;
use crate::repository::is_attached;
use crate::repository::memory_check_spec;
use crate::repository::ConditionRowView;
use crate::repository::GrantRowView;
use crate::repository::MemoryStoreView;
use crate::text::decimal_text;
use crate::text::lemma_decimal_text_injective;
use vstd::prelude::*;

verus! {

/// A check that is driven by `step_spec` ends in the verdict of `check_spec`,
/// whichever of its steps is the one that finishes: storage is asked for
/// the grants unless the request names no resource type, and for the
/// instance only where the grants carry conditions.
pub proof fn lemma_steps_end_in_check_spec<M: ModelPermission>(
    request: CheckRequestView,
    grants: StorageReply<GrantLookupView>,
    model: StorageReply<M>,
)
    ensures
        ({
            let verdict = check_spec(request, grants, model);
            let first = step_spec::<M>(request, CheckStateView::Start, CheckEventView::Begin);
            let second = step_spec::<M>(request, first.next, CheckEventView::Grants(grants));
            let third = step_spec(request, second.next, CheckEventView::Model(model));
            if first.action is Finish {
                first == finish(verdict)
            } else if second.action is Finish {
                &&& first.action == CheckActionView::FindGrants(query_of(request))
                &&& second == finish(verdict)
            } else {
                &&& first.action == CheckActionView::FindGrants(query_of(request))
                &&& model_request_of(request.path) is Ok
                &&& second.action == CheckActionView::LoadModel(
                    model_request_of(request.path)->Ok_0,
                )
                &&& third == finish(verdict)
            }
        }),
{
}

/// A subject without a grant for the resource type and the action is denied:
/// the check ends in `PermissionDenied`, never in an allowance, whatever
/// else storage holds.
pub proof fn lemma_no_grant_is_denied<M: ModelPermission>(
    request: CheckRequestView,
    lookup: GrantLookupView,
    model: StorageReply<M>,
)
    requires
        request.path.controller is Some,
        lookup.permissions.len() == 0,
    ensures
        check_spec(request, StorageReply::Loaded(lookup), model) == refused(
            AuthzError::PermissionDenied,
            request,
        ),
        grants_spec(request, StorageReply::Loaded(lookup)) == finish(
            refused(AuthzError::PermissionDenied, request),
        ),
{
}

/// A grant that carries no condition allows, nothing is recorded, and the
/// resource instance is not even asked for.
pub proof fn lemma_grant_without_conditions_allows<M: ModelPermission>(
    request: CheckRequestView,
    lookup: GrantLookupView,
    model: StorageReply<M>,
)
    requires
        request.path.controller is Some,
        lookup.permissions.len() > 0,
        lookup.conditions.len() == 0,
    ensures
        check_spec(request, StorageReply::Loaded(lookup), model) == allowed(),
        check_spec(request, StorageReply::Loaded(lookup), model).audit is None,
        grants_spec(request, StorageReply::Loaded(lookup)) == finish(allowed()),
{
}

/// Where every condition has a known name, the conditions authorize exactly
/// if one of them holds.
pub proof fn lemma_known_conditions_are_alternatives<M: ModelPermission>(
    conditions: Seq<StoredConditionView>,
    model: M,
    subject: Option<Seq<char>>,
)
    requires
        forall|i: int| 0 <= i < conditions.len() ==> is_known(#[trigger] conditions[i]),
    ensures
        conditions_allow(conditions, model, subject) <==> exists|i: int|
            0 <= i < conditions.len() && #[trigger] holds(conditions[i], model, subject),
{
    if exists|i: int| 0 <= i < conditions.len() && #[trigger] holds(conditions[i], model, subject) {
        let i = choose|i: int|
            0 <= i < conditions.len() && #[trigger] holds(conditions[i], model, subject);
        assert(known_before(conditions, i));
    }
}

/// A grant exists, every condition has a known name and one of them holds:
/// the request is allowed and nothing is recorded.
pub proof fn lemma_holding_condition_allows<M: ModelPermission>(
    request: CheckRequestView,
    lookup: GrantLookupView,
    instance: M,
    i: int,
)
    requires
        model_request_of(request.path) is Ok,
        lookup.permissions.len() > 0,
        0 <= i < lookup.conditions.len(),
        holds(lookup.conditions[i], instance, subject_text(request.account_id)),
        known_before(lookup.conditions, i),
    ensures
        check_spec(request, StorageReply::Loaded(lookup), StorageReply::Loaded(instance))
            == allowed(),
{
}

/// The order of the conditions does not matter as long as every name is
/// known: two lists that hold the same conditions, in whatever order and
/// number, authorize the same requests.
pub proof fn lemma_order_does_not_matter<M: ModelPermission>(
    first: Seq<StoredConditionView>,
    second: Seq<StoredConditionView>,
    model: M,
    subject: Option<Seq<char>>,
)
    requires
        forall|i: int| 0 <= i < first.len() ==> is_known(#[trigger] first[i]),
        forall|c: StoredConditionView| first.contains(c) <==> second.contains(c),
    ensures
        conditions_allow(first, model, subject) == conditions_allow(second, model, subject),
{
    assert forall|j: int| 0 <= j < second.len() implies is_known(#[trigger] second[j]) by {
        assert(first.contains(second[j]));
    }
    lemma_known_conditions_are_alternatives(first, model, subject);
    lemma_known_conditions_are_alternatives(second, model, subject);
    if conditions_allow(first, model, subject) {
        let i = choose|i: int| 0 <= i < first.len() && #[trigger] holds(first[i], model, subject);
        assert(second.contains(first[i]));
        let j = choose|j: int| 0 <= j < second.len() && second[j] == first[i];
        assert(holds(second[j], model, subject));
    }
    if conditions_allow(second, model, subject) {
        let j = choose|j: int|
            0 <= j < second.len() && #[trigger] holds(second[j], model, subject);
        assert(first.contains(second[j]));
        let i = choose|i: int| 0 <= i < first.len() && first[i] == second[j];
        assert(holds(first[i], model, subject));
    }
}

/// A condition with an unknown name refuses, whatever follows it, unless a
/// condition before it has already authorized.
pub proof fn lemma_unknown_name_denies<M: ModelPermission>(
    conditions: Seq<StoredConditionView>,
    model: M,
    subject: Option<Seq<char>>,
    k: int,
)
    requires
        0 <= k < conditions.len(),
        !is_known(conditions[k]),
        forall|j: int| 0 <= j < k ==> !holds(#[trigger] conditions[j], model, subject),
    ensures
        !conditions_allow(conditions, model, subject),
{
    assert forall|i: int|
        0 <= i < conditions.len() && #[trigger] holds(
            conditions[i],
            model,
            subject,
        ) implies !known_before(conditions, i) by {
        assert(is_known(conditions[i]));
        assert(i > k);
    }
}

/// With an unknown name among the conditions that are reached, the check as
/// a whole ends in `PermissionDenied` and records the request.
pub proof fn lemma_unknown_name_denies_check<M: ModelPermission>(
    request: CheckRequestView,
    lookup: GrantLookupView,
    instance: M,
    k: int,
)
    requires
        model_request_of(request.path) is Ok,
        lookup.permissions.len() > 0,
        0 <= k < lookup.conditions.len(),
        !is_known(lookup.conditions[k]),
        forall|j: int|
            0 <= j < k ==> !holds(
                #[trigger] lookup.conditions[j],
                instance,
                subject_text(request.account_id),
            ),
    ensures
        check_spec(request, StorageReply::Loaded(lookup), StorageReply::Loaded(instance))
            == refused(AuthzError::PermissionDenied, request),
{
    lemma_unknown_name_denies(
        lookup.conditions,
        instance,
        subject_text(request.account_id),
        k,
    );
}

/// Every refusal records the request, once and as it came in, and an
/// allowance records nothing.
pub proof fn lemma_audit_follows_refusal<M: ModelPermission>(
    request: CheckRequestView,
    grants: StorageReply<GrantLookupView>,
    model: StorageReply<M>,
)
    ensures
        ({
            let verdict = check_spec(request, grants, model);
            &&& verdict.decision is Ok ==> verdict.audit is None
            &&& verdict.decision is Err ==> verdict.audit == Some(request.detail)
        }),
{
}

/// The same holds of every single step, in whatever state and on whatever
/// event: a step that finishes with a refusal hands out the record of the
/// request, and one that finishes with an allowance hands out none.
pub proof fn lemma_step_audit_follows_refusal<M: ModelPermission>(
    request: CheckRequestView,
    state: CheckStateView,
    event: CheckEventView<M>,
)
    ensures
        ({
            let step = step_spec(request, state, event);
            step.action matches CheckActionView::Finish(verdict) ==> {
                &&& step.next == CheckStateView::Finished
                &&& verdict.decision is Ok ==> verdict.audit is None
                &&& verdict.decision is Err ==> verdict.audit == Some(request.detail)
            }
        }),
{
}

/// No fault is ever turned into an allowance: a check allows only on grants
/// that storage delivered, and, where they carry conditions, only on an
/// instance that storage delivered and on which the conditions authorize.
pub proof fn lemma_allowance_needs_grant<M: ModelPermission>(
    request: CheckRequestView,
    grants: StorageReply<GrantLookupView>,
    model: StorageReply<M>,
)
    requires
        check_spec(request, grants, model).decision is Ok,
    ensures
        request.path.controller is Some,
        grants matches StorageReply::Loaded(lookup) && lookup.permissions.len() > 0 && (
        lookup.conditions.len() == 0 || (model matches StorageReply::Loaded(instance)
            && conditions_allow(lookup.conditions, instance, subject_text(request.account_id)))),
{
}

/// The login condition holds exactly for the requests that have a subject,
/// whatever the attribute and the literal are.
pub proof fn lemma_login_needs_only_subject(
    attribute: Option<i32>,
    subject: Option<Seq<char>>,
    condition_value: Seq<char>,
)
    ensures
        (Login {  }).validates(attribute, subject, condition_value) == (subject is Some),
        attrib_validates(ModelAttrib::Login, attribute, subject, condition_value) == (subject
            is Some),
{
}

/// For one subject the owner condition with the literal `"true"` holds
/// exactly where it fails with `"false"`.
pub proof fn lemma_owner_literals_are_opposites(attribute: Option<i32>, subject: Seq<char>)
    ensures
        owner_validates(attribute, Some(subject), "true"@) == !owner_validates(
            attribute,
            Some(subject),
            "false"@,
        ),
{
    reveal_strlit("true");
    reveal_strlit("false");
    assert("false"@.len() == 5);
}

/// For the subject of a request the owner condition compares accounts: with
/// `"true"` it holds exactly if the attribute is the subject's own account.
pub proof fn lemma_owner_compares_accounts(attribute: Option<i32>, account_id: u32)
    ensures
        owner_validates(attribute, subject_text(Some(account_id)), "true"@) <==> (attribute
            is Some && attribute->0 as int == account_id as int),
{
    if attribute is Some && decimal_text(account_id as int) == decimal_text(attribute->0 as int) {
        lemma_decimal_text_injective(account_id as int, attribute->0 as int);
    }
}

/// Against a store that holds no grant for the subject, the resource type
/// and the action of a request, the check ends in `PermissionDenied`,
/// whatever conditions and instances the store holds.
pub proof fn lemma_store_without_grant_denies(store: MemoryStoreView, request: CheckRequestView)
    requires
        request.path.controller is Some,
        forall|i: int|
            0 <= i < store.permissions.len() ==> !grant_matches(
                #[trigger] store.permissions[i],
                query_of(request),
            ),
    ensures
        memory_check_spec(store, request) == refused(AuthzError::PermissionDenied, request),
{
    let query = query_of(request);
    store.permissions.lemma_all_neg_filter_empty(|row: GrantRowView| grant_matches(row, query));
}

/// Against a store that holds a grant for the subject, the resource type and
/// the action of a request, and no condition attached to such a grant, the
/// check allows and records nothing.
pub proof fn lemma_store_with_plain_grant_allows(
    store: MemoryStoreView,
    request: CheckRequestView,
    i: int,
)
    requires
        request.path.controller is Some,
        0 <= i < store.permissions.len(),
        grant_matches(store.permissions[i], query_of(request)),
        forall|j: int|
            0 <= j < store.conditions.len() ==> !is_attached(
                #[trigger] store.conditions[j],
                store.permissions,
                query_of(request),
            ),
    ensures
        memory_check_spec(store, request) == allowed(),
{
    let query = query_of(request);
    let matching = |row: GrantRowView| grant_matches(row, query);
    store.permissions.lemma_filter_contains(matching, i);
    store.conditions.lemma_all_neg_filter_empty(
        |row: ConditionRowView| is_attached(row, store.permissions, query),
    );
}

/// A request that nobody signed finds no grant in the store and is denied.
pub proof fn lemma_store_denies_unsigned_request(store: MemoryStoreView, request: CheckRequestView)
    requires
        request.path.controller is Some,
        request.account_id is None,
    ensures
        memory_check_spec(store, request) == refused(AuthzError::PermissionDenied, request),
{
    lemma_store_without_grant_denies(store, request);
}

} // verus!