//! Grants, conditions and resources held in memory, and the lookups that a
//! check makes on them.

use crate::audit::AuditRecord;
use crate::audit::AuditRecordView;
use crate::engine::check_spec;
use crate::engine::conditions_text;
use crate::engine::model_request_of;
use crate::engine::query_of;
use crate::engine::AuthZController;
use crate::engine::CheckAction;
use crate::engine::CheckEvent;
use crate::engine::CheckEventView;
use crate::engine::CheckRequest;
use crate::engine::CheckRequestView;
use crate::engine::CheckState;
use crate::engine::CheckStateView;
use crate::engine::VerdictView;
use crate::engine::GrantLookup;
use crate::engine::GrantLookupView;
use crate::engine::GrantQuery;
use crate::engine::GrantQueryView;
use crate::engine::StorageReply;
use crate::engine::StoredCondition;
use crate::engine::StoredConditionView;
use crate::model::storage_key;
use crate::model::ModelRequest;
use crate::model::ResourceKind;
use crate::model::ResourceModel;
use crate::error::AuthzError;
use crate::text::text_eq;
use vstd::prelude::*;

verus! {

/// A stored grant: the account may do the action on the resources of the
/// type `object`.
#[derive(Debug, PartialEq, Eq)]
pub struct GrantRow {
    /// The key of the grant.
    pub id: i32,
    /// The key of the account that is granted.
    pub account_id: i32,
    /// The resource type.
    pub object: String,
    /// The name of the action.
    pub action: String,
}

/// What a `GrantRow` holds, as text.
pub struct GrantRowView {
    pub id: i32,
    pub account_id: i32,
    pub object: Seq<char>,
    pub action: Seq<char>,
}

impl View for GrantRow {
    type V = GrantRowView;

    open spec fn view(&self) -> GrantRowView {
        GrantRowView {
            id: self.id,
            account_id: self.account_id,
            object: self.object@,
            action: self.action@,
        }
    }
}

/// A stored condition, attached to the grant with the key `permission_id`.
#[derive(Debug, PartialEq, Eq)]
pub struct ConditionRow {
    /// The key of the grant.
    pub permission_id: i32,
    /// The name of the attribute that the condition is about.
    pub name: String,
    /// The literal that the attribute is held against.
    pub value: String,
}

/// What a `ConditionRow` holds, as text.
pub struct ConditionRowView {
    pub permission_id: i32,
    pub name: Seq<char>,
    pub value: Seq<char>,
}

impl View for ConditionRow {
    type V = ConditionRowView;

    open spec fn view(&self) -> ConditionRowView {
        ConditionRowView {
            permission_id: self.permission_id,
            name: self.name@,
            value: self.value@,
        }
    }
}

/// A stored resource instance.
#[derive(Clone, Copy, Debug, PartialEq, Eq)]
pub struct ResourceRow {
    /// The key of the instance among those of its type.
    pub id: i32,
    /// The instance.
    pub model: ResourceModel,
}

/// Storage in memory.
#[derive(Debug, PartialEq, Eq)]
pub struct MemoryStore {
    /// The grants, in the order they were stored in.
    pub permissions: Vec<GrantRow>,
    /// The conditions, in the order they were stored in.
    pub conditions: Vec<ConditionRow>,
    /// The resource instances.
    pub resources: Vec<ResourceRow>,
}

/// What a `MemoryStore` holds, as text.
pub struct MemoryStoreView {
    pub permissions: Seq<GrantRowView>,
    pub conditions: Seq<ConditionRowView>,
    pub resources: Seq<ResourceRow>,
}

impl View for MemoryStore {
    type V = MemoryStoreView;

    open spec fn view(&self) -> MemoryStoreView {
        MemoryStoreView {
            permissions: self.permissions@.map_values(|row: GrantRow| row@),
            conditions: self.conditions@.map_values(|row: ConditionRow| row@),
            resources: self.resources@,
        }
    }
}

/// The grant is one for the subject, the resource type and the action of
/// the query. A query without a subject is matched by no grant.
pub open spec fn grant_matches(row: GrantRowView, query: GrantQueryView) -> bool {
    &&& query.account_id is Some
    &&& storage_key(query.account_id->0) == Some(row.account_id)
    &&& row.object == query.object
    &&& row.action == query.action.name()
}

/// The condition is attached to a grant that matches the query.
pub open spec fn is_attached(
    condition: ConditionRowView,
    permissions: Seq<GrantRowView>,
    query: GrantQueryView,
) -> bool {
    exists|i: int|
        0 <= i < permissions.len() && grant_matches(#[trigger] permissions[i], query)
            && permissions[i].id == condition.permission_id
}

/// The keys of the grants that match the query, in storage order.
pub open spec fn matching_grants(permissions: Seq<GrantRowView>, query: GrantQueryView) -> Seq<
    i32,
> {
    permissions.filter(|row: GrantRowView| grant_matches(row, query)).map_values(
        |row: GrantRowView| row.id,
    )
}

/// The conditions of all grants that match the query, in storage order.
pub open spec fn attached_conditions(
    conditions: Seq<ConditionRowView>,
    permissions: Seq<GrantRowView>,
    query: GrantQueryView,
) -> Seq<StoredConditionView> {
    conditions.filter(|row: ConditionRowView| is_attached(row, permissions, query)).map_values(
        |row: ConditionRowView| StoredConditionView { name: row.name, value: row.value },
    )
}

/// What the store holds for the query.
pub open spec fn find_grants_spec(store: MemoryStoreView, query: GrantQueryView) -> GrantLookupView {
    GrantLookupView {
        permissions: matching_grants(store.permissions, query),
        conditions: attached_conditions(store.conditions, store.permissions, query),
    }
}

/// The first of the instances that has the type `kind` and the key `key`.
pub open spec fn find_resource(resources: Seq<ResourceRow>, kind: ResourceKind, key: i32) -> Option<
    ResourceModel,
>
    decreases resources.len(),
{
    if resources.len() == 0 {
        None
    } else if resources[0].id == key && resources[0].model.kind_spec() == kind {
        Some(resources[0].model)
    } else {
        find_resource(resources.drop_first(), kind, key)
    }
}

/// What the store answers when asked for an instance: the instance, or that
/// it cannot deliver it.
pub open spec fn load_model_spec(store: MemoryStoreView, wanted: ModelRequest) -> StorageReply<
    ResourceModel,
> {
    match storage_key(wanted.id) {
        None => StorageReply::Unavailable,
        Some(key) => match find_resource(store.resources, wanted.kind, key) {
            Some(model) => StorageReply::Loaded(model),
            None => StorageReply::Unavailable,
        },
    }
}

/// Filtering one element more keeps or drops that element.
proof fn lemma_filter_take_next<A>(s: Seq<A>, pred: spec_fn(A) -> bool, k: int)
    requires
        0 <= k < s.len(),
    ensures
        s.take(k + 1).filter(pred) == if pred(s[k]) {
            s.take(k).filter(pred).push(s[k])
        } else {
            s.take(k).filter(pred)
        },
{
    reveal(Seq::filter);
    assert(s.take(k + 1).drop_last() =~= s.take(k));
}

impl MemoryStore {
    /// Whether `row` is a grant for the subject, the resource type and the
    /// action of `query`.
    fn matches(row: &GrantRow, query: &GrantQuery) -> (found: bool)
        ensures
            found == grant_matches(row@, query@),
    {
        match query.account_key() {
            None => false,
            Some(key) => key == row.account_id && text_eq(
                row.object.as_str(),
                query.object.as_str(),
            ) && text_eq(row.action.as_str(), query.action.as_str()),
        }
    }

    /// The grants of the subject of `query` for its resource type and
    /// action, and the conditions attached to them.
    pub fn find_grants(&self, query: &GrantQuery) -> (lookup: GrantLookup)
        ensures
            lookup@ == find_grants_spec(self@, query@),
    {
        let ghost rows = self@.permissions;
        let ghost matching = |row: GrantRowView| grant_matches(row, query@);
        let mut permissions: Vec<i32> = Vec::new();
        let mut k: usize = 0;
        assert(rows.take(0).filter(matching) =~= Seq::<GrantRowView>::empty()) by {
            reveal(Seq::filter);
        }
        while k < self.permissions.len()
            invariant
                k <= self.permissions.len(),
                rows == self@.permissions,
                matching == |row: GrantRowView| grant_matches(row, query@),
                permissions@ == rows.take(k as int).filter(matching).map_values(
                    |row: GrantRowView| row.id,
                ),
            decreases self.permissions.len() - k,
        {
            let row = &self.permissions[k];
            proof {
                lemma_filter_take_next(rows, matching, k as int);
            }
            if Self::matches(row, query) {
                permissions.push(row.id);
            }
            k += 1;
        }
        assert(rows.take(k as int) =~= rows);

        let ghost lines = self@.conditions;
        let ghost attached = |row: ConditionRowView| is_attached(row, rows, query@);
        let mut conditions: Vec<StoredCondition> = Vec::new();
        let mut n: usize = 0;
        assert(lines.take(0).filter(attached) =~= Seq::<ConditionRowView>::empty()) by {
            reveal(Seq::filter);
        }
        while n < self.conditions.len()
            invariant
                n <= self.conditions.len(),
                rows == self@.permissions,
                lines == self@.conditions,
                attached == |row: ConditionRowView| is_attached(row, rows, query@),
                conditions_text(conditions@) == lines.take(n as int).filter(
                    attached,
                ).map_values(
                    |row: ConditionRowView| StoredConditionView { name: row.name, value: row.value },
                ),
            decreases self.conditions.len() - n,
        {
            let line = &self.conditions[n];
            proof {
                lemma_filter_take_next(lines, attached, n as int);
            }
            if self.has_matching_grant(line.permission_id, query) {
                let ghost before = conditions_text(conditions@);
                conditions.push(StoredCondition::new(line.name.clone(), line.value.clone()));
                assert(conditions_text(conditions@) =~= before.push(
                    StoredConditionView { name: line@.name, value: line@.value },
                ));
            }
            n += 1;
        }
        assert(lines.take(n as int) =~= lines);
        GrantLookup { permissions, conditions }
    }

    /// Whether a grant with the key `permission_id` matches `query`.
    fn has_matching_grant(&self, permission_id: i32, query: &GrantQuery) -> (found: bool)
        ensures
            found == (exists|i: int|
                0 <= i < self@.permissions.len() && grant_matches(
                    #[trigger] self@.permissions[i],
                    query@,
                ) && self@.permissions[i].id == permission_id),
    {
        let mut k: usize = 0;
        while k < self.permissions.len()
            invariant
                k <= self.permissions.len(),
                forall|i: int|
                    0 <= i < k ==> !(grant_matches(#[trigger] self@.permissions[i], query@)
                        && self@.permissions[i].id == permission_id),
            decreases self.permissions.len() - k,
        {
            let row = &self.permissions[k];
            assert(self@.permissions[k as int] == row@);
            if row.id == permission_id && Self::matches(row, query) {
                return true;
            }
            k += 1;
        }
        false
    }

    /// The instance that `wanted` asks for.
    pub fn load_model(&self, wanted: &ModelRequest) -> (reply: StorageReply<ResourceModel>)
        ensures
            reply == load_model_spec(self@, *wanted),
    {
        let Some(key) = wanted.key() else {
            return StorageReply::Unavailable;
        };
        let mut k: usize = 0;
        assert(self@.resources.skip(0) =~= self@.resources);
        while k < self.resources.len()
            invariant
                k <= self.resources.len(),
                storage_key(wanted.id) == Some(key),
                find_resource(self@.resources, wanted.kind, key) == find_resource(
                    self@.resources.skip(k as int),
                    wanted.kind,
                    key,
                ),
            decreases self.resources.len() - k,
        {
            let row = &self.resources[k];
            proof {
                let rest = self@.resources.skip(k as int);
                assert(rest.drop_first() =~= self@.resources.skip(k + 1));
            }
            if row.id == key && row.model.kind() == wanted.kind {
                return StorageReply::Loaded(row.model);
            }
            k += 1;
        }
        StorageReply::Unavailable
    }
}

/// The outcome of a check of `request` against the store: the store answers
/// the lookup of the grants of the subject for the resource type and the
/// action of the request, and the loading of the instance that the request
/// addresses.
pub open spec fn memory_check_spec(store: MemoryStoreView, request: CheckRequestView) -> VerdictView {
    check_spec(
        request,
        StorageReply::Loaded(find_grants_spec(store, query_of(request))),
        match model_request_of(request.path) {
            Ok(wanted) => load_model_spec(store, wanted),
            Err(_) => StorageReply::Unavailable,
        },
    )
}

/// The texts of a list of audit records, in the order of the list.
pub open spec fn audit_text(records: Seq<AuditRecord>) -> Seq<AuditRecordView> {
    records.map_values(|record: AuditRecord| record@)
}

/// What a verdict adds to the audit log.
pub open spec fn audit_entries(verdict: VerdictView) -> Seq<AuditRecordView> {
    match verdict.audit {
        Some(record) => seq![record],
        None => Seq::empty(),
    }
}

/// How many steps a check in this state has before it at most.
spec fn steps_left(state: CheckStateView) -> nat {
    match state {
        CheckStateView::Start => 3,
        CheckStateView::AwaitingGrants => 2,
        CheckStateView::AwaitingModel { .. } => 1,
        CheckStateView::Finished => 0,
    }
}

impl AuthZController<MemoryStore> {
    /// Checks `request` against the store that the controller carries. A
    /// refusal adds the record of the request to `audit`; an allowance leaves
    /// `audit` as it is.
    pub fn check(&self, request: &CheckRequest, audit: &mut Vec<AuditRecord>) -> (decision: Result<
        (),
        AuthzError,
    >)
        ensures
            decision == memory_check_spec(self.pool_spec()@, request@).decision,
            audit_text(final(audit)@) == audit_text(old(audit)@) + audit_entries(
                memory_check_spec(self.pool_spec()@, request@),
            ),
    {
        let store = self.pool();
        let ghost lookup = find_grants_spec(store@, query_of(request@));
        let mut state = CheckState::Start;
        let mut event: CheckEvent<ResourceModel> = CheckEvent::Begin;
        loop
            invariant
                *store == self.pool_spec(),
                lookup == find_grants_spec(store@, query_of(request@)),
                *audit == *old(audit),
                state@ !is Finished,
                state@ is Start ==> event@ is Begin,
                state@ is AwaitingGrants ==> request@.path.controller is Some && event@
                    == CheckEventView::<ResourceModel>::Grants(StorageReply::Loaded(lookup)),
                state@ matches CheckStateView::AwaitingModel { conditions } ==> {
                    &&& request@.path.controller is Some
                    &&& lookup.permissions.len() > 0
                    &&& lookup.conditions.len() > 0
                    &&& conditions == lookup.conditions
                    &&& model_request_of(request@.path) matches Ok(wanted) && event@
                        == CheckEventView::Model(load_model_spec(store@, wanted))
                },
            decreases steps_left(state@),
        {
            let step = self.step(request, state, event);
            state = step.next;
            match step.action {
                CheckAction::FindGrants(query) => {
                    event = CheckEvent::Grants(StorageReply::Loaded(store.find_grants(&query)));
                },
                CheckAction::LoadModel(wanted) => {
                    event = CheckEvent::Model(store.load_model(&wanted));
                },
                CheckAction::Finish(verdict) => {
                    if let Some(record) = verdict.audit {
                        audit.push(record);
                    }
                    return verdict.decision;
                },
            }
        }
    }
}

} // verus!