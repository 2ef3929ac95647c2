use authz_engine::action::Action;
use authz_engine::audit::AuditRecord;
use authz_engine::engine::evaluate_conditions;
use authz_engine::engine::AuthZController;
use authz_engine::engine::CheckAction;
use authz_engine::engine::CheckEvent;
use authz_engine::engine::CheckRequest;
use authz_engine::engine::CheckState;
use authz_engine::engine::GrantLookup;
use authz_engine::engine::GrantQuery;
use authz_engine::engine::StorageReply;
use authz_engine::engine::StoredCondition;
use authz_engine::engine::Verdict;
use authz_engine::error::AuthzError;
use authz_engine::model::ModelRequest;
use authz_engine::model::Organization;
use authz_engine::model::ResourceKind;
use authz_engine::model::ResourceModel;
use authz_engine::model::User;
use authz_engine::path::ParsedPath;

fn detail(url: &str, path: &str) -> AuditRecord {
    AuditRecord::new(
        String::from(url),
        String::from(path),
        String::from("203.0.113.9:51234"),
        Some(String::from("curl/8.0")),
    )
}

fn request(
    account_id: Option<u32>,
    controller: Option<&str>,
    id: Option<&str>,
    method: &str,
) -> CheckRequest {
    CheckRequest {
        detail: detail("/organization/17?x=1", "/organization/17"),
        account_id,
        path: ParsedPath::new(controller.map(String::from), id.map(String::from)),
        method: String::from(method),
    }
}

fn conditions(pairs: &[(&str, &str)]) -> Vec<StoredCondition> {
    pairs
        .iter()
        .map(|(name, value)| StoredCondition::new(String::from(*name), String::from(*value)))
        .collect()
}

fn lookup(permissions: &[i32], pairs: &[(&str, &str)]) -> StorageReply<GrantLookup> {
    StorageReply::Loaded(GrantLookup {
        permissions: permissions.to_vec(),
        conditions: conditions(pairs),
    })
}

fn organization(owner: i32) -> StorageReply<ResourceModel> {
    StorageReply::Loaded(ResourceModel::Organization(Organization {
        owner_account_id: owner,
    }))
}

/// Drives a check to its verdict. Storage answers with `grants` and `model`;
/// the third part of the result counts what was asked of it.
fn run(
    request: &CheckRequest,
    grants: StorageReply<GrantLookup>,
    model: StorageReply<ResourceModel>,
) -> (Verdict, Option<GrantQuery>, Option<ModelRequest>) {
    let controller = AuthZController::new(());
    let mut grants = Some(grants);
    let mut model = Some(model);
    let mut asked_grants = None;
    let mut asked_model = None;
    let mut state = CheckState::Start;
    let mut event: CheckEvent<ResourceModel> = CheckEvent::Begin;
    for _ in 0..3 {
        let step = controller.step(request, state, event);
        state = step.next;
        match step.action {
            CheckAction::FindGrants(query) => {
                assert_eq!(state, CheckState::AwaitingGrants);
                asked_grants = Some(query);
                event = CheckEvent::Grants(grants.take().unwrap());
            }
            CheckAction::LoadModel(wanted) => {
                assert!(matches!(state, CheckState::AwaitingModel { .. }));
                asked_model = Some(wanted);
                event = CheckEvent::Model(model.take().unwrap());
            }
            CheckAction::Finish(verdict) => {
                assert_eq!(state, CheckState::Finished);
                return (verdict, asked_grants, asked_model);
            }
        }
    }
    panic!("a check takes three steps at most");
}

fn denied(request: &CheckRequest) -> Verdict {
    Verdict {
        decision: Err(AuthzError::PermissionDenied),
        audit: Some(request.detail.clone()),
    }
}

#[test]
fn owner_may_delete_the_organization() {
    let request = request(Some(42), Some("organization"), Some("17"), "DELETE");
    let (verdict, asked_grants, asked_model) = run(
        &request,
        lookup(&[1], &[("isOwner", "true")]),
        organization(42),
    );
    assert_eq!(verdict.decision, Ok(()));
    assert_eq!(verdict.audit, None);
    assert_eq!(
        asked_grants,
        Some(GrantQuery {
            account_id: Some(42),
            object: String::from("organization"),
            action: Action::Delete,
        })
    );
    assert_eq!(
        asked_model,
        Some(ModelRequest {
            kind: ResourceKind::Organization,
            id: 17
        })
    );
}

#[test]
fn another_account_may_not_delete_the_organization() {
    let request = request(Some(42), Some("organization"), Some("17"), "DELETE");
    let (verdict, _, asked_model) = run(
        &request,
        lookup(&[1], &[("isOwner", "true")]),
        organization(99),
    );
    assert_eq!(verdict, denied(&request));
    assert!(asked_model.is_some());
}

#[test]
fn without_a_grant_the_request_is_denied() {
    for method in ["GET", "POST", "DELETE", "PUT"] {
        for id in [Some("17"), None] {
            let request = request(Some(42), Some("organization"), id, method);
            let (verdict, asked_grants, asked_model) = run(
                &request,
                lookup(&[], &[("isLoggedIn", "true")]),
                organization(42),
            );
            assert_eq!(verdict, denied(&request));
            assert!(asked_grants.is_some());
            assert_eq!(asked_model, None);
        }
    }
    let request = request(Some(42), Some("organization"), Some("17"), "GET");
    let (verdict, _, _) = run(&request, lookup(&[], &[]), organization(42));
    assert_eq!(verdict, denied(&request));
}

#[test]
fn a_grant_without_conditions_allows() {
    let request = request(Some(42), Some("translation"), None, "GET");
    let (verdict, asked_grants, asked_model) =
        run(&request, lookup(&[5, 8], &[]), StorageReply::Unavailable);
    assert_eq!(verdict, Verdict::allow());
    assert_eq!(verdict.audit, None);
    assert_eq!(
        asked_grants,
        Some(GrantQuery {
            account_id: Some(42),
            object: String::from("translation"),
            action: Action::View,
        })
    );
    assert_eq!(asked_model, None);
}

#[test]
fn any_condition_that_holds_allows_in_any_order() {
    let request = request(Some(42), Some("organization"), Some("17"), "POST");
    let orders: [&[(&str, &str)]; 4] = [
        &[("isOwner", "true"), ("isLoggedIn", "true")],
        &[("isLoggedIn", "true"), ("isOwner", "true")],
        &[("isOwner", "true"), ("isOwner", "false")],
        &[("isOwner", "false"), ("isOwner", "true")],
    ];
    for order in orders {
        let (verdict, _, _) = run(&request, lookup(&[1], order), organization(99));
        assert_eq!(verdict, Verdict::allow());
    }
    let none_holds: [&[(&str, &str)]; 2] = [
        &[("isOwner", "true"), ("isOwner", "true")],
        &[("isOwner", "false"), ("isOwner", "false")],
    ];
    let owners = [99, 42];
    for (order, owner) in none_holds.iter().zip(owners) {
        let (verdict, _, _) = run(&request, lookup(&[1], order), organization(owner));
        assert_eq!(verdict, denied(&request));
    }
}

#[test]
fn an_unknown_name_denies_before_a_later_condition_is_tried() {
    let request = request(Some(42), Some("organization"), Some("17"), "POST");
    let (verdict, _, _) = run(
        &request,
        lookup(&[1], &[("isAdmin", "true"), ("isLoggedIn", "true")]),
        organization(42),
    );
    assert_eq!(verdict, denied(&request));
    let (verdict, _, _) = run(
        &request,
        lookup(
            &[1],
            &[("isOwner", "true"), ("bogus", "true"), ("isLoggedIn", "true")],
        ),
        organization(99),
    );
    assert_eq!(verdict, denied(&request));
}

#[test]
fn an_unknown_name_after_a_condition_that_holds_is_not_reached() {
    let request = request(Some(42), Some("organization"), Some("17"), "POST");
    let (verdict, _, _) = run(
        &request,
        lookup(&[1], &[("isLoggedIn", "true"), ("isAdmin", "true")]),
        organization(99),
    );
    assert_eq!(verdict, Verdict::allow());
}

#[test]
fn every_refusal_carries_the_record_of_the_request() {
    let request = CheckRequest {
        detail: AuditRecord::new(
            String::from("/user/3?lang=fa"),
            String::from("/user/3"),
            String::from("[2001:db8::1]:443"),
            None,
        ),
        account_id: Some(8),
        path: ParsedPath::new(Some(String::from("user")), Some(String::from("3"))),
        method: String::from("POST"),
    };
    let (verdict, _, _) = run(
        &request,
        lookup(&[1], &[("isOwner", "true")]),
        StorageReply::Loaded(ResourceModel::User(User { account_id: 9 })),
    );
    assert_eq!(verdict.decision, Err(AuthzError::PermissionDenied));
    let record = verdict.audit.unwrap();
    assert_eq!(record.request_url, "/user/3?lang=fa");
    assert_eq!(record.request_url_parsed, "/user/3");
    assert_eq!(record.req_address, "[2001:db8::1]:443");
    assert_eq!(record.user_agent, None);

    let (verdict, _, _) = run(
        &request,
        lookup(&[1], &[("isOwner", "true")]),
        StorageReply::Loaded(ResourceModel::User(User { account_id: 8 })),
    );
    assert_eq!(verdict.decision, Ok(()));
    assert_eq!(verdict.audit, None);
}

#[test]
fn a_request_without_resource_type_is_refused_at_once() {
    let request = request(Some(42), None, Some("17"), "GET");
    let (verdict, asked_grants, asked_model) =
        run(&request, lookup(&[1], &[]), organization(42));
    assert_eq!(verdict.decision, Err(AuthzError::InvalidRequestShape));
    assert_eq!(verdict.audit, Some(request.detail.clone()));
    assert_eq!(asked_grants, None);
    assert_eq!(asked_model, None);
}

#[test]
fn conditions_need_an_instance_to_be_evaluated_on() {
    let missing = request(Some(42), Some("organization"), None, "POST");
    let (verdict, _, asked_model) = run(
        &missing,
        lookup(&[1], &[("isLoggedIn", "true")]),
        organization(42),
    );
    assert_eq!(verdict.decision, Err(AuthzError::InvalidRequestShape));
    assert_eq!(verdict.audit, Some(missing.detail.clone()));
    assert_eq!(asked_model, None);

    let unreadable = request(Some(42), Some("organization"), Some("seventeen"), "GET");
    let (verdict, _, asked_model) = run(
        &unreadable,
        lookup(&[1], &[("isLoggedIn", "true")]),
        organization(42),
    );
    assert_eq!(verdict.decision, Err(AuthzError::InvalidRequestShape));
    assert_eq!(asked_model, None);
}

#[test]
fn a_resource_type_without_provider_is_a_fault() {
    let request = request(Some(42), Some("mushaf"), Some("17"), "GET");
    let (verdict, _, asked_model) = run(
        &request,
        lookup(&[1], &[("isLoggedIn", "true")]),
        organization(42),
    );
    assert_eq!(verdict.decision, Err(AuthzError::UnsupportedResourceType));
    assert_eq!(verdict.audit, Some(request.detail.clone()));
    assert_eq!(asked_model, None);
    assert_eq!(
        verdict.decision.unwrap_err().code(),
        "AUTHZ_RESOURCE_NOT_SUPPORTED"
    );
}

#[test]
fn storage_faults_are_told_apart_from_denials() {
    let request = request(Some(42), Some("organization"), Some("17"), "DELETE");
    let (verdict, _, _) = run(&request, StorageReply::Unavailable, organization(42));
    assert_eq!(verdict.decision, Err(AuthzError::StorageUnavailable));
    assert_eq!(verdict.audit, Some(request.detail.clone()));

    let (verdict, _, asked_model) = run(
        &request,
        lookup(&[1], &[("isOwner", "true")]),
        StorageReply::Unavailable,
    );
    assert_eq!(verdict.decision, Err(AuthzError::StorageUnavailable));
    assert!(asked_model.is_some());
    assert_eq!(AuthzError::StorageUnavailable.code(), "AUTHZ_STORAGE_UNAVAILABLE");
    assert_eq!(AuthzError::PermissionDenied.code(), "AUTHZ_PERMISSION_DENIED");
    assert_eq!(AuthzError::InvalidRequestShape.code(), "AUTHZ_INVALID_REQUEST");
}

#[test]
fn a_request_that_nobody_signed_is_looked_up_like_any_other() {
    let request = request(None, Some("organization"), Some("17"), "GET");
    let (verdict, asked_grants, _) = run(&request, lookup(&[], &[]), organization(42));
    assert_eq!(verdict, denied(&request));
    assert_eq!(asked_grants.unwrap().account_id, None);

    // Nothing that looks at the subject holds without one.
    let (verdict, _, _) = run(
        &request,
        lookup(
            &[1],
            &[("isLoggedIn", "true"), ("isOwner", "false"), ("isOwner", "other")],
        ),
        organization(42),
    );
    assert_eq!(verdict, denied(&request));
}

#[test]
fn an_event_out_of_turn_ends_the_check_in_a_fault() {
    let controller = AuthZController::new(());
    let request = request(Some(42), Some("organization"), Some("17"), "GET");
    let refused = Verdict::refuse(AuthzError::StorageUnavailable, &request);

    let step = controller.step(&request, CheckState::Start, CheckEvent::Model(organization(42)));
    assert_eq!(step.next, CheckState::Finished);
    assert_eq!(step.action, CheckAction::Finish(Verdict::refuse(AuthzError::StorageUnavailable, &request)));

    let step = controller.step::<ResourceModel>(
        &request,
        CheckState::AwaitingGrants,
        CheckEvent::Begin,
    );
    assert_eq!(step.action, CheckAction::Finish(Verdict::refuse(AuthzError::StorageUnavailable, &request)));

    let step = controller.step::<ResourceModel>(
        &request,
        CheckState::AwaitingModel {
            conditions: conditions(&[("isLoggedIn", "true")]),
        },
        CheckEvent::Grants(lookup(&[1], &[])),
    );
    assert_eq!(step.action, CheckAction::Finish(Verdict::refuse(AuthzError::StorageUnavailable, &request)));

    let step = controller.step::<ResourceModel>(&request, CheckState::Finished, CheckEvent::Begin);
    assert_eq!(step.next, CheckState::Finished);
    assert_eq!(step.action, CheckAction::Finish(refused));
}

#[test]
fn steps_one_by_one() {
    let controller = AuthZController::new(());
    let request = request(Some(42), Some("user"), Some("3"), "POST");

    let first = controller.begin(&request);
    assert_eq!(first.next, CheckState::AwaitingGrants);
    assert_eq!(
        first.action,
        CheckAction::FindGrants(GrantQuery {
            account_id: Some(42),
            object: String::from("user"),
            action: Action::Edit,
        })
    );

    let second = controller.on_grants(&request, lookup(&[4], &[("isOwner", "true")]));
    assert_eq!(
        second.next,
        CheckState::AwaitingModel {
            conditions: conditions(&[("isOwner", "true")])
        }
    );
    assert_eq!(
        second.action,
        CheckAction::LoadModel(ModelRequest {
            kind: ResourceKind::User,
            id: 3
        })
    );

    let third = controller.on_model(
        &request,
        &conditions(&[("isOwner", "true")]),
        StorageReply::Loaded(User { account_id: 42 }),
    );
    assert_eq!(third.next, CheckState::Finished);
    assert_eq!(third.action, CheckAction::Finish(Verdict::allow()));
}

#[test]
fn conditions_are_evaluated_in_order() {
    let user = User { account_id: 42 };
    let cases: [(&[(&str, &str)], Option<u32>, bool); 9] = [
        (&[], Some(42), false),
        (&[("isOwner", "true")], Some(42), true),
        (&[("isOwner", "true")], Some(43), false),
        (&[("isOwner", "false")], Some(43), true),
        (&[("isOwner", "true")], None, false),
        (&[("isLoggedIn", "")], Some(1), true),
        (&[("isLoggedIn", "")], None, false),
        (&[("isOwner", "true"), ("nope", "true"), ("isLoggedIn", "true")], Some(43), false),
        (&[("isOwner", "true"), ("isLoggedIn", "true"), ("nope", "true")], Some(43), true),
    ];
    for (pairs, account_id, expected) in cases {
        assert_eq!(
            evaluate_conditions(&conditions(pairs), &user, account_id),
            expected,
            "{:?} for {:?}",
            pairs,
            account_id
        );
    }
}

#[test]
fn the_subject_is_compared_as_a_number_is_written() {
    // An account id beyond the range of the attribute never owns anything.
    let user = User { account_id: -1 };
    assert!(!evaluate_conditions(
        &conditions(&[("isOwner", "true")]),
        &user,
        Some(u32::MAX)
    ));
    let user = User {
        account_id: i32::MAX,
    };
    assert!(evaluate_conditions(
        &conditions(&[("isOwner", "true")]),
        &user,
        Some(2147483647)
    ));
    assert!(!evaluate_conditions(
        &conditions(&[("isOwner", "true")]),
        &user,
        Some(2147483648)
    ));
}
