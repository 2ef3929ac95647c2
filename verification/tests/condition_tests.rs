use authz_engine::condition::Condition;
use authz_engine::condition::ConditionValueType;
use authz_engine::condition::Login;
use authz_engine::condition::ModelAttrib;
use authz_engine::condition::ModelAttribResult;
use authz_engine::condition::Owner;
use authz_engine::error::AuthzError;

#[test]
fn test_login_condition() {
    let login = Login {};

    // This should return true
    assert_eq!(login.validate(None, Some("user"), ""), true);

    // This should return false
    assert_eq!(login.validate(None, None, ""), false);
}

#[test]
fn test_owner_condition() {
    let owner = Owner {};

    // This should return true
    assert_eq!(owner.validate(None, Some("user"), ""), true);

    // This should return false
    assert_eq!(owner.validate(None, None, ""), false);

    assert_eq!(owner.validate(Some(1), Some("1"), "true"), true);
}

#[test]
fn test_model_attrib() {
    assert_eq!(
        ModelAttrib::try_from("isOwner").unwrap(),
        ModelAttrib::Owner
    );
    assert_eq!(
        ModelAttrib::try_from("isLoggedIn").unwrap(),
        ModelAttrib::Login
    );
}

#[test]
fn owner_with_true_literal_compares_attribute_and_subject() {
    let owner = Owner {};
    assert_eq!(owner.validate(Some(7), Some("7"), "true"), true);
    assert_eq!(owner.validate(Some(7), Some("9"), "true"), false);
    assert_eq!(owner.validate(None, Some("7"), "true"), false);
    assert_eq!(owner.validate(Some(-7), Some("-7"), "true"), true);
    assert_eq!(owner.validate(Some(7), Some("07"), "true"), false);
    assert_eq!(owner.validate(Some(7), Some("+7"), "true"), false);
    assert_eq!(owner.validate(Some(7), Some(""), "true"), false);
}

#[test]
fn owner_with_false_literal_asks_for_another_subject() {
    let owner = Owner {};
    assert_eq!(owner.validate(None, Some("x"), "false"), true);
    assert_eq!(owner.validate(Some(7), Some("7"), "false"), false);
    assert_eq!(owner.validate(Some(7), Some("9"), "false"), true);
}

#[test]
fn owner_needs_a_subject_for_every_literal() {
    let owner = Owner {};
    assert_eq!(owner.validate(Some(7), None, "true"), false);
    assert_eq!(owner.validate(Some(7), None, "false"), false);
    assert_eq!(owner.validate(None, None, "false"), false);
    assert_eq!(owner.validate(Some(7), None, "maybe"), false);
}

#[test]
fn owner_lets_other_literals_pass() {
    let owner = Owner {};
    assert_eq!(owner.validate(Some(7), Some("9"), "maybe"), true);
    assert_eq!(owner.validate(None, Some("9"), "TRUE"), true);
    assert_eq!(owner.validate(Some(7), Some("9"), " true"), true);
}

#[test]
fn login_looks_at_the_subject_only() {
    let login = Login {};
    assert_eq!(login.validate(Some(3), Some("anything"), "true"), true);
    assert_eq!(login.validate(None, Some(""), "false"), true);
    assert_eq!(login.validate(Some(3), None, "true"), false);
    assert_eq!(login.validate(None, None, "whatever"), false);
}

#[test]
fn unknown_condition_names_are_faults() {
    assert_eq!(
        ModelAttrib::try_from("isAdmin"),
        Err(AuthzError::UnknownConditionName)
    );
    assert_eq!(
        ModelAttrib::try_from("isowner"),
        Err(AuthzError::UnknownConditionName)
    );
    assert_eq!(ModelAttrib::try_from(""), Err(AuthzError::UnknownConditionName));
    assert_eq!(
        ModelAttrib::try_from("isOwner ").unwrap_err().code(),
        "MODEL_ATTRIBUTE_NOT_DEFINED"
    );
}

#[test]
fn value_types_of_literals() {
    assert_eq!(
        ConditionValueType::try_from("true"),
        Ok(ConditionValueType::Boolean)
    );
    assert_eq!(
        ConditionValueType::try_from("false"),
        Ok(ConditionValueType::Boolean)
    );
    assert_eq!(
        ConditionValueType::try_from("yes"),
        Err(AuthzError::UnsupportedConditionValue)
    );
    assert_eq!(
        ConditionValueType::try_from("").unwrap_err().code(),
        "AUTHZ_CONDITION_VALUE_NOT_DEFINED"
    );
}

#[test]
fn attribute_results_decide_as_their_conditions() {
    let owner = ModelAttribResult::from(ModelAttrib::Owner);
    let login = ModelAttribResult::from(ModelAttrib::Login);
    assert!(matches!(owner, ModelAttribResult::Owner(_)));
    assert!(matches!(login, ModelAttribResult::Login(_)));
    assert_eq!(owner.validate(Some(7), Some("7"), "true"), true);
    assert_eq!(owner.validate(Some(7), Some("8"), "true"), false);
    assert_eq!(login.validate(Some(7), Some("8"), "true"), true);
    assert_eq!(login.validate(Some(7), None, "true"), false);
    assert_eq!(owner.get_value_type(), ConditionValueType::Boolean);
    assert_eq!(login.get_value_type(), ConditionValueType::Boolean);
    assert_eq!(Owner {}.get_value_type(), ConditionValueType::Boolean);
    assert_eq!(Login {}.get_value_type(), ConditionValueType::Boolean);
}
