use authz_engine::action::Action;
use authz_engine::path::ParsedPath;

fn path(controller: Option<&str>, id: Option<&str>) -> ParsedPath {
    ParsedPath::new(controller.map(String::from), id.map(String::from))
}

#[test]
fn resolver_table() {
    assert_eq!(Action::resolve(true, "GET"), Action::View);
    assert_eq!(Action::resolve(false, "POST"), Action::Create);
    assert_eq!(Action::resolve(true, "POST"), Action::Edit);
    assert_eq!(Action::resolve(true, "DELETE"), Action::Delete);
    assert_eq!(Action::resolve(false, "DELETE"), Action::View);
    assert_eq!(Action::resolve(false, "GET"), Action::View);
}

#[test]
fn other_methods_view() {
    for method in ["PUT", "PATCH", "HEAD", "OPTIONS", "", "get", "post", "delete", "POST ", "DELET"] {
        assert_eq!(Action::resolve(true, method), Action::View);
        assert_eq!(Action::resolve(false, method), Action::View);
    }
}

#[test]
fn resolver_gives_the_same_answer_twice() {
    for method in ["GET", "POST", "DELETE", "PUT"] {
        for present in [true, false] {
            assert_eq!(
                Action::resolve(present, method),
                Action::resolve(present, method)
            );
        }
    }
}

#[test]
fn action_from_path_looks_at_the_id_only() {
    assert_eq!(
        Action::from_auth_z(&path(Some("user"), Some("3")), "POST"),
        Action::Edit
    );
    assert_eq!(
        Action::from_auth_z(&path(Some("user"), None), "POST"),
        Action::Create
    );
    assert_eq!(
        Action::from_auth_z(&path(None, Some("3")), "DELETE"),
        Action::Delete
    );
    assert_eq!(
        Action::from_auth_z(&path(None, None), "DELETE"),
        Action::View
    );
    assert_eq!(
        Action::from_auth_z(&path(Some("user"), Some("not a number")), "GET"),
        Action::View
    );
}

#[test]
fn action_names() {
    assert_eq!(Action::Create.as_str(), "create");
    assert_eq!(Action::Edit.as_str(), "edit");
    assert_eq!(Action::Delete.as_str(), "delete");
    assert_eq!(Action::View.as_str(), "view");
    let name: &str = Action::Delete.into();
    assert_eq!(name, "delete");
    assert_eq!(<&str>::from(Action::Create), "create");
    assert_eq!(<&str>::from(Action::Edit), "edit");
    assert_eq!(<&str>::from(Action::View), "view");
}
