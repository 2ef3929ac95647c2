use authz_engine::token_auth::TokenAuth;
use authz_engine::token_auth::TokenStep;

#[derive(Clone, Debug, Default, PartialEq)]
struct Finder(u8);

#[test]
fn token_auth_keeps_its_settings() {
    let auth: TokenAuth<Finder, u32> = TokenAuth::new(Finder(3), true);
    assert_eq!(auth.finder(), &Finder(3));
    assert!(auth.is_header_required());
    let lax: TokenAuth<Finder, u32> = TokenAuth::new(Finder(4), false);
    assert_eq!(lax.finder(), &Finder(4));
    assert!(!lax.is_header_required());
    let copy = lax.clone();
    assert_eq!(copy.finder(), &Finder(4));
    assert!(!copy.is_header_required());
}

#[test]
fn middleware_takes_over_the_settings() {
    let auth: TokenAuth<Finder, u32> = TokenAuth::new(Finder(3), true);
    let middleware = auth.new_transform("service");
    assert_eq!(middleware.token_finder(), &Finder(3));
    assert_eq!(*middleware.service(), "service");
    let step: TokenStep<u32, String> = middleware.on_request(None);
    assert_eq!(step, TokenStep::TokenNotFound);
}

#[test]
fn a_token_is_looked_up() {
    for required in [true, false] {
        let auth: TokenAuth<Finder, u32> = TokenAuth::new(Finder(0), required);
        let middleware = auth.new_transform(());
        let step: TokenStep<u32, String> = middleware.on_request(Some("Bearer abc"));
        assert_eq!(step, TokenStep::GetUserId("Bearer abc"));
        let step: TokenStep<u32, String> = middleware.on_request(Some(""));
        assert_eq!(step, TokenStep::GetUserId(""));
    }
}

#[test]
fn a_request_without_token_passes_only_where_none_is_required() {
    let strict: TokenAuth<Finder, u32> = TokenAuth::new(Finder(0), true);
    let step: TokenStep<u32, String> = strict.new_transform(()).on_request(None);
    assert_eq!(step, TokenStep::TokenNotFound);
    let lax: TokenAuth<Finder, u32> = TokenAuth::new(Finder(0), false);
    let step: TokenStep<u32, String> = lax.new_transform(()).on_request(None);
    assert_eq!(step, TokenStep::Forward(None));
}

#[test]
fn the_answer_of_the_lookup_decides() {
    let auth: TokenAuth<Finder, u32> = TokenAuth::new(Finder(0), true);
    let middleware = auth.new_transform(());
    let step: TokenStep<u32, String> = middleware.on_user_id(Ok(42));
    assert_eq!(step, TokenStep::Forward(Some(42)));
    let step: TokenStep<u32, String> = middleware.on_user_id(Err(String::from("expired")));
    assert_eq!(step, TokenStep::Reject(String::from("expired")));
}

#[test]
fn default_settings_require_no_header() {
    let auth: TokenAuth<Finder, u32> = TokenAuth::default();
    assert!(!auth.is_header_required());
    assert_eq!(auth.finder(), &Finder(0));
    let step: TokenStep<u32, String> = auth.new_transform(()).on_request(None);
    assert_eq!(step, TokenStep::Forward(None));
}
