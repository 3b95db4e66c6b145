use ad_marketplace::errors::AppErrorType;
use ad_marketplace::token::{
    check_access, get_password, grant, has_role, holds_one_of, lets_pass, Role, TokenClaims,
};

#[test]
fn a_route_that_asks_for_nothing_lets_everyone_pass() {
    assert!(check_access(&vec![], None));
    assert!(check_access(&vec![Role::Client], None));
}

#[test]
fn a_route_lets_pass_who_has_one_of_the_roles_it_asks_for() {
    let route = vec![Role::Business, Role::Admin];
    assert!(check_access(&vec![Role::Admin], Some(&route)));
    assert!(check_access(&vec![Role::Client, Role::Business], Some(&route)));
    assert!(!check_access(&vec![Role::Client], Some(&route)));
    assert!(!check_access(&vec![], Some(&route)));
}

#[test]
fn a_route_that_asks_for_no_role_at_all_lets_nobody_pass() {
    let route: Vec<Role> = Vec::new();
    assert!(!check_access(&vec![Role::Admin, Role::Client, Role::Business], Some(&route)));
}

#[test]
fn roles_are_looked_up_one_by_one() {
    assert!(has_role(&vec![Role::Client, Role::Admin], Role::Admin));
    assert!(!has_role(&vec![Role::Client, Role::Admin], Role::Business));
    assert!(holds_one_of(&vec![Role::Client], &vec![Role::Admin, Role::Client]));
    assert!(!holds_one_of(&vec![Role::Client], &vec![Role::Admin]));
}

#[test]
fn a_request_passes_only_with_a_good_token_and_a_fitting_role() {
    let admins = vec![Role::Admin];
    let admin = TokenClaims { id: 1, roles: vec![Role::Admin] };
    let client = TokenClaims { id: 2, roles: vec![Role::Client] };
    assert!(lets_pass(Some(&admin), Some(&admins)));
    assert!(!lets_pass(Some(&client), Some(&admins)));
    assert!(lets_pass(Some(&client), None));
    assert!(!lets_pass(None, None));
    assert!(!lets_pass(None, Some(&admins)));
}

#[test]
fn a_login_must_come_with_a_password() {
    assert_eq!(get_password(Some("secret")).unwrap(), "secret");
    assert_eq!(get_password(Some("")).unwrap(), "");
    let error = get_password(None).unwrap_err();
    assert_eq!(error.error_type, AppErrorType::PasswordOrLoginError);
    assert_eq!(error.message.as_deref(), Some("Must provide username and password"));
    assert_eq!(error.cause, None);
    assert_eq!(error.status_code(), 400);
}

#[test]
fn the_right_password_is_granted_claims_and_the_wrong_one_is_not() {
    let claims = grant(7, vec![Role::Business], true).unwrap();
    assert_eq!(claims.id, 7);
    assert_eq!(claims.roles, vec![Role::Business]);

    let error = grant(7, vec![Role::Business], false).unwrap_err();
    assert_eq!(error.error_type, AppErrorType::SomethingWentWrong);
    assert_eq!(error.message.as_deref(), Some("Cannot authorise"));
    assert_eq!(error.cause, None);
}
