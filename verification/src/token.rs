//! Who may do what: the roles that a token carries, and the decisions that
//! are taken on them.
//!
//! Tokens are signed and read elsewhere. Here it is decided what a request
//! with given claims may pass, and what a login with a checked password is
//! granted.

use crate::errors::{AppError, AppErrorType, AppErrorView};
use vstd::prelude::*;

verus! {

/// What a bearer of a token may act as.
#[derive(Debug, Clone, Copy, PartialEq, Eq, Structural)]
pub enum Role {
    Admin,
    Client,
    Business,
}

/// What a token says of its bearer.
#[derive(Debug)]
pub struct TokenClaims {
    pub id: u128,
    pub roles: Vec<Role>,
}

/// Whether one of `roles` is among `required`.
pub open spec fn has_one_of(roles: Seq<Role>, required: Seq<Role>) -> bool {
    exists|k: int| 0 <= k < roles.len() && required.contains(#[trigger] roles[k])
}

/// Whether a bearer with `roles` may pass where `required` is asked for: if
/// nothing is asked for, anyone may; else one of the roles must be among
/// those asked for.
pub open spec fn access_allowed(roles: Seq<Role>, required: Option<Seq<Role>>) -> bool {
    match required {
        Some(required) => has_one_of(roles, required),
        None => true,
    }
}

/// The roles that a route asks for, as a sequence.
pub open spec fn asked(required_roles: Option<&Vec<Role>>) -> Option<Seq<Role>> {
    match required_roles {
        Some(required) => Some(required@),
        None => None,
    }
}

/// Decides whether `role` is among `roles`.
pub fn has_role(roles: &Vec<Role>, role: Role) -> (yes: bool)
    ensures
        yes == roles@.contains(role),
{
    let mut i: usize = 0;
    while i < roles.len()
        invariant
            i <= roles.len(),
            forall|k: int| 0 <= k < i ==> roles@[k] != role,
        decreases roles.len() - i,
    {
        if roles[i] == role {
            return true;
        }
        i += 1;
    }
    false
}

/// Decides whether one of `roles` is among `required`.
pub fn holds_one_of(roles: &Vec<Role>, required: &Vec<Role>) -> (yes: bool)
    ensures
        yes == has_one_of(roles@, required@),
{
    let mut i: usize = 0;
    while i < roles.len()
        invariant
            i <= roles.len(),
            forall|k: int| 0 <= k < i ==> !required@.contains(#[trigger] roles@[k]),
        decreases roles.len() - i,
    {
        if has_role(required, roles[i]) {
            assert(required@.contains(roles@[i as int]));
            return true;
        }
        i += 1;
    }
    false
}

/// Decides whether a bearer with `roles` may pass a route that asks for
/// `required_roles`.
pub fn check_access(roles: &Vec<Role>, required_roles: Option<&Vec<Role>>) -> (allowed: bool)
    ensures
        allowed == access_allowed(roles@, asked(required_roles)),
{
    match required_roles {
        Some(required) => holds_one_of(roles, required),
        None => true,
    }
}

/// Decides whether a request passes: its token must have been good, which
/// is when there are claims, and its bearer must have a role that the route
/// asks for.
pub fn lets_pass(claims: Option<&TokenClaims>, required_roles: Option<&Vec<Role>>) -> (passes: bool)
    ensures
        passes == (claims matches Some(claims) && access_allowed(
            claims.roles@,
            asked(required_roles),
        )),
{
    match claims {
        Some(claims) => check_access(&claims.roles, required_roles),
        None => false,
    }
}

/// The password that a login came with; a failure if it came with none.
pub fn get_password(password: Option<&str>) -> (given: Result<String, AppError>)
    ensures
        match password {
            Some(password) => given matches Ok(text) && text@ == password@,
            None => given matches Err(error) && error@ == AppErrorView::told(
                AppErrorType::PasswordOrLoginError,
                "Must provide username and password"@,
            ),
        },
{
    match password {
        Some(password) => Ok(password.to_string()),
        None => Err(
            AppError::with_message(
                "Must provide username and password",
                AppErrorType::PasswordOrLoginError,
            ),
        ),
    }
}

/// What a login is granted once its password has been checked: the claims
/// to sign, for `id` with `roles`, if the password was the right one; a
/// failure if not.
pub fn grant(id: u128, roles: Vec<Role>, is_valid: bool) -> (granted: Result<TokenClaims, AppError>)
    ensures
        if is_valid {
            granted matches Ok(claims) && claims.id == id && claims.roles == roles
        } else {
            granted matches Err(error) && error@ == AppErrorView::told(
                AppErrorType::SomethingWentWrong,
                "Cannot authorise"@,
            )
        },
{
    if is_valid {
        Ok(TokenClaims { id, roles })
    } else {
        Err(AppError::with_message("Cannot authorise", AppErrorType::SomethingWentWrong))
    }
}

} // verus!
