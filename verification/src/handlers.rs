//! Request handlers: compose the authorization boundary with Task Store
//! Access and fix the HTTP status of every outcome.
//!
//! The handlers take the authenticated identity produced by the boundary;
//! the `handle_*_request` functions are the whole task routes, boundary
//! included, and show that a rejected request never touches the store.

use vstd::prelude::*;

use crate::auth::{
    authenticate, bearer_token_of, has_bearer_prefix, token_key_id, AuthenticatedUser,
};
use crate::db::{create_task, get_tasks_for_user, owned_desc, TaskStore};
use crate::jwks::SigningKeyCache;
use crate::models::{
    views_of, AuthResponse, CreateTask, KeycloakCredential, KeycloakUser, RegisterRequest, Task,
};
use crate::VerificationError;

verus! {

/// The HTTP status a verification failure maps to: 400 for a malformed
/// token, 401 for every other failure.
pub open spec fn spec_status_for(e: VerificationError) -> u16 {
    match e {
        VerificationError::MalformedToken => 400,
        _ => 401,
    }
}

/// Maps a verification failure to its HTTP status.
pub fn status_for(e: &VerificationError) -> (s: u16)
    ensures
        s == spec_status_for(*e),
{
    match e {
        VerificationError::MalformedToken => 400,
        _ => 401,
    }
}

/// Creates a task owned by the authenticated identity: 201 with the stored
/// task appended after every existing row.
pub fn create_task_handler(store: &mut TaskStore, user: AuthenticatedUser, new_task: CreateTask)
    -> (r: (u16, Task))
    requires
        old(store).wf(),
        old(store).can_create(),
    ensures
        final(store).wf(),
        r.0 == 201,
        r.1@.user_id == user.id@,
        r.1@.title == new_task.title@,
        !r.1@.is_completed,
        final(store).tasks_seq() == old(store).tasks_seq().push(r.1@),
{
    let task = create_task(store, user.id, new_task);
    (201, task)
}

/// Lists the authenticated identity's tasks, newest first: always 200, the
/// empty list included.
pub fn get_tasks_handler(store: &TaskStore, user: AuthenticatedUser) -> (r: (u16, Vec<Task>))
    ensures
        r.0 == 200,
        views_of(r.1@) == owned_desc(store.tasks_seq(), user.id@),
{
    let tasks = get_tasks_for_user(store, user.id);
    (200, tasks)
}

/// The whole task-creation route: the boundary verifies the credential, and
/// only a request with a verified identity reaches the store — on any
/// failure the store is untouched and the status is 400 or 401.
pub fn handle_create_request(
    jwks: &SigningKeyCache,
    store: &mut TaskStore,
    auth_header: Option<&String>,
    new_task: CreateTask,
) -> (r: (u16, Option<Task>))
    requires
        old(store).wf(),
        old(store).can_create(),
    ensures
        final(store).wf(),
        (r.0 == 201) <==> (r.1 is Some),
        r.0 == 201 || r.0 == 400 || r.0 == 401,
        r.0 != 201 ==> *final(store) == *old(store),
        r.0 == 201 ==> (r.1 matches Some(t) && t@.title == new_task.title@ && !t@.is_completed
            && t@.user_id.len() > 0 && final(store).tasks_seq() == old(store).tasks_seq().push(
            t@,
        )),
        match auth_header {
            None => r.0 == 401,
            Some(h) => {
                &&& !has_bearer_prefix(h@) ==> r.0 == 401
                &&& has_bearer_prefix(h@) ==> match token_key_id(bearer_token_of(h@)) {
                    None => r.0 == 400,
                    Some(kid) => !jwks.contains_kid(kid) ==> r.0 == 401,
                }
            },
        },
{
    match authenticate(jwks, auth_header) {
        Err(e) => (status_for(&e), None),
        Ok(user) => {
            let (status, task) = create_task_handler(store, user, new_task);
            (status, Some(task))
        },
    }
}

/// The whole task-listing route: a verified identity gets 200 and exactly
/// its own tasks, newest first; any failure gets 400 or 401 and no listing.
pub fn handle_list_request(
    jwks: &SigningKeyCache,
    store: &TaskStore,
    auth_header: Option<&String>,
) -> (r: (u16, Option<Vec<Task>>))
    ensures
        (r.0 == 200) <==> (r.1 is Some),
        r.0 == 200 || r.0 == 400 || r.0 == 401,
        r.0 == 200 ==> (r.1 matches Some(v) && exists|o: Seq<char>|
            o.len() > 0 && views_of(v@) == owned_desc(store.tasks_seq(), o)),
        match auth_header {
            None => r.0 == 401,
            Some(h) => {
                &&& !has_bearer_prefix(h@) ==> r.0 == 401
                &&& has_bearer_prefix(h@) ==> match token_key_id(bearer_token_of(h@)) {
                    None => r.0 == 400,
                    Some(kid) => !jwks.contains_kid(kid) ==> r.0 == 401,
                }
            },
        },
{
    match authenticate(jwks, auth_header) {
        Err(e) => (status_for(&e), None),
        Ok(user) => {
            let ghost uid = user.id@;
            let (status, tasks) = get_tasks_handler(store, user);
            proof {
                assert(uid.len() > 0 && views_of(tasks@) == owned_desc(store.tasks_seq(), uid));
            }
            (status, Some(tasks))
        },
    }
}

/// Copies an optional string.
fn clone_opt_string(s: &Option<String>) -> (r: Option<String>)
    ensures
        r == *s,
{
    match s {
        Some(v) => Some(v.clone()),
        None => None,
    }
}

/// Builds the identity provider's user-creation payload from a registration
/// request: the account is enabled and carries exactly one permanent
/// password credential.
pub fn build_keycloak_user(req: &RegisterRequest) -> (u: KeycloakUser)
    ensures
        u.username == req.username,
        u.email == req.email,
        u.enabled,
        u.credentials@.len() == 1,
        u.credentials@[0].credential_type@ == "password"@,
        u.credentials@[0].value == req.password,
        !u.credentials@[0].temporary,
        u.first_name == req.first_name,
        u.last_name == req.last_name,
{
    let credential = KeycloakCredential {
        credential_type: "password".to_owned(),
        value: req.password.clone(),
        temporary: false,
    };
    let mut credentials: Vec<KeycloakCredential> = Vec::new();
    credentials.push(credential);
    KeycloakUser {
        username: req.username.clone(),
        email: req.email.clone(),
        enabled: true,
        credentials,
        first_name: clone_opt_string(&req.first_name),
        last_name: clone_opt_string(&req.last_name),
    }
}

/// Builds the login response from the fields read out of the identity
/// provider's token payload: a missing access token becomes the empty
/// string, a missing token type defaults to `Bearer`, and a missing lifetime
/// defaults to 300 seconds.
pub fn build_auth_response(
    access_token: Option<String>,
    token_type: Option<String>,
    expires_in: Option<i64>,
    refresh_token: Option<String>,
) -> (r: AuthResponse)
    ensures
        match access_token {
            Some(s) => r.access_token == s,
            None => r.access_token@.len() == 0,
        },
        match token_type {
            Some(s) => r.token_type == s,
            None => r.token_type@ == "Bearer"@,
        },
        match expires_in {
            Some(v) => r.expires_in == v,
            None => r.expires_in == 300,
        },
        r.refresh_token == refresh_token,
{
    AuthResponse {
        access_token: match access_token {
            Some(s) => s,
            None => String::new(),
        },
        token_type: match token_type {
            Some(s) => s,
            None => "Bearer".to_owned(),
        },
        expires_in: match expires_in {
            Some(v) => v,
            None => 300,
        },
        refresh_token,
    }
}

} // verus!
