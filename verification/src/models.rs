//! Data model: tasks and the request/response shapes of the HTTP surface.

use vstd::prelude::*;

verus! {

/// A task row: one owner, a title, a completion flag, and a store-assigned
/// identifier and creation stamp. A task is visible only to queries scoped by
/// its owner.
pub struct Task {
    pub id: u64,
    pub user_id: String,
    pub title: String,
    pub is_completed: bool,
    pub created_at: u64,
}

/// The mathematical value of a task.
pub struct TaskView {
    pub id: u64,
    pub user_id: Seq<char>,
    pub title: Seq<char>,
    pub is_completed: bool,
    pub created_at: u64,
}

impl View for Task {
    type V = TaskView;

    open spec fn view(&self) -> TaskView {
        TaskView {
            id: self.id,
            user_id: self.user_id@,
            title: self.title@,
            is_completed: self.is_completed,
            created_at: self.created_at,
        }
    }
}

/// The values of a sequence of tasks.
pub open spec fn views_of(ts: Seq<Task>) -> Seq<TaskView> {
    Seq::new(ts.len(), |i: int| ts[i]@)
}

/// The body of a task-creation request.
pub struct CreateTask {
    pub title: String,
}

/// The body of a registration request.
pub struct RegisterRequest {
    pub username: String,
    pub email: String,
    pub password: String,
    pub first_name: Option<String>,
    pub last_name: Option<String>,
}

/// The body of a login request.
pub struct LoginRequest {
    pub username: String,
    pub password: String,
}

/// The token material returned on a successful login.
pub struct AuthResponse {
    pub access_token: String,
    pub token_type: String,
    pub expires_in: i64,
    pub refresh_token: Option<String>,
}

/// A fixed, non-sensitive error payload.
pub struct ErrorResponse {
    pub error: String,
    pub message: String,
}

/// The user-creation payload sent to the identity provider.
pub struct KeycloakUser {
    pub username: String,
    pub email: String,
    pub enabled: bool,
    pub credentials: Vec<KeycloakCredential>,
    pub first_name: Option<String>,
    pub last_name: Option<String>,
}

/// One credential of a user-creation payload.
pub struct KeycloakCredential {
    pub credential_type: String,
    pub value: String,
    pub temporary: bool,
}

} // verus!
