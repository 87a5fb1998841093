//! The user endpoints: what a client sees of a user, and which requests are
//! refused.

use crate::error::{AppError, AppErrorView};
use crate::models::{CreateUserRequest, User};
use crate::text::{chars_of, same_text, trim, trim_spec};
use vstd::prelude::*;
use vstd::utf8::encode_utf8;

verus! {

/// The fewest bytes that a password may have.
pub const MIN_PASSWORD_BYTES: usize = 8;

/// What a client sees of a user: everything but the password.
#[derive(Clone, Debug)]
pub struct UserView {
    pub id: String,
    pub username: String,
    pub created_at: String,
}

impl From<User> for UserView {
    fn from(u: User) -> (v: UserView) {
        UserView { id: u.id, username: u.username, created_at: u.created_at }
    }
}

impl vstd::std_specs::convert::FromSpecImpl<User> for UserView {
    open spec fn obeys_from_spec() -> bool {
        true
    }

    open spec fn from_spec(u: User) -> UserView {
        UserView { id: u.id, username: u.username, created_at: u.created_at }
    }
}

/// The body of a request to change a password.
#[derive(Clone, Debug)]
pub struct ChangePasswordRequest {
    pub new_password: String,
}

/// Why a new user is refused before the store is asked: a blank name, or a
/// password of fewer than 8 bytes.
pub open spec fn new_user_refusal(username: Seq<char>, password: Seq<u8>) -> Option<AppErrorView> {
    if trim_spec(username).len() == 0 {
        Some(AppErrorView::BadRequest("username cannot be empty"@))
    } else if password.len() < MIN_PASSWORD_BYTES {
        Some(AppErrorView::BadRequest("password must be at least 8 characters"@))
    } else {
        None
    }
}

/// The message that refuses a name that is taken.
pub open spec fn name_taken_message(username: Seq<char>) -> Seq<char> {
    "username '"@ + username + "' already exists"@
}

/// Checks a new user before the store is asked.
pub fn check_new_user(req: &CreateUserRequest) -> (r: Result<(), AppError>)
    ensures
        match r {
            Ok(_) => new_user_refusal(req.username@, encode_utf8(req.password@)).is_none(),
            Err(e) => new_user_refusal(req.username@, encode_utf8(req.password@)) == Some(
                e@,
            ),
        },
{
    let name = chars_of(req.username.as_str());
    if trim(name.as_slice()).len() == 0 {
        return Err(AppError::BadRequest("username cannot be empty".to_string()));
    }
    if req.password.as_str().as_bytes().len() < MIN_PASSWORD_BYTES {
        return Err(AppError::BadRequest("password must be at least 8 characters".to_string()));
    }
    Ok(())
}

/// Decides on a new user: the checks of [`check_new_user`], then a conflict
/// where the name is taken.
pub fn create_user(req: &CreateUserRequest, name_taken: bool) -> (r: Result<(), AppError>)
    ensures
        match new_user_refusal(req.username@, encode_utf8(req.password@)) {
            Some(refusal) => r matches Err(e) && e@ == refusal,
            None => if name_taken {
                r matches Err(e) && e@ == AppErrorView::Conflict(name_taken_message(req.username@))
            } else {
                r is Ok
            },
        },
{
    match check_new_user(req) {
        Err(e) => Err(e),
        Ok(_) => {
            if name_taken {
                let mut message = "username '".to_string();
                message.append(req.username.as_str());
                message.append("' already exists");
                Err(AppError::Conflict(message))
            } else {
                Ok(())
            }
        },
    }
}

/// Decides on the deletion of user `id` by `caller_id`: nobody deletes
/// themselves.
pub fn delete_user(caller_id: &str, id: &str) -> (r: Result<(), AppError>)
    ensures
        match r {
            Ok(_) => caller_id@ != id@,
            Err(e) => caller_id@ == id@ && e@ == AppErrorView::BadRequest(
                "cannot delete yourself"@,
            ),
        },
{
    if same_text(caller_id, id) {
        Err(AppError::BadRequest("cannot delete yourself".to_string()))
    } else {
        Ok(())
    }
}

/// The answer to a deletion that removed `rows` rows: not found where it
/// removed none.
pub fn deleted(rows: u64) -> (r: Result<(), AppError>)
    ensures
        match r {
            Ok(_) => rows > 0,
            Err(e) => rows == 0 && e@ == AppErrorView::NotFound,
        },
{
    if rows == 0 {
        Err(AppError::NotFound)
    } else {
        Ok(())
    }
}

/// Decides on a change of the password of user `id` by `caller_id`: users
/// change their own password only, to one of at least 8 bytes.
pub fn change_password(caller_id: &str, id: &str, req: &ChangePasswordRequest) -> (r: Result<
    (),
    AppError,
>)
    ensures
        match r {
            Ok(_) => caller_id@ == id@ && encode_utf8(req.new_password@).len()
                >= MIN_PASSWORD_BYTES,
            Err(e) => if caller_id@ != id@ {
                e@ == AppErrorView::Forbidden
            } else {
                encode_utf8(req.new_password@).len() < MIN_PASSWORD_BYTES && e@
                    == AppErrorView::BadRequest("password must be at least 8 characters"@)
            },
        },
{
    if !same_text(caller_id, id) {
        return Err(AppError::Forbidden);
    }
    if req.new_password.as_str().as_bytes().len() < MIN_PASSWORD_BYTES {
        return Err(AppError::BadRequest("password must be at least 8 characters".to_string()));
    }
    Ok(())
}

} // verus!
