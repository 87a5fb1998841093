//! The errors of the API layer and how each is answered.

use vstd::prelude::*;

verus! {

/// An error of a request. The two variants that stand for a failure of an
/// outside service carry its message.
#[derive(Clone, Debug)]
pub enum AppError {
    Db(String),
    NotFound,
    Unauthorized,
    Forbidden,
    BadRequest(String),
    Conflict(String),
    Internal(String),
    Anyhow(String),
}

pub enum AppErrorView {
    Db(Seq<char>),
    NotFound,
    Unauthorized,
    Forbidden,
    BadRequest(Seq<char>),
    Conflict(Seq<char>),
    Internal(Seq<char>),
    Anyhow(Seq<char>),
}

impl View for AppError {
    type V = AppErrorView;

    open spec fn view(&self) -> AppErrorView {
        match *self {
            AppError::Db(m) => AppErrorView::Db(m@),
            AppError::NotFound => AppErrorView::NotFound,
            AppError::Unauthorized => AppErrorView::Unauthorized,
            AppError::Forbidden => AppErrorView::Forbidden,
            AppError::BadRequest(m) => AppErrorView::BadRequest(m@),
            AppError::Conflict(m) => AppErrorView::Conflict(m@),
            AppError::Internal(m) => AppErrorView::Internal(m@),
            AppError::Anyhow(m) => AppErrorView::Anyhow(m@),
        }
    }
}

impl AppErrorView {
    /// The error as text.
    pub open spec fn text(self) -> Seq<char> {
        match self {
            AppErrorView::Db(m) => "database error: "@ + m,
            AppErrorView::NotFound => "not found"@,
            AppErrorView::Unauthorized => "unauthorized"@,
            AppErrorView::Forbidden => "forbidden"@,
            AppErrorView::BadRequest(m) => "bad request: "@ + m,
            AppErrorView::Conflict(m) => "conflict: "@ + m,
            AppErrorView::Internal(m) => "internal error: "@ + m,
            AppErrorView::Anyhow(m) => m,
        }
    }

    /// The HTTP status that answers the error.
    pub open spec fn status_code(self) -> u16 {
        match self {
            AppErrorView::Db(_) => 500,
            AppErrorView::NotFound => 404,
            AppErrorView::Unauthorized => 401,
            AppErrorView::Forbidden => 403,
            AppErrorView::BadRequest(_) => 400,
            AppErrorView::Conflict(_) => 409,
            AppErrorView::Internal(_) => 500,
            AppErrorView::Anyhow(_) => 500,
        }
    }

    /// The message that the client is shown. What a database said is not
    /// shown.
    pub open spec fn public_message(self) -> Seq<char> {
        match self {
            AppErrorView::Db(_) => "database error"@,
            AppErrorView::BadRequest(m) => m,
            AppErrorView::Conflict(m) => m,
            AppErrorView::Internal(m) => m,
            other => other.text(),
        }
    }
}

fn prefixed(prefix: &str, message: &String) -> (s: String)
    ensures
        s@ == prefix@ + message@,
{
    let mut s = prefix.to_string();
    s.append(message.as_str());
    s
}

impl AppError {
    /// The error as text.
    pub fn to_string(&self) -> (s: String)
        ensures
            s@ == self@.text(),
    {
        match self {
            AppError::Db(m) => prefixed("database error: ", m),
            AppError::NotFound => "not found".to_string(),
            AppError::Unauthorized => "unauthorized".to_string(),
            AppError::Forbidden => "forbidden".to_string(),
            AppError::BadRequest(m) => prefixed("bad request: ", m),
            AppError::Conflict(m) => prefixed("conflict: ", m),
            AppError::Internal(m) => prefixed("internal error: ", m),
            AppError::Anyhow(m) => m.clone(),
        }
    }

    /// The HTTP status that answers the error.
    pub fn status_code(&self) -> (code: u16)
        ensures
            code == self@.status_code(),
            400 <= code < 600,
    {
        match self {
            AppError::Db(_) => 500,
            AppError::NotFound => 404,
            AppError::Unauthorized => 401,
            AppError::Forbidden => 403,
            AppError::BadRequest(_) => 400,
            AppError::Conflict(_) => 409,
            AppError::Internal(_) => 500,
            AppError::Anyhow(_) => 500,
        }
    }

    /// The message that the client is shown.
    pub fn public_message(&self) -> (s: String)
        ensures
            s@ == self@.public_message(),
    {
        match self {
            AppError::Db(_) => "database error".to_string(),
            AppError::BadRequest(m) => m.clone(),
            AppError::Conflict(m) => m.clone(),
            AppError::Internal(m) => m.clone(),
            _ => self.to_string(),
        }
    }
}

} // verus!
