//! The outward error kinds, their detail payloads and their transport status.

use vstd::prelude::*;

verus! {

/// The messages of one field that failed validation.
#[derive(Clone, Debug, PartialEq, Eq)]
pub struct FieldErrors {
    pub field: String,
    pub messages: Vec<String>,
}

/// Mathematical model of [`FieldErrors`].
pub struct FieldErrorsView {
    pub field: Seq<char>,
    pub messages: Seq<Seq<char>>,
}

impl View for FieldErrors {
    type V = FieldErrorsView;

    open spec fn view(&self) -> FieldErrorsView {
        FieldErrorsView { field: self.field@, messages: self.messages.deep_view() }
    }
}

/// Every failure that leaves the library is one of these kinds.
#[derive(Clone, Debug, PartialEq, Eq)]
pub enum MyError {
    /// 401; the detail is a generic message.
    Unauthorized(String),
    /// 403; reserved.
    Forbidden(String),
    /// 404; the detail is a generic message.
    NotFound(String),
    /// 422; the detail lists each failing field with its messages.
    UnprocessableEntity(Vec<FieldErrors>),
    /// 500; no detail is exposed.
    InternalServerError,
}

pub type MyResult<T> = Result<T, MyError>;

/// Mathematical model of [`MyError`].
pub enum MyErrorView {
    Unauthorized(Seq<char>),
    Forbidden(Seq<char>),
    NotFound(Seq<char>),
    UnprocessableEntity(Seq<FieldErrorsView>),
    InternalServerError,
}

impl View for MyError {
    type V = MyErrorView;

    open spec fn view(&self) -> MyErrorView {
        match self {
            MyError::Unauthorized(m) => MyErrorView::Unauthorized(m@),
            MyError::Forbidden(m) => MyErrorView::Forbidden(m@),
            MyError::NotFound(m) => MyErrorView::NotFound(m@),
            MyError::UnprocessableEntity(fields) => MyErrorView::UnprocessableEntity(
                Seq::new(fields@.len(), |i: int| fields@[i]@),
            ),
            MyError::InternalServerError => MyErrorView::InternalServerError,
        }
    }
}

/// What went wrong in the persistence layer, as far as the taxonomy tells it apart.
#[derive(Clone, Copy, Debug, PartialEq, Eq, Structural)]
pub enum StoreError {
    /// The addressed row does not exist.
    RowNotFound,
    /// Any other fault.
    Other,
}

/// Detail of a failure to authenticate a request.
pub open spec fn unauthorized_message() -> Seq<char> {
    "Unauthorized"@
}

/// Detail of a rejected token.
pub open spec fn invalid_token_message() -> Seq<char> {
    "An issue was found with the token provided"@
}

/// Detail of a rejected login; the same whether the name or the password was wrong.
pub open spec fn credentials_message() -> Seq<char> {
    "Name and password do not match"@
}

/// Detail of a rejected refresh.
pub open spec fn refresh_message() -> Seq<char> {
    "Refresh token do not match"@
}

/// Detail of a missing entity.
pub open spec fn not_found_message() -> Seq<char> {
    "Entity not found"@
}

/// Detail that is shown in place of an internal failure's cause.
pub open spec fn internal_message() -> Seq<char> {
    "Internal Server Error"@
}

/// The transport status of each error kind.
pub open spec fn status_of(e: MyErrorView) -> int {
    match e {
        MyErrorView::Unauthorized(_) => 401,
        MyErrorView::Forbidden(_) => 403,
        MyErrorView::NotFound(_) => 404,
        MyErrorView::UnprocessableEntity(_) => 422,
        MyErrorView::InternalServerError => 500,
    }
}

/// A validation failure that names one field with one message.
pub open spec fn one_field_error(field: Seq<char>, message: Seq<char>) -> MyErrorView {
    MyErrorView::UnprocessableEntity(
        seq![FieldErrorsView { field: field, messages: seq![message] }],
    )
}

impl MyError {
    /// The generic failure of request authentication.
    pub fn new_unauthorized() -> (e: MyError)
        ensures
            e@ == MyErrorView::Unauthorized(unauthorized_message()),
    {
        MyError::Unauthorized("Unauthorized".to_owned())
    }

    /// A token that did not verify, whatever the reason.
    pub fn invalid_token() -> (e: MyError)
        ensures
            e@ == MyErrorView::Unauthorized(invalid_token_message()),
    {
        MyError::Unauthorized("An issue was found with the token provided".to_owned())
    }

    /// A login that was refused.
    pub fn credentials_mismatch() -> (e: MyError)
        ensures
            e@ == MyErrorView::Unauthorized(credentials_message()),
    {
        MyError::Unauthorized("Name and password do not match".to_owned())
    }

    /// A refresh that was refused.
    pub fn refresh_mismatch() -> (e: MyError)
        ensures
            e@ == MyErrorView::Unauthorized(refresh_message()),
    {
        MyError::Unauthorized("Refresh token do not match".to_owned())
    }

    /// A validation failure of `field`, with one message.
    pub fn invalid_field(field: &str, message: &str) -> (e: MyError)
        ensures
            e@ == one_field_error(field@, message@),
    {
        let mut messages: Vec<String> = Vec::new();
        messages.push(message.to_owned());
        let mut fields: Vec<FieldErrors> = Vec::new();
        fields.push(FieldErrors { field: field.to_owned(), messages });
        let e = MyError::UnprocessableEntity(fields);
        proof {
            let fv = fields@[0]@;
            assert(fv.messages =~= seq![message@]);
            assert(Seq::new(fields@.len(), |i: int| fields@[i]@) =~= seq![fv]);
        }
        e
    }

    /// Maps a persistence fault into the taxonomy: a missing row is `NotFound`,
    /// everything else an internal failure.
    pub fn from_store(error: StoreError) -> (e: MyError)
        ensures
            e@ == match error {
                StoreError::RowNotFound => MyErrorView::NotFound(not_found_message()),
                StoreError::Other => MyErrorView::InternalServerError,
            },
    {
        match error {
            StoreError::RowNotFound => MyError::NotFound("Entity not found".to_owned()),
            StoreError::Other => MyError::InternalServerError,
        }
    }

    /// The transport status that goes with this error.
    pub fn status(&self) -> (code: u16)
        ensures
            code == status_of(self@),
    {
        match self {
            MyError::Unauthorized(_) => 401,
            MyError::Forbidden(_) => 403,
            MyError::NotFound(_) => 404,
            MyError::UnprocessableEntity(_) => 422,
            MyError::InternalServerError => 500,
        }
    }

    /// The message shown to the caller, where the kind carries a single one.
    /// A validation failure carries its messages per field and has none here.
    pub fn message(&self) -> (m: Option<String>)
        ensures
            match self@ {
                MyErrorView::Unauthorized(d) => m is Some && m->0@ == d,
                MyErrorView::Forbidden(d) => m is Some && m->0@ == d,
                MyErrorView::NotFound(d) => m is Some && m->0@ == d,
                MyErrorView::UnprocessableEntity(_) => m is None,
                MyErrorView::InternalServerError => m is Some && m->0@ == internal_message(),
            },
    {
        match self {
            MyError::Unauthorized(d) => Some(d.clone()),
            MyError::Forbidden(d) => Some(d.clone()),
            MyError::NotFound(d) => Some(d.clone()),
            MyError::UnprocessableEntity(_) => None,
            MyError::InternalServerError => Some("Internal Server Error".to_owned()),
        }
    }
}

} // verus!
