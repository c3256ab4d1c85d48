//! The two kinds of failure of a run: file-system errors and errors of the
//! storage engine.

use vstd::prelude::*;
use vstd::std_specs::convert::FromSpecImpl;
use vstd::string::*;

verus! {

/// `std::io::Error`, carried as an opaque value.
#[verifier::external_type_specification]
#[verifier::external_body]
pub struct ExIoError(std::io::Error);

/// `sqlx::Error`, carried as an opaque value.
#[verifier::external_type_specification]
#[verifier::external_body]
pub struct ExSqlxError(sqlx::Error);

/// What went wrong.
#[derive(Debug)]
pub enum ErrorKind {
    /// Removing or inspecting a file failed.
    Io(std::io::Error),
    /// Connecting, a transaction or a statement failed.
    Sqlx(sqlx::Error),
}

/// The error of every fallible operation of a run.
#[derive(Debug)]
pub struct AppError(Box<ErrorKind>);

pub type AppResult<T> = std::result::Result<T, AppError>;

impl From<std::io::Error> for ErrorKind {
    fn from(err: std::io::Error) -> (kind: ErrorKind) {
        ErrorKind::Io(err)
    }
}

impl FromSpecImpl<std::io::Error> for ErrorKind {
    open spec fn obeys_from_spec() -> bool {
        true
    }

    open spec fn from_spec(err: std::io::Error) -> ErrorKind {
        ErrorKind::Io(err)
    }
}

impl From<sqlx::Error> for ErrorKind {
    fn from(err: sqlx::Error) -> (kind: ErrorKind) {
        ErrorKind::Sqlx(err)
    }
}

impl FromSpecImpl<sqlx::Error> for ErrorKind {
    open spec fn obeys_from_spec() -> bool {
        true
    }

    open spec fn from_spec(err: sqlx::Error) -> ErrorKind {
        ErrorKind::Sqlx(err)
    }
}

impl From<std::io::Error> for AppError {
    fn from(err: std::io::Error) -> (error: AppError) {
        AppError(Box::new(ErrorKind::Io(err)))
    }
}

impl FromSpecImpl<std::io::Error> for AppError {
    open spec fn obeys_from_spec() -> bool {
        true
    }

    open spec fn from_spec(err: std::io::Error) -> AppError {
        AppError::of(ErrorKind::Io(err))
    }
}

impl From<sqlx::Error> for AppError {
    fn from(err: sqlx::Error) -> (error: AppError) {
        AppError(Box::new(ErrorKind::Sqlx(err)))
    }
}

impl FromSpecImpl<sqlx::Error> for AppError {
    open spec fn obeys_from_spec() -> bool {
        true
    }

    open spec fn from_spec(err: sqlx::Error) -> AppError {
        AppError::of(ErrorKind::Sqlx(err))
    }
}

/// `format!` with `{}` on a `std::io::Error`: the text that the error
/// displays. Nothing is claimed of the text.
#[verifier::external_body]
fn io_error_text(err: &std::io::Error) -> (text: String) {
    format!("{}", err)
}

/// `format!` with `{}` on a `sqlx::Error`: the text that the error displays.
/// Nothing is claimed of the text.
#[verifier::external_body]
fn sqlx_error_text(err: &sqlx::Error) -> (text: String) {
    format!("{}", err)
}

impl ErrorKind {
    /// Prefix of the message of this kind of error.
    pub open spec fn label(&self) -> Seq<char> {
        match self {
            ErrorKind::Io(_) => "Io: "@,
            ErrorKind::Sqlx(_) => "Sqlx: "@,
        }
    }

    /// The message: the kind's label, then the text of the underlying error.
    pub fn message(&self) -> (text: String)
        ensures
            self.label().is_prefix_of(text@),
    {
        match self {
            ErrorKind::Io(err) => String::from_str("Io: ").concat(io_error_text(err).as_str()),
            ErrorKind::Sqlx(err) => String::from_str("Sqlx: ").concat(
                sqlx_error_text(err).as_str(),
            ),
        }
    }
}

impl AppError {
    /// The error of kind `kind`.
    pub closed spec fn of(kind: ErrorKind) -> AppError {
        AppError(Box::new(kind))
    }

    /// The kind of this error.
    pub closed spec fn spec_kind(&self) -> &ErrorKind {
        &*self.0
    }

    /// An error holds its kind and nothing else: the kind of `of(kind)` is
    /// `kind`, and an error is `of` its kind.
    pub proof fn lemma_of_kind(kind: ErrorKind, error: AppError)
        ensures
            *AppError::of(kind).kind() == kind,
            AppError::of(*error.kind()) == error,
    {
    }

    /// The kind of this error.
    #[verifier::when_used_as_spec(spec_kind)]
    pub fn kind(&self) -> (kind: &ErrorKind)
        ensures
            kind == self.spec_kind(),
    {
        &*self.0
    }

    /// The message of the underlying kind, unchanged.
    pub fn message(&self) -> (text: String)
        ensures
            self.kind().label().is_prefix_of(text@),
    {
        self.0.message()
    }
}

} // verus!
