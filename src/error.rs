use vstd::prelude::*;
use vstd::string::*;

verus! {

/// Why a request was rejected.
#[derive(Debug, Clone)]
pub enum AppError {
    DatabaseError(String),
    NotFound(String),
    ValidationError(String),
    TemplateError(String),
}

/// The text shown for an error: its kind, then its message.
pub open spec fn error_text(e: AppError) -> Seq<char> {
    match e {
        AppError::DatabaseError(m) => "Database error: "@ + m@,
        AppError::NotFound(m) => "Not found: "@ + m@,
        AppError::ValidationError(m) => "Validation error: "@ + m@,
        AppError::TemplateError(m) => "Template error: "@ + m@,
    }
}

impl AppError {
    /// The text shown for this error.
    pub fn to_string(&self) -> (r: String)
        ensures
            r@ == error_text(*self),
    {
        let (prefix, msg) = match self {
            AppError::DatabaseError(m) => ("Database error: ", m),
            AppError::NotFound(m) => ("Not found: ", m),
            AppError::ValidationError(m) => ("Validation error: ", m),
            AppError::TemplateError(m) => ("Template error: ", m),
        };
        let mut r = String::from_str(prefix);
        r.append(msg.as_str());
        r
    }
}

} // verus!
