use vstd::prelude::*;

verus! {

/// The kinds of failure a request can end in, each carrying a message for the
/// client. `Forbidden` and `Unauthorized` both mean "access denied".
#[derive(Debug)]
pub enum AppError {
    IOError { msg: String },
    DBError { msg: String },
    CryptError { msg: String },
    RequestError { msg: String },
    AuthError { msg: String },
    NotFound { msg: String },
    Forbidden { msg: String },
    Error { msg: String },
    Unauthorized { msg: String },
}

impl AppError {
    /// The message carried by this error, whatever its kind.
    pub open spec fn spec_message(self) -> Seq<char> {
        match self {
            AppError::IOError { msg } => msg@,
            AppError::DBError { msg } => msg@,
            AppError::CryptError { msg } => msg@,
            AppError::RequestError { msg } => msg@,
            AppError::AuthError { msg } => msg@,
            AppError::NotFound { msg } => msg@,
            AppError::Forbidden { msg } => msg@,
            AppError::Error { msg } => msg@,
            AppError::Unauthorized { msg } => msg@,
        }
    }

    pub fn message(&self) -> (m: &String)
        ensures
            m@ == self.spec_message(),
    {
        match self {
            AppError::IOError { msg } => msg,
            AppError::DBError { msg } => msg,
            AppError::CryptError { msg } => msg,
            AppError::RequestError { msg } => msg,
            AppError::AuthError { msg } => msg,
            AppError::NotFound { msg } => msg,
            AppError::Forbidden { msg } => msg,
            AppError::Error { msg } => msg,
            AppError::Unauthorized { msg } => msg,
        }
    }
}

pub fn db_error(msg: &str) -> (r: AppError)
    ensures
        r matches AppError::DBError { msg: m } && m@ == msg@,
{
    AppError::DBError { msg: msg.to_owned() }
}

pub fn bad_request(msg: &str) -> (r: AppError)
    ensures
        r matches AppError::RequestError { msg: m } && m@ == msg@,
{
    AppError::RequestError { msg: msg.to_owned() }
}

pub fn auth_error(msg: &str) -> (r: AppError)
    ensures
        r matches AppError::AuthError { msg: m } && m@ == msg@,
{
    AppError::AuthError { msg: msg.to_owned() }
}

pub fn not_found(msg: &str) -> (r: AppError)
    ensures
        r matches AppError::NotFound { msg: m } && m@ == msg@,
{
    AppError::NotFound { msg: msg.to_owned() }
}

pub fn forbidden(msg: &str) -> (r: AppError)
    ensures
        r matches AppError::Forbidden { msg: m } && m@ == msg@,
{
    AppError::Forbidden { msg: msg.to_owned() }
}

pub fn unauthorized(msg: &str) -> (r: AppError)
    ensures
        r matches AppError::Unauthorized { msg: m } && m@ == msg@,
{
    AppError::Unauthorized { msg: msg.to_owned() }
}

} // verus!
