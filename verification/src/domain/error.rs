use vstd::prelude::*;

verus! {

/// What a handler answers when it does not succeed.
#[derive(Debug)]
pub enum AuthAPIError {
    UserAlreadyExists,
    InvalidCredentials,
    IncorrectCredentials,
    MissingToken,
    InvalidToken,
    /// A backend failed; the text says how.
    UnexpectedError(String),
}

/// The body of an error response.
#[derive(Debug)]
pub struct ErrorResponse {
    pub error: String,
}

impl AuthAPIError {
    /// The HTTP status that stands for this error.
    pub open spec fn status(&self) -> u16 {
        match *self {
            AuthAPIError::UserAlreadyExists => 409,
            AuthAPIError::InvalidCredentials => 400,
            AuthAPIError::IncorrectCredentials => 401,
            AuthAPIError::MissingToken => 400,
            AuthAPIError::InvalidToken => 401,
            AuthAPIError::UnexpectedError(_) => 500,
        }
    }

    /// The message that stands for this error. It never shows the cause of
    /// an unexpected one.
    pub open spec fn message(&self) -> Seq<char> {
        match *self {
            AuthAPIError::UserAlreadyExists => "User already exists"@,
            AuthAPIError::InvalidCredentials => "Invalid credentials"@,
            AuthAPIError::IncorrectCredentials => "Incorrect credentials"@,
            AuthAPIError::MissingToken => "Missing token"@,
            AuthAPIError::InvalidToken => "Invalid token"@,
            AuthAPIError::UnexpectedError(_) => "Unexpected error"@,
        }
    }

    /// An unexpected error with the cause `cause`.
    pub fn unexpected(cause: String) -> (r: Self)
        ensures
            r == AuthAPIError::UnexpectedError(cause),
    {
        AuthAPIError::UnexpectedError(cause)
    }

    /// An unexpected error with the cause `msg`.
    pub fn unexpected_msg(msg: &str) -> (r: Self)
        ensures
            r matches AuthAPIError::UnexpectedError(cause) && cause@ == msg@,
    {
        AuthAPIError::UnexpectedError(msg.to_owned())
    }

    /// The message that stands for this error.
    pub fn to_string(&self) -> (r: String)
        ensures
            r@ == self.message(),
    {
        match self {
            AuthAPIError::UserAlreadyExists => "User already exists".to_owned(),
            AuthAPIError::InvalidCredentials => "Invalid credentials".to_owned(),
            AuthAPIError::IncorrectCredentials => "Incorrect credentials".to_owned(),
            AuthAPIError::MissingToken => "Missing token".to_owned(),
            AuthAPIError::InvalidToken => "Invalid token".to_owned(),
            AuthAPIError::UnexpectedError(_) => "Unexpected error".to_owned(),
        }
    }

    /// The HTTP status that stands for this error.
    pub fn status_code(&self) -> (r: u16)
        ensures
            r == self.status(),
    {
        match self {
            AuthAPIError::UserAlreadyExists => 409,
            AuthAPIError::InvalidCredentials => 400,
            AuthAPIError::IncorrectCredentials => 401,
            AuthAPIError::MissingToken => 400,
            AuthAPIError::InvalidToken => 401,
            AuthAPIError::UnexpectedError(_) => 500,
        }
    }

    /// The status and the body of the response that reports this error.
    pub fn into_response(self) -> (r: (u16, ErrorResponse))
        ensures
            r.0 == self.status(),
            r.1.error@ == self.message(),
    {
        let status = self.status_code();
        let error = self.to_string();
        (status, ErrorResponse { error })
    }
}

} // verus!
