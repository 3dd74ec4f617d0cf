//! The structured results a submission can produce: the error codes the
//! backend (or the local pre-submit validation) reports per flow, and the
//! human-readable text shown for each of them.

use vstd::prelude::*;
use vstd::string::StringExecFns;

verus! {

/// Error codes of the login flow.
#[derive(Clone, Copy, Debug, PartialEq, Eq, Structural)]
pub enum LoginError {
    InvalidLoginCredentials,
    EmptyUserInfo,
    EmptyPassWord,
}

/// Error codes of the registration flow.
#[derive(Clone, Copy, Debug, PartialEq, Eq, Structural)]
pub enum RegistrationError {
    EmptyUserName,
    UserNameExistsAlready,
    InvalidUserNameFormat,
    EmptyMailAddress,
    MailAddressExistsAlready,
    InvalidMailAddressFormat,
    EmptyPassWord,
    InvalidPasswordFormat,
    EmptyPassWordConfirm,
    InvalidPasswordConfirmation,
}

/// Error codes of the password-reset flow.
#[derive(Clone, Copy, Debug, PartialEq, Eq, Structural)]
pub enum PasswordResetError {
    EmptyUserInfo,
    AccountDoesNotExist,
}

/// A submission error, tagged by the flow it belongs to.
#[derive(Clone, Copy, Debug, PartialEq, Eq, Structural)]
pub enum ApiError {
    Login(LoginError),
    Registration(RegistrationError),
    PasswordReset(PasswordResetError),
}

/// The result of a submission round trip: either a success message from the
/// backend or a structured error code.
#[derive(Debug, PartialEq, Eq)]
pub enum ApiMessage {
    Success(String),
    Failure(ApiError),
}

/// The text shown for a login error code.
pub open spec fn login_error_text(e: LoginError) -> Seq<char> {
    match e {
        LoginError::InvalidLoginCredentials => "Invalid login credentials."@,
        LoginError::EmptyUserInfo => "Please enter your username or e-mail address."@,
        LoginError::EmptyPassWord => "Please enter your password."@,
    }
}

/// The text shown for a registration error code.
pub open spec fn registration_error_text(e: RegistrationError) -> Seq<char> {
    match e {
        RegistrationError::EmptyUserName => "Please choose a username."@,
        RegistrationError::UserNameExistsAlready => "This username is already taken."@,
        RegistrationError::InvalidUserNameFormat => "This username is not valid."@,
        RegistrationError::EmptyMailAddress => "Please enter your e-mail address."@,
        RegistrationError::MailAddressExistsAlready => (
            "An account with this e-mail address already exists."@
        ),
        RegistrationError::InvalidMailAddressFormat => "This e-mail address is not valid."@,
        RegistrationError::EmptyPassWord => "Please choose a password."@,
        RegistrationError::InvalidPasswordFormat => "This password is not valid."@,
        RegistrationError::EmptyPassWordConfirm => "Please confirm your password."@,
        RegistrationError::InvalidPasswordConfirmation => "The passwords do not match."@,
    }
}

/// The text shown for a password-reset error code.
pub open spec fn password_reset_error_text(e: PasswordResetError) -> Seq<char> {
    match e {
        PasswordResetError::EmptyUserInfo => "Please enter your username or e-mail address."@,
        PasswordResetError::AccountDoesNotExist => (
            "No account with this username or e-mail address exists."@
        ),
    }
}

/// The text shown for a submission error of any flow.
pub open spec fn api_error_text(e: ApiError) -> Seq<char> {
    match e {
        ApiError::Login(le) => login_error_text(le),
        ApiError::Registration(re) => registration_error_text(re),
        ApiError::PasswordReset(pe) => password_reset_error_text(pe),
    }
}

/// The text shown for a submission result: the backend's message on success,
/// the error code's text otherwise.
pub open spec fn api_message_text(m: ApiMessage) -> Seq<char> {
    match m {
        ApiMessage::Success(msg) => msg@,
        ApiMessage::Failure(e) => api_error_text(e),
    }
}

impl ApiError {
    /// The human-readable message for this error code.
    pub fn text(&self) -> (r: String)
        ensures
            r@ == api_error_text(*self),
    {
        match self {
            ApiError::Login(le) => match le {
                LoginError::InvalidLoginCredentials => String::from_str(
                    "Invalid login credentials.",
                ),
                LoginError::EmptyUserInfo => String::from_str(
                    "Please enter your username or e-mail address.",
                ),
                LoginError::EmptyPassWord => String::from_str("Please enter your password."),
            },
            ApiError::Registration(re) => match re {
                RegistrationError::EmptyUserName => String::from_str("Please choose a username."),
                RegistrationError::UserNameExistsAlready => String::from_str(
                    "This username is already taken.",
                ),
                RegistrationError::InvalidUserNameFormat => String::from_str(
                    "This username is not valid.",
                ),
                RegistrationError::EmptyMailAddress => String::from_str(
                    "Please enter your e-mail address.",
                ),
                RegistrationError::MailAddressExistsAlready => String::from_str(
                    "An account with this e-mail address already exists.",
                ),
                RegistrationError::InvalidMailAddressFormat => String::from_str(
                    "This e-mail address is not valid.",
                ),
                RegistrationError::EmptyPassWord => String::from_str("Please choose a password."),
                RegistrationError::InvalidPasswordFormat => String::from_str(
                    "This password is not valid.",
                ),
                RegistrationError::EmptyPassWordConfirm => String::from_str(
                    "Please confirm your password.",
                ),
                RegistrationError::InvalidPasswordConfirmation => String::from_str(
                    "The passwords do not match.",
                ),
            },
            ApiError::PasswordReset(pe) => match pe {
                PasswordResetError::EmptyUserInfo => String::from_str(
                    "Please enter your username or e-mail address.",
                ),
                PasswordResetError::AccountDoesNotExist => String::from_str(
                    "No account with this username or e-mail address exists.",
                ),
            },
        }
    }
}

impl ApiMessage {
    /// The human-readable message for this submission result.
    pub fn text(&self) -> (r: String)
        ensures
            r@ == api_message_text(*self),
    {
        match self {
            ApiMessage::Success(msg) => msg.clone(),
            ApiMessage::Failure(e) => e.text(),
        }
    }
}

} // verus!
