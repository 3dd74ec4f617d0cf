use auth_client::api::{ApiError, ApiMessage, LoginError, PasswordResetError, RegistrationError};
use auth_client::form::{AuthForm, DisplayMode, Field, FormatVerdicts, InfoText, SubmitRequest};
use auth_client::hashing::generate_hashed_password;

fn all_ok() -> FormatVerdicts {
    FormatVerdicts { user_info_ok: true, user_name_ok: true, mail_addr_ok: true, pass_word_ok: true }
}

fn no_marks(form: &AuthForm) -> bool {
    !form.marks.user_info
        && !form.marks.user_name
        && !form.marks.mail_addr
        && !form.marks.pass_word
        && !form.marks.pwconfirm
}

#[test]
fn new_form_starts_blank_in_login_mode() {
    let form = AuthForm::new();
    assert_eq!(form.mode, DisplayMode::Login);
    assert!(no_marks(&form));
    assert_eq!(form.info, InfoText::Empty);
    assert_eq!(form.values.user_info, "");
    assert_eq!(form.values.pass_word, "");
}

#[test]
fn scenario_login_empty_password_blocks_submission() {
    let mut form = AuthForm::new();
    form.set_field(Field::UserInfo, String::from("ab"));
    form.set_field(Field::PassWord, String::new());
    let request = form.submit(&all_ok());
    assert!(request.is_none());
    assert!(form.marks.pass_word);
    assert!(!form.marks.user_info);
    assert_eq!(form.info, InfoText::Failure(ApiError::Login(LoginError::EmptyPassWord)));
    let (is_error, text) = form.info_message().unwrap();
    assert!(is_error);
    assert_eq!(text, "Please enter your password.");
}

#[test]
fn login_empty_user_info_blocks_submission() {
    let mut form = AuthForm::new();
    form.set_field(Field::PassWord, String::from("hunter2"));
    let request = form.submit(&all_ok());
    assert!(request.is_none());
    assert!(form.marks.user_info);
    assert!(!form.marks.pass_word);
    assert_eq!(form.info, InfoText::Failure(ApiError::Login(LoginError::EmptyUserInfo)));
}

#[test]
fn login_bad_format_marks_both_fields() {
    let mut form = AuthForm::new();
    form.set_field(Field::UserInfo, String::from("not an address"));
    form.set_field(Field::PassWord, String::from("pw"));
    let verdicts = FormatVerdicts { user_info_ok: false, ..all_ok() };
    let request = form.submit(&verdicts);
    assert!(request.is_none());
    assert!(form.marks.user_info);
    assert!(form.marks.pass_word);
    assert_eq!(
        form.info,
        InfoText::Failure(ApiError::Login(LoginError::InvalidLoginCredentials))
    );
}

#[test]
fn scenario_registration_mismatched_confirmation_blocks_submission() {
    let mut form = AuthForm::new();
    form.switch_mode(DisplayMode::Registration);
    form.set_field(Field::UserName, String::from("bob"));
    form.set_field(Field::MailAddr, String::from("bob@example.com"));
    form.set_field(Field::PassWord, String::from("Secret1!"));
    form.set_field(Field::Pwconfirm, String::from("Secret1"));
    let request = form.submit(&all_ok());
    assert!(request.is_none());
    assert!(form.marks.pwconfirm);
    assert!(!form.marks.pass_word);
    assert_eq!(
        form.info,
        InfoText::Failure(ApiError::Registration(RegistrationError::InvalidPasswordConfirmation))
    );
    let (is_error, text) = form.info_message().unwrap();
    assert!(is_error);
    assert_eq!(text, "The passwords do not match.");
}

#[test]
fn registration_whitespace_difference_is_a_mismatch() {
    let mut form = AuthForm::new();
    form.switch_mode(DisplayMode::Registration);
    form.set_field(Field::UserName, String::from("bob"));
    form.set_field(Field::MailAddr, String::from("bob@example.com"));
    form.set_field(Field::PassWord, String::from("Secret1!"));
    form.set_field(Field::Pwconfirm, String::from("Secret1! "));
    let request = form.submit(&all_ok());
    assert!(request.is_none());
    assert!(form.marks.pwconfirm);
}

#[test]
fn registration_first_violated_rule_wins() {
    let mut form = AuthForm::new();
    form.switch_mode(DisplayMode::Registration);
    let request = form.submit(&all_ok());
    assert!(request.is_none());
    assert!(form.marks.user_name);
    assert!(!form.marks.mail_addr);
    assert!(!form.marks.pass_word);
    assert!(!form.marks.pwconfirm);
    assert_eq!(
        form.info,
        InfoText::Failure(ApiError::Registration(RegistrationError::EmptyUserName))
    );
}

#[test]
fn registration_valid_fields_submit_the_hash() {
    let mut form = AuthForm::new();
    form.switch_mode(DisplayMode::Registration);
    form.set_field(Field::UserName, String::from("bob"));
    form.set_field(Field::MailAddr, String::from("bob@example.com"));
    form.set_field(Field::PassWord, String::from("Secret1!"));
    form.set_field(Field::Pwconfirm, String::from("Secret1!"));
    let request = form.submit(&all_ok()).unwrap();
    match request {
        SubmitRequest::Registration { user_name, mail_addr, pass_hash } => {
            assert_eq!(user_name, "bob");
            assert_eq!(mail_addr, "bob@example.com");
            assert_eq!(pass_hash, generate_hashed_password("Secret1!"));
            assert_ne!(pass_hash, "Secret1!");
        }
        other => panic!("wrong request kind: {:?}", other),
    }
    assert_eq!(form.info, InfoText::Empty);
    assert!(no_marks(&form));
}

#[test]
fn scenario_login_server_rejects_credentials() {
    let mut form = AuthForm::new();
    form.set_field(Field::UserInfo, String::from("bob"));
    form.set_field(Field::PassWord, String::from("Secret1!"));
    let request = form.submit(&all_ok()).unwrap();
    match request {
        SubmitRequest::Login { user_info, pass_hash } => {
            assert_eq!(user_info, "bob");
            assert_eq!(pass_hash, generate_hashed_password("Secret1!"));
        }
        other => panic!("wrong request kind: {:?}", other),
    }
    form.apply_response(ApiMessage::Failure(ApiError::Login(
        LoginError::InvalidLoginCredentials,
    )));
    assert!(form.marks.user_info);
    assert!(form.marks.pass_word);
    let (is_error, text) = form.info_message().unwrap();
    assert!(is_error);
    assert_eq!(text, "Invalid login credentials.");
}

#[test]
fn scenario_reset_unknown_account_marks_user_info() {
    let mut form = AuthForm::new();
    form.switch_mode(DisplayMode::ForgotPassword);
    form.set_field(Field::UserInfo, String::from("nobody@example.com"));
    let request = form.submit(&all_ok()).unwrap();
    match request {
        SubmitRequest::PasswordReset { user_info } => {
            assert_eq!(user_info, "nobody@example.com");
        }
        other => panic!("wrong request kind: {:?}", other),
    }
    form.apply_response(ApiMessage::Failure(ApiError::PasswordReset(
        PasswordResetError::AccountDoesNotExist,
    )));
    assert!(form.marks.user_info);
    let (is_error, text) = form.info_message().unwrap();
    assert!(is_error);
    assert_eq!(text, "No account with this username or e-mail address exists.");
}

#[test]
fn reset_empty_user_info_blocks_submission() {
    let mut form = AuthForm::new();
    form.switch_mode(DisplayMode::ForgotPassword);
    let request = form.submit(&all_ok());
    assert!(request.is_none());
    assert!(form.marks.user_info);
    assert_eq!(
        form.info,
        InfoText::Failure(ApiError::PasswordReset(PasswordResetError::EmptyUserInfo))
    );
}

#[test]
fn switching_mode_clears_message_and_markers() {
    let mut form = AuthForm::new();
    form.set_field(Field::UserInfo, String::from("ab"));
    form.submit(&all_ok());
    assert!(form.marks.pass_word);
    assert_ne!(form.info, InfoText::Empty);
    form.switch_mode(DisplayMode::Registration);
    assert_eq!(form.mode, DisplayMode::Registration);
    assert!(no_marks(&form));
    assert_eq!(form.info, InfoText::Empty);
    assert_eq!(form.values.user_info, "ab");
}

#[test]
fn success_response_clears_markers() {
    let mut form = AuthForm::new();
    form.apply_response(ApiMessage::Failure(ApiError::Login(
        LoginError::InvalidLoginCredentials,
    )));
    assert!(form.marks.user_info);
    form.apply_response(ApiMessage::Success(String::from("Welcome back!")));
    assert!(no_marks(&form));
    let (is_error, text) = form.info_message().unwrap();
    assert!(!is_error);
    assert_eq!(text, "Welcome back!");
}

#[test]
fn login_empty_field_error_from_server_marks_the_other_field() {
    let mut form = AuthForm::new();
    form.apply_response(ApiMessage::Failure(ApiError::Login(LoginError::EmptyUserInfo)));
    assert!(form.marks.pass_word);
    assert!(!form.marks.user_info);
    form.apply_response(ApiMessage::Failure(ApiError::Login(LoginError::EmptyPassWord)));
    assert!(form.marks.user_info);
}

#[test]
fn server_registration_errors_mark_their_fields() {
    let mut form = AuthForm::new();
    form.switch_mode(DisplayMode::Registration);
    form.apply_response(ApiMessage::Failure(ApiError::Registration(
        RegistrationError::UserNameExistsAlready,
    )));
    assert!(form.marks.user_name);
    form.apply_response(ApiMessage::Failure(ApiError::Registration(
        RegistrationError::MailAddressExistsAlready,
    )));
    assert!(form.marks.mail_addr);
    form.apply_response(ApiMessage::Failure(ApiError::Registration(
        RegistrationError::InvalidPasswordFormat,
    )));
    assert!(form.marks.pass_word);
    assert!(form.marks.pwconfirm);
}

#[test]
fn transport_failure_keeps_the_form_interactive() {
    let mut form = AuthForm::new();
    form.set_field(Field::UserInfo, String::from("ab"));
    form.submit(&all_ok());
    let marks_before = form.marks;
    form.apply_transport_failure();
    assert_eq!(form.marks, marks_before);
    assert_eq!(form.values.user_info, "ab");
    let (is_error, text) = form.info_message().unwrap();
    assert!(is_error);
    assert_eq!(text, "The request failed. Please try again.");
}

#[test]
fn field_accessors_read_the_current_text() {
    let mut form = AuthForm::new();
    assert!(form.field_is_empty(Field::UserInfo));
    form.set_field(Field::UserInfo, String::from("ab"));
    assert_eq!(form.field_value(Field::UserInfo).as_str(), "ab");
    assert!(!form.field_is_empty(Field::UserInfo));
}

#[test]
fn markers_can_be_set_and_cleared_by_hand() {
    let mut form = AuthForm::new();
    form.mark_field_validity(Field::MailAddr, false);
    assert!(form.marks.mail_addr);
    form.mark_field_validity(Field::MailAddr, true);
    assert!(!form.marks.mail_addr);
}

#[test]
fn clearing_the_info_line_leaves_the_rest() {
    let mut form = AuthForm::new();
    form.submit(&all_ok());
    assert!(form.marks.user_info);
    form.clear_info();
    assert_eq!(form.info, InfoText::Empty);
    assert!(form.marks.user_info);
}

#[test]
fn set_field_changes_only_that_field() {
    let mut form = AuthForm::new();
    form.set_field(Field::MailAddr, String::from("a@b.c"));
    assert_eq!(form.values.mail_addr, "a@b.c");
    assert_eq!(form.values.user_info, "");
    assert_eq!(form.values.user_name, "");
    assert_eq!(form.values.pass_word, "");
    assert_eq!(form.values.pwconfirm, "");
}
