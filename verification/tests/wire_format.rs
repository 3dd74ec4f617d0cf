use auth_client::api::{ApiError, ApiMessage, LoginError, PasswordResetError, RegistrationError};
use auth_client::form::{AuthForm, Field, FormatVerdicts, SubmitRequest};
use auth_client::wire::{decode_response, encode_request_body, endpoint_path};

#[test]
fn a_submitted_login_request_travels_as_its_hash() {
    let mut form = AuthForm::new();
    form.set_field(Field::UserInfo, String::from("bob"));
    form.set_field(Field::PassWord, String::from("abc"));
    let verdicts = FormatVerdicts {
        user_info_ok: true,
        user_name_ok: true,
        mail_addr_ok: true,
        pass_word_ok: true,
    };
    let request = form.submit(&verdicts).unwrap();
    assert_eq!(endpoint_path(&request), "/login");
    let body = encode_request_body(&request).unwrap();
    let expected = r#"{"user_info":"bob","pass_hash":"ba7816bf8f01cfea414140de5dae2223b00361a396177a9cb410ff61f20015ad"}"#;
    assert_eq!(body, expected);
}

#[test]
fn login_request_frames_its_body() {
    let request = SubmitRequest::Login {
        user_info: String::from("ab"),
        pass_hash: String::from("ff00"),
    };
    let body = encode_request_body(&request).unwrap();
    assert_eq!(body, r#"{"user_info":"ab","pass_hash":"ff00"}"#);
}

#[test]
fn registration_request_frames_its_body() {
    let request = SubmitRequest::Registration {
        user_name: String::from("bob"),
        mail_addr: String::from("bob@example.com"),
        pass_hash: String::from("00"),
    };
    let body = encode_request_body(&request).unwrap();
    assert_eq!(
        body,
        r#"{"user_name":"bob","mail_addr":"bob@example.com","pass_hash":"00"}"#
    );
}

#[test]
fn reset_request_frames_its_body() {
    let request = SubmitRequest::PasswordReset { user_info: String::from("nobody@example.com") };
    let body = encode_request_body(&request).unwrap();
    assert_eq!(body, r#"{"user_info":"nobody@example.com"}"#);
}

#[test]
fn request_bodies_escape_quotes_and_backslashes() {
    let request = SubmitRequest::PasswordReset { user_info: String::from(r#"a"b\c"#) };
    let body = encode_request_body(&request).unwrap();
    assert_eq!(body, r#"{"user_info":"a\"b\\c"}"#);
}

#[test]
fn request_bodies_refuse_control_characters() {
    let request = SubmitRequest::PasswordReset { user_info: String::from("a\nb") };
    assert!(encode_request_body(&request).is_none());
}

#[test]
fn each_request_kind_has_its_endpoint() {
    let login = SubmitRequest::Login {
        user_info: String::new(),
        pass_hash: String::new(),
    };
    let registration = SubmitRequest::Registration {
        user_name: String::new(),
        mail_addr: String::new(),
        pass_hash: String::new(),
    };
    let reset = SubmitRequest::PasswordReset { user_info: String::new() };
    assert_eq!(endpoint_path(&login), "/login");
    assert_eq!(endpoint_path(&registration), "/register");
    assert_eq!(endpoint_path(&reset), "/reset_password");
}

#[test]
fn every_error_code_decodes_from_its_tagged_form() {
    let cases: Vec<(&str, ApiError)> = vec![
        (
            r#"{"Err":{"LoginError":"InvalidLoginCredentials"}}"#,
            ApiError::Login(LoginError::InvalidLoginCredentials),
        ),
        (
            r#"{"Err":{"LoginError":"EmptyUserInfo"}}"#,
            ApiError::Login(LoginError::EmptyUserInfo),
        ),
        (
            r#"{"Err":{"LoginError":"EmptyPassWord"}}"#,
            ApiError::Login(LoginError::EmptyPassWord),
        ),
        (
            r#"{"Err":{"RegistrationError":"EmptyUserName"}}"#,
            ApiError::Registration(RegistrationError::EmptyUserName),
        ),
        (
            r#"{"Err":{"RegistrationError":"UserNameExistsAlready"}}"#,
            ApiError::Registration(RegistrationError::UserNameExistsAlready),
        ),
        (
            r#"{"Err":{"RegistrationError":"InvalidUserNameFormat"}}"#,
            ApiError::Registration(RegistrationError::InvalidUserNameFormat),
        ),
        (
            r#"{"Err":{"RegistrationError":"EmptyMailAddress"}}"#,
            ApiError::Registration(RegistrationError::EmptyMailAddress),
        ),
        (
            r#"{"Err":{"RegistrationError":"MailAddressExistsAlready"}}"#,
            ApiError::Registration(RegistrationError::MailAddressExistsAlready),
        ),
        (
            r#"{"Err":{"RegistrationError":"InvalidMailAddressFormat"}}"#,
            ApiError::Registration(RegistrationError::InvalidMailAddressFormat),
        ),
        (
            r#"{"Err":{"RegistrationError":"EmptyPassWord"}}"#,
            ApiError::Registration(RegistrationError::EmptyPassWord),
        ),
        (
            r#"{"Err":{"RegistrationError":"InvalidPasswordFormat"}}"#,
            ApiError::Registration(RegistrationError::InvalidPasswordFormat),
        ),
        (
            r#"{"Err":{"RegistrationError":"EmptyPassWordConfirm"}}"#,
            ApiError::Registration(RegistrationError::EmptyPassWordConfirm),
        ),
        (
            r#"{"Err":{"RegistrationError":"InvalidPasswordConfirmation"}}"#,
            ApiError::Registration(RegistrationError::InvalidPasswordConfirmation),
        ),
        (
            r#"{"Err":{"PasswordResetError":"EmptyUserInfo"}}"#,
            ApiError::PasswordReset(PasswordResetError::EmptyUserInfo),
        ),
        (
            r#"{"Err":{"PasswordResetError":"AccountDoesNotExist"}}"#,
            ApiError::PasswordReset(PasswordResetError::AccountDoesNotExist),
        ),
    ];
    for (text, expected) in cases {
        assert_eq!(decode_response(text), Some(ApiMessage::Failure(expected)), "{}", text);
    }
}

#[test]
fn success_messages_decode() {
    assert_eq!(
        decode_response(r#"{"Ok":"Welcome back!"}"#),
        Some(ApiMessage::Success(String::from("Welcome back!")))
    );
    assert_eq!(
        decode_response(r#"{"Ok":""}"#),
        Some(ApiMessage::Success(String::new()))
    );
}

#[test]
fn escaped_success_messages_decode() {
    assert_eq!(
        decode_response(r#"{"Ok":"a \"quoted\" word"}"#),
        Some(ApiMessage::Success(String::from(r#"a "quoted" word"#)))
    );
    assert_eq!(
        decode_response(r#"{"Ok":"a\\b"}"#),
        Some(ApiMessage::Success(String::from(r"a\b")))
    );
}

#[test]
fn malformed_responses_decode_to_nothing() {
    assert_eq!(decode_response(""), None);
    assert_eq!(decode_response("{}"), None);
    assert_eq!(decode_response(r#"{"Ok":"unterminated"#), None);
    assert_eq!(decode_response(r#"{"Ok":"line one
line two"}"#), None);
    assert_eq!(decode_response(r#"{"Ok":"a"b"}"#), None);
    assert_eq!(decode_response(r#"{"Ok":"a\nb"}"#), None);
    assert_eq!(decode_response(r#"{"Ok":"a\"}"#), None);
    assert_eq!(decode_response(r#"{"Err":{"LoginError":"NoSuchCode"}}"#), None);
    assert_eq!(decode_response(r#"["Ok","x"]"#), None);
}
