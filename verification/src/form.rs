//! The authentication form controller: the display-mode state machine, the
//! ordered pre-submit validation of each mode's fields, the request built on
//! a valid submission, and the mapping of server-reported error codes back
//! onto the fields.

use vstd::prelude::*;
use vstd::string::StringExecFns;
use crate::api::{
    api_error_text,
    ApiError,
    ApiMessage,
    LoginError,
    PasswordResetError,
    RegistrationError,
};
use crate::hashing::{generate_hashed_password, password_hash_of};

verus! {

/// Which of the three auth sub-forms is shown. Exactly one is active; it
/// changes only on an explicit switch action, never on a validation outcome.
#[derive(Clone, Copy, Debug, PartialEq, Eq, Structural)]
pub enum DisplayMode {
    Login,
    Registration,
    ForgotPassword,
}

/// One of the five input fields the three sub-forms use between them.
#[derive(Clone, Copy, Debug, PartialEq, Eq, Structural)]
pub enum Field {
    UserInfo,
    UserName,
    MailAddr,
    PassWord,
    Pwconfirm,
}

/// The current text of every input field.
#[derive(Debug)]
pub struct FieldValues {
    pub user_info: String,
    pub user_name: String,
    pub mail_addr: String,
    pub pass_word: String,
    pub pwconfirm: String,
}

/// Which fields currently carry the visual "invalid" marker.
#[derive(Clone, Copy, Debug, PartialEq, Eq, Structural)]
pub struct FieldMarks {
    pub user_info: bool,
    pub user_name: bool,
    pub mail_addr: bool,
    pub pass_word: bool,
    pub pwconfirm: bool,
}

/// The verdicts of the shared validation module on the current field texts.
/// The format rules themselves (what counts as a well-formed username,
/// e-mail address or password) are owned by that module and consumed here as
/// plain booleans; `user_info_ok` holds when the text is a well-formed
/// username or a well-formed e-mail address.
#[derive(Clone, Copy, Debug, PartialEq, Eq, Structural)]
pub struct FormatVerdicts {
    pub user_info_ok: bool,
    pub user_name_ok: bool,
    pub mail_addr_ok: bool,
    pub pass_word_ok: bool,
}

/// The info line under the form.
#[derive(Debug, PartialEq, Eq)]
pub enum InfoText {
    /// No message is shown.
    Empty,
    /// The backend's success message, shown in the success style.
    Success(String),
    /// A local or server-reported error code, shown in the error style.
    Failure(ApiError),
    /// The submission could not be carried out or its response not read;
    /// a generic retry message is shown in the error style.
    RequestFailed,
}

/// What the info line shows: nothing, or a text with an error styling flag.
pub open spec fn info_display(info: InfoText) -> Option<(bool, Seq<char>)> {
    match info {
        InfoText::Empty => None,
        InfoText::Success(t) => Some((false, t@)),
        InfoText::Failure(e) => Some((true, api_error_text(e))),
        InfoText::RequestFailed => Some((true, "The request failed. Please try again."@)),
    }
}

/// No field carries the "invalid" marker.
pub open spec fn no_marks() -> FieldMarks {
    FieldMarks {
        user_info: false,
        user_name: false,
        mail_addr: false,
        pass_word: false,
        pwconfirm: false,
    }
}

/// The login flow's pre-submit check, in its fixed order: user_info
/// non-empty, then pass_word non-empty, then both format verdicts. The first
/// violated rule wins.
pub open spec fn login_check(v: FieldValues, f: FormatVerdicts) -> Option<LoginError> {
    if v.user_info@.len() == 0 {
        Some(LoginError::EmptyUserInfo)
    } else if v.pass_word@.len() == 0 {
        Some(LoginError::EmptyPassWord)
    } else if !(f.user_info_ok && f.pass_word_ok) {
        Some(LoginError::InvalidLoginCredentials)
    } else {
        None
    }
}

/// The registration flow's pre-submit check, in its fixed order: each field
/// non-empty and then well-formed, field by field, and finally the
/// confirmation equal to the password, character for character. The first
/// violated rule wins.
pub open spec fn registration_check(v: FieldValues, f: FormatVerdicts) -> Option<
    RegistrationError,
> {
    if v.user_name@.len() == 0 {
        Some(RegistrationError::EmptyUserName)
    } else if !f.user_name_ok {
        Some(RegistrationError::InvalidUserNameFormat)
    } else if v.mail_addr@.len() == 0 {
        Some(RegistrationError::EmptyMailAddress)
    } else if !f.mail_addr_ok {
        Some(RegistrationError::InvalidMailAddressFormat)
    } else if v.pass_word@.len() == 0 {
        Some(RegistrationError::EmptyPassWord)
    } else if !f.pass_word_ok {
        Some(RegistrationError::InvalidPasswordFormat)
    } else if v.pwconfirm@.len() == 0 {
        Some(RegistrationError::EmptyPassWordConfirm)
    } else if v.pwconfirm@ != v.pass_word@ {
        Some(RegistrationError::InvalidPasswordConfirmation)
    } else {
        None
    }
}

/// The password-reset flow's pre-submit check: user_info non-empty, then of
/// a known account format (a well-formed username or e-mail address). The
/// format rule failing is reported as the account not existing.
pub open spec fn reset_check(v: FieldValues, f: FormatVerdicts) -> Option<PasswordResetError> {
    if v.user_info@.len() == 0 {
        Some(PasswordResetError::EmptyUserInfo)
    } else if !f.user_info_ok {
        Some(PasswordResetError::AccountDoesNotExist)
    } else {
        None
    }
}

/// The active mode's pre-submit check.
pub open spec fn local_check(mode: DisplayMode, v: FieldValues, f: FormatVerdicts) -> Option<
    ApiError,
> {
    match mode {
        DisplayMode::Login => match login_check(v, f) {
            Some(e) => Some(ApiError::Login(e)),
            None => None,
        },
        DisplayMode::Registration => match registration_check(v, f) {
            Some(e) => Some(ApiError::Registration(e)),
            None => None,
        },
        DisplayMode::ForgotPassword => match reset_check(v, f) {
            Some(e) => Some(ApiError::PasswordReset(e)),
            None => None,
        },
    }
}

/// The markers after a local validation run: the active mode's fields are
/// first cleared, then the field(s) of the violated rule are marked; fields
/// of the other modes keep their markers.
pub open spec fn validated_marks(mode: DisplayMode, prev: FieldMarks, r: Option<ApiError>) -> FieldMarks {
    match mode {
        DisplayMode::Login => FieldMarks {
            user_info: r == Some(ApiError::Login(LoginError::EmptyUserInfo)) || r == Some(
                ApiError::Login(LoginError::InvalidLoginCredentials),
            ),
            pass_word: r == Some(ApiError::Login(LoginError::EmptyPassWord)) || r == Some(
                ApiError::Login(LoginError::InvalidLoginCredentials),
            ),
            user_name: prev.user_name,
            mail_addr: prev.mail_addr,
            pwconfirm: prev.pwconfirm,
        },
        DisplayMode::Registration => FieldMarks {
            user_name: r == Some(ApiError::Registration(RegistrationError::EmptyUserName)) || r
                == Some(ApiError::Registration(RegistrationError::InvalidUserNameFormat)),
            mail_addr: r == Some(ApiError::Registration(RegistrationError::EmptyMailAddress)) || r
                == Some(ApiError::Registration(RegistrationError::InvalidMailAddressFormat)),
            pass_word: r == Some(ApiError::Registration(RegistrationError::EmptyPassWord)) || r
                == Some(ApiError::Registration(RegistrationError::InvalidPasswordFormat)),
            pwconfirm: r == Some(ApiError::Registration(RegistrationError::EmptyPassWordConfirm))
                || r == Some(
                ApiError::Registration(RegistrationError::InvalidPasswordConfirmation),
            ),
            user_info: prev.user_info,
        },
        DisplayMode::ForgotPassword => FieldMarks {
            user_info: r is Some,
            user_name: prev.user_name,
            mail_addr: prev.mail_addr,
            pass_word: prev.pass_word,
            pwconfirm: prev.pwconfirm,
        },
    }
}

/// Whether a server-reported error code implicates a field: the fixed
/// error-code to field-marker table. Note the asymmetric rows of the login
/// flow's empty-field codes, which implicate the complementary field.
pub open spec fn error_marks_field(e: ApiError, field: Field) -> bool {
    match e {
        ApiError::Login(le) => match le {
            LoginError::InvalidLoginCredentials => field == Field::UserInfo || field
                == Field::PassWord,
            LoginError::EmptyUserInfo => field == Field::PassWord,
            LoginError::EmptyPassWord => field == Field::UserInfo,
        },
        ApiError::Registration(re) => match re {
            RegistrationError::EmptyUserName
            | RegistrationError::UserNameExistsAlready
            | RegistrationError::InvalidUserNameFormat => field == Field::UserName,
            RegistrationError::EmptyMailAddress
            | RegistrationError::MailAddressExistsAlready
            | RegistrationError::InvalidMailAddressFormat => field == Field::MailAddr,
            RegistrationError::EmptyPassWord
            | RegistrationError::InvalidPasswordFormat => field == Field::PassWord || field
                == Field::Pwconfirm,
            RegistrationError::EmptyPassWordConfirm
            | RegistrationError::InvalidPasswordConfirmation => field == Field::Pwconfirm,
        },
        ApiError::PasswordReset(pe) => match pe {
            PasswordResetError::AccountDoesNotExist => field == Field::UserInfo,
            PasswordResetError::EmptyUserInfo => false,
        },
    }
}

/// The markers after a server-reported error: the implicated fields gain the
/// marker, every other field keeps its state.
pub open spec fn response_marks(prev: FieldMarks, e: ApiError) -> FieldMarks {
    FieldMarks {
        user_info: prev.user_info || error_marks_field(e, Field::UserInfo),
        user_name: prev.user_name || error_marks_field(e, Field::UserName),
        mail_addr: prev.mail_addr || error_marks_field(e, Field::MailAddr),
        pass_word: prev.pass_word || error_marks_field(e, Field::PassWord),
        pwconfirm: prev.pwconfirm || error_marks_field(e, Field::Pwconfirm),
    }
}

/// The request a valid submission sends: one of the three endpoints with its
/// flat body. Password fields travel only as their hash.
#[derive(Debug)]
pub enum SubmitRequest {
    Login { user_info: String, pass_hash: String },
    Registration { user_name: String, mail_addr: String, pass_hash: String },
    PasswordReset { user_info: String },
}

/// Whether `req` is the request the given mode and field texts call for.
pub open spec fn request_matches(mode: DisplayMode, v: FieldValues, req: SubmitRequest) -> bool {
    match mode {
        DisplayMode::Login => req matches SubmitRequest::Login { user_info, pass_hash }
            && user_info@ == v.user_info@ && pass_hash@ == password_hash_of(v.pass_word@),
        DisplayMode::Registration => req matches SubmitRequest::Registration {
            user_name,
            mail_addr,
            pass_hash,
        } && user_name@ == v.user_name@ && mail_addr@ == v.mail_addr@ && pass_hash@
            == password_hash_of(v.pass_word@),
        DisplayMode::ForgotPassword => req matches SubmitRequest::PasswordReset { user_info }
            && user_info@ == v.user_info@,
    }
}

/// The authentication form's whole state: the active mode, the field texts,
/// the markers, and the info line.
#[derive(Debug)]
pub struct AuthForm {
    pub mode: DisplayMode,
    pub values: FieldValues,
    pub marks: FieldMarks,
    pub info: InfoText,
}

impl AuthForm {
    /// A freshly mounted form: login mode, empty fields, nothing marked, no
    /// message.
    pub fn new() -> (r: AuthForm)
        ensures
            r.mode == DisplayMode::Login,
            r.values.user_info@ == Seq::<char>::empty(),
            r.values.user_name@ == Seq::<char>::empty(),
            r.values.mail_addr@ == Seq::<char>::empty(),
            r.values.pass_word@ == Seq::<char>::empty(),
            r.values.pwconfirm@ == Seq::<char>::empty(),
            r.marks == no_marks(),
            r.info is Empty,
    {
        AuthForm {
            mode: DisplayMode::Login,
            values: FieldValues {
                user_info: String::new(),
                user_name: String::new(),
                mail_addr: String::new(),
                pass_word: String::new(),
                pwconfirm: String::new(),
            },
            marks: FieldMarks {
                user_info: false,
                user_name: false,
                mail_addr: false,
                pass_word: false,
                pwconfirm: false,
            },
            info: InfoText::Empty,
        }
    }

    /// The field texts with one field replaced.
    pub open spec fn with_field(v: FieldValues, field: Field, text: String) -> FieldValues {
        match field {
            Field::UserInfo => FieldValues {
                user_info: text,
                user_name: v.user_name,
                mail_addr: v.mail_addr,
                pass_word: v.pass_word,
                pwconfirm: v.pwconfirm,
            },
            Field::UserName => FieldValues {
                user_info: v.user_info,
                user_name: text,
                mail_addr: v.mail_addr,
                pass_word: v.pass_word,
                pwconfirm: v.pwconfirm,
            },
            Field::MailAddr => FieldValues {
                user_info: v.user_info,
                user_name: v.user_name,
                mail_addr: text,
                pass_word: v.pass_word,
                pwconfirm: v.pwconfirm,
            },
            Field::PassWord => FieldValues {
                user_info: v.user_info,
                user_name: v.user_name,
                mail_addr: v.mail_addr,
                pass_word: text,
                pwconfirm: v.pwconfirm,
            },
            Field::Pwconfirm => FieldValues {
                user_info: v.user_info,
                user_name: v.user_name,
                mail_addr: v.mail_addr,
                pass_word: v.pass_word,
                pwconfirm: text,
            },
        }
    }

    /// Types a text into one field; nothing else changes.
    pub fn set_field(&mut self, field: Field, text: String)
        ensures
            final(self).mode == old(self).mode,
            final(self).values == Self::with_field(old(self).values, field, text),
            final(self).marks == old(self).marks,
            final(self).info == old(self).info,
    {
        match field {
            Field::UserInfo => self.values.user_info = text,
            Field::UserName => self.values.user_name = text,
            Field::MailAddr => self.values.mail_addr = text,
            Field::PassWord => self.values.pass_word = text,
            Field::Pwconfirm => self.values.pwconfirm = text,
        }
    }

    /// Switches the shown sub-form. The previous mode's info message and
    /// every field's "invalid" marker are cleared; the field texts stay.
    pub fn switch_mode(&mut self, mode: DisplayMode)
        ensures
            final(self).mode == mode,
            final(self).values == old(self).values,
            final(self).marks == no_marks(),
            final(self).info is Empty,
    {
        self.clear_info();
        self.marks = FieldMarks {
            user_info: false,
            user_name: false,
            mail_addr: false,
            pass_word: false,
            pwconfirm: false,
        };
        self.mode = mode;
    }

    /// Clears the info line; nothing else changes.
    pub fn clear_info(&mut self)
        ensures
            final(self).mode == old(self).mode,
            final(self).values == old(self).values,
            final(self).marks == old(self).marks,
            final(self).info is Empty,
    {
        self.info = InfoText::Empty;
    }

    /// Sets or clears one field's "invalid" marker; nothing else changes.
    pub fn mark_field_validity(&mut self, field: Field, is_valid: bool)
        ensures
            final(self).mode == old(self).mode,
            final(self).values == old(self).values,
            final(self).info == old(self).info,
            forall|f: Field| f != field ==> final(self).field_marked(f) == old(self).field_marked(f),
            final(self).field_marked(field) == !is_valid,
    {
        match field {
            Field::UserInfo => self.marks.user_info = !is_valid,
            Field::UserName => self.marks.user_name = !is_valid,
            Field::MailAddr => self.marks.mail_addr = !is_valid,
            Field::PassWord => self.marks.pass_word = !is_valid,
            Field::Pwconfirm => self.marks.pwconfirm = !is_valid,
        }
    }

    /// A field's current text, as a sequence of characters.
    pub open spec fn spec_field_value(self, field: Field) -> Seq<char> {
        match field {
            Field::UserInfo => self.values.user_info@,
            Field::UserName => self.values.user_name@,
            Field::MailAddr => self.values.mail_addr@,
            Field::PassWord => self.values.pass_word@,
            Field::Pwconfirm => self.values.pwconfirm@,
        }
    }

    /// Reads a field's current text.
    pub fn field_value(&self, field: Field) -> (r: &String)
        ensures
            r@ == self.spec_field_value(field),
    {
        match field {
            Field::UserInfo => &self.values.user_info,
            Field::UserName => &self.values.user_name,
            Field::MailAddr => &self.values.mail_addr,
            Field::PassWord => &self.values.pass_word,
            Field::Pwconfirm => &self.values.pwconfirm,
        }
    }

    /// Whether a field currently holds no text.
    pub fn field_is_empty(&self, field: Field) -> (r: bool)
        ensures
            r == (self.spec_field_value(field).len() == 0),
    {
        self.field_value(field).as_str().is_empty()
    }

    /// Whether a field currently carries the "invalid" marker.
    pub open spec fn field_marked(self, field: Field) -> bool {
        match field {
            Field::UserInfo => self.marks.user_info,
            Field::UserName => self.marks.user_name,
            Field::MailAddr => self.marks.mail_addr,
            Field::PassWord => self.marks.pass_word,
            Field::Pwconfirm => self.marks.pwconfirm,
        }
    }

    /// Runs the active mode's pre-submit check against the given format
    /// verdicts, in the fixed order, first failure winning. On a failure the
    /// violated rule's field(s) are marked and its message is shown; on
    /// success the mode's fields are left unmarked and the info line is left
    /// as it was.
    pub fn validate(&mut self, fmt: &FormatVerdicts) -> (ok: bool)
        ensures
            final(self).mode == old(self).mode,
            final(self).values == old(self).values,
            ok == (local_check(old(self).mode, old(self).values, *fmt) is None),
            final(self).marks == validated_marks(
                old(self).mode,
                old(self).marks,
                local_check(old(self).mode, old(self).values, *fmt),
            ),
            match local_check(old(self).mode, old(self).values, *fmt) {
                Some(e) => final(self).info == InfoText::Failure(e),
                None => final(self).info == old(self).info,
            },
    {
        match self.mode {
            DisplayMode::Login => {
                self.marks.user_info = false;
                self.marks.pass_word = false;
                if self.values.user_info.as_str().is_empty() {
                    self.marks.user_info = true;
                    self.info = InfoText::Failure(ApiError::Login(LoginError::EmptyUserInfo));
                    false
                } else if self.values.pass_word.as_str().is_empty() {
                    self.marks.pass_word = true;
                    self.info = InfoText::Failure(ApiError::Login(LoginError::EmptyPassWord));
                    false
                } else if !(fmt.user_info_ok && fmt.pass_word_ok) {
                    self.marks.user_info = true;
                    self.marks.pass_word = true;
                    self.info = InfoText::Failure(
                        ApiError::Login(LoginError::InvalidLoginCredentials),
                    );
                    false
                } else {
                    true
                }
            },
            DisplayMode::Registration => {
                self.marks.user_name = false;
                self.marks.mail_addr = false;
                self.marks.pass_word = false;
                self.marks.pwconfirm = false;
                if self.values.user_name.as_str().is_empty() {
                    self.marks.user_name = true;
                    self.info = InfoText::Failure(
                        ApiError::Registration(RegistrationError::EmptyUserName),
                    );
                    false
                } else if !fmt.user_name_ok {
                    self.marks.user_name = true;
                    self.info = InfoText::Failure(
                        ApiError::Registration(RegistrationError::InvalidUserNameFormat),
                    );
                    false
                } else if self.values.mail_addr.as_str().is_empty() {
                    self.marks.mail_addr = true;
                    self.info = InfoText::Failure(
                        ApiError::Registration(RegistrationError::EmptyMailAddress),
                    );
                    false
                } else if !fmt.mail_addr_ok {
                    self.marks.mail_addr = true;
                    self.info = InfoText::Failure(
                        ApiError::Registration(RegistrationError::InvalidMailAddressFormat),
                    );
                    false
                } else if self.values.pass_word.as_str().is_empty() {
                    self.marks.pass_word = true;
                    self.info = InfoText::Failure(
                        ApiError::Registration(RegistrationError::EmptyPassWord),
                    );
                    false
                } else if !fmt.pass_word_ok {
                    self.marks.pass_word = true;
                    self.info = InfoText::Failure(
                        ApiError::Registration(RegistrationError::InvalidPasswordFormat),
                    );
                    false
                } else if self.values.pwconfirm.as_str().is_empty() {
                    self.marks.pwconfirm = true;
                    self.info = InfoText::Failure(
                        ApiError::Registration(RegistrationError::EmptyPassWordConfirm),
                    );
                    false
                } else if !(self.values.pwconfirm == self.values.pass_word) {
                    self.marks.pwconfirm = true;
                    self.info = InfoText::Failure(
                        ApiError::Registration(RegistrationError::InvalidPasswordConfirmation),
                    );
                    false
                } else {
                    true
                }
            },
            DisplayMode::ForgotPassword => {
                self.marks.user_info = false;
                if self.values.user_info.as_str().is_empty() {
                    self.marks.user_info = true;
                    self.info = InfoText::Failure(
                        ApiError::PasswordReset(PasswordResetError::EmptyUserInfo),
                    );
                    false
                } else if !fmt.user_info_ok {
                    self.marks.user_info = true;
                    self.info = InfoText::Failure(
                        ApiError::PasswordReset(PasswordResetError::AccountDoesNotExist),
                    );
                    false
                } else {
                    true
                }
            },
        }
    }

    /// A submit click: clears the info line, validates, and only on success
    /// hands back the request to send — with the password travelling as its
    /// hash. On a local validation failure no request is issued and the
    /// failure is shown as `validate` leaves it.
    pub fn submit(&mut self, fmt: &FormatVerdicts) -> (r: Option<SubmitRequest>)
        ensures
            final(self).mode == old(self).mode,
            final(self).values == old(self).values,
            final(self).marks == validated_marks(
                old(self).mode,
                old(self).marks,
                local_check(old(self).mode, old(self).values, *fmt),
            ),
            match local_check(old(self).mode, old(self).values, *fmt) {
                Some(e) => r is None && final(self).info == InfoText::Failure(e),
                None => final(self).info is Empty && (r matches Some(req) && request_matches(
                    old(self).mode,
                    old(self).values,
                    req,
                )),
            },
    {
        self.clear_info();
        let ok = self.validate(fmt);
        if !ok {
            return None;
        }
        match self.mode {
            DisplayMode::Login => Some(
                SubmitRequest::Login {
                    user_info: self.values.user_info.clone(),
                    pass_hash: generate_hashed_password(self.values.pass_word.as_str()),
                },
            ),
            DisplayMode::Registration => Some(
                SubmitRequest::Registration {
                    user_name: self.values.user_name.clone(),
                    mail_addr: self.values.mail_addr.clone(),
                    pass_hash: generate_hashed_password(self.values.pass_word.as_str()),
                },
            ),
            DisplayMode::ForgotPassword => Some(
                SubmitRequest::PasswordReset { user_info: self.values.user_info.clone() },
            ),
        }
    }

    /// Reflects the backend's answer: a success message clears every marker
    /// and is shown in the success style; an error code is shown in the
    /// error style and marks the fields its table row implicates.
    pub fn apply_response(&mut self, msg: ApiMessage)
        ensures
            final(self).mode == old(self).mode,
            final(self).values == old(self).values,
            match msg {
                ApiMessage::Success(text) => final(self).info == InfoText::Success(text)
                    && final(self).marks == no_marks(),
                ApiMessage::Failure(e) => final(self).info == InfoText::Failure(e)
                    && final(self).marks == response_marks(old(self).marks, e),
            },
    {
        match msg {
            ApiMessage::Success(text) => {
                self.marks = FieldMarks {
                    user_info: false,
                    user_name: false,
                    mail_addr: false,
                    pass_word: false,
                    pwconfirm: false,
                };
                self.info = InfoText::Success(text);
            },
            ApiMessage::Failure(e) => {
                match e {
                    ApiError::Login(le) => match le {
                        LoginError::InvalidLoginCredentials => {
                            self.marks.user_info = true;
                            self.marks.pass_word = true;
                        },
                        LoginError::EmptyUserInfo => {
                            self.marks.pass_word = true;
                        },
                        LoginError::EmptyPassWord => {
                            self.marks.user_info = true;
                        },
                    },
                    ApiError::Registration(re) => match re {
                        RegistrationError::EmptyUserName
                        | RegistrationError::UserNameExistsAlready
                        | RegistrationError::InvalidUserNameFormat => {
                            self.marks.user_name = true;
                        },
                        RegistrationError::EmptyMailAddress
                        | RegistrationError::MailAddressExistsAlready
                        | RegistrationError::InvalidMailAddressFormat => {
                            self.marks.mail_addr = true;
                        },
                        RegistrationError::EmptyPassWord
                        | RegistrationError::InvalidPasswordFormat => {
                            self.marks.pass_word = true;
                            self.marks.pwconfirm = true;
                        },
                        RegistrationError::EmptyPassWordConfirm
                        | RegistrationError::InvalidPasswordConfirmation => {
                            self.marks.pwconfirm = true;
                        },
                    },
                    ApiError::PasswordReset(pe) => match pe {
                        PasswordResetError::AccountDoesNotExist => {
                            self.marks.user_info = true;
                        },
                        PasswordResetError::EmptyUserInfo => {},
                    },
                }
                self.info = InfoText::Failure(e);
            },
        }
    }

    /// Law: in login mode, submitting with a required field left empty
    /// fails the local check — so no request is issued — with the first
    /// violated rule's error, and exactly that rule's field gains the
    /// marker among the mode's fields.
    pub proof fn law_login_empty_field_blocks(v: FieldValues, f: FormatVerdicts, prev: FieldMarks)
        requires
            v.user_info@.len() == 0 || v.pass_word@.len() == 0,
        ensures
            local_check(DisplayMode::Login, v, f) is Some,
            v.user_info@.len() == 0 ==> local_check(DisplayMode::Login, v, f) == Some(
                ApiError::Login(LoginError::EmptyUserInfo),
            ) && validated_marks(
                DisplayMode::Login,
                prev,
                local_check(DisplayMode::Login, v, f),
            ) == (FieldMarks {
                user_info: true,
                pass_word: false,
                user_name: prev.user_name,
                mail_addr: prev.mail_addr,
                pwconfirm: prev.pwconfirm,
            }),
            v.user_info@.len() != 0 ==> local_check(DisplayMode::Login, v, f) == Some(
                ApiError::Login(LoginError::EmptyPassWord),
            ) && validated_marks(
                DisplayMode::Login,
                prev,
                local_check(DisplayMode::Login, v, f),
            ) == (FieldMarks {
                user_info: false,
                pass_word: true,
                user_name: prev.user_name,
                mail_addr: prev.mail_addr,
                pwconfirm: prev.pwconfirm,
            }),
    {
    }

    /// Law: in registration mode, submitting with a required field left
    /// empty fails the local check — so no request is issued — and when the
    /// rules before the empty field pass, it is that field's emptiness that
    /// is reported, with exactly that field marked among the mode's fields.
    pub proof fn law_registration_empty_field_blocks(
        v: FieldValues,
        f: FormatVerdicts,
        prev: FieldMarks,
    )
        requires
            v.user_name@.len() == 0 || v.mail_addr@.len() == 0 || v.pass_word@.len() == 0
                || v.pwconfirm@.len() == 0,
        ensures
            local_check(DisplayMode::Registration, v, f) is Some,
            v.user_name@.len() == 0 ==> local_check(DisplayMode::Registration, v, f) == Some(
                ApiError::Registration(RegistrationError::EmptyUserName),
            ) && validated_marks(
                DisplayMode::Registration,
                prev,
                local_check(DisplayMode::Registration, v, f),
            ) == (FieldMarks {
                user_name: true,
                mail_addr: false,
                pass_word: false,
                pwconfirm: false,
                user_info: prev.user_info,
            }),
            v.user_name@.len() != 0 && f.user_name_ok && v.mail_addr@.len() == 0 ==> local_check(
                DisplayMode::Registration,
                v,
                f,
            ) == Some(ApiError::Registration(RegistrationError::EmptyMailAddress))
                && validated_marks(
                DisplayMode::Registration,
                prev,
                local_check(DisplayMode::Registration, v, f),
            ) == (FieldMarks {
                user_name: false,
                mail_addr: true,
                pass_word: false,
                pwconfirm: false,
                user_info: prev.user_info,
            }),
            v.user_name@.len() != 0 && f.user_name_ok && v.mail_addr@.len() != 0 && f.mail_addr_ok
                && v.pass_word@.len() == 0 ==> local_check(DisplayMode::Registration, v, f) == Some(
                ApiError::Registration(RegistrationError::EmptyPassWord),
            ) && validated_marks(
                DisplayMode::Registration,
                prev,
                local_check(DisplayMode::Registration, v, f),
            ) == (FieldMarks {
                user_name: false,
                mail_addr: false,
                pass_word: true,
                pwconfirm: false,
                user_info: prev.user_info,
            }),
            v.user_name@.len() != 0 && f.user_name_ok && v.mail_addr@.len() != 0 && f.mail_addr_ok
                && v.pass_word@.len() != 0 && f.pass_word_ok && v.pwconfirm@.len() == 0
                ==> local_check(DisplayMode::Registration, v, f) == Some(
                ApiError::Registration(RegistrationError::EmptyPassWordConfirm),
            ) && validated_marks(
                DisplayMode::Registration,
                prev,
                local_check(DisplayMode::Registration, v, f),
            ) == (FieldMarks {
                user_name: false,
                mail_addr: false,
                pass_word: false,
                pwconfirm: true,
                user_info: prev.user_info,
            }),
    {
    }

    /// Law: in the password-reset mode, submitting with user_info left
    /// empty fails the local check — so no request is issued — with the
    /// emptiness error, and user_info gains the marker.
    pub proof fn law_reset_empty_field_blocks(
        v: FieldValues,
        f: FormatVerdicts,
        prev: FieldMarks,
    )
        requires
            v.user_info@.len() == 0,
        ensures
            local_check(DisplayMode::ForgotPassword, v, f) == Some(
                ApiError::PasswordReset(PasswordResetError::EmptyUserInfo),
            ),
            validated_marks(
                DisplayMode::ForgotPassword,
                prev,
                local_check(DisplayMode::ForgotPassword, v, f),
            ) == (FieldMarks {
                user_info: true,
                user_name: prev.user_name,
                mail_addr: prev.mail_addr,
                pass_word: prev.pass_word,
                pwconfirm: prev.pwconfirm,
            }),
    {
    }

    /// Law: a registration only passes the local check when the
    /// confirmation equals the password, character for character.
    pub proof fn law_registration_valid_needs_matching_confirmation(
        v: FieldValues,
        f: FormatVerdicts,
    )
        ensures
            registration_check(v, f) is None ==> v.pwconfirm@ == v.pass_word@,
    {
    }

    /// Law: any mismatch between password and confirmation — whitespace
    /// included — is reported, once the rules before it pass, as an invalid
    /// confirmation, with exactly pwconfirm marked among the mode's fields.
    pub proof fn law_registration_mismatch_marks_pwconfirm(
        v: FieldValues,
        f: FormatVerdicts,
        prev: FieldMarks,
    )
        requires
            v.user_name@.len() != 0,
            f.user_name_ok,
            v.mail_addr@.len() != 0,
            f.mail_addr_ok,
            v.pass_word@.len() != 0,
            f.pass_word_ok,
            v.pwconfirm@.len() != 0,
            v.pwconfirm@ != v.pass_word@,
        ensures
            local_check(DisplayMode::Registration, v, f) == Some(
                ApiError::Registration(RegistrationError::InvalidPasswordConfirmation),
            ),
            validated_marks(
                DisplayMode::Registration,
                prev,
                local_check(DisplayMode::Registration, v, f),
            ) == (FieldMarks {
                user_name: false,
                mail_addr: false,
                pass_word: false,
                pwconfirm: true,
                user_info: prev.user_info,
            }),
    {
    }

    /// The info line to draw: whether it takes the error style, and its
    /// text.
    pub fn info_message(&self) -> (r: Option<(bool, String)>)
        ensures
            (r is Some) == (info_display(self.info) is Some),
            r matches Some(p) ==> (info_display(self.info) matches Some(q) && p.0 == q.0 && p.1@
                == q.1),
    {
        match &self.info {
            InfoText::Empty => None,
            InfoText::Success(t) => Some((false, t.clone())),
            InfoText::Failure(e) => Some((true, e.text())),
            InfoText::RequestFailed => Some(
                (true, String::from_str("The request failed. Please try again.")),
            ),
        }
    }

    /// Reflects a transport- or decode-level failure of a submission: a
    /// generic retry message is shown in the error style; fields and markers
    /// stay, so the form remains interactive.
    pub fn apply_transport_failure(&mut self)
        ensures
            final(self).mode == old(self).mode,
            final(self).values == old(self).values,
            final(self).marks == old(self).marks,
            final(self).info == InfoText::RequestFailed,
    {
        self.info = InfoText::RequestFailed;
    }
}

} // verus!
