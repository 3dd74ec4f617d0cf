//! The HTTP wire contract the backend consumes and serves: the endpoint
//! path and flat JSON body of each request, and the tagged JSON result of a
//! response. Requests are framed here; responses are checked and decoded
//! here. A response outside the wire model written below is a decode
//! failure, which callers treat as recoverable.

use vstd::prelude::*;
use vstd::string::StrSliceExecFns;
use vstd::string::StringExecFns;
use crate::api::{ApiError, ApiMessage, LoginError, PasswordResetError, RegistrationError};
use crate::form::SubmitRequest;

verus! {

/// Text that can stand inside a JSON string once quotes and backslashes are
/// escaped: it holds no control character.
pub open spec fn json_safe(s: Seq<char>) -> bool {
    forall|i: int| 0 <= i < s.len() ==> (#[trigger] s[i] as u32) >= 0x20
}

/// How one character is written inside a JSON string: quotes and
/// backslashes gain a backslash, everything else stands as it is.
pub open spec fn escape_char(c: char) -> Seq<char> {
    if c == '"' {
        seq!['\\', '"']
    } else if c == '\\' {
        seq!['\\', '\\']
    } else {
        seq![c]
    }
}

/// A text written inside a JSON string, character by character.
pub open spec fn json_escaped(s: Seq<char>) -> Seq<char>
    decreases s.len(),
{
    if s.len() == 0 {
        Seq::<char>::empty()
    } else {
        json_escaped(s.drop_last()) + escape_char(s.last())
    }
}

/// A JSON string: the escaped text between quotes.
pub open spec fn json_string(s: Seq<char>) -> Seq<char> {
    seq!['"'] + json_escaped(s) + seq!['"']
}

/// The flat JSON body a request carries.
pub open spec fn request_body_json(req: SubmitRequest) -> Seq<char> {
    match req {
        SubmitRequest::Login { user_info, pass_hash } => "{\"user_info\":"@ + json_string(
            user_info@,
        ) + ",\"pass_hash\":"@ + json_string(pass_hash@) + "}"@,
        SubmitRequest::Registration { user_name, mail_addr, pass_hash } => "{\"user_name\":"@
            + json_string(user_name@) + ",\"mail_addr\":"@ + json_string(mail_addr@)
            + ",\"pass_hash\":"@ + json_string(pass_hash@) + "}"@,
        SubmitRequest::PasswordReset { user_info } => "{\"user_info\":"@ + json_string(user_info@)
            + "}"@,
    }
}

/// Whether every text a request carries can be written as a JSON string.
pub open spec fn request_body_safe(req: SubmitRequest) -> bool {
    match req {
        SubmitRequest::Login { user_info, pass_hash } => json_safe(user_info@) && json_safe(
            pass_hash@,
        ),
        SubmitRequest::Registration { user_name, mail_addr, pass_hash } => json_safe(user_name@)
            && json_safe(mail_addr@) && json_safe(pass_hash@),
        SubmitRequest::PasswordReset { user_info } => json_safe(user_info@),
    }
}

/// The endpoint a request is posted to, relative to the backend's base URL.
pub open spec fn endpoint_path_spec(req: SubmitRequest) -> Seq<char> {
    match req {
        SubmitRequest::Login { .. } => "/login"@,
        SubmitRequest::Registration { .. } => "/register"@,
        SubmitRequest::PasswordReset { .. } => "/reset_password"@,
    }
}

/// The endpoint a request is posted to, relative to the backend's base URL.
pub fn endpoint_path(req: &SubmitRequest) -> (r: String)
    ensures
        r@ == endpoint_path_spec(*req),
{
    match req {
        SubmitRequest::Login { .. } => String::from_str("/login"),
        SubmitRequest::Registration { .. } => String::from_str("/register"),
        SubmitRequest::PasswordReset { .. } => String::from_str("/reset_password"),
    }
}

/// Writes a text into `out` as it stands inside a JSON string, escaping
/// quotes and backslashes. Fails exactly on text no JSON string can hold.
fn append_escaped(out: &mut String, s: &str) -> (ok: bool)
    ensures
        ok == json_safe(s@),
        ok ==> final(out)@ == old(out)@ + json_escaped(s@),
{
    let ghost start = out@;
    let n = s.unicode_len();
    let mut i: usize = 0;
    while i < n
        invariant
            n == s@.len(),
            i <= n,
            out@ == start + json_escaped(s@.subrange(0, i as int)),
            forall|j: int| 0 <= j < i ==> (#[trigger] s@[j] as u32) >= 0x20,
        decreases n - i,
    {
        let c = s.get_char(i);
        if c == '"' {
            out.append("\\\"");
            proof {
                reveal_strlit("\\\"");
            }
        } else if c == '\\' {
            out.append("\\\\");
            proof {
                reveal_strlit("\\\\");
            }
        } else if (c as u32) < 0x20 {
            return false;
        } else {
            let piece = s.substring_char(i, i + 1);
            out.append(piece);
            proof {
                assert(piece@ =~= seq![s@[i as int]]);
            }
        }
        proof {
            let prefix = s@.subrange(0, i + 1 as int);
            assert(prefix.drop_last() =~= s@.subrange(0, i as int));
            assert(out@ =~= start + json_escaped(prefix));
        }
        i = i + 1;
    }
    proof {
        assert(s@.subrange(0, n as int) =~= s@);
    }
    true
}

/// Writes a text into `out` as a complete JSON string, quotes included.
fn append_json_string(out: &mut String, s: &str) -> (ok: bool)
    ensures
        ok == json_safe(s@),
        ok ==> final(out)@ == old(out)@ + json_string(s@),
{
    out.append("\"");
    let ok = append_escaped(out, s);
    if !ok {
        return false;
    }
    out.append("\"");
    proof {
        reveal_strlit("\"");
        assert(out@ =~= old(out)@ + json_string(s@));
    }
    true
}

/// Frames a request's flat JSON body. Fails exactly when one of the texts
/// the request carries cannot stand in a JSON string; the caller treats
/// that as a failed submission.
pub fn encode_request_body(req: &SubmitRequest) -> (r: Option<String>)
    ensures
        (r is Some) == request_body_safe(*req),
        r matches Some(body) ==> body@ == request_body_json(*req),
{
    match req {
        SubmitRequest::Login { user_info, pass_hash } => {
            let mut out = String::from_str("{\"user_info\":");
            if !append_json_string(&mut out, user_info.as_str()) {
                return None;
            }
            out.append(",\"pass_hash\":");
            if !append_json_string(&mut out, pass_hash.as_str()) {
                return None;
            }
            out.append("}");
            proof {
                assert(out@ =~= request_body_json(*req));
            }
            Some(out)
        },
        SubmitRequest::Registration { user_name, mail_addr, pass_hash } => {
            let mut out = String::from_str("{\"user_name\":");
            if !append_json_string(&mut out, user_name.as_str()) {
                return None;
            }
            out.append(",\"mail_addr\":");
            if !append_json_string(&mut out, mail_addr.as_str()) {
                return None;
            }
            out.append(",\"pass_hash\":");
            if !append_json_string(&mut out, pass_hash.as_str()) {
                return None;
            }
            out.append("}");
            proof {
                assert(out@ =~= request_body_json(*req));
            }
            Some(out)
        },
        SubmitRequest::PasswordReset { user_info } => {
            let mut out = String::from_str("{\"user_info\":");
            if !append_json_string(&mut out, user_info.as_str()) {
                return None;
            }
            out.append("}");
            proof {
                assert(out@ =~= request_body_json(*req));
            }
            Some(out)
        },
    }
}

/// An escaped text can be read from the front as well: first the first
/// character's escape, then the escaped rest.
pub proof fn lemma_json_escaped_first(s: Seq<char>)
    requires
        s.len() > 0,
    ensures
        json_escaped(s) == escape_char(s.first()) + json_escaped(s.drop_first()),
    decreases s.len(),
{
    if s.len() == 1 {
        assert(s.drop_last() =~= Seq::<char>::empty());
        assert(s.drop_first() =~= Seq::<char>::empty());
        assert(json_escaped(s) =~= escape_char(s.first()) + json_escaped(s.drop_first()));
    } else {
        lemma_json_escaped_first(s.drop_last());
        assert(s.drop_last().first() == s.first());
        assert(s.drop_last().drop_first() =~= s.drop_first().drop_last());
        assert(s.drop_first().last() == s.last());
        assert(s.drop_first().len() > 0);
        assert(json_escaped(s) =~= escape_char(s.first()) + json_escaped(s.drop_first()));
    }
}

/// Escaping is a prefix code: when one escaped text starts another, the
/// source texts line up the same way, and the remainders correspond.
pub proof fn lemma_escape_prefix(a: Seq<char>, t: Seq<char>)
    requires
        json_escaped(a).len() <= json_escaped(t).len(),
        json_escaped(a) == json_escaped(t).subrange(0, json_escaped(a).len() as int),
    ensures
        a.len() <= t.len(),
        a == t.subrange(0, a.len() as int),
        json_escaped(t).skip(json_escaped(a).len() as int) == json_escaped(
            t.skip(a.len() as int),
        ),
    decreases a.len(),
{
    if a.len() == 0 {
        assert(a =~= t.subrange(0, 0));
        assert(json_escaped(t).skip(0) =~= json_escaped(t));
        assert(t.skip(0) =~= t);
    } else {
        lemma_json_escaped_first(a);
        if t.len() == 0 {
            assert(json_escaped(a).len() > 0);
            assert(false);
        }
        lemma_json_escaped_first(t);
        let a0 = a.first();
        let t0 = t.first();
        assert(json_escaped(a)[0] == json_escaped(t)[0]);
        if a0 == '"' || a0 == '\\' {
            assert(escape_char(a0)[0] == '\\');
            if !(t0 == '"' || t0 == '\\') {
                assert(json_escaped(t)[0] == t0);
                assert(t0 == '\\');
            }
            assert(json_escaped(a)[1] == a0);
            assert(json_escaped(t)[1] == t0);
            assert(a0 == t0);
        } else {
            assert(json_escaped(a)[0] == a0);
            if t0 == '"' || t0 == '\\' {
                assert(json_escaped(t)[0] == '\\');
                assert(a0 == '\\');
                assert(false);
            }
            assert(json_escaped(t)[0] == t0);
            assert(a0 == t0);
        }
        let ar = a.drop_first();
        let tr = t.drop_first();
        let k = escape_char(a0).len() as int;
        assert(json_escaped(ar) =~= json_escaped(tr).subrange(
            0,
            json_escaped(ar).len() as int,
        )) by {
            assert forall|j: int| 0 <= j < json_escaped(ar).len() implies json_escaped(ar)[j]
                == json_escaped(tr)[j] by {
                assert(json_escaped(a)[k + j] == json_escaped(ar)[j]);
                assert(json_escaped(t)[k + j] == json_escaped(tr)[j]);
                assert(json_escaped(a)[k + j] == json_escaped(t)[k + j]);
            }
        }
        lemma_escape_prefix(ar, tr);
        assert(a =~= t.subrange(0, a.len() as int)) by {
            assert(a[0] == t[0]);
            assert forall|j: int| 1 <= j < a.len() implies a[j] == t[j] by {
                assert(ar[j - 1] == tr.subrange(0, ar.len() as int)[j - 1]);
            }
        }
        assert(tr.skip(ar.len() as int) =~= t.skip(a.len() as int));
        assert(json_escaped(t).skip(json_escaped(a).len() as int) =~= json_escaped(tr).skip(
            json_escaped(ar).len() as int,
        ));
    }
}

/// The escape unit that continues an escaped text after a consumed prefix:
/// its first character, and its second where it has one, stand at the
/// matching positions of the whole escaped text.
proof fn lemma_next_unit(t: Seq<char>, consumed: Seq<char>, i: int)
    requires
        0 <= i < json_escaped(t).len(),
        json_escaped(consumed) == json_escaped(t).subrange(0, i),
    ensures
        consumed.len() < t.len(),
        t.skip(consumed.len() as int).len() > 0,
        escape_char(t.skip(consumed.len() as int).first())[0] == json_escaped(t)[i],
        (t.skip(consumed.len() as int).first() == '"' || t.skip(consumed.len() as int).first()
            == '\\') ==> i + 1 < json_escaped(t).len() && escape_char(
            t.skip(consumed.len() as int).first(),
        )[1] == json_escaped(t)[i + 1],
        t.skip(consumed.len() as int).first() == t[consumed.len() as int],
{
    assert(json_escaped(consumed).len() == i);
    lemma_escape_prefix(consumed, t);
    let rest = t.skip(consumed.len() as int);
    assert(json_escaped(t).skip(i) == json_escaped(rest));
    if rest.len() == 0 {
        assert(json_escaped(rest) =~= Seq::<char>::empty());
        assert(json_escaped(t).skip(i).len() == 0);
        assert(false);
    }
    lemma_json_escaped_first(rest);
    assert(json_escaped(rest)[0] == escape_char(rest.first())[0]);
    assert(json_escaped(t).skip(i)[0] == json_escaped(t)[i]);
    if rest.first() == '"' || rest.first() == '\\' {
        assert(escape_char(rest.first()).len() == 2);
        assert(json_escaped(rest).len() >= 2);
        assert(json_escaped(rest)[1] == escape_char(rest.first())[1]);
        assert(json_escaped(t).skip(i)[1] == json_escaped(t)[i + 1]);
    }
    assert(rest.first() == t[consumed.len() as int]);
}

/// The tagged JSON form of each error code a response can carry.
pub open spec fn error_response_json(e: ApiError) -> Seq<char> {
    match e {
        ApiError::Login(LoginError::InvalidLoginCredentials) => (
        "{\"Err\":{\"LoginError\":\"InvalidLoginCredentials\"}}"@),
        ApiError::Login(LoginError::EmptyUserInfo) => (
        "{\"Err\":{\"LoginError\":\"EmptyUserInfo\"}}"@),
        ApiError::Login(LoginError::EmptyPassWord) => (
        "{\"Err\":{\"LoginError\":\"EmptyPassWord\"}}"@),
        ApiError::Registration(RegistrationError::EmptyUserName) => (
        "{\"Err\":{\"RegistrationError\":\"EmptyUserName\"}}"@),
        ApiError::Registration(RegistrationError::UserNameExistsAlready) => (
        "{\"Err\":{\"RegistrationError\":\"UserNameExistsAlready\"}}"@),
        ApiError::Registration(RegistrationError::InvalidUserNameFormat) => (
        "{\"Err\":{\"RegistrationError\":\"InvalidUserNameFormat\"}}"@),
        ApiError::Registration(RegistrationError::EmptyMailAddress) => (
        "{\"Err\":{\"RegistrationError\":\"EmptyMailAddress\"}}"@),
        ApiError::Registration(RegistrationError::MailAddressExistsAlready) => (
        "{\"Err\":{\"RegistrationError\":\"MailAddressExistsAlready\"}}"@),
        ApiError::Registration(RegistrationError::InvalidMailAddressFormat) => (
        "{\"Err\":{\"RegistrationError\":\"InvalidMailAddressFormat\"}}"@),
        ApiError::Registration(RegistrationError::EmptyPassWord) => (
        "{\"Err\":{\"RegistrationError\":\"EmptyPassWord\"}}"@),
        ApiError::Registration(RegistrationError::InvalidPasswordFormat) => (
        "{\"Err\":{\"RegistrationError\":\"InvalidPasswordFormat\"}}"@),
        ApiError::Registration(RegistrationError::EmptyPassWordConfirm) => (
        "{\"Err\":{\"RegistrationError\":\"EmptyPassWordConfirm\"}}"@),
        ApiError::Registration(RegistrationError::InvalidPasswordConfirmation) => (
        "{\"Err\":{\"RegistrationError\":\"InvalidPasswordConfirmation\"}}"@),
        ApiError::PasswordReset(PasswordResetError::EmptyUserInfo) => (
        "{\"Err\":{\"PasswordResetError\":\"EmptyUserInfo\"}}"@),
        ApiError::PasswordReset(PasswordResetError::AccountDoesNotExist) => (
        "{\"Err\":{\"PasswordResetError\":\"AccountDoesNotExist\"}}"@),
    }
}

/// The tagged JSON result a response resolves to: a success message as a
/// JSON string, or an error code in its tagged form.
pub open spec fn response_json(m: ApiMessage) -> Seq<char> {
    match m {
        ApiMessage::Success(t) => "{\"Ok\":\""@ + json_escaped(t@) + "\"}"@,
        ApiMessage::Failure(e) => error_response_json(e),
    }
}

/// Whether the wire model above covers a response: every error code is
/// covered, and a success message is covered when a JSON string can hold
/// it with quote and backslash escapes alone. Anything else is a decode
/// failure, which callers treat as recoverable.
pub open spec fn response_covered(m: ApiMessage) -> bool {
    match m {
        ApiMessage::Success(t) => json_safe(t@),
        ApiMessage::Failure(_) => true,
    }
}

/// Whether two texts are equal, character for character.
fn str_eq(a: &str, b: &str) -> (r: bool)
    ensures
        r == (a@ == b@),
{
    String::from_str(a) == String::from_str(b)
}

/// Reads a success response: the message text between the fixed frame,
/// with quote and backslash escapes undone. Fails exactly on input that is
/// no framed JSON string of the wire model.
fn parse_success_body(s: &str) -> (r: Option<String>)
    ensures
        r matches Some(t) ==> json_safe(t@) && s@ == "{\"Ok\":\""@ + json_escaped(t@) + "\"}"@,
        r is None ==> forall|t: Seq<char>|
            json_safe(t) ==> s@ != "{\"Ok\":\""@ + json_escaped(t) + "\"}"@,
{
    proof {
        reveal_strlit("{\"Ok\":\"");
        reveal_strlit("\"}");
    }
    let n = s.unicode_len();
    if n < 9 {
        proof {
            assert forall|t: Seq<char>| json_safe(t) implies s@ != ("{\"Ok\":\""@
                + json_escaped(t) + "\"}"@) by {
                assert(("{\"Ok\":\""@ + json_escaped(t) + "\"}"@).len() >= 9);
            }
        }
        return None;
    }
    let prefix = s.substring_char(0, 7);
    if !str_eq(prefix, "{\"Ok\":\"") {
        proof {
            assert forall|t: Seq<char>| json_safe(t) implies s@ != ("{\"Ok\":\""@
                + json_escaped(t) + "\"}"@) by {
                if s@ == "{\"Ok\":\""@ + json_escaped(t) + "\"}"@ {
                    assert(s@.subrange(0, 7) =~= "{\"Ok\":\""@);
                }
            }
        }
        return None;
    }
    let suffix = s.substring_char(n - 2, n);
    if !str_eq(suffix, "\"}") {
        proof {
            assert forall|t: Seq<char>| json_safe(t) implies s@ != ("{\"Ok\":\""@
                + json_escaped(t) + "\"}"@) by {
                if s@ == "{\"Ok\":\""@ + json_escaped(t) + "\"}"@ {
                    assert(s@.subrange(n - 2 as int, n as int) =~= "\"}"@);
                }
            }
        }
        return None;
    }
    let middle = s.substring_char(7, n - 2);
    let mlen = middle.unicode_len();
    let mut out = String::new();
    let mut i: usize = 0;
    while i < mlen
        invariant
            mlen == middle@.len(),
            middle@ == s@.subrange(7, n - 2 as int),
            n == s@.len(),
            9 <= n,
            i <= mlen,
            json_safe(out@),
            json_escaped(out@) == middle@.subrange(0, i as int),
        decreases mlen - i,
    {
        let ghost consumed = out@;
        let c = middle.get_char(i);
        if c == '\\' {
            if i + 1 >= mlen {
                proof {
                    reveal_strlit("{\"Ok\":\"");
                    reveal_strlit("\"}");
                    assert forall|t: Seq<char>| json_safe(t) implies s@ != ("{\"Ok\":\""@
                        + json_escaped(t) + "\"}"@) by {
                        if s@ == "{\"Ok\":\""@ + json_escaped(t) + "\"}"@ {
                            assert(middle@ =~= json_escaped(t));
                            assert(json_escaped(consumed) == json_escaped(t).subrange(
                                0,
                                i as int,
                            ));
                            lemma_next_unit(t, consumed, i as int);
                            let first = t.skip(consumed.len() as int).first();
                            assert(escape_char(first)[0] == middle@[i as int]);
                            if !(first == '"' || first == '\\') {
                                assert(escape_char(first)[0] == first);
                                assert(false);
                            }
                            assert(i + 1 < json_escaped(t).len());
                            assert(json_escaped(t).len() == mlen);
                            assert(false);
                        }
                    }
                }
                return None;
            }
            let d = middle.get_char(i + 1);
            if d == '"' || d == '\\' {
                if d == '"' {
                    out.append("\"");
                } else {
                    out.append("\\");
                }
                proof {
                    reveal_strlit("\"");
                    reveal_strlit("\\");
                    assert(out@.drop_last() =~= consumed);
                    assert(out@.last() == d);
                    assert(json_escaped(out@) =~= json_escaped(consumed) + escape_char(d));
                    assert(escape_char(d) =~= seq![middle@[i as int], middle@[i + 1 as int]]);
                    assert(json_escaped(out@) =~= middle@.subrange(0, i + 2 as int));
                    assert(json_safe(out@)) by {
                        assert forall|j: int| 0 <= j < out@.len() implies (
                        #[trigger] out@[j] as u32) >= 0x20 by {
                            if j < consumed.len() {
                                assert(out@[j] == consumed[j]);
                            } else {
                                assert(out@[j] == d);
                            }
                        }
                    }
                }
                i = i + 2;
            } else {
                proof {
                    reveal_strlit("{\"Ok\":\"");
                    reveal_strlit("\"}");
                    assert forall|t: Seq<char>| json_safe(t) implies s@ != ("{\"Ok\":\""@
                        + json_escaped(t) + "\"}"@) by {
                        if s@ == "{\"Ok\":\""@ + json_escaped(t) + "\"}"@ {
                            assert(middle@ =~= json_escaped(t));
                            assert(json_escaped(consumed) == json_escaped(t).subrange(
                                0,
                                i as int,
                            ));
                            lemma_next_unit(t, consumed, i as int);
                            let first = t.skip(consumed.len() as int).first();
                            assert(escape_char(first)[0] == middle@[i as int]);
                            if !(first == '"' || first == '\\') {
                                assert(escape_char(first)[0] == first);
                                assert(false);
                            }
                            assert(escape_char(first)[1] == json_escaped(t)[i + 1]);
                            assert(escape_char(first)[1] == first);
                            assert(d == middle@[i + 1 as int]);
                            assert(d == first);
                            assert(false);
                        }
                    }
                }
                return None;
            }
        } else if c == '"' || (c as u32) < 0x20 {
            proof {
                reveal_strlit("{\"Ok\":\"");
                reveal_strlit("\"}");
                assert forall|t: Seq<char>| json_safe(t) implies s@ != ("{\"Ok\":\""@
                    + json_escaped(t) + "\"}"@) by {
                    if s@ == "{\"Ok\":\""@ + json_escaped(t) + "\"}"@ {
                        assert(middle@ =~= json_escaped(t));
                        assert(json_escaped(consumed) == json_escaped(t).subrange(0, i as int));
                        lemma_next_unit(t, consumed, i as int);
                        let first = t.skip(consumed.len() as int).first();
                        assert(escape_char(first)[0] == middle@[i as int]);
                        if first == '"' || first == '\\' {
                            assert(escape_char(first)[0] == '\\');
                            assert(false);
                        } else {
                            assert(escape_char(first)[0] == first);
                            assert(c == first);
                            assert(first == t[consumed.len() as int]);
                            assert((t[consumed.len() as int] as u32) >= 0x20);
                            assert(false);
                        }
                    }
                }
            }
            return None;
        } else {
            let piece = middle.substring_char(i, i + 1);
            out.append(piece);
            proof {
                assert(piece@ =~= seq![middle@[i as int]]);
                assert(out@.drop_last() =~= consumed);
                assert(out@.last() == c);
                assert(json_escaped(out@) =~= json_escaped(consumed) + escape_char(c));
                assert(escape_char(c) =~= seq![middle@[i as int]]);
                assert(json_escaped(out@) =~= middle@.subrange(0, i + 1 as int));
                assert(json_safe(out@)) by {
                    assert forall|j: int| 0 <= j < out@.len() implies (
                    #[trigger] out@[j] as u32) >= 0x20 by {
                        if j < consumed.len() {
                            assert(out@[j] == consumed[j]);
                        } else {
                            assert(out@[j] == c);
                        }
                    }
                }
            }
            i = i + 1;
        }
    }
    proof {
        assert(json_escaped(out@) =~= middle@);
        assert(s@ =~= s@.subrange(0, 7) + s@.subrange(7, n - 2 as int) + s@.subrange(
            n - 2 as int,
            n as int,
        ));
    }
    Some(out)
}

/// Decodes the tagged JSON result of a submission response. Anything the
/// wire model above does not cover decodes to nothing, which callers treat
/// as a recoverable transport failure.
pub fn decode_response(s: &str) -> (r: Option<ApiMessage>)
    ensures
        r matches Some(m) ==> response_covered(m) && s@ == response_json(m),
        r is None ==> forall|m: ApiMessage|
            response_covered(m) ==> s@ != response_json(m),
{
    if str_eq(s, "{\"Err\":{\"LoginError\":\"InvalidLoginCredentials\"}}") {
        return Some(ApiMessage::Failure(ApiError::Login(LoginError::InvalidLoginCredentials)));
    }
    if str_eq(s, "{\"Err\":{\"LoginError\":\"EmptyUserInfo\"}}") {
        return Some(ApiMessage::Failure(ApiError::Login(LoginError::EmptyUserInfo)));
    }
    if str_eq(s, "{\"Err\":{\"LoginError\":\"EmptyPassWord\"}}") {
        return Some(ApiMessage::Failure(ApiError::Login(LoginError::EmptyPassWord)));
    }
    if str_eq(s, "{\"Err\":{\"RegistrationError\":\"EmptyUserName\"}}") {
        return Some(
            ApiMessage::Failure(ApiError::Registration(RegistrationError::EmptyUserName)),
        );
    }
    if str_eq(s, "{\"Err\":{\"RegistrationError\":\"UserNameExistsAlready\"}}") {
        return Some(
            ApiMessage::Failure(ApiError::Registration(RegistrationError::UserNameExistsAlready)),
        );
    }
    if str_eq(s, "{\"Err\":{\"RegistrationError\":\"InvalidUserNameFormat\"}}") {
        return Some(
            ApiMessage::Failure(ApiError::Registration(RegistrationError::InvalidUserNameFormat)),
        );
    }
    if str_eq(s, "{\"Err\":{\"RegistrationError\":\"EmptyMailAddress\"}}") {
        return Some(
            ApiMessage::Failure(ApiError::Registration(RegistrationError::EmptyMailAddress)),
        );
    }
    if str_eq(s, "{\"Err\":{\"RegistrationError\":\"MailAddressExistsAlready\"}}") {
        return Some(
            ApiMessage::Failure(
                ApiError::Registration(RegistrationError::MailAddressExistsAlready),
            ),
        );
    }
    if str_eq(s, "{\"Err\":{\"RegistrationError\":\"InvalidMailAddressFormat\"}}") {
        return Some(
            ApiMessage::Failure(
                ApiError::Registration(RegistrationError::InvalidMailAddressFormat),
            ),
        );
    }
    if str_eq(s, "{\"Err\":{\"RegistrationError\":\"EmptyPassWord\"}}") {
        return Some(
            ApiMessage::Failure(ApiError::Registration(RegistrationError::EmptyPassWord)),
        );
    }
    if str_eq(s, "{\"Err\":{\"RegistrationError\":\"InvalidPasswordFormat\"}}") {
        return Some(
            ApiMessage::Failure(ApiError::Registration(RegistrationError::InvalidPasswordFormat)),
        );
    }
    if str_eq(s, "{\"Err\":{\"RegistrationError\":\"EmptyPassWordConfirm\"}}") {
        return Some(
            ApiMessage::Failure(ApiError::Registration(RegistrationError::EmptyPassWordConfirm)),
        );
    }
    if str_eq(s, "{\"Err\":{\"RegistrationError\":\"InvalidPasswordConfirmation\"}}") {
        return Some(
            ApiMessage::Failure(
                ApiError::Registration(RegistrationError::InvalidPasswordConfirmation),
            ),
        );
    }
    if str_eq(s, "{\"Err\":{\"PasswordResetError\":\"EmptyUserInfo\"}}") {
        return Some(
            ApiMessage::Failure(ApiError::PasswordReset(PasswordResetError::EmptyUserInfo)),
        );
    }
    if str_eq(s, "{\"Err\":{\"PasswordResetError\":\"AccountDoesNotExist\"}}") {
        return Some(
            ApiMessage::Failure(ApiError::PasswordReset(PasswordResetError::AccountDoesNotExist)),
        );
    }
    match parse_success_body(s) {
        Some(t) => Some(ApiMessage::Success(t)),
        None => {
            proof {
                assert forall|m: ApiMessage| response_covered(m) implies s@ != response_json(
                    m,
                ) by {
                    match m {
                        ApiMessage::Success(t) => {
                            assert(s@ != "{\"Ok\":\""@ + json_escaped(t@) + "\"}"@);
                        },
                        ApiMessage::Failure(e) => {
                        },
                    }
                }
            }
            None
        },
    }
}

} // verus!
