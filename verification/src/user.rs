//! Users and sessions: the password check, the login token, the avatar,
//! how long a session lasts, and the rows written for them.

use vstd::prelude::*;
use vstd::utf8::encode_utf8;
use crate::acme::{sha256, sha256_digest};
use crate::records::{TbSession, TbUser};
use crate::text::{concat, contains_char, chars_of, push_all, text_eq};

verus! {

/// The lowercase hexadecimal digit of `v` in `0..16`.
pub open spec fn hex_digit(v: int) -> char {
    if v < 10 { ('0' as int + v) as char } else { ('a' as int + (v - 10)) as char }
}

/// Each byte as two lowercase hexadecimal digits, high digit first.
pub open spec fn hex_lower(b: Seq<u8>) -> Seq<char>
    decreases b.len(),
{
    if b.len() == 0 {
        Seq::empty()
    } else {
        hex_lower(b.drop_last()) + seq![hex_digit(b.last() as int / 16), hex_digit(b.last() as int % 16)]
    }
}

/// `hex::encode`: the bytes in lowercase hexadecimal.
#[verifier::external_body]
fn hex_encode(data: &[u8]) -> (r: String)
    ensures
        r@ == hex_lower(data@),
{
    hex::encode(data)
}

/// The MD5 digest of the bytes.
pub uninterp spec fn md5_digest(data: Seq<u8>) -> Seq<u8>;

/// `md5::compute`: the 16 bytes of the MD5 digest.
#[verifier::external_body]
fn md5(data: &[u8]) -> (r: Vec<u8>)
    ensures
        r@ == md5_digest(data@),
        r@.len() == 16,
{
    md5::compute(data).0.to_vec()
}

/// The MD5 digest of a text's UTF-8 bytes, in lowercase hexadecimal.
pub open spec fn md5_hex_spec(s: Seq<char>) -> Seq<char> {
    hex_lower(md5_digest(encode_utf8(s)))
}

/// The MD5 digest of a text, in lowercase hexadecimal.
pub fn md5_hex(s: &str) -> (r: String)
    ensures
        r@ == md5_hex_spec(s@),
{
    let d = md5(s.as_bytes());
    hex_encode(d.as_slice())
}

/// The address of a user's avatar: the Gravatar-style mirror, then the MD5 of the mail address.
pub open spec fn avatar_spec(email: Seq<char>) -> Seq<char> {
    "https://dn-qiniu-avatar.qbox.me/avatar/"@ + md5_hex_spec(email)
}

pub fn avatar_url(email: &str) -> (r: String)
    ensures
        r@ == avatar_spec(email@),
{
    let h = md5_hex(email);
    concat("https://dn-qiniu-avatar.qbox.me/avatar/", h.as_str())
}

/// A user is looked up by mail address when the name given holds `@`, else by user name.
pub fn lookup_by_email(user_or_email: &str) -> (r: bool)
    ensures
        r == user_or_email@.contains('@'),
{
    let cs = chars_of(user_or_email);
    contains_char(cs.as_slice(), '@')
}

/// The token of a login: the SHA-256 of `user-password-ip`, in lowercase hexadecimal.
pub open spec fn login_token_spec(user: Seq<char>, password: Seq<char>, ip: Seq<char>) -> Seq<char> {
    hex_lower(sha256_digest(encode_utf8(user + "-"@ + password + "-"@ + ip)))
}

pub fn login_token(user: &str, password: &str, ip: &str) -> (r: String)
    ensures
        r@ == login_token_spec(user@, password@, ip@),
{
    let mut s = concat(user, "-");
    push_all(&mut s, password);
    push_all(&mut s, "-");
    push_all(&mut s, ip);
    let d = sha256(s.as_str().as_bytes());
    hex_encode(d.as_slice())
}

/// What a user sees of themselves.
pub struct UserProfile {
    pub name: String,
    pub email: String,
    pub avatar: Option<String>,
}

/// A change of password.
pub struct UserPassword {
    pub password: String,
    pub new_password: String,
}

/// The profile of a stored user.
pub fn user_profile(row: &TbUser) -> (r: UserProfile)
    requires
        row.name is Some,
        row.email is Some,
    ensures
        r.name == row.name->0,
        r.email == row.email->0,
        r.avatar matches Some(a) && a@ == avatar_spec(row.email->0@),
{
    let email = row.email.as_ref().unwrap().clone();
    let avatar = avatar_url(email.as_str());
    UserProfile { name: row.name.as_ref().unwrap().clone(), email, avatar: Some(avatar) }
}

/// Why a password cannot be checked.
#[derive(PartialEq, Eq, Structural, Clone, Copy, Debug)]
pub enum UserError {
    NotFound,
    NameMissing,
    EmailMissing,
    PasswordMissing,
}

impl UserError {
    pub open spec fn message(self) -> Seq<char> {
        match self {
            UserError::NotFound => "User not found."@,
            UserError::NameMissing => "User name not found."@,
            UserError::EmailMissing => "User email not found."@,
            UserError::PasswordMissing => "User password not found."@,
        }
    }
}

/// The outcome of a password check: whether it matched, who the user is,
/// and whether the user must choose a new password.
pub struct PasswordCheck {
    pub matched: bool,
    pub name: String,
    pub email: String,
    pub reset: bool,
}

/// The password every console starts with, and the mail address of its first user.
pub open spec fn must_reset(stored: Seq<char>, email: Seq<char>) -> bool {
    stored == md5_hex_spec("admin"@) || email == "admin@test.test"@
}

/// Checks a password against the stored user. A user who still has the
/// first password (the MD5 of `admin`) or the first mail address is asked
/// to reset it, when the password matches.
pub fn check_password(user: &Option<TbUser>, password: &str) -> (r: Result<PasswordCheck, UserError>)
    ensures
        user is None ==> r == Err::<PasswordCheck, UserError>(UserError::NotFound),
        user matches Some(u) ==> {
            &&& u.name is None ==> r == Err::<PasswordCheck, UserError>(UserError::NameMissing)
            &&& (u.name is Some && u.email is None) ==> r == Err::<PasswordCheck, UserError>(UserError::EmailMissing)
            &&& (u.name is Some && u.email is Some && u.password is None) ==> r == Err::<PasswordCheck, UserError>(UserError::PasswordMissing)
            &&& (u.name is Some && u.email is Some && u.password is Some) ==> (r matches Ok(c) && {
                &&& c.name == u.name->0
                &&& c.email == u.email->0
                &&& c.matched == (u.password->0@ == password@)
                &&& c.reset == (c.matched && must_reset(u.password->0@, u.email->0@))
            })
        },
{
    let u = match user {
        Some(u) => u,
        None => return Err(UserError::NotFound),
    };
    let name = match &u.name {
        Some(n) => n.clone(),
        None => return Err(UserError::NameMissing),
    };
    let email = match &u.email {
        Some(e) => e.clone(),
        None => return Err(UserError::EmailMissing),
    };
    let p = match &u.password {
        Some(p) => p,
        None => return Err(UserError::PasswordMissing),
    };
    if text_eq(p.as_str(), password) {
        let admin = md5_hex("admin");
        let reset = text_eq(p.as_str(), admin.as_str()) || text_eq(email.as_str(), "admin@test.test");
        Ok(PasswordCheck { matched: true, name, email, reset })
    } else {
        Ok(PasswordCheck { matched: false, name, email, reset: false })
    }
}

// ---------------------------------------------------------------------
// Sessions
// ---------------------------------------------------------------------

/// How long a session lasts after its last use, in seconds.
pub const SESSION_TTL: i64 = 1800;

/// A session last used at `last_used` is still open at `now` (Unix seconds).
pub open spec fn session_open(last_used: Option<i64>, now: i64) -> bool {
    match last_used {
        Some(t) => t + SESSION_TTL > now,
        None => false,
    }
}

pub fn session_is_open(last_used: Option<i64>, now: i64) -> (r: bool)
    ensures
        r == session_open(last_used, now),
{
    match last_used {
        Some(t) => (t as i128) + (SESSION_TTL as i128) > (now as i128),
        None => false,
    }
}

/// A session open at some time was open at every earlier time since its last use.
pub proof fn lemma_session_open_earlier(last_used: Option<i64>, now: i64, earlier: i64)
    requires
        session_open(last_used, now),
        earlier <= now,
    ensures
        session_open(last_used, earlier),
{
}

/// The session row written at a first login at `now`.
pub fn new_session_row(name: String, email: String, ip: &str, token: &str, now: i64) -> (r: TbSession)
    ensures
        r.id is None,
        r.user == Some(name),
        r.email == Some(email),
        r.login_ip matches Some(i) && i@ == ip@,
        r.token matches Some(t) && t@ == token@,
        r.gmt_create == Some(now),
        r.gmt_modified == Some(now),
{
    TbSession {
        id: None,
        user: Some(name),
        email: Some(email),
        login_ip: Some(ip.to_owned()),
        token: Some(token.to_owned()),
        gmt_create: Some(now),
        gmt_modified: Some(now),
    }
}

/// A session used again at `now`.
pub fn touched_session(s: TbSession, now: i64) -> (r: TbSession)
    ensures
        r.id == s.id,
        r.user == s.user,
        r.email == s.email,
        r.login_ip == s.login_ip,
        r.token == s.token,
        r.gmt_create == s.gmt_create,
        r.gmt_modified == Some(now),
{
    let mut r = s;
    r.gmt_modified = Some(now);
    r
}

/// The token of an `Authorization` header: what follows `Bearer `.
pub fn bearer_token(header: &str) -> (r: Option<String>)
    ensures
        header@.len() >= 7 && header@.take(7) == "Bearer "@ ==> (r matches Some(t) && t@ == header@.skip(7)),
        !(header@.len() >= 7 && header@.take(7) == "Bearer "@) ==> r is None,
{
    let cs = chars_of(header);
    let prefix = chars_of("Bearer ");
    proof {
        reveal_strlit("Bearer ");
    }
    if cs.len() < 7 {
        return None;
    }
    let mut i: usize = 0;
    while i < 7
        invariant
            i <= 7 <= cs@.len(),
            prefix@ == "Bearer "@,
            prefix@.len() == 7,
            cs@ == header@,
            forall|j: int| 0 <= j < i ==> cs@[j] == prefix@[j],
        decreases 7 - i,
    {
        if cs[i] != prefix[i] {
            assert(header@.take(7)[i as int] != "Bearer "@[i as int]);
            return None;
        }
        i = i + 1;
    }
    assert(header@.take(7) =~= "Bearer "@);
    let mut t: Vec<char> = Vec::new();
    let mut k: usize = 7;
    while k < cs.len()
        invariant
            7 <= k <= cs@.len(),
            t@ == cs@.subrange(7, k as int),
        decreases cs@.len() - k,
    {
        t.push(cs[k]);
        assert(cs@.subrange(7, k + 1) =~= cs@.subrange(7, k as int).push(cs@[k as int]));
        k = k + 1;
    }
    assert(cs@.subrange(7, cs@.len() as int) =~= header@.skip(7));
    Some(crate::text::string_of(t.as_slice()))
}

// ---------------------------------------------------------------------
// Rows that change a user
// ---------------------------------------------------------------------

/// The row that sets a user's name and mail address at `now`.
pub fn profile_update_row(profile: UserProfile, now: i64) -> (r: TbUser)
    ensures
        r.name == Some(profile.name),
        r.email == Some(profile.email),
        r.id is None && r.password is None && r.real_name is None && r.ext_info is None && r.gmt_create is None,
        r.gmt_modified == Some(now),
{
    TbUser {
        id: None,
        name: Some(profile.name),
        email: Some(profile.email),
        password: None,
        real_name: None,
        ext_info: None,
        gmt_create: None,
        gmt_modified: Some(now),
    }
}

/// The row that sets a user's password at `now`.
pub fn password_update_row(change: UserPassword, now: i64) -> (r: TbUser)
    ensures
        r.password == Some(change.new_password),
        r.id is None && r.name is None && r.email is None && r.real_name is None && r.ext_info is None && r.gmt_create is None,
        r.gmt_modified == Some(now),
{
    TbUser {
        id: None,
        name: None,
        email: None,
        password: Some(change.new_password),
        real_name: None,
        ext_info: None,
        gmt_create: None,
        gmt_modified: Some(now),
    }
}

/// The row that sets a user's extra information at `now`.
pub fn ext_info_update_row(ext_info: String, now: i64) -> (r: TbUser)
    ensures
        r.ext_info == Some(ext_info),
        r.id is None && r.name is None && r.email is None && r.password is None && r.real_name is None && r.gmt_create is None,
        r.gmt_modified == Some(now),
{
    TbUser {
        id: None,
        name: None,
        email: None,
        password: None,
        real_name: None,
        ext_info: Some(ext_info),
        gmt_create: None,
        gmt_modified: Some(now),
    }
}

} // verus!

verus! {

/// The user created when the console is installed, at `now`: `admin`, with
/// the mail address `admin@test.test` and the MD5 of `admin` as password.
pub fn default_admin_row(now: i64) -> (r: TbUser)
    ensures
        r.id is None,
        r.name matches Some(n) && n@ == "admin"@,
        r.email matches Some(e) && e@ == "admin@test.test"@,
        r.password matches Some(p) && p@ == md5_hex_spec("admin"@),
        r.real_name matches Some(n) && n@ == "Admin"@,
        r.ext_info is None,
        r.gmt_create == Some(now),
        r.gmt_modified == Some(now),
{
    TbUser {
        id: None,
        name: Some("admin".to_string()),
        email: Some("admin@test.test".to_string()),
        password: Some(md5_hex("admin")),
        real_name: Some("Admin".to_string()),
        ext_info: None,
        gmt_create: Some(now),
        gmt_modified: Some(now),
    }
}

} // verus!
