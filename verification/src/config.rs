//! The console's settings and command line, and how a setting is chosen.

use vstd::prelude::*;
use vstd::utf8::encode_utf8;
use crate::text::{chars_of, concat, push_all, string_of};

verus! {

/// Where the console keeps its records.
pub struct DatabaseConfig {
    pub user: String,
    pub password: String,
    pub url: String,
}

/// The port gateways connect to, and how many may connect at once.
pub struct TcpConfig {
    pub port: u16,
    pub max_connections: usize,
}

/// The port of the HTTP interface.
pub struct HttpConfig {
    pub port: u16,
}

/// The port console peers send changes to.
pub struct BoradcastConfig {
    pub port: u16,
}

/// The servers the console runs, and where its web pages are.
pub struct ServerConfig {
    pub tcp: TcpConfig,
    pub http: HttpConfig,
    pub boradcast: BoradcastConfig,
    pub ui: Option<String>,
}

/// The console's settings, as its configuration file gives them.
pub struct AigwConsoleConfig {
    pub database: DatabaseConfig,
    pub server: ServerConfig,
}

/// The console's command line.
pub struct AigwConsoleArgs {
    pub config: Option<String>,
    pub log_file: Option<String>,
    pub install: bool,
    pub daemon: bool,
    pub user: Option<String>,
    pub group: Option<String>,
    pub pid_file: Option<String>,
    pub ui: Option<String>,
}

/// The configuration file read when the command line names none.
pub open spec fn default_config_path() -> Seq<char> {
    "conf/aigwc.toml"@
}

/// The web pages served when neither the command line nor the settings name a directory.
pub open spec fn default_ui_dir() -> Seq<char> {
    "crates/aigw-console/ui/apps/aigwc/dist/"@
}

/// The configuration file to read.
pub fn config_path(arg: &Option<String>) -> (r: String)
    ensures
        r@ == (match arg { Some(p) => p@, None => default_config_path() }),
{
    match arg {
        Some(p) => p.clone(),
        None => "conf/aigwc.toml".to_string(),
    }
}

/// The directory of the web pages: the command line's, else the settings', else the default.
pub fn ui_dir(arg: &Option<String>, configured: &Option<String>) -> (r: String)
    ensures
        r@ == (match arg {
            Some(a) => a@,
            None => match configured {
                Some(c) => c@,
                None => default_ui_dir(),
            },
        }),
{
    match arg {
        Some(a) => a.clone(),
        None => match configured {
            Some(c) => c.clone(),
            None => "crates/aigw-console/ui/apps/aigwc/dist/".to_string(),
        },
    }
}

/// A text without its leading and trailing double quotes.
pub open spec fn strip_quotes(s: Seq<char>) -> Seq<char>
    decreases s.len(),
{
    if s.len() > 0 && s[0] == '"' {
        strip_quotes(s.drop_first())
    } else if s.len() > 0 && s.last() == '"' {
        strip_quotes(s.drop_last())
    } else {
        s
    }
}

/// `n` stars.
pub open spec fn stars(n: nat) -> Seq<char>
    decreases n,
{
    if n == 0 { Seq::empty() } else { stars((n - 1) as nat).push('*') }
}

/// The field that replaces a password in the settings shown in the log: the
/// password as as many stars as it has bytes.
pub open spec fn masked_field(value: Seq<char>) -> Seq<char> {
    "\"password\": \""@ + stars(encode_utf8(strip_quotes(value)).len()) + "\""@
}

/// The masked field for a password value, as it stands in the settings' JSON
/// (with its opening quote).
pub fn masked_password_field(value: &str) -> (r: String)
    ensures
        r@ == masked_field(value@),
{
    let cs = chars_of(value);
    let mut lo: usize = 0;
    let mut hi: usize = cs.len();
    assert(cs@.subrange(0, cs@.len() as int) =~= cs@);
    while lo < hi && cs[lo] == '"'
        invariant
            lo <= hi <= cs@.len(),
            hi == cs@.len(),
            strip_quotes(cs@) == strip_quotes(cs@.subrange(lo as int, hi as int)),
        decreases hi - lo,
    {
        assert(cs@.subrange(lo as int, hi as int).drop_first() =~= cs@.subrange(lo + 1, hi as int));
        lo = lo + 1;
    }
    while lo < hi && cs[hi - 1] == '"'
        invariant
            lo <= hi <= cs@.len(),
            lo < hi ==> cs@[lo as int] != '"',
            strip_quotes(cs@) == strip_quotes(cs@.subrange(lo as int, hi as int)),
        decreases hi - lo,
    {
        let ghost t = cs@.subrange(lo as int, hi as int);
        assert(t.drop_last() =~= cs@.subrange(lo as int, hi - 1));
        assert(!(t.len() > 0 && t[0] == '"'));
        hi = hi - 1;
    }
    let ghost t = cs@.subrange(lo as int, hi as int);
    assert(!(t.len() > 0 && t[0] == '"'));
    assert(strip_quotes(t) == t);
    let mut inner: Vec<char> = Vec::new();
    let mut k: usize = lo;
    while k < hi
        invariant
            lo <= k <= hi <= cs@.len(),
            inner@ == cs@.subrange(lo as int, k as int),
        decreases hi - k,
    {
        inner.push(cs[k]);
        assert(cs@.subrange(lo as int, k + 1) =~= cs@.subrange(lo as int, k as int).push(cs@[k as int]));
        k = k + 1;
    }
    let inner_text = string_of(inner.as_slice());
    let n: usize = inner_text.as_str().as_bytes().len();
    let mut r = String::new();
    push_all(&mut r, "\"password\": \"");
    assert(Seq::<char>::empty() + "\"password\": \""@ =~= "\"password\": \""@ + stars(0));
    let mut i: usize = 0;
    while i < n
        invariant
            i <= n,
            r@ == "\"password\": \""@ + stars(i as nat),
        decreases n - i,
    {
        push_all(&mut r, "*");
        proof {
            reveal_strlit("*");
        }
        assert(r@ =~= "\"password\": \""@ + stars((i + 1) as nat));
        i = i + 1;
    }
    push_all(&mut r, "\"");
    assert(inner_text@ == strip_quotes(value@));
    assert(n == encode_utf8(strip_quotes(value@)).len());
    r
}

/// The settings' JSON with each password replaced by stars.
pub uninterp spec fn passwords_masked(json: Seq<char>) -> Seq<char>;

/// Whether `t` occurs in `s`.
pub open spec fn occurs_in(t: Seq<char>, s: Seq<char>) -> bool {
    exists|i: int| 0 <= i && i + t.len() <= s.len() && #[trigger] s.subrange(i, i + t.len()) == t
}

/// A password field as pretty JSON writes it: `"password": "` and the value.
pub open spec fn password_field(value: Seq<char>) -> Seq<char> {
    "\"password\": \""@ + value + "\""@
}

/// What masking gives in the two cases callers rely on: a text that holds
/// no `"password"` is kept as it is; a text with one password field between
/// two such texts keeps them and has the field masked.
pub open spec fn masking_facts(json: Seq<char>, r: Seq<char>) -> bool {
    &&& !occurs_in("\"password\""@, json) ==> r == json
    &&& forall|a: Seq<char>, v: Seq<char>, b: Seq<char>|
        #![trigger a + password_field(v) + b]
        json == a + password_field(v) + b && !occurs_in("\"password\""@, a)
            && !occurs_in("\"password\""@, b) && !v.contains('"')
            ==> r == a + masked_field("\""@ + v) + b
}

/// `regex`'s `replace_all` with the pattern `"password"\s*:\s*("[^"]*)"`:
/// each leftmost match, from left to right without overlap, is replaced by
/// the masked field of its quoted value, and the text between matches is
/// copied. Every match starts with `"password"`, so a text without it has no
/// match; a field `"password": "v"` with no `"password"` before or after it
/// is the only match (no match can start across the text before it, as
/// `"password"` overlaps itself only in its quote, and after that quote come
/// `password`, not a space or colon).
#[verifier::external_body]
pub(crate) fn mask_passwords(json: &str) -> (r: String)
    ensures
        r@ == passwords_masked(json@),
        masking_facts(json@, r@),
{
    let re = regex::Regex::new(r#""password"\s*:\s*("[^"]*)""#).expect("Invalid regex");
    re.replace_all(json, |caps: &regex::Captures| masked_password_field(caps.get(1).map_or("", |m| m.as_str())))
        .to_string()
}

/// The settings as the log shows them, from their JSON.
pub fn settings_for_log(json: &str) -> (r: String)
    ensures
        r@ == passwords_masked(json@),
        masking_facts(json@, r@),
{
    mask_passwords(json)
}

} // verus!
