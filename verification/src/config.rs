//! The application configuration and its layered resolution.
//!
//! A configuration is built from four layers of increasing precedence:
//! built-in defaults, a structured configuration document, command-line
//! overrides, and environment overrides. Each layer overwrites only the
//! fields it explicitly sets, so every field always holds a value.

use vstd::prelude::*;

verus! {

/// Holds the web server config.
#[derive(Debug, Clone)]
pub struct ServerConfig {
    pub address: String,
    pub port: u16,
}

/// Holds the key-value store connection config.
#[derive(Debug, Clone)]
pub struct RedisConfig {
    pub uri: String,
}

/// Holds the directory server connection config.
#[derive(Debug, Clone)]
pub struct LdapConfig {
    pub uri: String,
    pub user: String,
    pub pass: String,
    pub base_dn: String,
    /// Template for the bind DN; the placeholder `%USER%` is replaced
    /// by the username at login time.
    pub user_pattern: String,
}

/// A structure that holds the application config.
#[derive(Debug, Clone)]
pub struct Config {
    pub server: ServerConfig,
    pub redis: RedisConfig,
    pub ldap: LdapConfig,
}

pub fn default_server_address() -> (s: String)
    ensures
        s@ == "localhost"@,
{
    String::from_str("localhost")
}

pub fn default_server_port() -> (p: u16)
    ensures
        p == 8080,
{
    8080
}

pub fn default_redis_uri() -> (s: String)
    ensures
        s@ == "redis://127.0.0.1/"@,
{
    String::from_str("redis://127.0.0.1/")
}

pub fn default_ldap_uri() -> (s: String)
    ensures
        s@ == "ldap://127.0.0.1:389"@,
{
    String::from_str("ldap://127.0.0.1:389")
}

pub fn default_ldap_user() -> (s: String)
    ensures
        s@ == Seq::<char>::empty(),
{
    String::new()
}

pub fn default_ldap_pass() -> (s: String)
    ensures
        s@ == Seq::<char>::empty(),
{
    String::new()
}

pub fn default_ldap_base_dn() -> (s: String)
    ensures
        s@ == Seq::<char>::empty(),
{
    String::new()
}

pub fn default_ldap_user_pattern() -> (s: String)
    ensures
        s@ == "%USER%"@,
{
    String::from_str("%USER%")
}

impl Default for ServerConfig {
    fn default() -> (c: Self)
        ensures
            c.address@ == "localhost"@,
            c.port == 8080,
    {
        ServerConfig { address: default_server_address(), port: default_server_port() }
    }
}

impl Default for RedisConfig {
    fn default() -> (c: Self)
        ensures
            c.uri@ == "redis://127.0.0.1/"@,
    {
        RedisConfig { uri: default_redis_uri() }
    }
}

impl Default for LdapConfig {
    fn default() -> (c: Self)
        ensures
            c.uri@ == "ldap://127.0.0.1:389"@,
            c.user@ == Seq::<char>::empty(),
            c.pass@ == Seq::<char>::empty(),
            c.base_dn@ == Seq::<char>::empty(),
            c.user_pattern@ == "%USER%"@,
    {
        LdapConfig {
            uri: default_ldap_uri(),
            user: default_ldap_user(),
            pass: default_ldap_pass(),
            base_dn: default_ldap_base_dn(),
            user_pattern: default_ldap_user_pattern(),
        }
    }
}

impl Default for Config {
    fn default() -> (c: Self)
        ensures
            c.server.address@ == "localhost"@,
            c.server.port == 8080,
            c.redis.uri@ == "redis://127.0.0.1/"@,
            c.ldap.uri@ == "ldap://127.0.0.1:389"@,
            c.ldap.user@ == Seq::<char>::empty(),
            c.ldap.pass@ == Seq::<char>::empty(),
            c.ldap.base_dn@ == Seq::<char>::empty(),
            c.ldap.user_pattern@ == "%USER%"@,
    {
        Config {
            server: ServerConfig::default(),
            redis: RedisConfig::default(),
            ldap: LdapConfig::default(),
        }
    }
}

/// One optional value per leaf field, as a structured document reader
/// supplies them: text fields as text, the port as a number.
#[derive(Debug, Clone)]
pub struct ConfigPatch {
    pub server_address: Option<String>,
    pub server_port: Option<u16>,
    pub redis_uri: Option<String>,
    pub ldap_uri: Option<String>,
    pub ldap_user: Option<String>,
    pub ldap_pass: Option<String>,
    pub ldap_base_dn: Option<String>,
    pub ldap_user_pattern: Option<String>,
}

/// One optional override per leaf field, as raw text: command-line
/// flags and environment variables supply every field this way, so the
/// port must be parsed and a bad value is a fatal startup error.
#[derive(Debug, Clone)]
pub struct Overrides {
    pub server_address: Option<String>,
    pub server_port: Option<String>,
    pub redis_uri: Option<String>,
    pub ldap_uri: Option<String>,
    pub ldap_user: Option<String>,
    pub ldap_pass: Option<String>,
    pub ldap_base_dn: Option<String>,
    pub ldap_user_pattern: Option<String>,
}

impl Overrides {
    /// An override set that leaves every field alone.
    pub fn none() -> (o: Overrides)
        ensures
            o.server_address is None,
            o.server_port is None,
            o.redis_uri is None,
            o.ldap_uri is None,
            o.ldap_user is None,
            o.ldap_pass is None,
            o.ldap_base_dn is None,
            o.ldap_user_pattern is None,
    {
        Overrides {
            server_address: None,
            server_port: None,
            redis_uri: None,
            ldap_uri: None,
            ldap_user: None,
            ldap_pass: None,
            ldap_base_dn: None,
            ldap_user_pattern: None,
        }
    }
}

/// One environment variable: its name and its value.
#[derive(Debug, Clone)]
pub struct EnvPair {
    pub key: String,
    pub value: String,
}

/// Why a configuration could not be produced.
#[derive(Debug)]
pub enum LoadError {
    /// The configuration document parsed but a field could not be
    /// decoded; holds the reader's message.
    DecodeError(String),
    /// The configuration document could not be parsed; holds the
    /// reader's messages.
    ParserErrors(Vec<String>),
    /// An explicitly supplied override is not a valid value for its
    /// field; holds the offending raw text.
    InvalidOverride(String),
}

/// The joined parse-error report: a heading, then one indented line per
/// reader message.
pub open spec fn parse_errors_text(msgs: Seq<Seq<char>>) -> Seq<char>
    decreases msgs.len(),
{
    if msgs.len() == 0 {
        "Parse Errors:"@
    } else {
        parse_errors_text(msgs.drop_last()) + "\n  "@ + msgs.last()
    }
}

/// The full human-readable message of a load error.
pub open spec fn load_error_text(e: LoadError) -> Seq<char> {
    match e {
        LoadError::DecodeError(m) => "Decode Error: "@ + m@,
        LoadError::ParserErrors(v) => parse_errors_text(v.deep_view()),
        LoadError::InvalidOverride(raw) => "The argument '"@ + raw@ + "' isn't a valid value"@,
    }
}

/// The short description of a load error.
pub open spec fn load_error_summary(e: LoadError) -> Seq<char> {
    match e {
        LoadError::DecodeError(m) => m@,
        LoadError::ParserErrors(v) => if v.deep_view().len() > 0 {
            v.deep_view()[0]
        } else {
            "ParserErrors"@
        },
        LoadError::InvalidOverride(_) => "invalid value"@,
    }
}

impl LoadError {
    /// The full human-readable message of this error.
    pub fn message(&self) -> (m: String)
        ensures
            m@ == load_error_text(*self),
    {
        match self {
            LoadError::DecodeError(s) => String::from_str("Decode Error: ").concat(s.as_str()),
            LoadError::ParserErrors(v) => {
                let mut out = String::from_str("Parse Errors:");
                let mut i: usize = 0;
                proof {
                    assert(v.deep_view().take(0) =~= Seq::<Seq<char>>::empty());
                }
                while i < v.len()
                    invariant
                        i <= v@.len(),
                        v.deep_view().len() == v@.len(),
                        out@ == parse_errors_text(v.deep_view().take(i as int)),
                    decreases v@.len() - i,
                {
                    out.append("\n  ");
                    out.append(v[i].as_str());
                    proof {
                        assert(v.deep_view().take(i + 1).drop_last() =~= v.deep_view().take(
                            i as int,
                        ));
                        assert(v.deep_view().take(i + 1).last() == v@[i as int]@);
                    }
                    i = i + 1;
                }
                proof {
                    assert(v.deep_view().take(v@.len() as int) =~= v.deep_view());
                }
                out
            },
            LoadError::InvalidOverride(raw) => String::from_str("The argument '").concat(
                raw.as_str(),
            ).concat("' isn't a valid value"),
        }
    }

    /// The short description of this error.
    pub fn description(&self) -> (d: String)
        ensures
            d@ == load_error_summary(*self),
    {
        match self {
            LoadError::DecodeError(s) => s.clone(),
            LoadError::ParserErrors(v) => {
                if v.len() > 0 {
                    v[0].clone()
                } else {
                    String::from_str("ParserErrors")
                }
            },
            LoadError::InvalidOverride(_) => String::from_str("invalid value"),
        }
    }
}

pub open spec fn is_dec_digit(c: char) -> bool {
    48 <= c as u32 && c as u32 <= 57
}

/// The number denoted by a string of decimal digits.
pub open spec fn dec_val(s: Seq<char>) -> int
    decreases s.len(),
{
    if s.len() == 0 {
        0
    } else {
        dec_val(s.drop_last()) * 10 + (s.last() as u32 - 48)
    }
}

/// True of the strings this library accepts as a port number.
pub open spec fn valid_port_text(s: Seq<char>) -> bool {
    &&& s.len() >= 1
    &&& (forall|i: int| 0 <= i < s.len() ==> is_dec_digit(#[trigger] s[i]))
    &&& dec_val(s) <= 65535
}

/// Appending decimal digits never shrinks the denoted number.
proof fn lemma_dec_val_grows(s: Seq<char>, i: int, j: int)
    requires
        0 <= i <= j <= s.len(),
        forall|k: int| i <= k < j ==> is_dec_digit(#[trigger] s[k]),
        dec_val(s.take(i)) >= 0,
    ensures
        dec_val(s.take(j)) >= dec_val(s.take(i)),
    decreases j - i,
{
    if i < j {
        lemma_dec_val_grows(s, i, j - 1);
        assert(s.take(j).drop_last() =~= s.take(j - 1));
    }
}

/// The denoted number is never negative when the digits are digits.
proof fn lemma_dec_val_nonneg(s: Seq<char>, i: int)
    requires
        0 <= i <= s.len(),
        forall|k: int| 0 <= k < i ==> is_dec_digit(#[trigger] s[k]),
    ensures
        dec_val(s.take(i)) >= 0,
    decreases i,
{
    if i > 0 {
        lemma_dec_val_nonneg(s, i - 1);
        assert(s.take(i).drop_last() =~= s.take(i - 1));
    }
}

/// Parses a port number: exactly the strings of decimal digits whose
/// value fits are accepted.
pub fn parse_port(s: &str) -> (r: Option<u16>)
    ensures
        r is Some <==> valid_port_text(s@),
        r is Some ==> r->0 == dec_val(s@),
{
    let n = s.unicode_len();
    if n == 0 {
        return None;
    }
    let mut acc: u32 = 0;
    let mut i: usize = 0;
    while i < n
        invariant
            n == s@.len(),
            1 <= n,
            i <= n,
            forall|k: int| 0 <= k < i ==> is_dec_digit(#[trigger] s@[k]),
            acc == dec_val(s@.take(i as int)),
            acc <= 65535,
        decreases n - i,
    {
        let c = s.get_char(i);
        let u = c as u32;
        if !(48 <= u && u <= 57) {
            return None;
        }
        acc = acc * 10 + (u - 48);
        proof {
            assert(s@.take(i as int + 1).drop_last() =~= s@.take(i as int));
            assert(s@.take(i as int + 1).last() == s@[i as int]);
        }
        if acc > 65535 {
            proof {
                if forall|k: int| 0 <= k < n ==> is_dec_digit(#[trigger] s@[k]) {
                    lemma_dec_val_nonneg(s@, i as int + 1);
                    lemma_dec_val_grows(s@, i as int + 1, n as int);
                    assert(s@.take(n as int) =~= s@);
                }
            }
            return None;
        }
        i = i + 1;
    }
    proof {
        assert(s@.take(n as int) =~= s@);
    }
    Some(acc as u16)
}

/// The text of an optional override, or the base value where none is
/// given.
pub open spec fn text_or(base: Seq<char>, over: Option<String>) -> Seq<char> {
    match over {
        Some(s) => s@,
        None => base,
    }
}

/// Clones an optional override over a base value.
fn pick_text(base: String, over: &Option<String>) -> (r: String)
    ensures
        r@ == text_or(base@, *over),
{
    match over {
        Some(s) => s.clone(),
        None => base,
    }
}

impl Config {
    /// Loads a config from a structured document: every field the
    /// document sets is taken from it, every other field keeps its
    /// default.
    pub fn load(doc: &ConfigPatch) -> (c: Config)
        ensures
            c.server.address@ == text_or("localhost"@, doc.server_address),
            c.server.port == (match doc.server_port {
                Some(p) => p,
                None => 8080u16,
            }),
            c.redis.uri@ == text_or("redis://127.0.0.1/"@, doc.redis_uri),
            c.ldap.uri@ == text_or("ldap://127.0.0.1:389"@, doc.ldap_uri),
            c.ldap.user@ == text_or(Seq::<char>::empty(), doc.ldap_user),
            c.ldap.pass@ == text_or(Seq::<char>::empty(), doc.ldap_pass),
            c.ldap.base_dn@ == text_or(Seq::<char>::empty(), doc.ldap_base_dn),
            c.ldap.user_pattern@ == text_or("%USER%"@, doc.ldap_user_pattern),
    {
        let base = Config::default();
        Config {
            server: ServerConfig {
                address: pick_text(base.server.address, &doc.server_address),
                port: match doc.server_port {
                    Some(p) => p,
                    None => base.server.port,
                },
            },
            redis: RedisConfig { uri: pick_text(base.redis.uri, &doc.redis_uri) },
            ldap: LdapConfig {
                uri: pick_text(base.ldap.uri, &doc.ldap_uri),
                user: pick_text(base.ldap.user, &doc.ldap_user),
                pass: pick_text(base.ldap.pass, &doc.ldap_pass),
                base_dn: pick_text(base.ldap.base_dn, &doc.ldap_base_dn),
                user_pattern: pick_text(base.ldap.user_pattern, &doc.ldap_user_pattern),
            },
        }
    }

    /// Merges one layer of raw-text overrides over this config. A port
    /// override that is not a valid port number is a fatal error,
    /// reported with the offending raw text.
    pub fn merge_with_args(self, args: &Overrides) -> (r: Result<Config, LoadError>)
        ensures
            r is Ok <==> (match args.server_port {
                Some(t) => valid_port_text(t@),
                None => true,
            }),
            r matches Ok(c) ==> {
                &&& c.server.address@ == text_or(self.server.address@, args.server_address)
                &&& c.server.port == (match args.server_port {
                    Some(t) => dec_val(t@) as u16,
                    None => self.server.port,
                })
                &&& c.redis.uri@ == text_or(self.redis.uri@, args.redis_uri)
                &&& c.ldap.uri@ == text_or(self.ldap.uri@, args.ldap_uri)
                &&& c.ldap.user@ == text_or(self.ldap.user@, args.ldap_user)
                &&& c.ldap.pass@ == text_or(self.ldap.pass@, args.ldap_pass)
                &&& c.ldap.base_dn@ == text_or(self.ldap.base_dn@, args.ldap_base_dn)
                &&& c.ldap.user_pattern@ == text_or(self.ldap.user_pattern@, args.ldap_user_pattern)
            },
            r matches Err(e) ==> (e matches LoadError::InvalidOverride(raw)
                && args.server_port matches Some(t) && raw@ == t@),
    {
        let port: u16 = match &args.server_port {
            Some(t) => match parse_port(t.as_str()) {
                Some(p) => p,
                None => {
                    return Err(LoadError::InvalidOverride(t.clone()));
                },
            },
            None => self.server.port,
        };
        Ok(Config {
            server: ServerConfig {
                address: pick_text(self.server.address, &args.server_address),
                port,
            },
            redis: RedisConfig { uri: pick_text(self.redis.uri, &args.redis_uri) },
            ldap: LdapConfig {
                uri: pick_text(self.ldap.uri, &args.ldap_uri),
                user: pick_text(self.ldap.user, &args.ldap_user),
                pass: pick_text(self.ldap.pass, &args.ldap_pass),
                base_dn: pick_text(self.ldap.base_dn, &args.ldap_base_dn),
                user_pattern: pick_text(self.ldap.user_pattern, &args.ldap_user_pattern),
            },
        })
    }
}

/// A character folded to lowercase, as a code point; only ASCII letters
/// fold.
pub open spec fn folded_char(c: char) -> int {
    if 65 <= c as u32 && c as u32 <= 90 {
        c as u32 + 32
    } else {
        c as u32 as int
    }
}

/// True of two strings that are equal up to ASCII case.
pub open spec fn key_matches(a: Seq<char>, b: Seq<char>) -> bool {
    a.len() == b.len() && forall|i: int| 0 <= i < a.len() ==> folded_char(#[trigger] a[i]) == folded_char(b[i])
}

/// The value of the first environment variable whose name matches,
/// up to ASCII case.
pub open spec fn env_lookup_spec(pairs: Seq<EnvPair>, name: Seq<char>) -> Option<Seq<char>>
    decreases pairs.len(),
{
    if pairs.len() == 0 {
        None
    } else if key_matches(pairs[0].key@, name) {
        Some(pairs[0].value@)
    } else {
        env_lookup_spec(pairs.drop_first(), name)
    }
}

/// Whether two strings are equal up to ASCII case.
fn eq_ignore_case(a: &str, b: &str) -> (r: bool)
    ensures
        r == key_matches(a@, b@),
{
    let na = a.unicode_len();
    let nb = b.unicode_len();
    if na != nb {
        return false;
    }
    let mut i: usize = 0;
    while i < na
        invariant
            na == a@.len(),
            nb == b@.len(),
            na == nb,
            i <= na,
            forall|k: int| 0 <= k < i ==> folded_char(#[trigger] a@[k]) == folded_char(b@[k]),
        decreases na - i,
    {
        let ca = a.get_char(i) as u32;
        let cb = b.get_char(i) as u32;
        let fa = if 65 <= ca && ca <= 90 { ca + 32 } else { ca };
        let fb = if 65 <= cb && cb <= 90 { cb + 32 } else { cb };
        if fa != fb {
            return false;
        }
        i = i + 1;
    }
    true
}

/// The value of the first environment variable whose name matches, up
/// to ASCII case.
fn env_lookup(pairs: &Vec<EnvPair>, name: &str) -> (r: Option<String>)
    ensures
        r.deep_view() == env_lookup_spec(pairs@, name@),
{
    let mut i: usize = 0;
    proof {
        assert(pairs@.skip(0) =~= pairs@);
    }
    while i < pairs.len()
        invariant
            i <= pairs@.len(),
            env_lookup_spec(pairs@, name@) == env_lookup_spec(pairs@.skip(i as int), name@),
        decreases pairs@.len() - i,
    {
        if eq_ignore_case(pairs[i].key.as_str(), name) {
            proof {
                assert(pairs@.skip(i as int)[0] == pairs@[i as int]);
            }
            return Some(pairs[i].value.clone());
        }
        proof {
            assert(pairs@.skip(i as int)[0] == pairs@[i as int]);
            assert(pairs@.skip(i as int).drop_first() =~= pairs@.skip(i as int + 1));
        }
        i = i + 1;
    }
    proof {
        assert(pairs@.skip(i as int).len() == 0);
    }
    None
}

/// The override set that a list of environment variables denotes: one
/// prefixed name per leaf field, matched up to ASCII case.
pub fn overrides_from_env(pairs: &Vec<EnvPair>) -> (o: Overrides)
    ensures
        o.server_address.deep_view() == env_lookup_spec(pairs@, "AUTH_SERVER_ADDRESS"@),
        o.server_port.deep_view() == env_lookup_spec(pairs@, "AUTH_SERVER_PORT"@),
        o.redis_uri.deep_view() == env_lookup_spec(pairs@, "AUTH_REDIS_URI"@),
        o.ldap_uri.deep_view() == env_lookup_spec(pairs@, "AUTH_LDAP_URI"@),
        o.ldap_user.deep_view() == env_lookup_spec(pairs@, "AUTH_LDAP_USER"@),
        o.ldap_pass.deep_view() == env_lookup_spec(pairs@, "AUTH_LDAP_PASS"@),
        o.ldap_base_dn.deep_view() == env_lookup_spec(pairs@, "AUTH_LDAP_BASE_DN"@),
        o.ldap_user_pattern.deep_view() == env_lookup_spec(pairs@, "AUTH_LDAP_USER_PATTERN"@),
{
    Overrides {
        server_address: env_lookup(pairs, "AUTH_SERVER_ADDRESS"),
        server_port: env_lookup(pairs, "AUTH_SERVER_PORT"),
        redis_uri: env_lookup(pairs, "AUTH_REDIS_URI"),
        ldap_uri: env_lookup(pairs, "AUTH_LDAP_URI"),
        ldap_user: env_lookup(pairs, "AUTH_LDAP_USER"),
        ldap_pass: env_lookup(pairs, "AUTH_LDAP_PASS"),
        ldap_base_dn: env_lookup(pairs, "AUTH_LDAP_BASE_DN"),
        ldap_user_pattern: env_lookup(pairs, "AUTH_LDAP_USER_PATTERN"),
    }
}

/// The text of an optional environment override, or the base value.
pub open spec fn env_text_or(pairs: Seq<EnvPair>, name: Seq<char>, base: Seq<char>) -> Seq<char> {
    match env_lookup_spec(pairs, name) {
        Some(v) => v,
        None => base,
    }
}

impl Config {
    /// Merges the environment layer over this config: each leaf field
    /// may be overridden by a prefixed environment variable, matched up
    /// to ASCII case. A port override that is not a valid port number
    /// is a fatal error, reported with the offending raw text.
    pub fn merge_with_env(self, pairs: &Vec<EnvPair>) -> (r: Result<Config, LoadError>)
        ensures
            r is Ok <==> (match env_lookup_spec(pairs@, "AUTH_SERVER_PORT"@) {
                Some(t) => valid_port_text(t),
                None => true,
            }),
            r matches Ok(c) ==> {
                &&& c.server.address@ == env_text_or(pairs@, "AUTH_SERVER_ADDRESS"@, self.server.address@)
                &&& c.server.port == (match env_lookup_spec(pairs@, "AUTH_SERVER_PORT"@) {
                    Some(t) => dec_val(t) as u16,
                    None => self.server.port,
                })
                &&& c.redis.uri@ == env_text_or(pairs@, "AUTH_REDIS_URI"@, self.redis.uri@)
                &&& c.ldap.uri@ == env_text_or(pairs@, "AUTH_LDAP_URI"@, self.ldap.uri@)
                &&& c.ldap.user@ == env_text_or(pairs@, "AUTH_LDAP_USER"@, self.ldap.user@)
                &&& c.ldap.pass@ == env_text_or(pairs@, "AUTH_LDAP_PASS"@, self.ldap.pass@)
                &&& c.ldap.base_dn@ == env_text_or(pairs@, "AUTH_LDAP_BASE_DN"@, self.ldap.base_dn@)
                &&& c.ldap.user_pattern@ == env_text_or(pairs@, "AUTH_LDAP_USER_PATTERN"@, self.ldap.user_pattern@)
            },
            r matches Err(e) ==> (e matches LoadError::InvalidOverride(raw)
                && env_lookup_spec(pairs@, "AUTH_SERVER_PORT"@) matches Some(t) && raw@ == t),
    {
        let o = overrides_from_env(pairs);
        self.merge_with_args(&o)
    }
}

/// The port that the four layers resolve to, when every supplied
/// override is valid.
pub open spec fn resolved_port_spec(file: Option<ConfigPatch>, args: &Overrides, pairs: Seq<EnvPair>) -> u16 {
    match env_lookup_spec(pairs, "AUTH_SERVER_PORT"@) {
        Some(t) => dec_val(t) as u16,
        None => match args.server_port {
            Some(t) => dec_val(t@) as u16,
            None => match file {
                Some(doc) => match doc.server_port {
                    Some(p) => p,
                    None => 8080u16,
                },
                None => 8080u16,
            },
        },
    }
}

/// The text that the four layers resolve a field to.
pub open spec fn resolved_text_spec(
    dflt: Seq<char>,
    file_text: Option<String>,
    arg_text: Option<String>,
    pairs: Seq<EnvPair>,
    name: Seq<char>,
) -> Seq<char> {
    env_text_or(pairs, name, text_or(text_or(dflt, file_text), arg_text))
}

/// True when every supplied port override parses.
pub open spec fn resolve_ok_spec(args: &Overrides, pairs: Seq<EnvPair>) -> bool {
    &&& (match args.server_port {
        Some(t) => valid_port_text(t@),
        None => true,
    })
    &&& (match env_lookup_spec(pairs, "AUTH_SERVER_PORT"@) {
        Some(t) => valid_port_text(t),
        None => true,
    })
}

/// Resolves the four configuration layers in increasing precedence:
/// built-in defaults, the structured document (absent document means
/// defaults only), command-line overrides, environment overrides.
/// A port override that does not parse is a fatal error.
pub fn resolve(file: Option<&ConfigPatch>, args: &Overrides, pairs: &Vec<EnvPair>) -> (r: Result<
    Config,
    LoadError,
>)
    ensures
        r is Ok <==> resolve_ok_spec(args, pairs@),
        r matches Ok(c) ==> {
            &&& c.server.port == resolved_port_spec(
                match file {
                    Some(doc) => Some(*doc),
                    None => None,
                },
                args,
                pairs@,
            )
            &&& c.server.address@ == resolved_text_spec(
                "localhost"@,
                match file {
                    Some(doc) => doc.server_address,
                    None => None,
                },
                args.server_address,
                pairs@,
                "AUTH_SERVER_ADDRESS"@,
            )
            &&& c.redis.uri@ == resolved_text_spec(
                "redis://127.0.0.1/"@,
                match file {
                    Some(doc) => doc.redis_uri,
                    None => None,
                },
                args.redis_uri,
                pairs@,
                "AUTH_REDIS_URI"@,
            )
            &&& c.ldap.uri@ == resolved_text_spec(
                "ldap://127.0.0.1:389"@,
                match file {
                    Some(doc) => doc.ldap_uri,
                    None => None,
                },
                args.ldap_uri,
                pairs@,
                "AUTH_LDAP_URI"@,
            )
            &&& c.ldap.user@ == resolved_text_spec(
                Seq::<char>::empty(),
                match file {
                    Some(doc) => doc.ldap_user,
                    None => None,
                },
                args.ldap_user,
                pairs@,
                "AUTH_LDAP_USER"@,
            )
            &&& c.ldap.pass@ == resolved_text_spec(
                Seq::<char>::empty(),
                match file {
                    Some(doc) => doc.ldap_pass,
                    None => None,
                },
                args.ldap_pass,
                pairs@,
                "AUTH_LDAP_PASS"@,
            )
            &&& c.ldap.base_dn@ == resolved_text_spec(
                Seq::<char>::empty(),
                match file {
                    Some(doc) => doc.ldap_base_dn,
                    None => None,
                },
                args.ldap_base_dn,
                pairs@,
                "AUTH_LDAP_BASE_DN"@,
            )
            &&& c.ldap.user_pattern@ == resolved_text_spec(
                "%USER%"@,
                match file {
                    Some(doc) => doc.ldap_user_pattern,
                    None => None,
                },
                args.ldap_user_pattern,
                pairs@,
                "AUTH_LDAP_USER_PATTERN"@,
            )
        },
        r matches Err(e) ==> e matches LoadError::InvalidOverride(_),
{
    let base = match file {
        Some(doc) => Config::load(doc),
        None => Config::default(),
    };
    let with_args = match base.merge_with_args(args) {
        Ok(c) => c,
        Err(e) => {
            return Err(e);
        },
    };
    with_args.merge_with_env(pairs)
}

} // verus!
