//! Connection settings of one source, read from its flat key/value
//! configuration.
//!
//! A source hands over a list of `(key, value)` pairs. Only keys that start
//! with the gateway's prefix are looked at; the rest belong to someone else.

use vstd::prelude::*;

verus! {

/// The port used when the configured one is not a number that fits a port.
pub const DEFAULT_PORT: u16 = 5432;

/// What is needed to build the connection pool of one source.
#[derive(Clone, Debug, PartialEq, Eq)]
pub struct ConnectionCreateOptions {
    /// Host name of the database server.
    pub host: String,
    /// Port of the database server.
    pub port: u16,
    /// User to connect as.
    pub username: String,
    /// Password of that user.
    pub password: String,
    /// Name of the database to connect to.
    pub database: String,
    /// Whether connections must be encrypted.
    pub tls_required: bool,
    /// Upper bound on the number of pooled connections, if one was given.
    pub pool_size: Option<usize>,
}

/// The mathematical content of [`ConnectionCreateOptions`].
pub struct ConnectionSettings {
    pub host: Seq<char>,
    pub port: u16,
    pub username: Seq<char>,
    pub password: Seq<char>,
    pub database: Seq<char>,
    pub tls_required: bool,
    pub pool_size: Option<usize>,
}

impl View for ConnectionCreateOptions {
    type V = ConnectionSettings;

    open spec fn view(&self) -> ConnectionSettings {
        ConnectionSettings {
            host: self.host@,
            port: self.port,
            username: self.username@,
            password: self.password@,
            database: self.database@,
            tls_required: self.tls_required,
            pool_size: self.pool_size,
        }
    }
}

/// The keys a source must name for a pool to be configured, in the order in
/// which they are looked for.
#[derive(Clone, Copy, Debug, PartialEq, Eq, Structural)]
pub enum RequiredKey {
    Host,
    Port,
    Username,
    Password,
    Database,
}

/// Why a configuration yields no connection settings.
#[derive(Clone, Copy, Debug, PartialEq, Eq, Structural)]
pub enum SettingsError {
    /// No key carries the prefix: the source asks for no database at all.
    NoRecognizedKeys,
    /// Keys with the prefix are present, but this required one is not.
    MissingKey(RequiredKey),
}

pub type Entries = Seq<(Seq<char>, Seq<char>)>;

/// The value of the first entry stored under `key`.
pub open spec fn lookup_spec(entries: Entries, key: Seq<char>) -> Option<Seq<char>>
    decreases entries.len(),
{
    if entries.len() == 0 {
        None
    } else if entries[0].0 == key {
        Some(entries[0].1)
    } else {
        lookup_spec(entries.drop_first(), key)
    }
}

/// Some key of `entries` starts with `prefix`.
pub open spec fn has_recognized_key(entries: Entries, prefix: Seq<char>) -> bool {
    exists|i: int| 0 <= i < entries.len() && prefix.is_prefix_of(#[trigger] entries[i].0)
}

pub open spec fn is_digit(c: char) -> bool {
    '0' <= c <= '9'
}

pub open spec fn all_digits(s: Seq<char>) -> bool {
    forall|i: int| 0 <= i < s.len() ==> is_digit(#[trigger] s[i])
}

/// The number that a run of decimal digits denotes.
pub open spec fn digits_value(s: Seq<char>) -> nat
    decreases s.len(),
{
    if s.len() == 0 {
        0
    } else {
        digits_value(s.drop_last()) * 10 + (s.last() as nat - '0' as nat) as nat
    }
}

/// `s` without one leading plus sign.
pub open spec fn unsigned_part(s: Seq<char>) -> Seq<char> {
    if s.len() > 0 && s[0] == '+' {
        s.drop_first()
    } else {
        s
    }
}

/// The number written in `s`, where `s` is an optional plus sign followed by
/// at least one decimal digit and the number is at most `max`.
pub open spec fn decimal_spec(s: Seq<char>, max: nat) -> Option<nat> {
    let body = unsigned_part(s);
    if body.len() > 0 && all_digits(body) && digits_value(body) <= max {
        Some(digits_value(body))
    } else {
        None
    }
}

pub open spec fn ascii_lower(c: char) -> char {
    if 'A' <= c <= 'Z' {
        ((c as u8 + 32) as u8) as char
    } else {
        c
    }
}

pub open spec fn ascii_lowered(s: Seq<char>) -> Seq<char> {
    Seq::new(s.len(), |i: int| ascii_lower(s[i]))
}

/// A flag is set by the words `true` and `yes`, in any mix of upper and lower
/// case, and by nothing else.
pub open spec fn flag_spec(s: Seq<char>) -> bool {
    ascii_lowered(s) == "true"@ || ascii_lowered(s) == "yes"@
}

pub open spec fn port_spec(text: Seq<char>) -> u16 {
    match decimal_spec(text, u16::MAX as nat) {
        Some(n) => n as u16,
        None => DEFAULT_PORT,
    }
}

pub open spec fn pool_size_spec(text: Option<Seq<char>>) -> Option<usize> {
    match text {
        Some(t) => match decimal_spec(t, usize::MAX as nat) {
            Some(n) => Some(n as usize),
            None => None,
        },
        None => None,
    }
}

pub open spec fn key_name(key: RequiredKey) -> Seq<char> {
    match key {
        RequiredKey::Host => "HOST"@,
        RequiredKey::Port => "PORT"@,
        RequiredKey::Username => "USERNAME"@,
        RequiredKey::Password => "PASSWORD"@,
        RequiredKey::Database => "DATABASE"@,
    }
}

pub open spec fn required_value(entries: Entries, prefix: Seq<char>, key: RequiredKey) -> Option<
    Seq<char>,
> {
    lookup_spec(entries, prefix + key_name(key))
}

/// What [`parse_prefixed_config_from_map`] makes of a configuration.
pub open spec fn parse_spec(prefix: Seq<char>, entries: Entries) -> Result<
    ConnectionSettings,
    SettingsError,
> {
    if !has_recognized_key(entries, prefix) {
        Err(SettingsError::NoRecognizedKeys)
    } else if required_value(entries, prefix, RequiredKey::Host) is None {
        Err(SettingsError::MissingKey(RequiredKey::Host))
    } else if required_value(entries, prefix, RequiredKey::Port) is None {
        Err(SettingsError::MissingKey(RequiredKey::Port))
    } else if required_value(entries, prefix, RequiredKey::Username) is None {
        Err(SettingsError::MissingKey(RequiredKey::Username))
    } else if required_value(entries, prefix, RequiredKey::Password) is None {
        Err(SettingsError::MissingKey(RequiredKey::Password))
    } else if required_value(entries, prefix, RequiredKey::Database) is None {
        Err(SettingsError::MissingKey(RequiredKey::Database))
    } else {
        Ok(
            ConnectionSettings {
                host: required_value(entries, prefix, RequiredKey::Host)->0,
                port: port_spec(required_value(entries, prefix, RequiredKey::Port)->0),
                username: required_value(entries, prefix, RequiredKey::Username)->0,
                password: required_value(entries, prefix, RequiredKey::Password)->0,
                database: required_value(entries, prefix, RequiredKey::Database)->0,
                tls_required: match lookup_spec(entries, prefix + "TLS_REQUIRED"@) {
                    Some(t) => flag_spec(t),
                    None => false,
                },
                pool_size: pool_size_spec(lookup_spec(entries, prefix + "POOL_SIZE"@)),
            },
        )
    }
}

/// Whether `text` starts with `prefix`.
pub fn starts_with(text: &str, prefix: &str) -> (r: bool)
    ensures
        r == prefix@.is_prefix_of(text@),
{
    let len = prefix.unicode_len();
    if text.unicode_len() < len {
        return false;
    }
    let mut i: usize = 0;
    while i < len
        invariant
            0 <= i <= len,
            len == prefix@.len(),
            len <= text@.len(),
            forall|j: int| 0 <= j < i ==> text@[j] == prefix@[j],
        decreases len - i,
    {
        if text.get_char(i) != prefix.get_char(i) {
            return false;
        }
        i += 1;
    }
    true
}

proof fn lemma_lookup_skip(entries: Entries, key: Seq<char>, i: int)
    requires
        0 <= i <= entries.len(),
        forall|j: int| 0 <= j < i ==> (#[trigger] entries[j]).0 != key,
    ensures
        lookup_spec(entries, key) == lookup_spec(entries.skip(i), key),
    decreases i,
{
    if i == 0 {
        assert(entries.skip(0) =~= entries);
    } else {
        lemma_lookup_skip(entries, key, i - 1);
        let rest = entries.skip(i - 1);
        assert(rest.drop_first() =~= entries.skip(i));
    }
}

/// The value stored under `key`: that of the first entry with this key.
pub fn lookup<'a>(entries: &'a Vec<(String, String)>, key: &String) -> (r: Option<&'a String>)
    ensures
        match r {
            Some(v) => lookup_spec(entries.deep_view(), key@) == Some(v@),
            None => lookup_spec(entries.deep_view(), key@) is None,
        },
{
    let mut i: usize = 0;
    while i < entries.len()
        invariant
            0 <= i <= entries.len(),
            forall|j: int| 0 <= j < i ==> (#[trigger] entries.deep_view()[j]).0 != key@,
        decreases entries.len() - i,
    {
        if entries[i].0 == *key {
            proof {
                lemma_lookup_skip(entries.deep_view(), key@, i as int);
            }
            return Some(&entries[i].1);
        }
        i += 1;
    }
    proof {
        lemma_lookup_skip(entries.deep_view(), key@, i as int);
    }
    None
}

/// Whether any key of `entries` starts with `prefix`.
pub fn any_recognized_key(entries: &Vec<(String, String)>, prefix: &str) -> (r: bool)
    ensures
        r == has_recognized_key(entries.deep_view(), prefix@),
{
    let mut i: usize = 0;
    while i < entries.len()
        invariant
            0 <= i <= entries.len(),
            forall|j: int|
                0 <= j < i ==> !prefix@.is_prefix_of((#[trigger] entries.deep_view()[j]).0),
        decreases entries.len() - i,
    {
        if starts_with(entries[i].0.as_str(), prefix) {
            assert(prefix@.is_prefix_of(entries.deep_view()[i as int].0));
            return true;
        }
        i += 1;
    }
    false
}

proof fn lemma_digits_value_grows(s: Seq<char>, i: int)
    requires
        0 <= i <= s.len(),
    ensures
        digits_value(s.take(i)) <= digits_value(s),
    decreases s.len() - i,
{
    if i == s.len() {
        assert(s.take(i) =~= s);
    } else {
        lemma_digits_value_grows(s, i + 1);
        assert(s.take(i + 1).drop_last() =~= s.take(i));
    }
}

/// Reads an optional plus sign and decimal digits as a number of at most
/// `max`.
pub fn parse_decimal(text: &str, max: u64) -> (r: Option<u64>)
    ensures
        match r {
            Some(n) => decimal_spec(text@, max as nat) == Some(n as nat),
            None => decimal_spec(text@, max as nat) is None,
        },
{
    let len = text.unicode_len();
    if len == 0 {
        return None;
    }
    let start: usize = if text.get_char(0) == '+' {
        1
    } else {
        0
    };
    let ghost body = unsigned_part(text@);
    if start == len {
        return None;
    }
    let mut acc: u64 = 0;
    let mut i: usize = start;
    while i < len
        invariant
            start <= i <= len,
            len == text@.len(),
            body == unsigned_part(text@),
            body == text@.skip(start as int),
            all_digits(body.take(i - start)),
            acc as nat == digits_value(body.take(i - start)),
            acc <= max,
        decreases len - i,
    {
        let c = text.get_char(i);
        let code: u32 = c as u32;
        if code < 48 || code > 57 {
            assert(!is_digit(body[i - start]));
            return None;
        }
        let d: u64 = (code - 48) as u64;
        proof {
            assert(body.take(i - start + 1).drop_last() =~= body.take(i - start));
            lemma_digits_value_grows(body, i - start + 1);
        }
        if d > max || acc > (max - d) / 10 {
            return None;
        }
        acc = acc * 10 + d;
        i += 1;
    }
    assert(body.take(i - start) =~= body);
    Some(acc)
}

/// Reads a port; anything that is not a number a port can hold gives
/// [`DEFAULT_PORT`].
pub fn parse_port(text: &str) -> (r: u16)
    ensures
        r == port_spec(text@),
{
    match parse_decimal(text, 65535) {
        Some(n) => n as u16,
        None => DEFAULT_PORT,
    }
}

/// Reads a pool size; anything that is not a number gives `None`, which
/// leaves the size to the pool's own default.
pub fn parse_pool_size(text: Option<&String>) -> (r: Option<usize>)
    ensures
        r == pool_size_spec(
            match text {
                Some(t) => Some(t@),
                None => None,
            },
        ),
{
    match text {
        Some(t) => match parse_decimal(t.as_str(), usize::MAX as u64) {
            Some(n) => Some(n as usize),
            None => None,
        },
        None => None,
    }
}

fn lower(c: char) -> (r: char)
    ensures
        r == ascii_lower(c),
{
    let code: u32 = c as u32;
    if 65 <= code && code <= 90 {
        ((code as u8) + 32) as char
    } else {
        c
    }
}

/// Whether `text`, with its ASCII capitals made small, is `word`.
pub fn is_word_ignoring_case(text: &str, word: &str) -> (r: bool)
    ensures
        r == (ascii_lowered(text@) == word@),
{
    let len = text.unicode_len();
    if len != word.unicode_len() {
        return false;
    }
    let mut i: usize = 0;
    while i < len
        invariant
            0 <= i <= len,
            len == text@.len(),
            len == word@.len(),
            forall|j: int| 0 <= j < i ==> ascii_lower(text@[j]) == word@[j],
        decreases len - i,
    {
        if lower(text.get_char(i)) != word.get_char(i) {
            return false;
        }
        i += 1;
    }
    assert(ascii_lowered(text@) =~= word@);
    true
}

/// Reads a flag: `true` and `yes` set it, in any case of letters.
pub fn parse_flag(text: &str) -> (r: bool)
    ensures
        r == flag_spec(text@),
{
    is_word_ignoring_case(text, "true") || is_word_ignoring_case(text, "yes")
}

fn prefixed(prefix: &str, name: &str) -> (r: String)
    ensures
        r@ == prefix@ + name@,
{
    String::from_str(prefix).concat(name)
}

/// Reads the connection settings of a source from its configuration.
///
/// Keys are `prefix` followed by `HOST`, `PORT`, `USERNAME`, `PASSWORD`,
/// `DATABASE`, `TLS_REQUIRED` and `POOL_SIZE`. The first five are required.
/// A configuration without any key that starts with `prefix` is not an
/// error of the source: it simply asks for no database.
pub fn parse_prefixed_config_from_map(prefix: &str, entries: &Vec<(String, String)>) -> (r: Result<
    ConnectionCreateOptions,
    SettingsError,
>)
    ensures
        match r {
            Ok(options) => parse_spec(prefix@, entries.deep_view()) == Ok::<
                ConnectionSettings,
                SettingsError,
            >(options@),
            Err(e) => parse_spec(prefix@, entries.deep_view()) == Err::<
                ConnectionSettings,
                SettingsError,
            >(e),
        },
{
    if !any_recognized_key(entries, prefix) {
        return Err(SettingsError::NoRecognizedKeys);
    }
    let host = match lookup(entries, &prefixed(prefix, "HOST")) {
        Some(v) => v,
        None => { return Err(SettingsError::MissingKey(RequiredKey::Host)); },
    };
    let port = match lookup(entries, &prefixed(prefix, "PORT")) {
        Some(v) => v,
        None => { return Err(SettingsError::MissingKey(RequiredKey::Port)); },
    };
    let username = match lookup(entries, &prefixed(prefix, "USERNAME")) {
        Some(v) => v,
        None => { return Err(SettingsError::MissingKey(RequiredKey::Username)); },
    };
    let password = match lookup(entries, &prefixed(prefix, "PASSWORD")) {
        Some(v) => v,
        None => { return Err(SettingsError::MissingKey(RequiredKey::Password)); },
    };
    let database = match lookup(entries, &prefixed(prefix, "DATABASE")) {
        Some(v) => v,
        None => { return Err(SettingsError::MissingKey(RequiredKey::Database)); },
    };
    let tls_required = match lookup(entries, &prefixed(prefix, "TLS_REQUIRED")) {
        Some(v) => parse_flag(v.as_str()),
        None => false,
    };
    let pool_size = parse_pool_size(lookup(entries, &prefixed(prefix, "POOL_SIZE")));
    Ok(
        ConnectionCreateOptions {
            host: host.clone(),
            port: parse_port(port.as_str()),
            username: username.clone(),
            password: password.clone(),
            database: database.clone(),
            tls_required,
            pool_size,
        },
    )
}

} // verus!
