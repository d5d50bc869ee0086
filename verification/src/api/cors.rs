use vstd::prelude::*;
use vstd::string::StringExecFns;

use crate::api::upload::{trim, trimmed};
use crate::decimal::{parse_u64, parse_u64_text};
use crate::text::{str_chars, string_from_chars};
use vstd::utf8::encode_utf8;

verus! {

/// The value of an environment variable as the service reads it: trimmed, and absent when
/// blank.
pub open spec fn env_text(raw: Option<Seq<char>>) -> Option<Seq<char>> {
    match raw {
        Some(v) => if trimmed(v).len() > 0 {
            Some(trimmed(v))
        } else {
            None
        },
        None => None,
    }
}

/// Normalises an environment variable's value (see `env_text`).
pub fn env_value(raw: Option<String>) -> (r: Option<String>)
    ensures
        match env_text(
            match raw {
                Some(s) => Some(s@),
                None => None,
            },
        ) {
            Some(t) => r matches Some(s) && s@ == t,
            None => r is None,
        },
{
    match raw {
        Some(v) => {
            let t = trim(v.as_str());
            if t.as_str().is_empty() {
                None
            } else {
                Some(t)
            }
        },
        None => None,
    }
}

/// The pieces of `s` between commas, after the unfinished piece `cur` (std's `str::split`
/// on a character: there is always a last piece, maybe empty).
pub open spec fn comma_pieces(s: Seq<char>, cur: Seq<char>) -> Seq<Seq<char>>
    decreases s.len(),
{
    if s.len() == 0 {
        seq![cur]
    } else if s[0] == ',' {
        seq![cur] + comma_pieces(s.drop_first(), Seq::empty())
    } else {
        comma_pieces(s.drop_first(), cur.push(s[0]))
    }
}

/// The trimmed, non-blank pieces, in order.
pub open spec fn nonblank_trimmed(pieces: Seq<Seq<char>>) -> Seq<Seq<char>>
    decreases pieces.len(),
{
    if pieces.len() == 0 {
        Seq::empty()
    } else {
        let rest = nonblank_trimmed(pieces.drop_last());
        if trimmed(pieces.last()).len() > 0 {
            rest.push(trimmed(pieces.last()))
        } else {
            rest
        }
    }
}

/// The items of a comma-separated list: split at commas, trimmed, blanks dropped.
pub open spec fn csv_items(s: Seq<char>) -> Seq<Seq<char>> {
    nonblank_trimmed(comma_pieces(s, Seq::empty()))
}

/// The texts held by a vector of strings.
pub open spec fn string_texts(v: Seq<String>) -> Seq<Seq<char>> {
    v.map_values(|s: String| s@)
}

fn push_trimmed(items: &mut Vec<String>, piece: &Vec<char>)
    ensures
        string_texts(final(items)@) == if trimmed(piece@).len() > 0 {
            string_texts(old(items)@).push(trimmed(piece@))
        } else {
            string_texts(old(items)@)
        },
{
    let s = string_from_chars(piece);
    let t = trim(s.as_str());
    if !t.as_str().is_empty() {
        let ghost before = items@;
        items.push(t);
        assert(string_texts(items@) =~= string_texts(before).push(trimmed(piece@)));
    }
}

/// Splits a comma-separated list into its trimmed, non-blank items.
pub fn parse_csv(raw: &str) -> (items: Vec<String>)
    ensures
        string_texts(items@) == csv_items(raw@),
{
    let chars = str_chars(raw);
    let mut items: Vec<String> = Vec::new();
    let mut cur: Vec<char> = Vec::new();
    let ghost mut done: Seq<Seq<char>> = Seq::empty();
    let mut i: usize = 0;
    assert(chars@.subrange(0, chars@.len() as int) =~= chars@);
    assert(string_texts(items@) =~= Seq::<Seq<char>>::empty());
    while i < chars.len()
        invariant
            i <= chars@.len(),
            chars@ == raw@,
            comma_pieces(raw@, Seq::empty()) == done + comma_pieces(
                chars@.subrange(i as int, chars@.len() as int),
                cur@,
            ),
            string_texts(items@) == nonblank_trimmed(done),
        decreases chars@.len() - i,
    {
        let c = chars[i];
        let ghost rest = chars@.subrange(i as int, chars@.len() as int);
        assert(rest[0] == c);
        assert(rest.drop_first() =~= chars@.subrange(i + 1, chars@.len() as int));
        if c == ',' {
            push_trimmed(&mut items, &cur);
            proof {
                let old_done = done;
                done = done.push(cur@);
                assert(done.drop_last() =~= old_done);
                assert(old_done + comma_pieces(rest, cur@) =~= done + comma_pieces(
                    chars@.subrange(i + 1, chars@.len() as int),
                    Seq::empty(),
                ));
            }
            cur = Vec::new();
            assert(cur@ =~= Seq::<char>::empty());
        } else {
            cur.push(c);
        }
        i = i + 1;
    }
    assert(chars@.subrange(i as int, chars@.len() as int) =~= Seq::<char>::empty());
    push_trimmed(&mut items, &cur);
    proof {
        let old_done = done;
        done = done.push(cur@);
        assert(done.drop_last() =~= old_done);
        assert(old_done + seq![cur@] =~= done);
    }
    items
}

/// A character lowered if it is an ASCII capital letter (`char::to_ascii_lowercase`).
pub open spec fn ascii_lower(c: char) -> char {
    if 'A' <= c && c <= 'Z' {
        ((c as u8) + 32) as char
    } else {
        c
    }
}

/// `s` equals the lower-case word `word` up to ASCII case.
pub open spec fn eq_ascii_lower(s: Seq<char>, word: Seq<char>) -> bool {
    s.len() == word.len() && forall|i: int| 0 <= i < s.len() ==> ascii_lower(#[trigger] s[i]) == word[i]
}

fn lower_char(c: char) -> (r: char)
    ensures
        r == ascii_lower(c),
{
    if 'A' <= c && c <= 'Z' {
        ((c as u8) + 32) as char
    } else {
        c
    }
}

fn eq_lower_word(s: &Vec<char>, word: &str) -> (b: bool)
    ensures
        b == eq_ascii_lower(s@, word@),
{
    let w = str_chars(word);
    if s.len() != w.len() {
        return false;
    }
    let mut i: usize = 0;
    while i < s.len()
        invariant
            s@.len() == w@.len(),
            w@ == word@,
            i <= s@.len(),
            forall|j: int| 0 <= j < i ==> ascii_lower(#[trigger] s@[j]) == w@[j],
        decreases s@.len() - i,
    {
        if lower_char(s[i]) != w[i] {
            return false;
        }
        i = i + 1;
    }
    true
}

/// A flag is on when it reads `1`, `true`, `yes` or `on`, in any ASCII case.
pub open spec fn flag_on(raw: Seq<char>) -> bool {
    eq_ascii_lower(raw, "1"@) || eq_ascii_lower(raw, "true"@) || eq_ascii_lower(raw, "yes"@)
        || eq_ascii_lower(raw, "on"@)
}

/// Reads a boolean flag (see `flag_on`).
pub fn parse_bool(raw: &str) -> (b: bool)
    ensures
        b == flag_on(raw@),
{
    let chars = str_chars(raw);
    eq_lower_word(&chars, "1") || eq_lower_word(&chars, "true") || eq_lower_word(&chars, "yes")
        || eq_lower_word(&chars, "on")
}

/// What a CORS list variable allows.
#[derive(Debug)]
pub enum CorsList {
    /// `*`: anything.
    Any,
    /// The listed items.
    Items(Vec<String>),
}

/// The kinds of items a CORS list names.
#[derive(Clone, Copy, Debug, PartialEq, Eq, Structural)]
pub enum CorsItem {
    /// An allowed origin: an HTTP header value.
    Origin,
    /// An allowed method: an HTTP method.
    Method,
    /// An allowed or exposed header: an HTTP header name.
    Header,
}

/// Bytes that `http`'s `HeaderValue::from_str` accepts: each is a tab, or at least a space
/// and not DEL.
pub open spec fn header_value_bytes_ok(bytes: Seq<u8>) -> bool {
    forall|i: int| 0 <= i < bytes.len() ==> ((#[trigger] bytes[i] >= 32 && bytes[i] != 127) || bytes[i] == 9)
}

/// A token byte of HTTP (RFC 9110 `tchar`): a digit, a letter, or one of ``!#$%&'*+-.^_`|~``.
pub open spec fn token_byte(b: u8) -> bool {
    (48 <= b <= 57) || (65 <= b <= 90) || (97 <= b <= 122) || b == 33 || b == 35 || b == 36 || b
        == 37 || b == 38 || b == 39 || b == 42 || b == 43 || b == 45 || b == 46 || b == 94 || b
        == 95 || b == 96 || b == 124 || b == 126
}

/// Bytes that `http`'s `Method::from_str` accepts: at least one, each a token byte.
pub open spec fn method_bytes_ok(bytes: Seq<u8>) -> bool {
    bytes.len() > 0 && forall|i: int| 0 <= i < bytes.len() ==> token_byte(#[trigger] bytes[i])
}

/// Bytes that `http`'s `HeaderName::from_str` accepts: 1 to 65535 of them, each a token byte
/// (letters of either case; the name is stored in lower case).
pub open spec fn header_name_bytes_ok(bytes: Seq<u8>) -> bool {
    1 <= bytes.len() <= 65535 && forall|i: int| 0 <= i < bytes.len() ==> token_byte(#[trigger] bytes[i])
}

/// Runs `http`'s `HeaderValue::from_str`, which (per its source) refuses a text exactly when
/// one of its bytes is a control byte other than a tab, or DEL.
#[verifier::external_body]
fn header_value_accepts(s: &str) -> (b: bool)
    ensures
        b == header_value_bytes_ok(encode_utf8(s@)),
{
    axum::http::HeaderValue::from_str(s).is_ok()
}

/// Runs `http`'s `Method::from_str`, which (per its source: the standard methods, or an
/// extension checked against its `METHOD_CHARS` table) accepts exactly the non-empty texts of
/// token bytes.
#[verifier::external_body]
fn method_accepts(s: &str) -> (b: bool)
    ensures
        b == method_bytes_ok(encode_utf8(s@)),
{
    <axum::http::Method as std::str::FromStr>::from_str(s).is_ok()
}

/// Runs `http`'s `HeaderName::from_str`, which (per its source: `parse_hdr` with the
/// `HEADER_CHARS` table, up to `MAX_HEADER_NAME_LEN`) accepts exactly the texts of 1 to 65535
/// token bytes.
#[verifier::external_body]
fn header_name_accepts(s: &str) -> (b: bool)
    ensures
        b == header_name_bytes_ok(encode_utf8(s@)),
{
    <axum::http::HeaderName as std::str::FromStr>::from_str(s).is_ok()
}

/// Whether an item of the given kind is valid for the CORS layer.
pub open spec fn item_ok(kind: CorsItem, s: Seq<char>) -> bool {
    match kind {
        CorsItem::Origin => header_value_bytes_ok(encode_utf8(s)),
        CorsItem::Method => method_bytes_ok(encode_utf8(s)),
        CorsItem::Header => header_name_bytes_ok(encode_utf8(s)),
    }
}

fn item_accepted(kind: CorsItem, s: &str) -> (b: bool)
    ensures
        b == item_ok(kind, s@),
{
    match kind {
        CorsItem::Origin => header_value_accepts(s),
        CorsItem::Method => method_accepts(s),
        CorsItem::Header => header_name_accepts(s),
    }
}

/// The items of a list that are valid for their kind, in order.
pub open spec fn accepted_items(kind: CorsItem, items: Seq<Seq<char>>) -> Seq<Seq<char>>
    decreases items.len(),
{
    if items.len() == 0 {
        Seq::empty()
    } else {
        let rest = accepted_items(kind, items.drop_last());
        if item_ok(kind, items.last()) {
            rest.push(items.last())
        } else {
            rest
        }
    }
}

/// Keeps the items that are valid for their kind (an invalid origin, method or header name
/// is dropped), in order.
pub fn select_accepted(items: &Vec<String>, kind: CorsItem) -> (r: Vec<String>)
    ensures
        string_texts(r@) == accepted_items(kind, string_texts(items@)),
{
    let mut out: Vec<String> = Vec::new();
    let mut i: usize = 0;
    assert(string_texts(items@).subrange(0, 0) =~= Seq::<Seq<char>>::empty());
    while i < items.len()
        invariant
            i <= items@.len(),
            string_texts(out@) == accepted_items(kind, string_texts(items@).subrange(0, i as int)),
        decreases items@.len() - i,
    {
        let ghost all = string_texts(items@);
        assert(all.subrange(0, i + 1).drop_last() =~= all.subrange(0, i as int));
        assert(all.subrange(0, i + 1).last() == items@[i as int]@);
        if item_accepted(kind, items[i].as_str()) {
            let ghost before = out@;
            out.push(items[i].clone());
            assert(string_texts(out@) =~= string_texts(before).push(items@[i as int]@));
        }
        i = i + 1;
    }
    assert(string_texts(items@).subrange(0, i as int) =~= string_texts(items@));
    out
}

/// Reads a CORS list variable: `*` allows anything, anything else is a comma-separated list
/// of which only the items valid for their kind are kept.
pub fn cors_list(raw: &str, kind: CorsItem) -> (r: CorsList)
    ensures
        raw@ == "*"@ ==> r is Any,
        raw@ != "*"@ ==> (r matches CorsList::Items(v) && string_texts(v@) == accepted_items(
            kind,
            csv_items(raw@),
        )),
{
    let all = String::from_str("*");
    let given = String::from_str(raw);
    if given == all {
        CorsList::Any
    } else {
        CorsList::Items(select_accepted(&parse_csv(raw), kind))
    }
}

/// The text of an optional string.
pub open spec fn opt_text(o: Option<String>) -> Option<Seq<char>> {
    match o {
        Some(s) => Some(s@),
        None => None,
    }
}

/// What a CORS list setting gives, from its (trimmed, non-blank) text: `*` is any; otherwise
/// the valid listed items, and nothing when none is valid.
pub open spec fn list_setting_ok(r: Option<CorsList>, kind: CorsItem, raw: Option<Seq<char>>) -> bool {
    match raw {
        None => r is None,
        Some(t) => if t == "*"@ {
            r matches Some(CorsList::Any)
        } else if accepted_items(kind, csv_items(t)).len() == 0 {
            r is None
        } else {
            r matches Some(CorsList::Items(v)) && string_texts(v@) == accepted_items(
                kind,
                csv_items(t),
            )
        },
    }
}

/// Reads a CORS list setting (see `list_setting_ok`).
pub fn list_setting(raw: Option<String>, kind: CorsItem) -> (r: Option<CorsList>)
    ensures
        list_setting_ok(r, kind, opt_text(raw)),
{
    match raw {
        None => None,
        Some(t) => match cors_list(t.as_str(), kind) {
            CorsList::Any => Some(CorsList::Any),
            CorsList::Items(v) => if v.len() == 0 {
                None
            } else {
                Some(CorsList::Items(v))
            },
        },
    }
}

/// The origins the CORS layer allows, from `CORS_ALLOWED_ORIGINS` (already trimmed, `None`
/// when unset or blank): `*` allows any; otherwise the valid listed origins, and no CORS at
/// all when none is valid.
pub fn allowed_origins(raw: Option<String>) -> (r: Option<CorsList>)
    ensures
        list_setting_ok(r, CorsItem::Origin, opt_text(raw)),
{
    list_setting(raw, CorsItem::Origin)
}

/// The headers exposed to browsers, from `CORS_EXPOSE_HEADERS`: the valid listed header
/// names (no `*` form).
pub fn exposed_headers(raw: &str) -> (r: Vec<String>)
    ensures
        string_texts(r@) == accepted_items(CorsItem::Header, csv_items(raw@)),
{
    select_accepted(&parse_csv(raw), CorsItem::Header)
}

/// Reads the preflight max age in seconds: a `u64`, or nothing when it does not parse.
pub fn cors_max_age(raw: &str) -> (r: Option<u64>)
    ensures
        r == parse_u64_text(raw@),
{
    let chars = str_chars(raw);
    parse_u64(&chars)
}

/// The settings of the CORS layer.
#[derive(Debug)]
pub struct CorsSettings {
    /// The allowed origins (never an empty list).
    pub origins: CorsList,
    /// The allowed methods, when set to something valid.
    pub methods: Option<CorsList>,
    /// The allowed request headers, when set to something valid.
    pub headers: Option<CorsList>,
    /// The response headers exposed to browsers (none when empty).
    pub expose_headers: Vec<String>,
    /// Whether credentials are allowed.
    pub allow_credentials: bool,
    /// The preflight max age in seconds, when set to a number.
    pub max_age: Option<u64>,
}

/// Reads the CORS settings from the raw values of `CORS_ALLOWED_ORIGINS`,
/// `CORS_ALLOWED_METHODS`, `CORS_ALLOWED_HEADERS`, `CORS_EXPOSE_HEADERS`,
/// `CORS_ALLOW_CREDENTIALS` and `CORS_MAX_AGE_SECS` (each trimmed, a blank one counting as
/// unset). There is no CORS layer unless some valid origin (or `*`) is allowed.
pub fn cors_settings(
    origins: Option<String>,
    methods: Option<String>,
    headers: Option<String>,
    expose: Option<String>,
    credentials: Option<String>,
    max_age: Option<String>,
) -> (r: Option<CorsSettings>)
    ensures
        r is None <==> list_setting_ok(None, CorsItem::Origin, env_text(opt_text(origins))),
        r matches Some(c) ==> list_setting_ok(
            Some(c.origins),
            CorsItem::Origin,
            env_text(opt_text(origins)),
        ) && list_setting_ok(c.methods, CorsItem::Method, env_text(opt_text(methods)))
            && list_setting_ok(c.headers, CorsItem::Header, env_text(opt_text(headers)))
            && string_texts(c.expose_headers@) == match env_text(opt_text(expose)) {
            Some(t) => accepted_items(CorsItem::Header, csv_items(t)),
            None => Seq::empty(),
        } && c.allow_credentials == match env_text(opt_text(credentials)) {
            Some(t) => flag_on(t),
            None => false,
        } && c.max_age == match env_text(opt_text(max_age)) {
            Some(t) => parse_u64_text(t),
            None => None,
        },
{
    let origins = match allowed_origins(env_value(origins)) {
        Some(o) => o,
        None => {
            return None;
        },
    };
    let methods = list_setting(env_value(methods), CorsItem::Method);
    let headers = list_setting(env_value(headers), CorsItem::Header);
    let expose_headers = match env_value(expose) {
        Some(t) => exposed_headers(t.as_str()),
        None => Vec::new(),
    };
    let allow_credentials = match env_value(credentials) {
        Some(t) => parse_bool(t.as_str()),
        None => false,
    };
    let max_age = match env_value(max_age) {
        Some(t) => cors_max_age(t.as_str()),
        None => None,
    };
    Some(CorsSettings { origins, methods, headers, expose_headers, allow_credentials, max_age })
}

} // verus!
