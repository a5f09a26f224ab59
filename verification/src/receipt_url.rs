use crate::receipt_image_codes::ReceiptImageFailureCodeV1;
use crate::receipt_response::{
    all_visible_ascii, check_ok_status, is_redirect, is_redirect_status, is_visible_ascii,
    single_bounded_header, MAX_RECEIPT_IMAGE_REDIRECTS,
};
use crate::text::{str_equal, string_from_utf8};
use vstd::prelude::*;
use vstd::string::StringSliceAdditionalSpecFns;

verus! {

/// The host of a parsed URL.
#[derive(Clone, Debug, PartialEq, Eq)]
pub enum UrlHost {
    Domain(String),
    Address,
    Absent,
}

/// What the receipt rules read of a parsed URL: its scheme, user name and
/// password, host, explicit port, port or the scheme's default, and its text
/// without a fragment.
#[derive(Clone, Debug, PartialEq, Eq)]
pub struct UrlParts {
    pub scheme: String,
    pub username: String,
    pub password: Option<String>,
    pub host: UrlHost,
    pub port: Option<u16>,
    pub known_port: Option<u16>,
    pub without_fragment: String,
}

pub enum UrlHostView {
    Domain(Seq<char>),
    Address,
    Absent,
}

pub struct UrlPartsView {
    pub scheme: Seq<char>,
    pub username: Seq<char>,
    pub has_password: bool,
    pub host: UrlHostView,
    pub port: Option<u16>,
    pub known_port: Option<u16>,
    pub without_fragment: Seq<char>,
}

pub open spec fn url_parts_view(parts: UrlParts) -> UrlPartsView {
    UrlPartsView {
        scheme: parts.scheme@,
        username: parts.username@,
        has_password: parts.password is Some,
        host: match parts.host {
            UrlHost::Domain(d) => UrlHostView::Domain(d@),
            UrlHost::Address => UrlHostView::Address,
            UrlHost::Absent => UrlHostView::Absent,
        },
        port: parts.port,
        known_port: parts.known_port,
        without_fragment: parts.without_fragment@,
    }
}

/// What `url` parses `text` into, or `None` when it is no URL.
pub uninterp spec fn url_parse(text: Seq<char>) -> Option<UrlPartsView>;

/// The text of the URL that `url` resolves `location` to against `base`.
pub uninterp spec fn url_join(base: Seq<char>, location: Seq<char>) -> Option<Seq<char>>;

/// `url::Url::parse`, then its `scheme`, `username`, `password`, `host`,
/// `port` and `port_or_known_default`, and its text after
/// `set_fragment(None)`.
#[verifier::external_body]
fn parse_url(text: &str) -> (parts: Option<UrlParts>)
    ensures
        match parts {
            Some(p) => url_parse(text@) == Some(url_parts_view(p)),
            None => url_parse(text@) is None,
        },
{
    let mut url = url::Url::parse(text).ok()?;
    let host = match url.host() {
        Some(url::Host::Domain(domain)) => UrlHost::Domain(domain.to_owned()),
        Some(url::Host::Ipv4(_)) => UrlHost::Address,
        Some(url::Host::Ipv6(_)) => UrlHost::Address,
        None => UrlHost::Absent,
    };
    let (scheme, username) = (url.scheme().to_owned(), url.username().to_owned());
    let (password, port, known_port) = (url.password().map(str::to_owned), url.port(), url.port_or_known_default());
    url.set_fragment(None);
    Some(UrlParts { scheme, username, password, host, port, known_port, without_fragment: url.as_str().to_owned() })
}

/// `url::Url::parse` of `base`, then `join` of `location` onto it, then
/// `set_fragment(None)`: the joined URL's text without a fragment.
#[verifier::external_body]
fn join_url(base: &str, location: &str) -> (joined: Option<String>)
    ensures
        match joined {
            Some(j) => url_join(base@, location@) == Some(j@),
            None => url_join(base@, location@) is None,
        },
{
    let mut next = url::Url::parse(base).ok()?.join(location).ok()?;
    next.set_fragment(None);
    Some(next.as_str().to_owned())
}

/// ASCII upper-case letters in lower case; every other character as it is.
pub open spec fn ascii_lower_char(c: char) -> char {
    if 'A' <= c <= 'Z' {
        ((c as u32) + 32) as char
    } else {
        c
    }
}

pub open spec fn ascii_lower_text(s: Seq<char>) -> Seq<char> {
    s.map_values(|c: char| ascii_lower_char(c))
}

/// The text without its trailing dots.
pub open spec fn trim_trailing_dots(s: Seq<char>) -> Seq<char>
    decreases s.len(),
{
    if s.len() > 0 && s.last() == '.' {
        trim_trailing_dots(s.drop_last())
    } else {
        s
    }
}

/// `str::to_ascii_lowercase`: ASCII letters `A` to `Z` become `a` to `z`;
/// every other character stays.
#[verifier::external_body]
fn to_ascii_lowercase(value: &str) -> (lower: String)
    ensures
        lower@ == ascii_lower_text(value@),
{
    value.to_ascii_lowercase()
}

/// `str::trim_end_matches('.')`: the text without its trailing dots.
#[verifier::external_body]
fn trim_end_dots(value: &str) -> (trimmed: &str)
    ensures
        trimmed@ == trim_trailing_dots(value@),
{
    value.trim_end_matches('.')
}

pub open spec fn is_digit_char(c: char) -> bool {
    '0' <= c <= '9'
}

pub open spec fn digits_number(s: Seq<char>) -> int
    decreases s.len(),
{
    if s.len() == 0 {
        0
    } else {
        digits_number(s.drop_last()) * 10 + (s.last() as int - 48)
    }
}

/// A decimal octet as `std` reads one in an IPv4 address: one to three
/// digits, no leading zero, at most 255.
pub open spec fn octet_text(p: Seq<char>) -> bool {
    &&& 1 <= p.len() <= 3
    &&& forall|i: int| 0 <= i < p.len() ==> is_digit_char(#[trigger] p[i])
    &&& (p.len() == 1 || p[0] != '0')
    &&& digits_number(p) <= 255
}

/// Four octets with a dot between each: the text `std` parses as an IPv4
/// address. (A text without a colon is no IPv6 address.)
pub open spec fn ipv4_literal(s: Seq<char>) -> bool {
    exists|a: int, b: int, c: int|
        #![trigger s[a], s[b], s[c]]
        0 < a < b < c < s.len() && s[a] == '.' && s[b] == '.' && s[c] == '.' && octet_text(
            s.subrange(0, a),
        ) && octet_text(s.subrange(a + 1, b)) && octet_text(s.subrange(b + 1, c)) && octet_text(
            s.subrange(c + 1, s.len() as int),
        )
}

/// An approved display host: not empty, at most 253 bytes, ASCII, no IP
/// address, and none of `/`, `@`, `:`.
pub open spec fn host_acceptable(h: Seq<char>) -> bool {
    &&& h.len() > 0
    &&& vstd::utf8::encode_utf8(h).len() <= 253
    &&& forall|i: int| 0 <= i < h.len() ==> (#[trigger] h[i]) as u32 <= 127
    &&& !ipv4_literal(h)
    &&& !h.contains('/')
    &&& !h.contains('@')
    &&& !h.contains(':')
}

proof fn lemma_octet_no_dot(p: Seq<char>)
    requires
        octet_text(p),
    ensures
        !p.contains('.'),
{
    if p.contains('.') {
        let i = choose|i: int| 0 <= i < p.len() && p[i] == '.';
        assert(is_digit_char(p[i]));
    }
}

/// Finds the first `.` at or after `from`.
fn find_dot(s: &Vec<char>, from: usize) -> (found: Option<usize>)
    requires
        from <= s@.len(),
    ensures
        match found {
            Some(i) => from <= i < s@.len() && s@[i as int] == '.' && forall|j: int|
                from <= j < i ==> s@[j] != '.',
            None => forall|j: int| from <= j < s@.len() ==> s@[j] != '.',
        },
{
    let mut i: usize = from;
    while i < s.len()
        invariant
            from <= i <= s@.len(),
            forall|j: int| from <= j < i ==> s@[j] != '.',
        decreases s@.len() - i,
    {
        if s[i] == '.' {
            return Some(i);
        }
        i = i + 1;
    }
    None
}

/// Whether `s[start..end]` is an octet.
fn is_octet(s: &Vec<char>, start: usize, end: usize) -> (octet: bool)
    requires
        start <= end <= s@.len(),
    ensures
        octet == octet_text(s@.subrange(start as int, end as int)),
{
    let ghost p = s@.subrange(start as int, end as int);
    if end - start < 1 || end - start > 3 {
        return false;
    }
    if end - start > 1 && s[start] == '0' {
        return false;
    }
    let mut value: u32 = 0;
    let mut i: usize = start;
    while i < end
        invariant
            start <= i <= end <= s@.len(),
            end - start <= 3,
            p == s@.subrange(start as int, end as int),
            forall|j: int| 0 <= j < i - start ==> is_digit_char(#[trigger] p[j]),
            value as int == digits_number(p.subrange(0, i - start)),
            i - start == 0 ==> value == 0,
            i - start == 1 ==> value <= 9,
            i - start <= 2 ==> value <= 99,
            value <= 999,
        decreases end - i,
    {
        let c = s[i];
        if !('0' <= c && c <= '9') {
            assert(!is_digit_char(p[i - start]));
            return false;
        }
        proof {
            assert(p[i - start] == c);
            assert(p.subrange(0, i + 1 - start).drop_last() =~= p.subrange(0, i - start));
            assert(p.subrange(0, i + 1 - start).last() == c);
        }
        let digit = (c as u32) - 48;
        assert(value * 10 + digit <= 9999) by (nonlinear_arith)
            requires
                value <= 999,
                digit <= 9,
        ;
        let ghost before = value;
        value = value * 10 + digit;
        assert(before == 0 ==> value <= 9) by (nonlinear_arith)
            requires
                value == before * 10 + digit,
                digit <= 9,
        ;
        assert(before <= 9 ==> value <= 99) by (nonlinear_arith)
            requires
                value == before * 10 + digit,
                digit <= 9,
        ;
        assert(before <= 99 ==> value <= 999) by (nonlinear_arith)
            requires
                value == before * 10 + digit,
                digit <= 9,
        ;
        i = i + 1;
    }
    assert(p.subrange(0, end - start) =~= p);
    value <= 255
}

/// Whether a text is one that `std` parses as an IPv4 address.
pub fn is_ipv4_literal(text: &str) -> (ip: bool)
    ensures
        ip == ipv4_literal(text@),
{
    let s = chars_of(text);
    let n = s.len();
    let a = match find_dot(&s, 0) {
        Some(i) => i,
        None => {
            return false;
        },
    };
    let b = match find_dot(&s, a + 1) {
        Some(i) => i,
        None => {
            proof { lemma_not_ipv4_dots(s@, a as int, None, None); }
            return false;
        },
    };
    let c = match find_dot(&s, b + 1) {
        Some(i) => i,
        None => {
            proof { lemma_not_ipv4_dots(s@, a as int, Some(b as int), None); }
            return false;
        },
    };
    let ok = is_octet(&s, 0, a) && is_octet(&s, a + 1, b) && is_octet(&s, b + 1, c) && is_octet(
        &s,
        c + 1,
        s.len(),
    );
    proof {
        if ok {
            assert(s@[a as int] == '.' && s@[b as int] == '.' && s@[c as int] == '.');
        } else {
            lemma_not_ipv4_dots(s@, a as int, Some(b as int), Some(c as int));
        }
    }
    ok
}

/// When the first dots of `s` are at `a`, then `b`, then `c` (or there is
/// no second or third), `s` is an IPv4 literal only with its octets between
/// exactly those dots.
proof fn lemma_not_ipv4_dots(s: Seq<char>, a: int, b: Option<int>, c: Option<int>)
    requires
        0 <= a < s.len(),
        s[a] == '.',
        forall|j: int| 0 <= j < a ==> s[j] != '.',
        match b {
            Some(b) => a < b < s.len() && s[b] == '.' && forall|j: int| a < j < b ==> s[j] != '.',
            None => forall|j: int| a < j < s.len() ==> s[j] != '.',
        },
        match (b, c) {
            (Some(b), Some(c)) => b < c < s.len() && s[c] == '.' && forall|j: int| b < j < c ==> s[j] != '.',
            (Some(b), None) => forall|j: int| b < j < s.len() ==> s[j] != '.',
            _ => true,
        },
        match (b, c) {
            (Some(b), Some(c)) => !(octet_text(s.subrange(0, a)) && octet_text(s.subrange(a + 1, b))
                && octet_text(s.subrange(b + 1, c)) && octet_text(s.subrange(c + 1, s.len() as int))),
            _ => true,
        },
    ensures
        !ipv4_literal(s),
{
    if ipv4_literal(s) {
        let (x, y, z) = choose|x: int, y: int, z: int|
            #![trigger s[x], s[y], s[z]]
            0 < x < y < z < s.len() && s[x] == '.' && s[y] == '.' && s[z] == '.' && octet_text(
                s.subrange(0, x),
            ) && octet_text(s.subrange(x + 1, y)) && octet_text(s.subrange(y + 1, z)) && octet_text(
                s.subrange(z + 1, s.len() as int),
            );
        lemma_octet_no_dot(s.subrange(0, x));
        lemma_octet_no_dot(s.subrange(x + 1, y));
        lemma_octet_no_dot(s.subrange(y + 1, z));
        lemma_octet_no_dot(s.subrange(z + 1, s.len() as int));
        if a < x {
            assert(s.subrange(0, x)[a] == '.');
        }
        assert(a == x);
        match b {
            None => {
                assert(s[y] == '.');
            },
            Some(b) => {
                if b < y {
                    assert(s.subrange(x + 1, y)[b - x - 1] == '.');
                }
                if y < b {
                    assert(s[y] == '.');
                }
                assert(b == y);
                match c {
                    None => {
                        assert(s[z] == '.');
                    },
                    Some(c) => {
                        if c < z {
                            assert(s.subrange(y + 1, z)[c - y - 1] == '.');
                        }
                        if z < c {
                            assert(s[z] == '.');
                        }
                        assert(c == z);
                    },
                }
            },
        }
    }
}

/// The characters of a text.
fn chars_of(text: &str) -> (chars: Vec<char>)
    ensures
        chars@ == text@,
{
    let mut out: Vec<char> = Vec::new();
    let n = text.unicode_len();
    let mut i: usize = 0;
    while i < n
        invariant
            n == text@.len(),
            i <= n,
            out@ == text@.subrange(0, i as int),
        decreases n - i,
    {
        out.push(text.get_char(i));
        assert(out@ =~= text@.subrange(0, i + 1));
        i = i + 1;
    }
    assert(out@ =~= text@);
    out
}

/// Whether every character is ASCII and none is `/`, `@` or `:`.
fn plain_ascii(chars: &Vec<char>) -> (plain: bool)
    ensures
        plain == ((forall|i: int| 0 <= i < chars@.len() ==> (#[trigger] chars@[i]) as u32 <= 127)
            && !chars@.contains('/') && !chars@.contains('@') && !chars@.contains(':')),
{
    let mut i: usize = 0;
    while i < chars.len()
        invariant
            i <= chars@.len(),
            forall|j: int| 0 <= j < i ==> (#[trigger] chars@[j]) as u32 <= 127 && chars@[j] != '/'
                && chars@[j] != '@' && chars@[j] != ':',
        decreases chars@.len() - i,
    {
        let c = chars[i];
        if (c as u32) > 127 || c == '/' || c == '@' || c == ':' {
            proof {
                if (c as u32) <= 127 {
                    assert(chars@.contains(c));
                }
            }
            return false;
        }
        i = i + 1;
    }
    true
}

/// The display host as the user approved it, normalized: lower case,
/// without trailing dots, and acceptable.
pub fn normalize_approved_host(value: &str) -> (host: Result<String, ReceiptImageFailureCodeV1>)
    ensures
        match host {
            Ok(h) => h@ == trim_trailing_dots(ascii_lower_text(value@)) && host_acceptable(h@),
            Err(e) => e == ReceiptImageFailureCodeV1::HostMismatch && !host_acceptable(
                trim_trailing_dots(ascii_lower_text(value@)),
            ),
        },
{
    let lower = to_ascii_lowercase(value);
    let trimmed = trim_end_dots(lower.as_str());
    let chars = chars_of(trimmed);
    if chars.len() == 0 || trimmed.as_bytes().len() > 253 || !plain_ascii(&chars) || is_ipv4_literal(trimmed) {
        return Err(ReceiptImageFailureCodeV1::HostMismatch);
    }
    Ok(trimmed.to_owned())
}

/// A network host as the rules read it: lower case, without trailing dots,
/// not empty, at most 253 bytes, ASCII.
pub open spec fn host_text_ok(h: Seq<char>) -> bool {
    &&& h.len() > 0
    &&& vstd::utf8::encode_utf8(h).len() <= 253
    &&& forall|i: int| 0 <= i < h.len() ==> (#[trigger] h[i]) as u32 <= 127
}

fn ascii_only(chars: &Vec<char>) -> (ascii: bool)
    ensures
        ascii == forall|i: int| 0 <= i < chars@.len() ==> (#[trigger] chars@[i]) as u32 <= 127,
{
    let mut i: usize = 0;
    while i < chars.len()
        invariant
            i <= chars@.len(),
            forall|j: int| 0 <= j < i ==> (#[trigger] chars@[j]) as u32 <= 127,
        decreases chars@.len() - i,
    {
        if (chars[i] as u32) > 127 {
            return false;
        }
        i = i + 1;
    }
    true
}

/// What the network host of a parsed URL is, or why there is none.
pub open spec fn spec_network_host(parts: UrlPartsView) -> Result<Seq<char>, ReceiptImageFailureCodeV1> {
    match parts.host {
        UrlHostView::Domain(d) => {
            let h = trim_trailing_dots(ascii_lower_text(d));
            if host_text_ok(h) {
                Ok(h)
            } else {
                Err(ReceiptImageFailureCodeV1::InvalidUrl)
            }
        },
        UrlHostView::Address => Err(ReceiptImageFailureCodeV1::IpLiteralRejected),
        UrlHostView::Absent => Err(ReceiptImageFailureCodeV1::InvalidUrl),
    }
}

/// The host that a URL connects to.
pub fn network_host(parts: &UrlParts) -> (host: Result<String, ReceiptImageFailureCodeV1>)
    ensures
        match (host, spec_network_host(url_parts_view(*parts))) {
            (Ok(h), Ok(s)) => h@ == s,
            (Err(e), Err(f)) => e == f,
            _ => false,
        },
{
    match &parts.host {
        UrlHost::Domain(domain) => {
            let lower = to_ascii_lowercase(domain.as_str());
            let trimmed = trim_end_dots(lower.as_str());
            let chars = chars_of(trimmed);
            if chars.len() == 0 || trimmed.as_bytes().len() > 253 || !ascii_only(&chars) {
                Err(ReceiptImageFailureCodeV1::InvalidUrl)
            } else {
                Ok(trimmed.to_owned())
            }
        },
        UrlHost::Address => Err(ReceiptImageFailureCodeV1::IpLiteralRejected),
        UrlHost::Absent => Err(ReceiptImageFailureCodeV1::InvalidUrl),
    }
}

/// What the network rules make of a URL text: at most 2048 bytes, a URL,
/// `https`, no user information, a domain host, and port 443.
pub open spec fn spec_network_url(value: Seq<char>) -> Result<UrlPartsView, ReceiptImageFailureCodeV1> {
    if vstd::utf8::encode_utf8(value).len() > 2048 {
        Err(ReceiptImageFailureCodeV1::InvalidUrl)
    } else {
        match url_parse(value) {
            None => Err(ReceiptImageFailureCodeV1::InvalidUrl),
            Some(p) => if p.scheme != "https"@ {
                Err(ReceiptImageFailureCodeV1::SchemeRejected)
            } else if p.username.len() != 0 || p.has_password {
                Err(ReceiptImageFailureCodeV1::UserInfoRejected)
            } else {
                match p.host {
                    UrlHostView::Domain(_) => if (p.port matches Some(port) && port != 443)
                        || p.known_port != Some(443u16) {
                        Err(ReceiptImageFailureCodeV1::PortRejected)
                    } else {
                        Ok(p)
                    },
                    UrlHostView::Address => Err(ReceiptImageFailureCodeV1::IpLiteralRejected),
                    UrlHostView::Absent => Err(ReceiptImageFailureCodeV1::InvalidUrl),
                }
            },
        }
    }
}

/// Checks a URL against the network rules; its text without the fragment
/// is what is fetched.
pub fn validate_network_url(value: &str) -> (url: Result<UrlParts, ReceiptImageFailureCodeV1>)
    ensures
        match (url, spec_network_url(value@)) {
            (Ok(p), Ok(q)) => url_parts_view(p) == q,
            (Err(e), Err(f)) => e == f,
            _ => false,
        },
{
    if value.as_bytes().len() > 2048 {
        return Err(ReceiptImageFailureCodeV1::InvalidUrl);
    }
    let parts = match parse_url(value) {
        Some(p) => p,
        None => {
            return Err(ReceiptImageFailureCodeV1::InvalidUrl);
        },
    };
    if !str_equal(parts.scheme.as_str(), "https") {
        return Err(ReceiptImageFailureCodeV1::SchemeRejected);
    }
    if parts.username.as_str().unicode_len() != 0 || parts.password.is_some() {
        return Err(ReceiptImageFailureCodeV1::UserInfoRejected);
    }
    match &parts.host {
        UrlHost::Domain(_) => {},
        UrlHost::Address => {
            return Err(ReceiptImageFailureCodeV1::IpLiteralRejected);
        },
        UrlHost::Absent => {
            return Err(ReceiptImageFailureCodeV1::InvalidUrl);
        },
    }
    let wrong_port = match parts.port {
        Some(port) => port != 443,
        None => false,
    };
    if wrong_port || parts.known_port != Some(443u16) {
        return Err(ReceiptImageFailureCodeV1::PortRejected);
    }
    Ok(parts)
}

/// Where a download starts: the approved host normalized, the URL checked
/// against the network rules, and its host equal to the approved one.
pub open spec fn spec_download_start(url: Seq<char>, approved_display_host: Seq<char>) -> Result<
    (UrlPartsView, Seq<char>),
    ReceiptImageFailureCodeV1,
> {
    let approved = trim_trailing_dots(ascii_lower_text(approved_display_host));
    if !host_acceptable(approved) {
        Err(ReceiptImageFailureCodeV1::HostMismatch)
    } else {
        match spec_network_url(url) {
            Err(e) => Err(e),
            Ok(p) => match spec_network_host(p) {
                Err(e) => Err(e),
                Ok(h) => if h == approved {
                    Ok((p, approved))
                } else {
                    Err(ReceiptImageFailureCodeV1::HostMismatch)
                },
            },
        }
    }
}

/// The first URL of a download and the approved host it must keep to.
pub fn download_start(normalized_url: &str, approved_display_host: &str) -> (start: Result<
    (UrlParts, String),
    ReceiptImageFailureCodeV1,
>)
    ensures
        match (start, spec_download_start(normalized_url@, approved_display_host@)) {
            (Ok((p, h)), Ok((q, g))) => url_parts_view(p) == q && h@ == g,
            (Err(e), Err(f)) => e == f,
            _ => false,
        },
{
    let approved = normalize_approved_host(approved_display_host)?;
    let current = validate_network_url(normalized_url)?;
    let host = network_host(&current)?;
    if !str_equal(host.as_str(), approved.as_str()) {
        return Err(ReceiptImageFailureCodeV1::HostMismatch);
    }
    Ok((current, approved))
}

/// The URL that a redirect from `current` to `location` leads to: the
/// joined URL, checked against the network rules, on the approved host.
pub open spec fn spec_redirect_target(current: Seq<char>, location: Seq<char>, approved_host: Seq<char>) -> Result<
    UrlPartsView,
    ReceiptImageFailureCodeV1,
> {
    match url_join(current, location) {
        None => Err(ReceiptImageFailureCodeV1::RedirectLocationRejected),
        Some(joined) => match spec_network_url(joined) {
            Err(e) => Err(e),
            Ok(p) => match spec_network_host(p) {
                Err(e) => Err(e),
                Ok(h) => if h == approved_host {
                    Ok(p)
                } else {
                    Err(ReceiptImageFailureCodeV1::RedirectCrossHost)
                },
            },
        },
    }
}

/// A header value of visible ASCII bytes read as text.
pub open spec fn ascii_text(bytes: Seq<u8>) -> Seq<char> {
    bytes.map_values(|b: u8| b as char)
}

/// What a redirect response after `redirect_count` earlier ones leads to,
/// given the values of its `Location` header: past the redirect limit,
/// `RedirectLimit`; a header that is not one bounded value, `HeaderLimit`;
/// none, `RedirectLocationRejected`; else the redirect target.
pub open spec fn spec_follow_redirect(
    redirect_count: int,
    current: Seq<char>,
    locations: Seq<Seq<u8>>,
    approved_host: Seq<char>,
) -> Result<UrlPartsView, ReceiptImageFailureCodeV1> {
    if redirect_count >= MAX_RECEIPT_IMAGE_REDIRECTS {
        Err(ReceiptImageFailureCodeV1::RedirectLimit)
    } else if locations.len() == 0 {
        Err(ReceiptImageFailureCodeV1::RedirectLocationRejected)
    } else if locations.len() > 1 || locations[0].len() > 2048 || !all_visible_ascii(locations[0]) {
        Err(ReceiptImageFailureCodeV1::HeaderLimit)
    } else {
        spec_redirect_target(current, ascii_text(locations[0]), approved_host)
    }
}

proof fn lemma_ascii_bytes_text(bytes: Seq<u8>)
    requires
        all_visible_ascii(bytes),
    ensures
        vstd::utf8::valid_utf8(bytes),
        vstd::utf8::decode_utf8(bytes) == ascii_text(bytes),
{
    assert forall|i: int| 0 <= i < bytes.len() implies vstd::utf8::is_leading_byte_width_1(
        #[trigger] bytes[i],
    ) by {
        assert(is_visible_ascii(bytes[i]));
    }
    assert(bytes.subrange(0, 0) =~= Seq::<u8>::empty());
    vstd::utf8::partial_valid_utf8_extend_ascii_block(bytes, 0, bytes.len() as int);
    assert(bytes.subrange(0, bytes.len() as int) =~= bytes);
    let chars = ascii_text(bytes);
    assert forall|i: int| 0 <= i < chars.len() implies (#[trigger] chars[i]) as u32 <= 127 by {
        assert(is_visible_ascii(bytes[i]));
    }
    vstd::utf8::is_ascii_chars_encode_utf8(chars);
    assert(vstd::utf8::encode_utf8(chars) =~= bytes);
    vstd::utf8::encode_utf8_decode_utf8(chars);
}

/// Follows one redirect from `current`, whose `Location` values are
/// `locations`, after `redirect_count` earlier redirects.
pub fn follow_redirect(
    redirect_count: usize,
    current: &UrlParts,
    locations: &[Vec<u8>],
    approved_host: &str,
) -> (next: Result<UrlParts, ReceiptImageFailureCodeV1>)
    ensures
        match (next, spec_follow_redirect(redirect_count as int, current.without_fragment@, locations@.map_values(|v: Vec<u8>| v@), approved_host@)) {
            (Ok(p), Ok(q)) => url_parts_view(p) == q,
            (Err(e), Err(f)) => e == f,
            _ => false,
        },
{
    let ghost values = locations@.map_values(|v: Vec<u8>| v@);
    if redirect_count >= MAX_RECEIPT_IMAGE_REDIRECTS {
        return Err(ReceiptImageFailureCodeV1::RedirectLimit);
    }
    let location = match single_bounded_header(locations, 2048) {
        Ok(Some(v)) => v,
        Ok(None) => {
            return Err(ReceiptImageFailureCodeV1::RedirectLocationRejected);
        },
        Err(e) => {
            return Err(e);
        },
    };
    proof {
        lemma_ascii_bytes_text(location@);
    }
    let text = match string_from_utf8(location.clone()) {
        Some(t) => t,
        None => {
            return Err(ReceiptImageFailureCodeV1::HeaderLimit);
        },
    };
    proof {
        vstd::utf8::encode_utf8_decode_utf8(text@);
        assert(values[0] == location@);
    }
    let joined = match join_url(current.without_fragment.as_str(), text.as_str()) {
        Some(j) => j,
        None => {
            return Err(ReceiptImageFailureCodeV1::RedirectLocationRejected);
        },
    };
    let next = validate_network_url(joined.as_str())?;
    let host = network_host(&next)?;
    if !str_equal(host.as_str(), approved_host) {
        return Err(ReceiptImageFailureCodeV1::RedirectCrossHost);
    }
    Ok(next)
}

/// The host that a hop connects to: the network host of its URL, which
/// must be the approved host, else `RedirectCrossHost`.
pub fn approved_hop_host(current: &UrlParts, approved_host: &str) -> (host: Result<
    String,
    ReceiptImageFailureCodeV1,
>)
    ensures
        match spec_network_host(url_parts_view(*current)) {
            Ok(h) => if h == approved_host@ {
                (host matches Ok(x) && x@ == h)
            } else {
                (host matches Err(e) && e == ReceiptImageFailureCodeV1::RedirectCrossHost)
            },
            Err(f) => (host matches Err(e) && e == f),
        },
{
    let host = network_host(current)?;
    if !str_equal(host.as_str(), approved_host) {
        return Err(ReceiptImageFailureCodeV1::RedirectCrossHost);
    }
    Ok(host)
}

/// Where a hop's response leads.
pub enum HopOutcome {
    /// Another request, to the URL of the redirect.
    Redirect(UrlParts),
    /// The body of this response is the image.
    Deliver,
}

/// Decides what a hop's response leads to: a redirect status follows its
/// `Location` after `redirect_count` earlier redirects, `200` delivers the
/// body, and any other status is refused.
pub fn next_hop(
    redirect_count: usize,
    status: u16,
    current: &UrlParts,
    locations: &[Vec<u8>],
    approved_host: &str,
) -> (outcome: Result<HopOutcome, ReceiptImageFailureCodeV1>)
    ensures
        is_redirect_status(status) ==> match (
            outcome,
            spec_follow_redirect(
                redirect_count as int,
                current.without_fragment@,
                locations@.map_values(|v: Vec<u8>| v@),
                approved_host@,
            ),
        ) {
            (Ok(HopOutcome::Redirect(p)), Ok(q)) => url_parts_view(p) == q,
            (Err(e), Err(f)) => e == f,
            _ => false,
        },
        !is_redirect_status(status) && status == 200 ==> (outcome matches Ok(HopOutcome::Deliver)),
        !is_redirect_status(status) && status != 200 ==> (outcome matches Err(e) && e
            == ReceiptImageFailureCodeV1::HttpStatusRejected),
{
    if is_redirect(status) {
        let next = follow_redirect(redirect_count, current, locations, approved_host)?;
        return Ok(HopOutcome::Redirect(next));
    }
    check_ok_status(status)?;
    Ok(HopOutcome::Deliver)
}

} // verus!
