//! The settings of the datastore connection and of the command line.
use crate::status::{lowercase, to_lowercase};
use crate::text::owned;
use vstd::prelude::*;

verus! {

/// The connection settings of the datastore.
pub struct DatastoreConfig {
    pub email: String,
    pub password: String,
    pub host: String,
    pub port: u16,
    pub tls: bool,
    pub token_leeway: u64,
}

pub open spec fn is_digit(c: char) -> bool {
    '0' <= c && c <= '9'
}

/// The value of a run of decimal digits.
pub open spec fn digits_value(d: Seq<char>) -> int
    decreases d.len(),
{
    if d.len() == 0 {
        0
    } else {
        digits_value(d.drop_last()) * 10 + (d.last() as int - '0' as int)
    }
}

/// The digits of an unsigned decimal text: an optional `+` and then one or
/// more digits, as `u16::from_str` and `u64::from_str` accept them.
pub open spec fn unsigned_digits(s: Seq<char>) -> Option<Seq<char>> {
    let d = sign_stripped(s);
    if d.len() > 0 && forall|i: int| 0 <= i < d.len() ==> is_digit(#[trigger] d[i]) {
        Some(d)
    } else {
        None
    }
}

/// The text without one leading `+`.
pub open spec fn sign_stripped(s: Seq<char>) -> Seq<char> {
    if s.len() > 0 && s[0] == '+' {
        s.drop_first()
    } else {
        s
    }
}

/// The number an unsigned decimal text stands for, if it is at most `max`.
pub open spec fn parse_unsigned(s: Seq<char>, max: int) -> Option<int> {
    match unsigned_digits(s) {
        Some(d) => if digits_value(d) <= max {
            Some(digits_value(d))
        } else {
            None
        },
        None => None,
    }
}

proof fn digits_value_nonneg(d: Seq<char>)
    requires
        forall|i: int| 0 <= i < d.len() ==> is_digit(#[trigger] d[i]),
    ensures
        digits_value(d) >= 0,
    decreases d.len(),
{
    if d.len() > 0 {
        assert(is_digit(d[d.len() - 1]));
        digits_value_nonneg(d.drop_last());
    }
}

/// Reads an unsigned decimal number of at most `max`, as the standard
/// library's `from_str` for unsigned integers does.
pub fn parse_decimal(s: &str, max: u64) -> (r: Option<u64>)
    ensures
        r matches Some(v) ==> parse_unsigned(s@, max as int) == Some(v as int),
        r is None <==> parse_unsigned(s@, max as int) is None,
{
    let n = s.unicode_len();
    let mut start: usize = 0;
    if n > 0 && s.get_char(0) == '+' {
        start = 1;
    }
    let ghost d = sign_stripped(s@);
    assert(d =~= s@.subrange(start as int, n as int));
    if start >= n {
        return None;
    }
    let cap: u128 = max as u128 + 1;
    let mut value: u128 = 0;
    let mut i: usize = start;
    while i < n
        invariant
            n == s@.len(),
            start <= i <= n,
            d =~= s@.subrange(start as int, n as int),
            d == sign_stripped(s@),
            cap == max + 1,
            forall|j: int| start <= j < i ==> is_digit(#[trigger] s@[j]),
            value == if digits_value(s@.subrange(start as int, i as int)) < cap {
                digits_value(s@.subrange(start as int, i as int))
            } else {
                cap as int
            },
        decreases n - i,
    {
        let c = s.get_char(i);
        if !('0' <= c && c <= '9') {
            assert(d[i - start] == c);
            assert(!is_digit(d[i - start]));
            assert(unsigned_digits(s@) is None);
            return None;
        }
        let ghost prefix = s@.subrange(start as int, i as int);
        let ghost next = s@.subrange(start as int, i + 1);
        assert(next.drop_last() =~= prefix);
        assert(next.last() == c);
        proof {
            assert forall|j: int| 0 <= j < prefix.len() implies is_digit(#[trigger] prefix[j]) by {
                assert(prefix[j] == s@[start + j]);
            }
            digits_value_nonneg(prefix);
        }
        let digit: u128 = (c as u32 - '0' as u32) as u128;
        if value < cap {
            let candidate = value * 10 + digit;
            value = if candidate < cap { candidate } else { cap };
        }
        i = i + 1;
    }
    assert(s@.subrange(start as int, n as int) =~= d);
    assert forall|j: int| 0 <= j < d.len() implies is_digit(#[trigger] d[j]) by {
        assert(d[j] == s@[start + j]);
    }
    if value < cap {
        Some(value as u64)
    } else {
        None
    }
}

/// The text of an environment variable, or the default where it is not set.
pub open spec fn text_or(var: Option<Seq<char>>, default: Seq<char>) -> Seq<char> {
    match var {
        Some(v) => v,
        None => default,
    }
}

/// The port that the variable gives, or the default where it is not set or
/// is not a port number.
pub open spec fn port_from(var: Option<Seq<char>>, default: u16) -> u16 {
    match var {
        Some(v) => match parse_unsigned(v, 65535) {
            Some(p) => p as u16,
            None => default,
        },
        None => default,
    }
}

/// The leeway that the variable gives, or the default where it is not set
/// or is not a number.
pub open spec fn leeway_from(var: Option<Seq<char>>, default: u64) -> u64 {
    match var {
        Some(v) => match parse_unsigned(v, u64::MAX as int) {
            Some(n) => n as u64,
            None => default,
        },
        None => default,
    }
}

/// Whether the variable says `true`, in any case, or the default where it is not set.
pub open spec fn flag_from(var: Option<Seq<char>>, default: bool) -> bool {
    match var {
        Some(v) => lowercase(v) == "true"@,
        None => default,
    }
}

fn read_host_value(var: Option<String>, default: String) -> (r: String)
    ensures
        r@ == text_or(var.deep_view(), default@),
{
    match var {
        Some(v) => v,
        None => default,
    }
}

fn read_port_value(var: &Option<String>, default: u16) -> (r: u16)
    ensures
        r == port_from(var.deep_view(), default),
{
    match var {
        Some(v) => match parse_decimal(v.as_str(), 65535) {
            Some(p) => p as u16,
            None => default,
        },
        None => default,
    }
}

fn read_tls_value(var: &Option<String>, default: bool) -> (r: bool)
    ensures
        r == flag_from(var.deep_view(), default),
{
    match var {
        Some(v) => {
            let lower = to_lowercase(v.as_str());
            let t = owned("true");
            lower == t
        },
        None => default,
    }
}

fn read_token_leeway(var: &Option<String>, default: u64) -> (r: u64)
    ensures
        r == leeway_from(var.deep_view(), default),
{
    match var {
        Some(v) => match parse_decimal(v.as_str(), 0xffff_ffff_ffff_ffffu64) {
            Some(n) => n,
            None => default,
        },
        None => default,
    }
}

impl DatastoreConfig {
    /// The settings from the values of the environment variables
    /// `DATASTORE_HOST`, `DATASTORE_PORT`, `DATASTORE_EMAIL`,
    /// `DATASTORE_PASSWORD` and `DATASTORE_TOKEN_LEEWAY` (`None` where a
    /// variable is not set). TLS is read from the value of `DATASTORE_PORT`:
    /// it is on only where that value says `true`, in any case.
    pub fn from_env(
        host: Option<String>,
        port: Option<String>,
        email: Option<String>,
        password: Option<String>,
        token_leeway: Option<String>,
    ) -> (r: DatastoreConfig)
        ensures
            r.host@ == text_or(host.deep_view(), "127.0.0.1"@),
            r.port == port_from(port.deep_view(), 6000),
            r.tls == flag_from(port.deep_view(), false),
            r.email@ == text_or(email.deep_view(), "admin"@),
            r.password@ == text_or(password.deep_view(), "admin"@),
            r.token_leeway == leeway_from(token_leeway.deep_view(), 300),
    {
        let port_value = read_port_value(&port, 6000);
        let tls = read_tls_value(&port, false);
        let leeway = read_token_leeway(&token_leeway, 300);
        DatastoreConfig {
            host: read_host_value(host, owned("127.0.0.1")),
            port: port_value,
            tls,
            email: read_host_value(email, owned("admin")),
            password: read_host_value(password, owned("admin")),
            token_leeway: leeway,
        }
    }
}

/// The character of a decimal digit.
pub open spec fn digit_char(d: int) -> char {
    if d == 0 {
        '0'
    } else if d == 1 {
        '1'
    } else if d == 2 {
        '2'
    } else if d == 3 {
        '3'
    } else if d == 4 {
        '4'
    } else if d == 5 {
        '5'
    } else if d == 6 {
        '6'
    } else if d == 7 {
        '7'
    } else if d == 8 {
        '8'
    } else {
        '9'
    }
}

/// A number written in decimal, without leading zeros.
pub open spec fn decimal_of(n: nat) -> Seq<char>
    decreases n,
{
    if n < 10 {
        seq![digit_char(n as int)]
    } else {
        decimal_of(n / 10).push(digit_char((n % 10) as int))
    }
}

fn digit_text(d: u64) -> (r: &'static str)
    requires
        d < 10,
    ensures
        r@ == seq![digit_char(d as int)],
{
    if d == 0 {
        proof { reveal_strlit("0"); }
        "0"
    } else if d == 1 {
        proof { reveal_strlit("1"); }
        "1"
    } else if d == 2 {
        proof { reveal_strlit("2"); }
        "2"
    } else if d == 3 {
        proof { reveal_strlit("3"); }
        "3"
    } else if d == 4 {
        proof { reveal_strlit("4"); }
        "4"
    } else if d == 5 {
        proof { reveal_strlit("5"); }
        "5"
    } else if d == 6 {
        proof { reveal_strlit("6"); }
        "6"
    } else if d == 7 {
        proof { reveal_strlit("7"); }
        "7"
    } else if d == 8 {
        proof { reveal_strlit("8"); }
        "8"
    } else {
        proof { reveal_strlit("9"); }
        "9"
    }
}

/// A number written in decimal, as `{}` writes it.
pub fn decimal_text(n: u64) -> (r: String)
    ensures
        r@ == decimal_of(n as nat),
    decreases n,
{
    let mut s = if n < 10 {
        String::new()
    } else {
        decimal_text(n / 10)
    };
    s.append(digit_text(n % 10));
    s
}

/// The decimal text of a number is a run of digits whose value is the
/// number.
proof fn lemma_decimal_digits(n: nat)
    ensures
        decimal_of(n).len() > 0,
        forall|i: int| 0 <= i < decimal_of(n).len() ==> is_digit(#[trigger] decimal_of(n)[i]),
        digits_value(decimal_of(n)) == n,
    decreases n,
{
    if n < 10 {
        let d = decimal_of(n);
        assert(d.drop_last() =~= Seq::<char>::empty());
        assert(digits_value(d) == digits_value(d.drop_last()) * 10 + (d.last() as int - '0' as int));
    } else {
        lemma_decimal_digits(n / 10);
        let d = decimal_of(n);
        let head = decimal_of(n / 10);
        assert(d.drop_last() =~= head);
        assert(d.last() == digit_char((n % 10) as int));
        assert(digits_value(d) == digits_value(head) * 10 + (d.last() as int - '0' as int));
        assert forall|i: int| 0 <= i < d.len() implies is_digit(#[trigger] d[i]) by {
            if i < head.len() {
                assert(d[i] == head[i]);
            }
        }
    }
}

/// A number written in decimal reads back as itself, where it is at most
/// the limit of the reading.
pub proof fn law_decimal_parses_back(n: nat, max: int)
    requires
        n <= max,
    ensures
        parse_unsigned(decimal_of(n), max) == Some(n as int),
{
    lemma_decimal_digits(n);
    let d = decimal_of(n);
    assert(d[0] != '+') by {
        assert(is_digit(d[0]));
    }
    assert(sign_stripped(d) == d);
}

/// The address that the control service listens on where the environment
/// gives none that can be used.
pub fn default_control_service_address() -> (r: &'static str)
    ensures
        r@ == "127.0.0.1:50051"@,
{
    "127.0.0.1:50051"
}

/// The `host:port` text of the control service from the values of
/// `CONTROL_SERVICE_ADDR` and `CONTROL_SERVICE_PORT`: only where both are
/// set and the port is a number of 16 bits.
pub open spec fn control_service_address_of(host: Option<Seq<char>>, port: Option<Seq<char>>) -> Option<
    Seq<char>,
> {
    match host {
        Some(h) => match port {
            Some(p) => match parse_unsigned(p, 65535) {
                Some(n) => Some(h + ":"@ + decimal_of(n as nat)),
                None => None,
            },
            None => None,
        },
        None => None,
    }
}

/// The `host:port` text that the control service should listen on, where
/// the environment gives one; the caller falls back to the default address
/// where this is `None` or the text is no socket address.
pub fn control_service_address(host: Option<String>, port: Option<String>) -> (r: Option<String>)
    ensures
        r.deep_view() == control_service_address_of(host.deep_view(), port.deep_view()),
{
    match host {
        Some(h) => match port {
            Some(p) => match parse_decimal(p.as_str(), 65535) {
                Some(n) => {
                    let mut a = h;
                    a.append(":");
                    let digits = decimal_text(n);
                    a.append(digits.as_str());
                    Some(a)
                },
                None => None,
            },
            None => None,
        },
        None => None,
    }
}

/// The URL of a gRPC endpoint: `https` with TLS, `http` without.
pub open spec fn endpoint_url_of(tls: bool, host: Seq<char>, port: u16) -> Seq<char> {
    (if tls {
        "https"@
    } else {
        "http"@
    }) + "://"@ + host + ":"@ + decimal_of(port as nat)
}

/// The URL that the datastore client connects to.
pub fn endpoint_url(tls: bool, host: &str, port: u16) -> (r: String)
    ensures
        r@ == endpoint_url_of(tls, host@, port),
{
    let mut u = if tls {
        owned("https")
    } else {
        owned("http")
    };
    u.append("://");
    u.append(host);
    u.append(":");
    let digits = decimal_text(port as u64);
    u.append(digits.as_str());
    u
}

/// The largest message that the control channel's client decodes: 50 MiB.
pub const MAX_DECODING_MESSAGE_SIZE: usize = 52_428_800;

/// The command line: the size of the local cache of IP information.
pub struct Args {
    pub ip_info_cache_size: usize,
}

impl Default for Args {
    fn default() -> (r: Args)
        ensures
            r.ip_info_cache_size == 10_000,
    {
        Args { ip_info_cache_size: 10_000 }
    }
}

} // verus!
