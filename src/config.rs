use vstd::prelude::*;
use vstd::string::*;

verus! {

/// Where the service listens, the address its short links start with, and
/// where its page templates lie.
pub struct Config {
    pub server_host: String,
    pub server_port: u16,
    pub base_url: String,
    pub templates_path: String,
}

pub const DEFAULT_HOST: &'static str = "127.0.0.1";

pub const DEFAULT_PORT: u16 = 3030;

pub open spec fn is_digit(c: char) -> bool {
    '0' <= c && c <= '9'
}

/// The number that a string of decimal digits writes.
pub open spec fn digits_value(s: Seq<char>) -> int
    decreases s.len(),
{
    if s.len() == 0 {
        0
    } else {
        digits_value(s.drop_last()) * 10 + (s.last() as int - '0' as int)
    }
}

pub open spec fn all_digits(s: Seq<char>) -> bool {
    forall|i: int| 0 <= i < s.len() ==> is_digit(#[trigger] s[i])
}

/// The text after an optional leading `+`.
pub open spec fn unsigned_part(s: Seq<char>) -> Seq<char> {
    if s.len() > 0 && s[0] == '+' {
        s.drop_first()
    } else {
        s
    }
}

/// A port number read from text: an optional `+`, then one or more decimal
/// digits whose value fits in 16 bits.
pub open spec fn port_of(s: Seq<char>) -> Option<u16> {
    let d = unsigned_part(s);
    if d.len() > 0 && all_digits(d) && digits_value(d) <= u16::MAX {
        Some(digits_value(d) as u16)
    } else {
        None
    }
}

/// The decimal digits of `n`, without leading zeros.
pub open spec fn decimal(n: nat) -> Seq<char>
    decreases n,
{
    if n < 10 {
        seq![(('0' as nat) + n) as char]
    } else {
        decimal(n / 10).push((('0' as nat) + n % 10) as char)
    }
}

/// The address that short links start with when none is configured.
pub open spec fn default_base_url(host: Seq<char>, port: u16) -> Seq<char> {
    "http://"@ + host + seq![':'] + decimal(port as nat)
}

/// Reads a port number, as `port_of` says.
pub fn parse_port(s: &String) -> (r: Option<u16>)
    ensures
        r == port_of(s@),
{
    let t = s.as_str();
    let n = t.unicode_len();
    let start: usize = if n > 0 && t.get_char(0) == '+' {
        1
    } else {
        0
    };
    let ghost d = unsigned_part(s@);
    assert(d =~= s@.subrange(start as int, n as int));
    if start == n {
        return None;
    }
    let mut value: u32 = 0;
    let mut i: usize = start;
    while i < n
        invariant
            n == s@.len(),
            t@ == s@,
            start <= i <= n,
            d =~= s@.subrange(start as int, n as int),
            d == unsigned_part(s@),
            forall|j: int| start <= j < i ==> is_digit(#[trigger] s@[j]),
            value as int == digits_value(s@.subrange(start as int, i as int)),
            value <= u16::MAX,
        decreases n - i,
    {
        let c = t.get_char(i);
        if !('0' <= c && c <= '9') {
            assert(!is_digit(d[i - start]));
            assert(!all_digits(d));
            return None;
        }
        assert(s@.subrange(start as int, i + 1).drop_last() =~= s@.subrange(start as int, i as int));
        value = value * 10 + (c as u32 - '0' as u32);
        i = i + 1;
        if value > 65535 {
            proof {
                if all_digits(d) {
                    lemma_digits_grow(d, i - start);
                    assert(d.subrange(0, i - start) =~= s@.subrange(start as int, i as int));
                }
            }
            return None;
        }
    }
    assert(s@.subrange(start as int, n as int) =~= d);
    assert forall|j: int| 0 <= j < d.len() implies is_digit(#[trigger] d[j]) by {
        assert(d[j] == s@[j + start]);
    }
    assert(all_digits(d));
    Some(value as u16)
}

/// Digits after a prefix only make the value larger.
proof fn lemma_digits_grow(s: Seq<char>, k: int)
    requires
        0 <= k <= s.len(),
        forall|j: int| 0 <= j < s.len() ==> is_digit(#[trigger] s[j]),
    ensures
        digits_value(s) >= digits_value(s.subrange(0, k)),
        digits_value(s) >= 0,
    decreases s.len(),
{
    if s.len() == 0 {
    } else {
        let p = s.drop_last();
        assert forall|j: int| 0 <= j < p.len() implies is_digit(#[trigger] p[j]) by {
            assert(p[j] == s[j]);
        }
        assert(is_digit(s[s.len() - 1]));
        if k == s.len() {
            assert(s.subrange(0, k) =~= s);
            lemma_digits_grow(p, 0);
        } else {
            lemma_digits_grow(p, k);
            assert(p.subrange(0, k) =~= s.subrange(0, k));
        }
    }
}

fn digit_text(d: u16) -> (r: &'static str)
    requires
        d < 10,
    ensures
        r@ == seq![(('0' as nat) + d as nat) as char],
{
    proof {
        reveal_strlit("0");
        reveal_strlit("1");
        reveal_strlit("2");
        reveal_strlit("3");
        reveal_strlit("4");
        reveal_strlit("5");
        reveal_strlit("6");
        reveal_strlit("7");
        reveal_strlit("8");
        reveal_strlit("9");
    }
    match d {
        0 => "0",
        1 => "1",
        2 => "2",
        3 => "3",
        4 => "4",
        5 => "5",
        6 => "6",
        7 => "7",
        8 => "8",
        _ => "9",
    }
}

/// The decimal form of `n`.
pub fn decimal_text(n: u16) -> (r: String)
    ensures
        r@ == decimal(n as nat),
    decreases n,
{
    if n < 10 {
        String::from_str(digit_text(n))
    } else {
        let mut r = decimal_text(n / 10);
        r.append(digit_text(n % 10));
        r
    }
}

impl Config {
    /// The configuration from the values that were set: the host (else
    /// 127.0.0.1), the port (else, or where it does not read as a port,
    /// 3030), the base URL (else `http://host:port`), and the templates' path.
    pub fn new(host: Option<String>, port: Option<String>, base_url: Option<String>, templates_path: String) -> (r: Config)
        ensures
            r.server_host@ == match host {
                Some(h) => h@,
                None => DEFAULT_HOST@,
            },
            r.server_port == match port {
                Some(p) => match port_of(p@) {
                    Some(n) => n,
                    None => DEFAULT_PORT,
                },
                None => DEFAULT_PORT,
            },
            r.base_url@ == match base_url {
                Some(b) => b@,
                None => default_base_url(r.server_host@, r.server_port),
            },
            r.templates_path == templates_path,
    {
        let server_host = match host {
            Some(h) => h,
            None => String::from_str(DEFAULT_HOST),
        };
        let server_port = match port {
            Some(p) => match parse_port(&p) {
                Some(n) => n,
                None => DEFAULT_PORT,
            },
            None => DEFAULT_PORT,
        };
        let base_url = match base_url {
            Some(b) => b,
            None => {
                let mut b = String::from_str("http://");
                b.append(server_host.as_str());
                b.append(":");
                proof {
                    reveal_strlit(":");
                }
                let digits = decimal_text(server_port);
                b.append(digits.as_str());
                b
            },
        };
        Config { server_host, server_port, base_url, templates_path }
    }

    pub fn get_base_url(&self) -> (r: &str)
        ensures
            r@ == self.base_url@,
    {
        self.base_url.as_str()
    }
}

} // verus!
