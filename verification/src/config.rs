//! The client's settings, and text helpers the settings dialog needs.
use vstd::prelude::*;
use vstd::string::*;
use crate::text::{concat2, push_decimal, spec_decimal, to_owned_string};

verus! {

/// The settings kept between runs.
#[derive(Debug)]
pub struct Config {
    pub host: String,
    pub port: u16,
    pub default_player: Option<String>,
    pub use_nerd_icons: bool,
    pub username: Option<String>,
    pub password: Option<String>,
    pub auto_discover: bool,
    pub broadcast_mask: String,
    pub global_volume_control: bool,
    pub full_art_mode: bool,
    pub disable_auto_colors: bool,
    pub image_protocol: String,
}

/// Server port used when none is configured.
pub const DEFAULT_PORT: u16 = 9000;

impl Config {
    /// The settings of a first run: the server on this machine at port 9000, discovery on
    /// with the all-hosts broadcast mask, automatic image mode, everything else off or unset.
    pub open spec fn is_default(&self) -> bool {
        &&& self.host@ == "localhost"@
        &&& self.port == DEFAULT_PORT
        &&& self.default_player is None
        &&& !self.use_nerd_icons
        &&& self.username is None
        &&& self.password is None
        &&& self.auto_discover
        &&& self.broadcast_mask@ == "255.255.255.255"@
        &&& !self.global_volume_control
        &&& !self.full_art_mode
        &&& !self.disable_auto_colors
        &&& self.image_protocol@ == "auto"@
    }

    /// The JSON-RPC address of the configured server.
    pub open spec fn spec_base_url(&self) -> Seq<char> {
        "http://"@ + self.host@ + ":"@ + spec_decimal(self.port as nat) + "/jsonrpc.js"@
    }

    /// The JSON-RPC address of the configured server.
    pub fn base_url(&self) -> (r: String)
        ensures
            r@ == self.spec_base_url(),
    {
        let mut s = concat2("http://", self.host.as_str());
        s.append(":");
        push_decimal(&mut s, self.port as u64);
        s.append("/jsonrpc.js");
        s
    }

    /// The (user, password) pair for basic authentication, when both are set.
    pub fn credentials(&self) -> (r: Option<(String, String)>)
        ensures
            match (self.username, self.password) {
                (Some(u), Some(p)) => r == Some((u, p)),
                _ => r is None,
            },
    {
        match (&self.username, &self.password) {
            (Some(u), Some(p)) => Some((u.clone(), p.clone())),
            _ => None,
        }
    }
}

impl Default for Config {
    fn default() -> (r: Self)
        ensures
            r.is_default(),
    {
        Config {
            host: to_owned_string("localhost"),
            port: DEFAULT_PORT,
            default_player: None,
            use_nerd_icons: false,
            username: None,
            password: None,
            auto_discover: true,
            broadcast_mask: to_owned_string("255.255.255.255"),
            global_volume_control: false,
            full_art_mode: false,
            disable_auto_colors: false,
            image_protocol: to_owned_string("auto"),
        }
    }
}

/// White space as `char::is_whitespace` defines it (the Unicode White_Space characters).
pub open spec fn is_space(c: char) -> bool {
    ||| ('\u{9}' <= c && c <= '\u{d}')
    ||| c == ' '
    ||| c == '\u{85}'
    ||| c == '\u{a0}'
    ||| c == '\u{1680}'
    ||| ('\u{2000}' <= c && c <= '\u{200a}')
    ||| c == '\u{2028}'
    ||| c == '\u{2029}'
    ||| c == '\u{202f}'
    ||| c == '\u{205f}'
    ||| c == '\u{3000}'
}

fn is_space_exec(c: char) -> (r: bool)
    ensures
        r == is_space(c),
{
    ('\u{9}' <= c && c <= '\u{d}') || c == ' ' || c == '\u{85}' || c == '\u{a0}' || c == '\u{1680}'
        || ('\u{2000}' <= c && c <= '\u{200a}') || c == '\u{2028}' || c == '\u{2029}' || c == '\u{202f}'
        || c == '\u{205f}' || c == '\u{3000}'
}

/// `s` without white space at either end, as (start, end) of what remains.
pub open spec fn trim_bounds(s: Seq<char>, a: int, b: int) -> bool {
    &&& 0 <= a <= b <= s.len()
    &&& forall|i: int| 0 <= i < a ==> is_space(#[trigger] s[i])
    &&& forall|i: int| b <= i < s.len() ==> is_space(#[trigger] s[i])
    &&& a < b ==> !is_space(s[a]) && !is_space(s[b - 1])
}

/// `s` without white space at either end (`str::trim`).
pub open spec fn spec_trim(s: Seq<char>) -> Seq<char> {
    let (a, b) = choose|a: int, b: int| trim_bounds(s, a, b);
    s.subrange(a, b)
}

/// The bounds of the trimmed text are unique.
pub proof fn lemma_trim_bounds_unique(s: Seq<char>, a: int, b: int, a2: int, b2: int)
    requires
        trim_bounds(s, a, b),
        trim_bounds(s, a2, b2),
    ensures
        s.subrange(a, b) == s.subrange(a2, b2),
{
    if a < b && a2 < b2 {
        assert(a == a2) by {
            if a < a2 {
                assert(is_space(s[a]));
            } else if a2 < a {
                assert(is_space(s[a2]));
            }
        }
        assert(b == b2) by {
            if b < b2 {
                assert(is_space(s[b2 - 1]));
            } else if b2 < b {
                assert(is_space(s[b - 1]));
            }
        }
    } else if a < b {
        assert(is_space(s[a]));
        if a2 == b2 {
            if a < a2 {
            } else {
            }
        }
    } else if a2 < b2 {
        assert(is_space(s[a2]));
    }
    assert(s.subrange(a, b) =~= s.subrange(a2, b2));
}

/// `s` without white space at either end.
pub fn trim_owned(s: &str) -> (r: String)
    ensures
        r@ == spec_trim(s@),
{
    let n = s.unicode_len();
    let mut a: usize = 0;
    while a < n && is_space_exec(s.get_char(a))
        invariant
            n == s@.len(),
            a <= n,
            forall|i: int| 0 <= i < a ==> is_space(#[trigger] s@[i]),
        decreases n - a,
    {
        a += 1;
    }
    let mut b: usize = n;
    while b > a && is_space_exec(s.get_char(b - 1))
        invariant
            n == s@.len(),
            a <= b <= n,
            forall|i: int| 0 <= i < a ==> is_space(#[trigger] s@[i]),
            forall|i: int| b <= i < n ==> is_space(#[trigger] s@[i]),
            a < n ==> !is_space(s@[a as int]),
        decreases b - a,
    {
        b -= 1;
    }
    assert(trim_bounds(s@, a as int, b as int));
    proof {
        let (a2, b2) = choose|a2: int, b2: int| trim_bounds(s@, a2, b2);
        lemma_trim_bounds_unique(s@, a as int, b as int, a2, b2);
    }
    to_owned_string(s.substring_char(a, b))
}

/// The value of decimal digits `d`.
pub open spec fn digits_value(d: Seq<char>) -> nat
    decreases d.len(),
{
    if d.len() == 0 {
        0
    } else {
        digits_value(d.drop_last()) * 10 + (d.last() as nat - '0' as nat) as nat
    }
}

/// `c` is an ASCII digit.
pub open spec fn is_digit(c: char) -> bool {
    '0' <= c && c <= '9'
}

/// `s` without a leading `+`.
pub open spec fn unsigned_digits(s: Seq<char>) -> Seq<char> {
    if s.len() > 0 && s[0] == '+' { s.skip(1) } else { s }
}

/// Every character of `d` is an ASCII digit.
pub open spec fn all_digits(d: Seq<char>) -> bool {
    forall|i: int| 0 <= i < d.len() ==> is_digit(#[trigger] d[i])
}

/// The number `s` writes as `u16::from_str` reads it: an optional `+`, then one or more
/// decimal digits whose value fits in 16 bits.
pub open spec fn spec_parse_u16(s: Seq<char>) -> Option<u16> {
    let d = unsigned_digits(s);
    if d.len() > 0 && all_digits(d) && digits_value(d) <= u16::MAX {
        Some(digits_value(d) as u16)
    } else {
        None
    }
}

/// Reads a 16-bit number as `u16::from_str` does.
pub fn parse_u16(s: &str) -> (r: Option<u16>)
    ensures
        r == spec_parse_u16(s@),
{
    let n = s.unicode_len();
    let start: usize = if n > 0 && s.get_char(0) == '+' { 1 } else { 0 };
    let ghost d = unsigned_digits(s@);
    assert(d =~= s@.subrange(start as int, n as int));
    if start >= n {
        return None;
    }
    let mut v: u32 = 0;
    let mut i: usize = start;
    while i < n
        invariant
            n == s@.len(),
            start <= i <= n,
            d == s@.subrange(start as int, n as int),
            d == unsigned_digits(s@),
            forall|k: int| 0 <= k < i - start ==> is_digit(#[trigger] d[k]),
            v == digits_value(d.take(i - start)),
            v <= u16::MAX,
        decreases n - i,
    {
        let c = s.get_char(i);
        assert(d[i - start] == c);
        if !('0' <= c && c <= '9') {
            assert(!is_digit(d[i - start]));
            return None;
        }
        assert(d.take(i - start + 1).drop_last() =~= d.take(i - start));
        assert(d.take(i - start + 1).last() == c);
        let digit: u32 = (c as u32) - ('0' as u32);
        let w: u32 = v * 10 + digit;
        assert(digits_value(d.take(i - start + 1)) == w);
        if w > 65535 {
            proof {
                if all_digits(d) {
                    lemma_digits_value_grows(d, (i - start + 1) as int);
                }
            }
            return None;
        }
        v = w;
        i += 1;
    }
    assert(d.take(n - start) =~= d);
    Some(v as u16)
}

/// The number `s` writes as `u64::from_str` reads it: an optional `+`, then one or more
/// decimal digits whose value fits in 64 bits.
pub open spec fn spec_parse_u64(s: Seq<char>) -> Option<u64> {
    let d = unsigned_digits(s);
    if d.len() > 0 && all_digits(d) && digits_value(d) <= u64::MAX {
        Some(digits_value(d) as u64)
    } else {
        None
    }
}

/// Reads a 64-bit number as `u64::from_str` does.
pub fn parse_u64(s: &str) -> (r: Option<u64>)
    ensures
        r == spec_parse_u64(s@),
{
    let n = s.unicode_len();
    let start: usize = if n > 0 && s.get_char(0) == '+' { 1 } else { 0 };
    let ghost d = unsigned_digits(s@);
    assert(d =~= s@.subrange(start as int, n as int));
    if start >= n {
        return None;
    }
    let mut v: u128 = 0;
    let mut i: usize = start;
    while i < n
        invariant
            n == s@.len(),
            start <= i <= n,
            d == s@.subrange(start as int, n as int),
            d == unsigned_digits(s@),
            forall|k: int| 0 <= k < i - start ==> is_digit(#[trigger] d[k]),
            v == digits_value(d.take(i - start)),
            v <= u64::MAX,
        decreases n - i,
    {
        let c = s.get_char(i);
        assert(d[i - start] == c);
        if !('0' <= c && c <= '9') {
            assert(!is_digit(d[i - start]));
            return None;
        }
        assert(d.take(i - start + 1).drop_last() =~= d.take(i - start));
        assert(d.take(i - start + 1).last() == c);
        let digit: u128 = (c as u128) - ('0' as u128);
        let w: u128 = v * 10 + digit;
        assert(digits_value(d.take(i - start + 1)) == w);
        if w > 18446744073709551615 {
            proof {
                if all_digits(d) {
                    lemma_digits_value_grows(d, (i - start + 1) as int);
                }
            }
            return None;
        }
        v = w;
        i += 1;
    }
    assert(d.take(n - start) =~= d);
    Some(v as u64)
}

/// A longer digit prefix never has a smaller value.
proof fn lemma_digits_value_grows(d: Seq<char>, k: int)
    requires
        0 <= k <= d.len(),
        all_digits(d),
    ensures
        digits_value(d.take(k)) <= digits_value(d),
    decreases d.len() - k,
{
    if k < d.len() {
        lemma_digits_value_grows(d, k + 1);
        assert(d.take(k + 1).drop_last() =~= d.take(k));
    } else {
        assert(d.take(k) =~= d);
    }
}

} // verus!
