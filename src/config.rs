//! The listening port, read from its configuration text.
use vstd::prelude::*;

verus! {

/// The port used when none is configured, or the configured text is no port.
pub const DEFAULT_PORT: u16 = 8080;

pub open spec fn is_digit(c: char) -> bool {
    '0' <= c && c <= '9'
}

pub open spec fn digit_value(c: char) -> int {
    c as int - '0' as int
}

pub open spec fn all_digits(s: Seq<char>) -> bool {
    forall|i: int| 0 <= i < s.len() ==> is_digit(#[trigger] s[i])
}

/// The number that a string of decimal digits writes, most significant first.
pub open spec fn decimal_value(s: Seq<char>) -> int
    decreases s.len(),
{
    if s.len() == 0 {
        0
    } else {
        decimal_value(s.drop_last()) * 10 + digit_value(s.last())
    }
}

/// A port is written as one or more decimal digits whose value fits in 16 bits.
pub open spec fn is_port_text(s: Seq<char>) -> bool {
    s.len() > 0 && all_digits(s) && decimal_value(s) <= u16::MAX as int
}

/// The port that a configured value selects.
pub open spec fn port_of(value: Option<Seq<char>>) -> u16 {
    match value {
        Some(s) => if is_port_text(s) {
            decimal_value(s) as u16
        } else {
            DEFAULT_PORT
        },
        None => DEFAULT_PORT,
    }
}

pub open spec fn option_view(value: Option<String>) -> Option<Seq<char>> {
    match value {
        Some(s) => Some(s@),
        None => None,
    }
}

proof fn lemma_decimal_value_nonneg(s: Seq<char>)
    requires
        all_digits(s),
    ensures
        decimal_value(s) >= 0,
    decreases s.len(),
{
    if s.len() > 0 {
        lemma_decimal_value_nonneg(s.drop_last());
    }
}

/// Appending digits never makes the written number smaller.
proof fn lemma_decimal_value_grows(s: Seq<char>, i: int)
    requires
        all_digits(s),
        0 <= i <= s.len(),
    ensures
        decimal_value(s.subrange(0, i)) <= decimal_value(s),
    decreases s.len() - i,
{
    if i < s.len() {
        lemma_decimal_value_grows(s, i + 1);
        let p = s.subrange(0, i + 1);
        assert(p.drop_last() =~= s.subrange(0, i));
        lemma_decimal_value_nonneg(s.subrange(0, i));
    } else {
        assert(s.subrange(0, i) =~= s);
    }
}

/// The port that the configured text selects: its value where the text is a
/// port number, else `DEFAULT_PORT`; `DEFAULT_PORT` too where nothing is set.
pub fn listen_port(value: Option<String>) -> (r: u16)
    ensures
        r == port_of(option_view(value)),
{
    match value {
        None => DEFAULT_PORT,
        Some(text) => port_from_text(text.as_str()),
    }
}

/// The port that a configured text selects.
pub fn port_from_text(s: &str) -> (r: u16)
    ensures
        r == port_of(Some(s@)),
{
    let n = s.unicode_len();
    if n == 0 {
        return DEFAULT_PORT;
    }
    let mut acc: u32 = 0;
    let mut i: usize = 0;
    while i < n
        invariant
            n == s@.len(),
            i <= n,
            all_digits(s@.subrange(0, i as int)),
            acc as int == decimal_value(s@.subrange(0, i as int)),
            acc <= u16::MAX,
        decreases n - i,
    {
        let c = s.get_char(i);
        if c < '0' || c > '9' {
            assert(!is_digit(s@[i as int]));
            return DEFAULT_PORT;
        }
        let ghost prev = s@.subrange(0, i as int);
        let d: u32 = (c as u32) - ('0' as u32);
        let next: u32 = acc * 10 + d;
        proof {
            let cur = s@.subrange(0, i as int + 1);
            assert(cur.drop_last() =~= prev);
            assert(all_digits(cur));
        }
        if next > 65535 {
            proof {
                if all_digits(s@) {
                    lemma_decimal_value_grows(s@, i as int + 1);
                }
            }
            return DEFAULT_PORT;
        }
        acc = next;
        i = i + 1;
    }
    assert(s@.subrange(0, n as int) =~= s@);
    acc as u16
}

} // verus!
