//! Environment-driven configuration: the spooler's target printer and the
//! HTTP bind address. Each value is an override read from the environment by
//! the caller, with a fixed fallback chosen here.

use vstd::prelude::*;

verus! {

/// The spooler's target when no override is configured.
pub open spec fn default_printer() -> Seq<char> {
    "DYMO_LabelWriter_450"@
}

/// The printer identifier handed to the spooler: the `PRINTER_NAME` override
/// when it is present and non-empty, otherwise the default identifier.
pub open spec fn printer_of(env: Option<Seq<char>>) -> Seq<char> {
    match env {
        Some(s) => if s.len() > 0 {
            s
        } else {
            default_printer()
        },
        None => default_printer(),
    }
}

/// Choose the spooler's target printer from the optional `PRINTER_NAME`
/// override; an unset or empty override falls back to the default.
pub fn printer_target(env: Option<String>) -> (p: String)
    ensures
        p@ == printer_of(env.deep_view()),
{
    match env {
        Some(s) => {
            if !s.as_str().is_empty() {
                s
            } else {
                "DYMO_LabelWriter_450".to_owned()
            }
        },
        None => "DYMO_LabelWriter_450".to_owned(),
    }
}

/// The bind address handed to the HTTP server: the `HOST` override when it is
/// present (even empty, as the environment gave it), otherwise all interfaces.
pub open spec fn host_of(env: Option<Seq<char>>) -> Seq<char> {
    match env {
        Some(s) => s,
        None => "0.0.0.0"@,
    }
}

/// Choose the bind address from the optional `HOST` override.
pub fn bind_host(env: Option<String>) -> (h: String)
    ensures
        h@ == host_of(env.deep_view()),
{
    match env {
        Some(s) => s,
        None => "0.0.0.0".to_owned(),
    }
}

/// A decimal digit.
pub open spec fn is_digit(c: char) -> bool {
    '0' as u32 <= c as u32 && c as u32 <= '9' as u32
}

/// The value of one decimal digit.
pub open spec fn digit_val(c: char) -> int {
    c as u32 - '0' as u32
}

/// The number a digit string denotes, read left to right.
pub open spec fn dec_value(s: Seq<char>) -> int
    decreases s.len(),
{
    if s.len() == 0 {
        0
    } else {
        dec_value(s.drop_last()) * 10 + digit_val(s.last())
    }
}

/// The digits of a numeral, after an optional leading plus sign.
pub open spec fn numeral_digits(s: Seq<char>) -> Seq<char> {
    if s.len() > 0 && s[0] == '+' {
        s.subrange(1, s.len() as int)
    } else {
        s
    }
}

/// Whether `s` denotes a port: an optional leading `+`, then one or more
/// decimal digits, with a value of at most 65535. This is the numeral shape
/// the standard numeric parser accepts for an unsigned 16-bit value.
pub open spec fn is_port_numeral(s: Seq<char>) -> bool {
    let d = numeral_digits(s);
    &&& d.len() > 0
    &&& forall|i: int| 0 <= i < d.len() ==> is_digit(d[i])
    &&& dec_value(d) <= 65535
}

/// The number a port numeral denotes.
pub open spec fn port_numeral_value(s: Seq<char>) -> int {
    dec_value(numeral_digits(s))
}

/// A digit string's value is never negative.
proof fn lemma_dec_value_nonneg(s: Seq<char>)
    requires
        forall|i: int| 0 <= i < s.len() ==> is_digit(s[i]),
    ensures
        dec_value(s) >= 0,
    decreases s.len(),
{
    if s.len() > 0 {
        lemma_dec_value_nonneg(s.drop_last());
    }
}

/// Dropping digits from the right never increases a digit string's value.
proof fn lemma_dec_value_prefix(s: Seq<char>, k: int)
    requires
        0 <= k <= s.len(),
        forall|i: int| 0 <= i < s.len() ==> is_digit(s[i]),
    ensures
        dec_value(s) >= dec_value(s.subrange(0, k)),
    decreases s.len(),
{
    if k == s.len() {
        assert(s.subrange(0, k) =~= s);
    } else {
        lemma_dec_value_prefix(s.drop_last(), k);
        assert(s.drop_last().subrange(0, k) =~= s.subrange(0, k));
        lemma_dec_value_nonneg(s.drop_last());
    }
}

/// Parse a decimal port numeral. The result is the numeral's value exactly
/// when the string has the accepted shape, and nothing otherwise.
pub fn parse_port(s: &str) -> (r: Option<u16>)
    ensures
        r is Some <==> is_port_numeral(s@),
        r matches Some(v) ==> v == port_numeral_value(s@),
{
    let n: usize = s.unicode_len();
    let mut i: usize = 0;
    if n > 0 && s.get_char(0) == '+' {
        i = 1;
    }
    let start: usize = i;
    proof {
        if start == 1 {
            assert(numeral_digits(s@) =~= s@.subrange(1, s@.len() as int));
        } else {
            assert(numeral_digits(s@) =~= s@);
            assert(s@.subrange(0, s@.len() as int) =~= s@);
        }
        assert(numeral_digits(s@) =~= s@.subrange(start as int, s@.len() as int));
    }
    if i == n {
        return None;
    }
    let mut acc: u32 = 0;
    proof {
        assert(s@.subrange(start as int, start as int) =~= Seq::<char>::empty());
    }
    while i < n
        invariant
            start <= i <= n,
            n == s@.len(),
            numeral_digits(s@) == s@.subrange(start as int, n as int),
            forall|j: int| start <= j < i ==> is_digit(s@[j]),
            acc == dec_value(s@.subrange(start as int, i as int)),
            acc <= 65535,
        decreases n - i,
    {
        let c = s.get_char(i);
        let cu = c as u32;
        if cu < 48 || cu > 57 {
            proof {
                assert(!is_digit(numeral_digits(s@)[i - start]));
            }
            return None;
        }
        let d: u32 = cu - 48;
        proof {
            let pre = s@.subrange(start as int, i as int);
            let ext = s@.subrange(start as int, i + 1);
            assert(ext.drop_last() =~= pre);
            assert(ext.last() == s@[i as int]);
        }
        acc = acc * 10 + d;
        if acc > 65535 {
            proof {
                if is_port_numeral(s@) {
                    lemma_dec_value_prefix(numeral_digits(s@), i + 1 - start);
                    assert(numeral_digits(s@).subrange(0, i + 1 - start) =~= s@.subrange(
                        start as int,
                        i + 1,
                    ));
                }
            }
            return None;
        }
        i += 1;
    }
    proof {
        assert(s@.subrange(start as int, n as int) =~= numeral_digits(s@));
    }
    Some(acc as u16)
}

/// The port the server binds: the `PORT` override when it denotes a 16-bit
/// number, otherwise 8080.
pub open spec fn port_of(env: Option<Seq<char>>) -> int {
    match env {
        Some(s) => if is_port_numeral(s) {
            port_numeral_value(s)
        } else {
            8080
        },
        None => 8080,
    }
}

/// Choose the bind port from the optional `PORT` override.
pub fn bind_port(env: Option<String>) -> (p: u16)
    ensures
        p == port_of(env.deep_view()),
{
    match env {
        Some(s) => match parse_port(s.as_str()) {
            Some(v) => v,
            None => 8080,
        },
        None => 8080,
    }
}

} // verus!
