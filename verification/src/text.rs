//! Decimal port numbers in text, and the `key:value` pairs taken on the
//! command line.
//!
//! A port mapping is given as `server_port:client_port` on the client
//! and as `target:port` on the server; the part before the last colon
//! may be empty or absent, in which case it defaults (to port `0`, or to
//! the empty target).  Ports are unsigned decimal numbers with an
//! optional leading `+`, at most `65535`.

use vstd::prelude::*;

verus! {

/// Whether `c` is a decimal digit.
pub open spec fn is_dec_digit(c: char) -> bool {
    48 <= c as u32 && c as u32 <= 57
}

/// The value of the decimal digit `c`.
pub open spec fn digit_val(c: char) -> nat {
    (c as u32 - 48) as nat
}

/// Whether every character of `s` is a decimal digit, and there is at
/// least one.
pub open spec fn all_dec_digits(s: Seq<char>) -> bool {
    s.len() > 0 && forall|i: int| 0 <= i < s.len() ==> is_dec_digit(#[trigger] s[i])
}

/// The number written by the digit string `s`, most significant digit
/// first.
pub open spec fn dec_value(s: Seq<char>) -> nat
    decreases s.len(),
{
    if s.len() == 0 {
        0
    } else {
        dec_value(s.drop_last()) * 10 + digit_val(s.last())
    }
}

/// `s` with one leading `+` sign removed, if a digit could follow it.
pub open spec fn strip_plus(s: Seq<char>) -> Seq<char> {
    if s.len() >= 2 && s[0] == '+' {
        s.skip(1)
    } else {
        s
    }
}

/// Whether `s` is the accepted text of a 16-bit port number.
pub open spec fn is_port_text(s: Seq<char>) -> bool {
    all_dec_digits(strip_plus(s)) && dec_value(strip_plus(s)) <= 0xffff
}

/// The port number written by `s`; meaningful when `is_port_text(s)`.
pub open spec fn port_text_value(s: Seq<char>) -> nat {
    dec_value(strip_plus(s))
}

/// Index of the last `:` in `s`, or `-1` if there is none.
pub open spec fn last_colon(s: Seq<char>) -> int
    decreases s.len(),
{
    if s.len() == 0 {
        -1
    } else if s.last() == ':' {
        s.len() - 1
    } else {
        last_colon(s.drop_last())
    }
}

/// The part of `s` before the last colon; empty if there is no colon.
pub open spec fn key_part(s: Seq<char>) -> Seq<char> {
    if last_colon(s) >= 0 {
        s.take(last_colon(s))
    } else {
        Seq::empty()
    }
}

/// The part of `s` after the last colon; all of `s` if there is no
/// colon.
pub open spec fn val_part(s: Seq<char>) -> Seq<char> {
    if last_colon(s) >= 0 {
        s.skip(last_colon(s) + 1)
    } else {
        s
    }
}

/// A `key:value` pair whose value (or, on the client, whose key) does
/// not read as a port number.
#[derive(Clone, Copy, Debug, PartialEq, Eq, Structural)]
pub enum ParseError {
    /// The part before the last colon is not a port number.
    InvalidKey,
    /// The part after the last colon is not a port number.
    InvalidValue,
}

/// Growing a digit string never shrinks its value: the value of a
/// prefix bounds the value of the whole from below.
proof fn lemma_dec_value_prefix_bound(s: Seq<char>, i: int)
    requires
        0 <= i <= s.len(),
    ensures
        dec_value(s.take(i)) <= dec_value(s),
    decreases s.len() - i,
{
    if i < s.len() {
        assert(s.take(i + 1).drop_last() =~= s.take(i));
        assert(dec_value(s.take(i)) <= dec_value(s.take(i + 1)));
        lemma_dec_value_prefix_bound(s, i + 1);
    } else {
        assert(s.take(i) =~= s);
    }
}

/// Parses `s` as a decimal port number: every character (after an
/// optional leading `+`) must be a digit and the value must fit in 16
/// bits.
pub fn parse_u16(s: &str) -> (r: Option<u16>)
    ensures
        is_port_text(s@) ==> r == Some((port_text_value(s@) as u16)),
        !is_port_text(s@) ==> r is None,
{
    let len = s.unicode_len();
    let ghost t = strip_plus(s@);
    let start: usize = if len >= 2 && s.get_char(0) == '+' {
        1
    } else {
        0
    };
    proof {
        assert(t =~= s@.skip(start as int));
    }
    if len == start {
        proof {
            assert(!all_dec_digits(t));
        }
        return None;
    }
    let mut acc: u32 = 0;
    let mut i: usize = start;
    while i < len
        invariant
            start <= i <= len,
            len == s@.len(),
            t == s@.skip(start as int),
            t == strip_plus(s@),
            forall|j: int| start <= j < i ==> is_dec_digit(#[trigger] s@[j]),
            acc == dec_value(t.take(i - start)),
            acc <= 0xffff,
        decreases len - i,
    {
        let c = s.get_char(i);
        let code = c as u32;
        if code < 48 || code > 57 {
            proof {
                assert(t[i - start] == s@[i as int]);
                assert(!all_dec_digits(t));
            }
            return None;
        }
        proof {
            assert(t.take(i - start + 1).drop_last() =~= t.take(i - start));
            assert(t.take(i - start + 1).last() == s@[i as int]);
        }
        acc = acc * 10 + (code - 48);
        i += 1;
        if acc > 0xffff {
            proof {
                lemma_dec_value_prefix_bound(t, i - start);
            }
            return None;
        }
    }
    proof {
        assert(t.take(i - start) =~= t);
        assert(all_dec_digits(t));
    }
    Some(acc as u16)
}

/// Index of the last `:` in `s`, if any.
fn find_last_colon(s: &str) -> (r: Option<usize>)
    ensures
        last_colon(s@) >= 0 ==> (r == Some(last_colon(s@) as usize) && last_colon(s@) < s@.len()),
        last_colon(s@) < 0 ==> r is None,
{
    let len = s.unicode_len();
    let mut i: usize = len;
    while i > 0
        invariant
            0 <= i <= len,
            len == s@.len(),
            forall|j: int| i <= j < len ==> s@[j] != ':',
        decreases i,
    {
        i -= 1;
        if s.get_char(i) == ':' {
            proof {
                lemma_last_colon_at(s@, i as int);
            }
            return Some(i);
        }
    }
    proof {
        lemma_last_colon_none(s@);
    }
    None
}

/// If `s[p]` is a colon and nothing after it is, then `p` is the last
/// colon.
proof fn lemma_last_colon_at(s: Seq<char>, p: int)
    requires
        0 <= p < s.len(),
        s[p] == ':',
        forall|j: int| p < j < s.len() ==> s[j] != ':',
    ensures
        last_colon(s) == p,
    decreases s.len(),
{
    if p == s.len() - 1 {
    } else {
        assert(s.drop_last()[p] == ':');
        lemma_last_colon_at(s.drop_last(), p);
    }
}

/// If no character of `s` is a colon, there is no last colon.
proof fn lemma_last_colon_none(s: Seq<char>)
    requires
        forall|j: int| 0 <= j < s.len() ==> s[j] != ':',
    ensures
        last_colon(s) == -1,
    decreases s.len(),
{
    if s.len() > 0 {
        lemma_last_colon_none(s.drop_last());
    }
}

/// Splits `s` at its last colon into a key and a port number.
///
/// Without a colon the whole of `s` is the port and the key defaults to
/// the empty string.  The key is taken verbatim; only the port must
/// parse.
pub fn parse_key_val(s: &str) -> (r: Result<(String, u16), ParseError>)
    ensures
        is_port_text(val_part(s@)) ==> (r matches Ok((k, v)) && k@ == key_part(s@) && v
            == port_text_value(val_part(s@))),
        !is_port_text(val_part(s@)) ==> r == Err::<(String, u16), ParseError>(
            ParseError::InvalidValue,
        ),
{
    let len = s.unicode_len();
    match find_last_colon(s) {
        Some(pos) => {
            let key = String::from_str(s.substring_char(0, pos));
            let val = s.substring_char(pos + 1, len);
            match parse_u16(val) {
                Some(v) => Ok((key, v)),
                None => Err(ParseError::InvalidValue),
            }
        }
        None => {
            match parse_u16(s) {
                Some(v) => Ok((String::new(), v)),
                None => Err(ParseError::InvalidValue),
            }
        }
    }
}

/// Splits `s` at its last colon into two port numbers.
///
/// Without a colon the whole of `s` is the value and the key defaults
/// to port `0`.
pub fn parse_port_pair(s: &str) -> (r: Result<(u16, u16), ParseError>)
    ensures
        r matches Ok((k, v)) ==> (is_port_text(val_part(s@)) && v == port_text_value(
            val_part(s@),
        )),
        ({
            let has_key = last_colon(s@) >= 0;
            if has_key && !is_port_text(key_part(s@)) {
                r == Err::<(u16, u16), ParseError>(ParseError::InvalidKey)
            } else if !is_port_text(val_part(s@)) {
                r == Err::<(u16, u16), ParseError>(ParseError::InvalidValue)
            } else {
                r matches Ok((k, v)) && v == port_text_value(val_part(s@)) && k == (if has_key {
                    port_text_value(key_part(s@)) as u16
                } else {
                    0
                })
            }
        }),
{
    let len = s.unicode_len();
    match find_last_colon(s) {
        Some(pos) => {
            let key = s.substring_char(0, pos);
            let val = s.substring_char(pos + 1, len);
            match parse_u16(key) {
                Some(k) => match parse_u16(val) {
                    Some(v) => Ok((k, v)),
                    None => Err(ParseError::InvalidValue),
                },
                None => Err(ParseError::InvalidKey),
            }
        }
        None => {
            match parse_u16(s) {
                Some(v) => Ok((0, v)),
                None => Err(ParseError::InvalidValue),
            }
        }
    }
}

/// The decimal digits of `n`, most significant first.
pub open spec fn dec_digits(n: nat) -> Seq<char>
    decreases n,
{
    if n < 10 {
        seq![digit_char(n)]
    } else {
        dec_digits(n / 10).push(digit_char(n % 10))
    }
}

/// The digit character for `d`; meaningful for `d < 10`.
pub open spec fn digit_char(d: nat) -> char {
    ((d + 48) as u8) as char
}

/// The one-character string for the decimal digit `d`.
fn digit_str(d: u8) -> (r: &'static str)
    requires
        d < 10,
    ensures
        r@ =~= seq![digit_char(d as nat)],
{
    proof {
        reveal_strlit("0");
        reveal_strlit("1");
        reveal_strlit("2");
        reveal_strlit("3");
        reveal_strlit("4");
        reveal_strlit("5");
        reveal_strlit("6");
        reveal_strlit("7");
        reveal_strlit("8");
        reveal_strlit("9");
    }
    match d {
        0 => "0",
        1 => "1",
        2 => "2",
        3 => "3",
        4 => "4",
        5 => "5",
        6 => "6",
        7 => "7",
        8 => "8",
        _ => "9",
    }
}

/// Writes `n` in decimal, most significant digit first, no sign and no
/// leading zeros.
pub fn u16_to_dec(n: u16) -> (r: String)
    ensures
        r@ == dec_digits(n as nat),
    decreases n,
{
    if n < 10 {
        String::from_str(digit_str(n as u8))
    } else {
        let head = u16_to_dec(n / 10);
        let r = head.concat(digit_str((n % 10) as u8));
        proof {
            assert(r@ =~= dec_digits(n as nat));
        }
        r
    }
}

} // verus!
