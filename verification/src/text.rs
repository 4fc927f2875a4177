//! Text building blocks: decimal formatting of unsigned integers, parsing of
//! decimal `u64` values with the standard library's semantics, JSON string
//! escaping, and string comparison, each proved against a direct
//! specification.

use vstd::prelude::*;

verus! {

/// The decimal digit character for a value below ten.
pub open spec fn digit_char(d: nat) -> char {
    if d == 0 {
        '0'
    } else if d == 1 {
        '1'
    } else if d == 2 {
        '2'
    } else if d == 3 {
        '3'
    } else if d == 4 {
        '4'
    } else if d == 5 {
        '5'
    } else if d == 6 {
        '6'
    } else if d == 7 {
        '7'
    } else if d == 8 {
        '8'
    } else {
        '9'
    }
}

/// The decimal rendering of `n`, most significant digit first, with no sign
/// and no leading zeros (a single `'0'` for zero).
pub open spec fn dec_digits(n: nat) -> Seq<char>
    decreases n,
{
    if n < 10 {
        seq![digit_char(n)]
    } else {
        dec_digits(n / 10).push(digit_char(n % 10))
    }
}

/// The lowercase hexadecimal digit character for a value below sixteen.
pub open spec fn hex_digit_char(d: nat) -> char {
    if d < 10 {
        digit_char(d)
    } else if d == 10 {
        'a'
    } else if d == 11 {
        'b'
    } else if d == 12 {
        'c'
    } else if d == 13 {
        'd'
    } else if d == 14 {
        'e'
    } else {
        'f'
    }
}

/// Whether `c` is an ASCII decimal digit.
pub open spec fn is_digit_char(c: char) -> bool {
    48 <= (c as u32) && (c as u32) <= 57
}

/// The numeric value of an ASCII decimal digit character.
pub open spec fn digit_val(c: char) -> nat {
    (c as u32 - 48) as nat
}

/// Whether every character of `s` is an ASCII decimal digit.
pub open spec fn all_digit_chars(s: Seq<char>) -> bool {
    forall|i: int| 0 <= i < s.len() ==> is_digit_char(#[trigger] s[i])
}

/// The numeric value of a sequence of decimal digit characters, most
/// significant digit first; the empty sequence has value zero.
pub open spec fn dec_val(s: Seq<char>) -> nat
    decreases s.len(),
{
    if s.len() == 0 {
        0
    } else {
        dec_val(s.drop_last()) * 10 + digit_val(s.last())
    }
}

/// What `str::parse::<u64>` accepts: an optional leading `'+'`, then at least
/// one ASCII decimal digit and nothing else, with a value that fits in `u64`;
/// anything else parses to `None`.
pub open spec fn parse_u64_chars(s: Seq<char>) -> Option<u64> {
    let t = if s.len() > 0 && s[0] == '+' {
        s.drop_first()
    } else {
        s
    };
    if t.len() == 0 || !all_digit_chars(t) || dec_val(t) > u64::MAX {
        None
    } else {
        Some(dec_val(t) as u64)
    }
}

/// How one character is written inside a JSON string: quote and backslash get
/// a backslash escape, the five control characters with short escapes get
/// those, any other control character below space becomes `\u00` and two
/// lowercase hex digits, and everything else stands for itself.
pub open spec fn esc_char(c: char) -> Seq<char> {
    if c == '"' {
        seq!['\\', '"']
    } else if c == '\\' {
        seq!['\\', '\\']
    } else if c == '\u{8}' {
        seq!['\\', 'b']
    } else if c == '\t' {
        seq!['\\', 't']
    } else if c == '\n' {
        seq!['\\', 'n']
    } else if c == '\u{c}' {
        seq!['\\', 'f']
    } else if c == '\r' {
        seq!['\\', 'r']
    } else if (c as u32) < 32 {
        seq!['\\', 'u', '0', '0', hex_digit_char((c as u32 / 16) as nat), hex_digit_char(
            (c as u32 % 16) as nat,
        )]
    } else {
        seq![c]
    }
}

/// The body of a JSON string: each character of `s` escaped in order.
pub open spec fn escape_chars(s: Seq<char>) -> Seq<char>
    decreases s.len(),
{
    if s.len() == 0 {
        Seq::empty()
    } else {
        escape_chars(s.drop_last()) + esc_char(s.last())
    }
}

/// A complete JSON string literal for `s`: the escaped body between quotes.
pub open spec fn json_string_chars(s: Seq<char>) -> Seq<char> {
    seq!['"'] + escape_chars(s) + seq!['"']
}

/// Relies on `String::push`: appends exactly the given character.
#[verifier::external_body]
fn push_char(out: &mut String, c: char)
    ensures
        final(out)@ == old(out)@.push(c),
{
    out.push(c);
}

/// Appends the decimal digit character for `d`.
fn push_digit(out: &mut String, d: u64)
    requires
        d < 10,
    ensures
        final(out)@ == old(out)@.push(digit_char(d as nat)),
{
    let c: char = if d == 0 {
        '0'
    } else if d == 1 {
        '1'
    } else if d == 2 {
        '2'
    } else if d == 3 {
        '3'
    } else if d == 4 {
        '4'
    } else if d == 5 {
        '5'
    } else if d == 6 {
        '6'
    } else if d == 7 {
        '7'
    } else if d == 8 {
        '8'
    } else {
        '9'
    };
    push_char(out, c);
}

/// Appends the decimal rendering of `n`.
pub fn push_dec_u64(out: &mut String, n: u64)
    ensures
        final(out)@ == old(out)@ + dec_digits(n as nat),
    decreases n,
{
    if n < 10 {
        push_digit(out, n);
        proof {
            assert(old(out)@ + dec_digits(n as nat) =~= old(out)@.push(digit_char(n as nat)));
        }
    } else {
        push_dec_u64(out, n / 10);
        push_digit(out, n % 10);
        proof {
            assert(old(out)@ + dec_digits(n as nat) =~= (old(out)@ + dec_digits(
                (n / 10) as nat,
            )).push(digit_char((n % 10) as nat)));
        }
    }
}

/// The decimal rendering of `n` as an owned string.
pub fn dec_u64_string(n: u64) -> (r: String)
    ensures
        r@ == dec_digits(n as nat),
{
    let mut out = String::new();
    push_dec_u64(&mut out, n);
    proof {
        assert(out@ =~= dec_digits(n as nat));
    }
    out
}

/// Extending a digit string cannot decrease its value.
proof fn lemma_dec_val_prefix_le(s: Seq<char>, i: int, j: int)
    requires
        0 <= i <= j <= s.len(),
    ensures
        dec_val(s.take(i)) <= dec_val(s.take(j)),
    decreases j - i,
{
    if i < j {
        lemma_dec_val_prefix_le(s, i, j - 1);
        assert(s.take(j).drop_last() =~= s.take(j - 1));
        assert(dec_val(s.take(j)) == dec_val(s.take(j - 1)) * 10 + digit_val(s.take(j).last()));
        assert(dec_val(s.take(j - 1)) * 10 >= dec_val(s.take(j - 1))) by (nonlinear_arith);
    }
}

/// Parses a decimal `u64` from the digit characters of `s` starting at
/// `from`, exactly as `str::parse::<u64>` treats the digit portion.
fn parse_digits(s: &str, from: usize) -> (r: Option<u64>)
    requires
        from < s@.len(),
    ensures
        ({
            let t = s@.skip(from as int);
            match r {
                Some(v) => all_digit_chars(t) && dec_val(t) == v,
                None => !all_digit_chars(t) || dec_val(t) > u64::MAX,
            }
        }),
{
    let ghost t = s@.skip(from as int);
    let len = s.unicode_len();
    let mut acc: u64 = 0;
    let mut j = from;
    while j < len
        invariant
            from <= j <= len,
            len == s@.len(),
            t == s@.skip(from as int),
            all_digit_chars(t.take(j - from)),
            acc == dec_val(t.take(j - from)),
        decreases len - j,
    {
        let c = s.get_char(j);
        let code = c as u32;
        proof {
            assert(t[j - from] == s@[j as int]);
        }
        if code < 48 || code > 57 {
            proof {
                assert(!is_digit_char(t[j - from]));
            }
            return None;
        }
        let d: u64 = (code - 48) as u64;
        let shifted = match acc.checked_mul(10) {
            Some(v) => v,
            None => {
                proof {
                    lemma_overflow_means_large(t, j - from, acc, d);
                }
                return None;
            },
        };
        let next = match shifted.checked_add(d) {
            Some(v) => v,
            None => {
                proof {
                    lemma_overflow_means_large(t, j - from, acc, d);
                }
                return None;
            },
        };
        proof {
            assert(t.take(j - from + 1).drop_last() =~= t.take(j - from));
            assert(t.take(j - from + 1).last() == t[j - from]);
        }
        acc = next;
        j = j + 1;
    }
    proof {
        assert(t.take(j - from) =~= t);
    }
    Some(acc)
}

/// If appending one more digit overflows `u64`, the whole digit string's
/// value exceeds `u64::MAX`.
proof fn lemma_overflow_means_large(t: Seq<char>, k: int, acc: u64, d: u64)
    requires
        0 <= k < t.len(),
        all_digit_chars(t.take(k)),
        acc == dec_val(t.take(k)),
        d == digit_val(t[k]),
        acc * 10 + d > u64::MAX,
    ensures
        dec_val(t) > u64::MAX,
{
    assert(t.take(k + 1).drop_last() =~= t.take(k));
    assert(t.take(k + 1).last() == t[k]);
    assert(dec_val(t.take(k + 1)) == acc * 10 + d);
    lemma_dec_val_prefix_le(t, k + 1, t.len() as int);
    assert(t.take(t.len() as int) =~= t);
}

/// Parses a `u64` with the standard library's semantics: an optional leading
/// `'+'`, then one or more ASCII decimal digits whose value fits in `u64`.
pub fn parse_u64(s: &str) -> (r: Option<u64>)
    ensures
        r == parse_u64_chars(s@),
{
    let len = s.unicode_len();
    if len == 0 {
        return None;
    }
    let first = s.get_char(0);
    let from: usize = if first == '+' {
        1
    } else {
        0
    };
    if from == len {
        proof {
            assert(s@.drop_first() =~= s@.skip(1));
        }
        return None;
    }
    let r = parse_digits(s, from);
    proof {
        if first == '+' {
            assert(s@.drop_first() =~= s@.skip(1));
        } else {
            assert(s@.skip(0) =~= s@);
        }
    }
    r
}

/// Appends the JSON escape of one character.
fn push_esc_char(out: &mut String, c: char)
    ensures
        final(out)@ == old(out)@ + esc_char(c),
{
    if c == '"' {
        push_char(out, '\\');
        push_char(out, '"');
        proof {
            assert(old(out)@ + esc_char(c) =~= old(out)@.push('\\').push('"'));
        }
    } else if c == '\\' {
        push_char(out, '\\');
        push_char(out, '\\');
        proof {
            assert(old(out)@ + esc_char(c) =~= old(out)@.push('\\').push('\\'));
        }
    } else if c == '\u{8}' {
        push_char(out, '\\');
        push_char(out, 'b');
        proof {
            assert(old(out)@ + esc_char(c) =~= old(out)@.push('\\').push('b'));
        }
    } else if c == '\t' {
        push_char(out, '\\');
        push_char(out, 't');
        proof {
            assert(old(out)@ + esc_char(c) =~= old(out)@.push('\\').push('t'));
        }
    } else if c == '\n' {
        push_char(out, '\\');
        push_char(out, 'n');
        proof {
            assert(old(out)@ + esc_char(c) =~= old(out)@.push('\\').push('n'));
        }
    } else if c == '\u{c}' {
        push_char(out, '\\');
        push_char(out, 'f');
        proof {
            assert(old(out)@ + esc_char(c) =~= old(out)@.push('\\').push('f'));
        }
    } else if c == '\r' {
        push_char(out, '\\');
        push_char(out, 'r');
        proof {
            assert(old(out)@ + esc_char(c) =~= old(out)@.push('\\').push('r'));
        }
    } else {
        let code = c as u32;
        if code < 32 {
            push_char(out, '\\');
            push_char(out, 'u');
            push_char(out, '0');
            push_char(out, '0');
            let hi: u64 = (code / 16) as u64;
            let lo: u64 = (code % 16) as u64;
            let hc: char = if hi == 0 {
                '0'
            } else {
                '1'
            };
            let lc: char = if lo < 10 {
                match lo {
                    0 => '0',
                    1 => '1',
                    2 => '2',
                    3 => '3',
                    4 => '4',
                    5 => '5',
                    6 => '6',
                    7 => '7',
                    8 => '8',
                    _ => '9',
                }
            } else {
                match lo {
                    10 => 'a',
                    11 => 'b',
                    12 => 'c',
                    13 => 'd',
                    14 => 'e',
                    _ => 'f',
                }
            };
            push_char(out, hc);
            push_char(out, lc);
            proof {
                assert(hc == hex_digit_char((code / 16) as nat));
                assert(lc == hex_digit_char((code % 16) as nat));
                assert(old(out)@ + esc_char(c) =~= old(out)@.push('\\').push('u').push('0').push(
                    '0',
                ).push(hc).push(lc));
            }
        } else {
            push_char(out, c);
            proof {
                assert(old(out)@ + esc_char(c) =~= old(out)@.push(c));
            }
        }
    }
}

/// Appends the escaped body of `s` (without the surrounding quotes).
fn push_escaped(out: &mut String, s: &str)
    ensures
        final(out)@ == old(out)@ + escape_chars(s@),
{
    let len = s.unicode_len();
    let mut j: usize = 0;
    proof {
        assert(out@ =~= old(out)@ + escape_chars(s@.take(0)));
    }
    while j < len
        invariant
            j <= len,
            len == s@.len(),
            out@ == old(out)@ + escape_chars(s@.take(j as int)),
        decreases len - j,
    {
        let c = s.get_char(j);
        let ghost pre = out@;
        push_esc_char(out, c);
        proof {
            assert(s@.take(j + 1).drop_last() =~= s@.take(j as int));
            assert(s@.take(j + 1).last() == s@[j as int]);
            assert(escape_chars(s@.take(j + 1)) == escape_chars(s@.take(j as int)) + esc_char(c));
            assert(out@ =~= old(out)@ + escape_chars(s@.take(j + 1)));
        }
        j = j + 1;
    }
    proof {
        assert(s@.take(len as int) =~= s@);
    }
}

/// Appends the complete JSON string literal for `s`.
pub fn push_json_string(out: &mut String, s: &str)
    ensures
        final(out)@ == old(out)@ + json_string_chars(s@),
{
    push_char(out, '"');
    push_escaped(out, s);
    push_char(out, '"');
    proof {
        assert(old(out)@ + json_string_chars(s@) =~= (old(out)@.push('"') + escape_chars(
            s@,
        )).push('"'));
    }
}

/// Compares two string slices character by character.
pub fn str_eq(a: &str, b: &str) -> (r: bool)
    ensures
        r == (a@ == b@),
{
    let alen = a.unicode_len();
    let blen = b.unicode_len();
    if alen != blen {
        return false;
    }
    let mut j: usize = 0;
    while j < alen
        invariant
            j <= alen,
            alen == a@.len(),
            alen == b@.len(),
            forall|i: int| 0 <= i < j ==> a@[i] == b@[i],
        decreases alen - j,
    {
        if a.get_char(j) != b.get_char(j) {
            return false;
        }
        j = j + 1;
    }
    proof {
        assert(a@ =~= b@);
    }
    true
}

} // verus!
