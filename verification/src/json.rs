//! Verified JSON framing of file records.
//!
//! Records are serialized as compact JSON objects with a stable,
//! alphabetical key order. Timestamps are written as exact decimal
//! seconds (sign, whole seconds, a dot, and the nanosecond digits with
//! trailing zeros removed but at least one digit kept), so the sentinel
//! timestamp serializes as exactly `0.0`. Strings are escaped as JSON
//! requires: quote, backslash and every control character.

use vstd::prelude::*;
use vstd::arithmetic::div_mod::lemma_fundamental_div_mod_converse;
use crate::record::{FileRecord, Timestamp, NANOS_PER_SEC};

verus! {

/// The character for one decimal digit value.
pub open spec fn digit_of(d: nat) -> char {
    if d == 0 {
        '0'
    } else if d == 1 {
        '1'
    } else if d == 2 {
        '2'
    } else if d == 3 {
        '3'
    } else if d == 4 {
        '4'
    } else if d == 5 {
        '5'
    } else if d == 6 {
        '6'
    } else if d == 7 {
        '7'
    } else if d == 8 {
        '8'
    } else {
        '9'
    }
}

/// The character for one lowercase hexadecimal digit value.
pub open spec fn hex_digit_of(d: nat) -> char {
    if d < 10 {
        digit_of(d)
    } else if d == 10 {
        'a'
    } else if d == 11 {
        'b'
    } else if d == 12 {
        'c'
    } else if d == 13 {
        'd'
    } else if d == 14 {
        'e'
    } else {
        'f'
    }
}

/// The shortest decimal numeral of a natural number, most significant
/// digit first.
pub open spec fn dec_of(n: nat) -> Seq<char>
    decreases n,
{
    if n < 10 {
        seq![digit_of(n)]
    } else {
        dec_of(n / 10).push(digit_of(n % 10))
    }
}

/// The decimal numeral of `n` zero-padded to exactly `w` digits
/// (meaningful for `n < 10^w`).
pub open spec fn padded_dec_of(n: nat, w: nat) -> Seq<char>
    decreases w,
{
    if w <= 1 {
        seq![digit_of(n % 10)]
    } else {
        padded_dec_of(n / 10, (w - 1) as nat).push(digit_of(n % 10))
    }
}

/// The `w`-digit zero-padded numeral of `n` with trailing zeros removed,
/// keeping at least one digit: the fractional part of a decimal
/// timestamp.
pub open spec fn frac_dec_of(n: nat, w: nat) -> Seq<char>
    decreases w,
{
    if w > 1 && n % 10 == 0 {
        frac_dec_of(n / 10, (w - 1) as nat)
    } else {
        padded_dec_of(n, w)
    }
}

/// The decimal serialization of a timestamp: its exact value in seconds,
/// written as an optional minus sign, the whole seconds, a dot, and the
/// trimmed nanosecond digits. The sentinel timestamp reads `0.0`.
pub open spec fn ts_dec_of(t: Timestamp) -> Seq<char> {
    let tot = t.total_nanos();
    if tot < 0 {
        seq!['-'] + dec_of(((-tot) / (NANOS_PER_SEC as int)) as nat) + seq!['.'] + frac_dec_of(
            ((-tot) % (NANOS_PER_SEC as int)) as nat,
            9,
        )
    } else {
        dec_of((tot / (NANOS_PER_SEC as int)) as nat) + seq!['.'] + frac_dec_of(
            (tot % (NANOS_PER_SEC as int)) as nat,
            9,
        )
    }
}

/// What one character contributes to a JSON string body: itself, or its
/// escape sequence for the quote, the backslash and control characters.
pub open spec fn esc_char(c: char) -> Seq<char> {
    if c == '"' {
        seq!['\\', '"']
    } else if c == '\\' {
        seq!['\\', '\\']
    } else if c == '\u{8}' {
        seq!['\\', 'b']
    } else if c == '\t' {
        seq!['\\', 't']
    } else if c == '\n' {
        seq!['\\', 'n']
    } else if c == '\u{c}' {
        seq!['\\', 'f']
    } else if c == '\r' {
        seq!['\\', 'r']
    } else if (c as u32) < 32 {
        seq!['\\', 'u', '0', '0'] + seq![
            hex_digit_of(((c as u32) / 16) as nat),
            hex_digit_of(((c as u32) % 16) as nat),
        ]
    } else {
        seq![c]
    }
}

/// The escaped body of a JSON string.
pub open spec fn json_escape(s: Seq<char>) -> Seq<char>
    decreases s.len(),
{
    if s.len() == 0 {
        Seq::<char>::empty()
    } else {
        json_escape(s.drop_last()) + esc_char(s.last())
    }
}

/// A JSON string literal: the escaped body between double quotes.
pub open spec fn json_string_of(s: Seq<char>) -> Seq<char> {
    seq!['"'] + json_escape(s) + seq!['"']
}

/// The JSON object for one record: all fields of the schema, in
/// alphabetical key order, compactly separated.
pub open spec fn json_of_record(r: FileRecord) -> Seq<char> {
    "{\"atime\":"@ + ts_dec_of(r.atime) + ",\"ctime\":"@ + ts_dec_of(r.ctime) + ",\"fetched\":"@
        + json_string_of(r.fetched@) + ",\"file\":"@ + json_string_of(r.file@) + ",\"group\":"@
        + json_string_of(r.group@) + ",\"host\":"@ + json_string_of(r.host@) + ",\"mtime\":"@
        + ts_dec_of(r.mtime) + ",\"perms\":"@ + dec_of(r.perms as nat) + ",\"size\":"@ + dec_of(
        r.size as nat,
    ) + ",\"user\":"@ + json_string_of(r.user@) + "}"@
}

/// Relies on String::push: appends the given character to the end of
/// this string.
#[verifier::external_body]
fn push_char(s: &mut String, c: char)
    ensures
        final(s)@ == old(s)@.push(c),
{
    s.push(c)
}

/// The character for a decimal digit below ten.
fn digit_char(d: u64) -> (c: char)
    requires
        d < 10,
    ensures
        c == digit_of(d as nat),
{
    match d {
        0 => '0',
        1 => '1',
        2 => '2',
        3 => '3',
        4 => '4',
        5 => '5',
        6 => '6',
        7 => '7',
        8 => '8',
        _ => '9',
    }
}

/// The character for a lowercase hexadecimal digit below sixteen.
fn hex_digit_char(d: u32) -> (c: char)
    requires
        d < 16,
    ensures
        c == hex_digit_of(d as nat),
{
    match d {
        0 => '0',
        1 => '1',
        2 => '2',
        3 => '3',
        4 => '4',
        5 => '5',
        6 => '6',
        7 => '7',
        8 => '8',
        9 => '9',
        10 => 'a',
        11 => 'b',
        12 => 'c',
        13 => 'd',
        14 => 'e',
        _ => 'f',
    }
}

/// Appends the shortest decimal numeral of `n`.
fn push_decimal_u64(out: &mut String, n: u64)
    ensures
        final(out)@ == old(out)@ + dec_of(n as nat),
    decreases n,
{
    if n < 10 {
        push_char(out, digit_char(n));
        assert(final(out)@ =~= old(out)@ + dec_of(n as nat));
    } else {
        push_decimal_u64(out, n / 10);
        push_char(out, digit_char(n % 10));
        assert(final(out)@ =~= old(out)@ + dec_of(n as nat));
    }
}

/// Appends the numeral of `n` zero-padded to `w` digits.
fn push_padded_dec(out: &mut String, n: u32, w: u32)
    requires
        w >= 1,
    ensures
        final(out)@ == old(out)@ + padded_dec_of(n as nat, w as nat),
    decreases w,
{
    if w == 1 {
        push_char(out, digit_char((n % 10) as u64));
        assert(final(out)@ =~= old(out)@ + padded_dec_of(n as nat, w as nat));
    } else {
        push_padded_dec(out, n / 10, w - 1);
        push_char(out, digit_char((n % 10) as u64));
        assert(final(out)@ =~= old(out)@ + padded_dec_of(n as nat, w as nat));
    }
}

/// Appends the trimmed nine-digit fraction of a nanosecond count.
fn push_frac(out: &mut String, f: u32)
    requires
        f < NANOS_PER_SEC,
    ensures
        final(out)@ == old(out)@ + frac_dec_of(f as nat, 9),
{
    let mut n: u32 = f;
    let mut w: u32 = 9;
    while w > 1 && n % 10 == 0
        invariant
            1 <= w <= 9,
            frac_dec_of(f as nat, 9) == frac_dec_of(n as nat, w as nat),
        decreases w,
    {
        n = n / 10;
        w = w - 1;
    }
    push_padded_dec(out, n, w);
}

/// Appends the exact decimal seconds of a timestamp.
fn push_timestamp(out: &mut String, t: &Timestamp)
    requires
        t.wf(),
    ensures
        final(out)@ == old(out)@ + ts_dec_of(*t),
{
    let ghost tot: int = t.total_nanos();
    if t.sec >= 0 {
        proof {
            lemma_fundamental_div_mod_converse(
                tot,
                NANOS_PER_SEC as int,
                t.sec as int,
                t.nsec as int,
            );
        }
        push_decimal_u64(out, t.sec as u64);
        push_char(out, '.');
        push_frac(out, t.nsec);
        assert(final(out)@ =~= old(out)@ + ts_dec_of(*t));
    } else if t.nsec == 0 {
        let whole: u64 = ((-(t.sec + 1)) as u64) + 1;
        proof {
            lemma_fundamental_div_mod_converse(-tot, NANOS_PER_SEC as int, whole as int, 0);
        }
        push_char(out, '-');
        push_decimal_u64(out, whole);
        push_char(out, '.');
        push_frac(out, 0);
        assert(final(out)@ =~= old(out)@ + ts_dec_of(*t));
    } else {
        let whole: u64 = (-(t.sec + 1)) as u64;
        let frac: u32 = NANOS_PER_SEC - t.nsec;
        proof {
            lemma_fundamental_div_mod_converse(
                -tot,
                NANOS_PER_SEC as int,
                whole as int,
                frac as int,
            );
        }
        push_char(out, '-');
        push_decimal_u64(out, whole);
        push_char(out, '.');
        push_frac(out, frac);
        assert(final(out)@ =~= old(out)@ + ts_dec_of(*t));
    }
}

/// Appends the escape of one character.
fn push_escaped_char(out: &mut String, c: char)
    ensures
        final(out)@ == old(out)@ + esc_char(c),
{
    if c == '"' {
        out.append("\\\"");
        proof {
            reveal_strlit("\\\"");
            assert(final(out)@ =~= old(out)@ + esc_char(c));
        }
    } else if c == '\\' {
        out.append("\\\\");
        proof {
            reveal_strlit("\\\\");
            assert(final(out)@ =~= old(out)@ + esc_char(c));
        }
    } else if c == '\u{8}' {
        out.append("\\b");
        proof {
            reveal_strlit("\\b");
            assert(final(out)@ =~= old(out)@ + esc_char(c));
        }
    } else if c == '\t' {
        out.append("\\t");
        proof {
            reveal_strlit("\\t");
            assert(final(out)@ =~= old(out)@ + esc_char(c));
        }
    } else if c == '\n' {
        out.append("\\n");
        proof {
            reveal_strlit("\\n");
            assert(final(out)@ =~= old(out)@ + esc_char(c));
        }
    } else if c == '\u{c}' {
        out.append("\\f");
        proof {
            reveal_strlit("\\f");
            assert(final(out)@ =~= old(out)@ + esc_char(c));
        }
    } else if c == '\r' {
        out.append("\\r");
        proof {
            reveal_strlit("\\r");
            assert(final(out)@ =~= old(out)@ + esc_char(c));
        }
    } else {
        let code: u32 = c as u32;
        if code < 32 {
            out.append("\\u00");
            push_char(out, hex_digit_char(code / 16));
            push_char(out, hex_digit_char(code % 16));
            proof {
                reveal_strlit("\\u00");
                assert(final(out)@ =~= old(out)@ + esc_char(c));
            }
        } else {
            push_char(out, c);
            assert(final(out)@ =~= old(out)@ + esc_char(c));
        }
    }
}

/// Appends the JSON string literal for `s`.
fn push_json_string(out: &mut String, s: &str)
    ensures
        final(out)@ == old(out)@ + json_string_of(s@),
{
    let ghost init: Seq<char> = out@;
    push_char(out, '"');
    let len: usize = s.unicode_len();
    let mut i: usize = 0;
    while i < len
        invariant
            i <= len,
            len == s@.len(),
            out@ == init + seq!['"'] + json_escape(s@.subrange(0, i as int)),
        decreases len - i,
    {
        let c = s.get_char(i);
        push_escaped_char(out, c);
        proof {
            let pre = s@.subrange(0, i as int);
            let post = s@.subrange(0, i + 1 as int);
            assert(post.drop_last() =~= pre);
            assert(post.last() == s@[i as int]);
            assert(out@ =~= init + seq!['"'] + json_escape(post));
        }
        i = i + 1;
    }
    push_char(out, '"');
    proof {
        assert(s@.subrange(0, len as int) =~= s@);
        assert(out@ =~= init + json_string_of(s@));
    }
}

/// Serializes one record as its JSON object: every field of the schema,
/// alphabetically keyed, exactly as [`json_of_record`] states.
pub fn record_json(r: &FileRecord) -> (out: String)
    requires
        r.wf(),
    ensures
        out@ == json_of_record(*r),
{
    let mut out = String::new();
    out.append("{\"atime\":");
    push_timestamp(&mut out, &r.atime);
    out.append(",\"ctime\":");
    push_timestamp(&mut out, &r.ctime);
    out.append(",\"fetched\":");
    push_json_string(&mut out, r.fetched.as_str());
    out.append(",\"file\":");
    push_json_string(&mut out, r.file.as_str());
    out.append(",\"group\":");
    push_json_string(&mut out, r.group.as_str());
    out.append(",\"host\":");
    push_json_string(&mut out, r.host.as_str());
    out.append(",\"mtime\":");
    push_timestamp(&mut out, &r.mtime);
    out.append(",\"perms\":");
    push_decimal_u64(&mut out, r.perms as u64);
    out.append(",\"size\":");
    push_decimal_u64(&mut out, r.size);
    out.append(",\"user\":");
    push_json_string(&mut out, r.user.as_str());
    out.append("}");
    proof {
        assert(out@ =~= json_of_record(*r));
    }
    out
}

/// The exact decimal serialization of one timestamp, as it appears in
/// the emitted JSON: [`ts_dec_of`] of the value.
pub fn timestamp_decimal(t: &Timestamp) -> (out: String)
    requires
        t.wf(),
    ensures
        out@ == ts_dec_of(*t),
{
    let mut out = String::new();
    push_timestamp(&mut out, t);
    proof {
        assert(out@ =~= ts_dec_of(*t));
    }
    out
}

/// The character is one of the ten decimal digits.
pub open spec fn is_digit_char(c: char) -> bool {
    48 <= c as u32 <= 57
}

/// A decimal numeral is a valid JSON integer token: at least one
/// character, digits throughout, and no leading zero unless the value
/// is zero itself.
pub proof fn lemma_dec_of_is_numeral(n: nat)
    ensures
        dec_of(n).len() >= 1,
        forall|i: int| 0 <= i < dec_of(n).len() ==> is_digit_char(#[trigger] dec_of(n)[i]),
        n >= 1 ==> dec_of(n)[0] != '0',
    decreases n,
{
    if n >= 10 {
        lemma_dec_of_is_numeral(n / 10);
        assert(dec_of(n) == dec_of(n / 10).push(digit_of(n % 10)));
        assert(dec_of(n)[0] == dec_of(n / 10)[0]);
    }
}

/// A trimmed fraction is never empty and holds digits only.
pub proof fn lemma_frac_of_is_digits(n: nat, w: nat)
    ensures
        frac_dec_of(n, w).len() >= 1,
        forall|i: int|
            0 <= i < frac_dec_of(n, w).len() ==> is_digit_char(#[trigger] frac_dec_of(n, w)[i]),
    decreases w,
{
    if w > 1 && n % 10 == 0 {
        lemma_frac_of_is_digits(n / 10, (w - 1) as nat);
    } else {
        lemma_padded_is_digits(n, w);
    }
}

/// A zero-padded numeral holds digits only.
proof fn lemma_padded_is_digits(n: nat, w: nat)
    ensures
        padded_dec_of(n, w).len() >= 1,
        forall|i: int|
            0 <= i < padded_dec_of(n, w).len() ==> is_digit_char(
                #[trigger] padded_dec_of(n, w)[i],
            ),
    decreases w,
{
    if w > 1 {
        lemma_padded_is_digits(n / 10, (w - 1) as nat);
        assert(padded_dec_of(n, w) == padded_dec_of(n / 10, (w - 1) as nat).push(
            digit_of(n % 10),
        ));
    }
}

/// Every decimal digit character is printable.
proof fn lemma_digit_printable(d: nat)
    ensures
        digit_of(d) as u32 >= 32,
{
}

/// Every lowercase hexadecimal digit character is printable.
proof fn lemma_hex_digit_printable(d: nat)
    ensures
        hex_digit_of(d) as u32 >= 32,
{
    lemma_digit_printable(d);
}

/// Escaping leaves no raw control character behind: every character of
/// an escaped string body is printable, each control character of the
/// input having become a backslash escape. A string member of an emitted
/// record can therefore never end its JSON string early or corrupt the
/// surrounding text.
pub proof fn lemma_escape_has_no_raw_controls(s: Seq<char>)
    ensures
        forall|i: int|
            0 <= i < json_escape(s).len() ==> (#[trigger] json_escape(s)[i]) as u32 >= 32,
    decreases s.len(),
{
    if s.len() > 0 {
        lemma_escape_has_no_raw_controls(s.drop_last());
        let pre = json_escape(s.drop_last());
        let c = s.last();
        let e = esc_char(c);
        assert forall|i: int| 0 <= i < e.len() implies (#[trigger] e[i]) as u32 >= 32 by {
            lemma_hex_digit_printable(((c as u32) / 16) as nat);
            lemma_hex_digit_printable(((c as u32) % 16) as nat);
        }
        assert(json_escape(s) == pre + e);
        assert forall|i: int| 0 <= i < json_escape(s).len() implies (#[trigger] json_escape(
            s,
        )[i]) as u32 >= 32 by {
            if i < pre.len() {
                assert(json_escape(s)[i] == pre[i]);
            } else {
                assert(json_escape(s)[i] == e[i - pre.len()]);
            }
        }
    }
}

/// The sentinel timestamp serializes as exactly `0.0`, never as a
/// computed negative epoch offset.
pub proof fn lemma_sentinel_serializes_zero(t: Timestamp)
    requires
        t.is_sentinel(),
    ensures
        ts_dec_of(t) == "0.0"@,
{
    reveal_strlit("0.0");
    assert(frac_dec_of(0, 9) =~= seq!['0']) by {
        reveal_with_fuel(frac_dec_of, 10);
    }
    assert(ts_dec_of(t) =~= "0.0"@);
}

} // verus!
