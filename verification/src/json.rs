//! Canonical compact JSON text: the deterministic intermediate form used by
//! the request bodies and the session token.
//!
//! The encoding mirrors the service's wire contract: object fields in a
//! fixed order, no whitespace, strings escaped with the two-character
//! escapes for quote, backslash, backspace, tab, newline, form feed and
//! carriage return, and `\u00XX` (lowercase hex) for the remaining control
//! characters.  Everything else, multi-byte characters included, is emitted
//! verbatim.

use vstd::prelude::*;

use crate::metadata::views_of_strings;

verus! {

/// Lowercase hexadecimal digit for a value below sixteen.
pub open spec fn hex_char(x: int) -> char {
    if x == 0 {
        '0'
    } else if x == 1 {
        '1'
    } else if x == 2 {
        '2'
    } else if x == 3 {
        '3'
    } else if x == 4 {
        '4'
    } else if x == 5 {
        '5'
    } else if x == 6 {
        '6'
    } else if x == 7 {
        '7'
    } else if x == 8 {
        '8'
    } else if x == 9 {
        '9'
    } else if x == 10 {
        'a'
    } else if x == 11 {
        'b'
    } else if x == 12 {
        'c'
    } else if x == 13 {
        'd'
    } else if x == 14 {
        'e'
    } else {
        'f'
    }
}

/// How one character is written inside a JSON string literal.
pub open spec fn esc_char(c: char) -> Seq<char> {
    let x = c as int;
    if x == 34 {
        "\\\""@
    } else if x == 92 {
        "\\\\"@
    } else if x >= 32 {
        seq![c]
    } else if x == 8 {
        "\\b"@
    } else if x == 9 {
        "\\t"@
    } else if x == 10 {
        "\\n"@
    } else if x == 12 {
        "\\f"@
    } else if x == 13 {
        "\\r"@
    } else {
        "\\u00"@ + seq![hex_char(x / 16), hex_char(x % 16)]
    }
}

/// The escaped body of a JSON string literal.
pub open spec fn json_escape(s: Seq<char>) -> Seq<char>
    decreases s.len(),
{
    if s.len() == 0 {
        Seq::empty()
    } else {
        json_escape(s.drop_last()) + esc_char(s.last())
    }
}

/// A complete JSON string literal: quote, escaped body, quote.
pub open spec fn json_string(s: Seq<char>) -> Seq<char> {
    "\""@ + json_escape(s) + "\""@
}

/// A JSON boolean literal.
pub open spec fn json_bool(b: bool) -> Seq<char> {
    if b {
        "true"@
    } else {
        "false"@
    }
}

/// Decimal digits of a non-negative integer, most significant first.
pub open spec fn nat_chars(n: int) -> Seq<char>
    recommends
        n >= 0,
    decreases n,
{
    if n < 10 {
        seq![hex_char(n)]
    } else {
        nat_chars(n / 10) + seq![hex_char(n % 10)]
    }
}

/// A JSON integer literal, with a leading minus sign when negative.
pub open spec fn int_chars(n: int) -> Seq<char> {
    if n < 0 {
        "-"@ + nat_chars(-n)
    } else {
        nat_chars(n)
    }
}

/// The comma-separated items of a JSON array of strings.
pub open spec fn json_strings_inner(parts: Seq<Seq<char>>) -> Seq<char>
    decreases parts.len(),
{
    if parts.len() == 0 {
        Seq::empty()
    } else if parts.len() == 1 {
        json_string(parts[0])
    } else {
        json_strings_inner(parts.drop_last()) + ","@ + json_string(parts.last())
    }
}

/// A JSON array of string literals.
pub open spec fn json_string_array(parts: Seq<Seq<char>>) -> Seq<char> {
    "["@ + json_strings_inner(parts) + "]"@
}

/// Comma-separated concatenation of already-rendered fragments (used for
/// the optional fields of an object).
pub open spec fn comma_join(parts: Seq<Seq<char>>) -> Seq<char>
    decreases parts.len(),
{
    if parts.len() == 0 {
        Seq::empty()
    } else if parts.len() == 1 {
        parts[0]
    } else {
        comma_join(parts.drop_last()) + ","@ + parts.last()
    }
}

/// The strings joined by single spaces, in order.
pub open spec fn join_spaces(parts: Seq<Seq<char>>) -> Seq<char>
    decreases parts.len(),
{
    if parts.len() == 0 {
        Seq::empty()
    } else if parts.len() == 1 {
        parts[0]
    } else {
        join_spaces(parts.drop_last()) + " "@ + parts.last()
    }
}

/// One lowercase hexadecimal digit as a string slice.
fn hex_char_str(d: u32) -> (r: &'static str)
    requires
        d < 16,
    ensures
        r@ == seq![hex_char(d as int)],
{
    proof {
        reveal_strlit("0");
        reveal_strlit("1");
        reveal_strlit("2");
        reveal_strlit("3");
        reveal_strlit("4");
        reveal_strlit("5");
        reveal_strlit("6");
        reveal_strlit("7");
        reveal_strlit("8");
        reveal_strlit("9");
        reveal_strlit("a");
        reveal_strlit("b");
        reveal_strlit("c");
        reveal_strlit("d");
        reveal_strlit("e");
        reveal_strlit("f");
    }
    let r: &'static str = match d {
        0 => "0",
        1 => "1",
        2 => "2",
        3 => "3",
        4 => "4",
        5 => "5",
        6 => "6",
        7 => "7",
        8 => "8",
        9 => "9",
        10 => "a",
        11 => "b",
        12 => "c",
        13 => "d",
        14 => "e",
        _ => "f",
    };
    proof {
        assert(r@ =~= seq![hex_char(d as int)]);
    }
    r
}

/// Appends the escaped body of `s` to `out`.
#[verifier::loop_isolation(false)]
pub(crate) fn write_escaped(out: &mut String, s: &str)
    ensures
        final(out)@ == old(out)@ + json_escape(s@),
{
    let n = s.unicode_len();
    let mut i: usize = 0;
    while i < n
        invariant
            n == s@.len(),
            i <= n,
            out@ == old(out)@ + json_escape(s@.take(i as int)),
        decreases n - i,
    {
        proof {
            assert(s@.take(i + 1).drop_last() =~= s@.take(i as int));
            assert(s@.take(i + 1).last() == s@[i as int]);
        }
        let c = s.get_char(i);
        let x = c as u32;
        if x == 34 {
            out.append("\\\"");
        } else if x == 92 {
            out.append("\\\\");
        } else if x >= 32 {
            let piece = s.substring_char(i, i + 1);
            proof {
                assert(piece@ =~= seq![c]);
            }
            out.append(piece);
        } else if x == 8 {
            out.append("\\b");
        } else if x == 9 {
            out.append("\\t");
        } else if x == 10 {
            out.append("\\n");
        } else if x == 12 {
            out.append("\\f");
        } else if x == 13 {
            out.append("\\r");
        } else {
            out.append("\\u00");
            out.append(hex_char_str(x / 16));
            out.append(hex_char_str(x % 16));
        }
        i += 1;
    }
    proof {
        assert(s@.take(n as int) =~= s@);
    }
}

/// Appends the JSON string literal for `s` to `out`.
pub(crate) fn write_json_string(out: &mut String, s: &str)
    ensures
        final(out)@ == old(out)@ + json_string(s@),
{
    out.append("\"");
    write_escaped(out, s);
    out.append("\"");
}

/// Appends a JSON boolean literal to `out`.
pub(crate) fn write_json_bool(out: &mut String, b: bool)
    ensures
        final(out)@ == old(out)@ + json_bool(b),
{
    if b {
        out.append("true");
    } else {
        out.append("false");
    }
}

/// Appends the decimal digits of `x` to `out`.
pub(crate) fn write_u64(out: &mut String, x: u64)
    ensures
        final(out)@ == old(out)@ + nat_chars(x as int),
    decreases x,
{
    if x >= 10 {
        write_u64(out, x / 10);
    }
    out.append(hex_char_str((x % 10) as u32));
    proof {
        if x < 10 {
            assert(nat_chars(x as int) == seq![hex_char(x as int)]);
        }
    }
}

/// Appends the JSON integer literal for `x` to `out`.
pub(crate) fn write_i32(out: &mut String, x: i32)
    ensures
        final(out)@ == old(out)@ + int_chars(x as int),
{
    if x < 0 {
        out.append("-");
        let wide: i64 = x as i64;
        let mag: u64 = (-wide) as u64;
        proof {
            assert(mag as int == -(x as int));
        }
        write_u64(out, mag);
    } else {
        write_u64(out, x as u64);
    }
}

/// Appends the JSON array of string literals for `parts` to `out`.
#[verifier::loop_isolation(false)]
pub(crate) fn write_json_string_array(out: &mut String, parts: &Vec<String>)
    ensures
        final(out)@ == old(out)@ + json_string_array(views_of_strings(parts@)),
{
    out.append("[");
    let ghost views = views_of_strings(parts@);
    let mut i: usize = 0;
    while i < parts.len()
        invariant
            i <= parts@.len(),
            views == views_of_strings(parts@),
            out@ == old(out)@ + "["@ + json_strings_inner(views.take(i as int)),
        decreases parts@.len() - i,
    {
        proof {
            assert(views.take(i + 1).drop_last() =~= views.take(i as int));
            assert(views.take(i + 1).last() == views[i as int]);
            assert(views[i as int] == parts@[i as int]@);
        }
        if i > 0 {
            out.append(",");
        }
        write_json_string(out, parts[i].as_str());
        i += 1;
    }
    proof {
        assert(views.take(views.len() as int) =~= views);
    }
    out.append("]");
}

/// The strings of `parts` joined by single spaces.
#[verifier::loop_isolation(false)]
pub(crate) fn join_spaces_exec(parts: &Vec<String>) -> (r: String)
    ensures
        r@ == join_spaces(views_of_strings(parts@)),
{
    let ghost views = views_of_strings(parts@);
    let mut out = String::new();
    let mut i: usize = 0;
    while i < parts.len()
        invariant
            i <= parts@.len(),
            views == views_of_strings(parts@),
            out@ == join_spaces(views.take(i as int)),
        decreases parts@.len() - i,
    {
        proof {
            assert(views.take(i + 1).drop_last() =~= views.take(i as int));
            assert(views.take(i + 1).last() == views[i as int]);
            assert(views[i as int] == parts@[i as int]@);
        }
        if i > 0 {
            out.append(" ");
        }
        out.append(parts[i].as_str());
        i += 1;
    }
    proof {
        assert(views.take(views.len() as int) =~= views);
    }
    out
}

} // verus!
