//! Rendering of the boundary's JSON response texts.
//!
//! Several read operations answer with a small JSON document: a list of
//! names, a map of tags, a pair of statistics objects.  These documents
//! are built here by verified concatenation, with the exact character
//! sequence of every piece stated in a spec function.  String payloads
//! (names, timestamps, forwarded messages) have their backslashes,
//! quotes and control characters escaped; other characters pass through
//! unchanged.

use vstd::prelude::*;
use vstd::assert_seqs_equal;
use crate::text::concat_str;

verus! {

/// The decimal digit character of `d` (for `d < 10`).
pub open spec fn spec_digit(d: nat) -> char {
    if d == 0 {
        '0'
    } else if d == 1 {
        '1'
    } else if d == 2 {
        '2'
    } else if d == 3 {
        '3'
    } else if d == 4 {
        '4'
    } else if d == 5 {
        '5'
    } else if d == 6 {
        '6'
    } else if d == 7 {
        '7'
    } else if d == 8 {
        '8'
    } else {
        '9'
    }
}

/// The decimal rendering of `n`, most significant digit first.
pub open spec fn spec_dec(n: nat) -> Seq<char>
    decreases n,
{
    if n < 10 {
        seq![spec_digit(n)]
    } else {
        spec_dec(n / 10).push(spec_digit(n % 10))
    }
}

/// The digit character of `d`.
fn digit_char(d: u64) -> (c: char)
    requires
        d < 10,
    ensures
        c == spec_digit(d as nat),
{
    if d == 0 {
        '0'
    } else if d == 1 {
        '1'
    } else if d == 2 {
        '2'
    } else if d == 3 {
        '3'
    } else if d == 4 {
        '4'
    } else if d == 5 {
        '5'
    } else if d == 6 {
        '6'
    } else if d == 7 {
        '7'
    } else if d == 8 {
        '8'
    } else {
        '9'
    }
}

/// Appends the decimal rendering of `n` to `out`.
pub fn push_u64(out: &mut String, n: u64)
    ensures
        final(out)@ == old(out)@ + spec_dec(n as nat),
{
    let mut digits: Vec<char> = Vec::new();
    let mut m: u64 = n;
    while m >= 10
        invariant
            spec_dec(n as nat) == spec_dec(m as nat) + digits@.reverse(),
        decreases m,
    {
        let d = digit_char(m % 10);
        proof {
            assert_seqs_equal!(
                spec_dec(m as nat) + digits@.reverse(),
                spec_dec((m / 10) as nat) + digits@.push(spec_digit((m % 10) as nat)).reverse()
            );
        }
        digits.push(d);
        m = m / 10;
    }
    let d = digit_char(m);
    proof {
        assert_seqs_equal!(
            spec_dec(m as nat) + digits@.reverse(),
            digits@.push(spec_digit(m as nat)).reverse()
        );
    }
    digits.push(d);
    let ghost rendered = spec_dec(n as nat);
    let mut j: usize = 0;
    while j < digits.len()
        invariant
            digits@.reverse() == rendered,
            j <= digits@.len(),
            out@ == old(out)@ + rendered.take(j as int),
        decreases digits@.len() - j,
    {
        let c = digits[digits.len() - 1 - j];
        proof {
            assert(rendered[j as int] == digits@[digits@.len() - 1 - j]);
            assert_seqs_equal!(
                rendered.take(j + 1),
                rendered.take(j as int).push(digits@[digits@.len() - 1 - j as int])
            );
        }
        out.push(c);
        j = j + 1;
    }
    proof {
        assert_seqs_equal!(rendered.take(digits@.len() as int), rendered);
    }
}

/// `s` with every occurrence of the character `c` replaced by `with`.
pub open spec fn spec_replace_char(s: Seq<char>, c: char, with: Seq<char>) -> Seq<char>
    decreases s.len(),
{
    if s.len() == 0 {
        Seq::empty()
    } else {
        (if s[0] == c {
            with
        } else {
            seq![s[0]]
        }) + spec_replace_char(s.drop_first(), c, with)
    }
}

/// Relies on `str::replace` from std with a single-character pattern:
/// every occurrence of the character is replaced by the given text.
#[verifier::external_body]
fn replace_char(s: &str, c: char, with: &str) -> (r: String)
    ensures
        r@ == spec_replace_char(s@, c, with@),
{
    s.replace(c, with)
}

/// The JSON escaping of the boundary's answer texts: backslashes first,
/// then quotes, then every control character below U+0020 (the common
/// short escapes for backspace, tab, newline, form feed and carriage
/// return, and a four-digit escape for the rest).
pub open spec fn spec_escaped(s: Seq<char>) -> Seq<char> {
    let s = spec_replace_char(s, '\\', "\\\\"@);
    let s = spec_replace_char(s, '"', "\\\""@);
    let s = spec_replace_char(s, '\u{0}', "\\u0000"@);
    let s = spec_replace_char(s, '\u{1}', "\\u0001"@);
    let s = spec_replace_char(s, '\u{2}', "\\u0002"@);
    let s = spec_replace_char(s, '\u{3}', "\\u0003"@);
    let s = spec_replace_char(s, '\u{4}', "\\u0004"@);
    let s = spec_replace_char(s, '\u{5}', "\\u0005"@);
    let s = spec_replace_char(s, '\u{6}', "\\u0006"@);
    let s = spec_replace_char(s, '\u{7}', "\\u0007"@);
    let s = spec_replace_char(s, '\u{8}', "\\b"@);
    let s = spec_replace_char(s, '\u{9}', "\\t"@);
    let s = spec_replace_char(s, '\u{a}', "\\n"@);
    let s = spec_replace_char(s, '\u{b}', "\\u000b"@);
    let s = spec_replace_char(s, '\u{c}', "\\f"@);
    let s = spec_replace_char(s, '\u{d}', "\\r"@);
    let s = spec_replace_char(s, '\u{e}', "\\u000e"@);
    let s = spec_replace_char(s, '\u{f}', "\\u000f"@);
    let s = spec_replace_char(s, '\u{10}', "\\u0010"@);
    let s = spec_replace_char(s, '\u{11}', "\\u0011"@);
    let s = spec_replace_char(s, '\u{12}', "\\u0012"@);
    let s = spec_replace_char(s, '\u{13}', "\\u0013"@);
    let s = spec_replace_char(s, '\u{14}', "\\u0014"@);
    let s = spec_replace_char(s, '\u{15}', "\\u0015"@);
    let s = spec_replace_char(s, '\u{16}', "\\u0016"@);
    let s = spec_replace_char(s, '\u{17}', "\\u0017"@);
    let s = spec_replace_char(s, '\u{18}', "\\u0018"@);
    let s = spec_replace_char(s, '\u{19}', "\\u0019"@);
    let s = spec_replace_char(s, '\u{1a}', "\\u001a"@);
    let s = spec_replace_char(s, '\u{1b}', "\\u001b"@);
    let s = spec_replace_char(s, '\u{1c}', "\\u001c"@);
    let s = spec_replace_char(s, '\u{1d}', "\\u001d"@);
    let s = spec_replace_char(s, '\u{1e}', "\\u001e"@);
    let s = spec_replace_char(s, '\u{1f}', "\\u001f"@);
    s
}

/// Escapes a text for inclusion in a JSON string literal.
pub fn escape_json_text(s: &str) -> (r: String)
    ensures
        r@ == spec_escaped(s@),
{
    let cur = replace_char(s, '\\', "\\\\");
    let cur = replace_char(cur.as_str(), '"', "\\\"");
    let cur = replace_char(cur.as_str(), '\u{0}', "\\u0000");
    let cur = replace_char(cur.as_str(), '\u{1}', "\\u0001");
    let cur = replace_char(cur.as_str(), '\u{2}', "\\u0002");
    let cur = replace_char(cur.as_str(), '\u{3}', "\\u0003");
    let cur = replace_char(cur.as_str(), '\u{4}', "\\u0004");
    let cur = replace_char(cur.as_str(), '\u{5}', "\\u0005");
    let cur = replace_char(cur.as_str(), '\u{6}', "\\u0006");
    let cur = replace_char(cur.as_str(), '\u{7}', "\\u0007");
    let cur = replace_char(cur.as_str(), '\u{8}', "\\b");
    let cur = replace_char(cur.as_str(), '\u{9}', "\\t");
    let cur = replace_char(cur.as_str(), '\u{a}', "\\n");
    let cur = replace_char(cur.as_str(), '\u{b}', "\\u000b");
    let cur = replace_char(cur.as_str(), '\u{c}', "\\f");
    let cur = replace_char(cur.as_str(), '\u{d}', "\\r");
    let cur = replace_char(cur.as_str(), '\u{e}', "\\u000e");
    let cur = replace_char(cur.as_str(), '\u{f}', "\\u000f");
    let cur = replace_char(cur.as_str(), '\u{10}', "\\u0010");
    let cur = replace_char(cur.as_str(), '\u{11}', "\\u0011");
    let cur = replace_char(cur.as_str(), '\u{12}', "\\u0012");
    let cur = replace_char(cur.as_str(), '\u{13}', "\\u0013");
    let cur = replace_char(cur.as_str(), '\u{14}', "\\u0014");
    let cur = replace_char(cur.as_str(), '\u{15}', "\\u0015");
    let cur = replace_char(cur.as_str(), '\u{16}', "\\u0016");
    let cur = replace_char(cur.as_str(), '\u{17}', "\\u0017");
    let cur = replace_char(cur.as_str(), '\u{18}', "\\u0018");
    let cur = replace_char(cur.as_str(), '\u{19}', "\\u0019");
    let cur = replace_char(cur.as_str(), '\u{1a}', "\\u001a");
    let cur = replace_char(cur.as_str(), '\u{1b}', "\\u001b");
    let cur = replace_char(cur.as_str(), '\u{1c}', "\\u001c");
    let cur = replace_char(cur.as_str(), '\u{1d}', "\\u001d");
    let cur = replace_char(cur.as_str(), '\u{1e}', "\\u001e");
    let cur = replace_char(cur.as_str(), '\u{1f}', "\\u001f");
    cur
}

/// The JSON string literal for `s`: the escaped text in quotes.
pub open spec fn spec_quoted(s: Seq<char>) -> Seq<char> {
    seq!['"'] + spec_escaped(s) + seq!['"']
}

/// Appends the JSON string literal for `s` to `out`.
pub fn push_quoted(out: &mut String, s: &str)
    ensures
        final(out)@ == old(out)@ + spec_quoted(s@),
{
    let escaped = escape_json_text(s);
    out.push('"');
    out.push_str(escaped.as_str());
    out.push('"');
    proof {
        assert_seqs_equal!(out@, old(out)@ + spec_quoted(s@));
    }
}

/// The views of a list of strings.
pub open spec fn spec_views(items: Seq<String>) -> Seq<Seq<char>> {
    items.map_values(|s: String| s@)
}

/// `items` joined by `sep`: empty for no items, and one separator between
/// each neighbouring pair otherwise.
pub open spec fn spec_joined(items: Seq<Seq<char>>, sep: Seq<char>) -> Seq<char>
    decreases items.len(),
{
    if items.len() == 0 {
        Seq::empty()
    } else if items.len() == 1 {
        items[0]
    } else {
        spec_joined(items.drop_last(), sep) + sep + items.last()
    }
}

/// Joins the strings of `items` with the separator `sep`.
pub fn join_with(items: &Vec<String>, sep: &str) -> (r: String)
    ensures
        r@ == spec_joined(spec_views(items@), sep@),
{
    let mut out = String::new();
    let mut i: usize = 0;
    while i < items.len()
        invariant
            i <= items@.len(),
            out@ == spec_joined(spec_views(items@).take(i as int), sep@),
        decreases items@.len() - i,
    {
        if i > 0 {
            out.push_str(sep);
        }
        out.push_str(items[i].as_str());
        proof {
            assert(spec_views(items@).take(i + 1).drop_last() =~= spec_views(items@).take(
                i as int,
            ));
            assert(spec_views(items@).take(i + 1).last() == items@[i as int]@);
            if i == 0 {
                assert_seqs_equal!(out@, spec_joined(spec_views(items@).take(i + 1), sep@));
            }
        }
        i = i + 1;
    }
    proof {
        assert(spec_views(items@).take(items@.len() as int) =~= spec_views(items@));
    }
    out
}

/// The JSON array of string literals for `items`.
pub open spec fn spec_string_array(items: Seq<Seq<char>>) -> Seq<char> {
    seq!['['] + spec_joined(items.map_values(|s: Seq<char>| spec_quoted(s)), seq![',']) + seq![']']
}

/// Appends the JSON array of string literals for `items` to `out`.
pub fn push_string_array(out: &mut String, items: &Vec<String>)
    ensures
        final(out)@ == old(out)@ + spec_string_array(spec_views(items@)),
{
    let ghost quoted = spec_views(items@).map_values(|s: Seq<char>| spec_quoted(s));
    out.push('[');
    let mut i: usize = 0;
    while i < items.len()
        invariant
            i <= items@.len(),
            quoted == spec_views(items@).map_values(|s: Seq<char>| spec_quoted(s)),
            out@ == old(out)@ + seq!['['] + spec_joined(quoted.take(i as int), seq![',']),
        decreases items@.len() - i,
    {
        if i > 0 {
            out.push(',');
        }
        push_quoted(out, items[i].as_str());
        proof {
            assert(quoted.take(i + 1).drop_last() =~= quoted.take(i as int));
            assert(quoted.take(i + 1).last() == spec_quoted(items@[i as int]@));
            if i == 0 {
                assert_seqs_equal!(
                    out@,
                    old(out)@ + seq!['['] + spec_joined(quoted.take(i + 1), seq![','])
                );
            }
        }
        i = i + 1;
    }
    out.push(']');
    proof {
        assert(quoted.take(items@.len() as int) =~= quoted);
    }
}

/// The views of a list of string pairs.
pub open spec fn spec_pair_views(pairs: Seq<(String, String)>) -> Seq<(Seq<char>, Seq<char>)> {
    pairs.map_values(|p: (String, String)| (p.0@, p.1@))
}

/// The JSON member for one string pair: quoted key, colon, quoted value.
pub open spec fn spec_string_member(p: (Seq<char>, Seq<char>)) -> Seq<char> {
    spec_quoted(p.0) + seq![':'] + spec_quoted(p.1)
}

/// The JSON object whose members are the given string pairs, in order.
pub open spec fn spec_object_of_pairs(pairs: Seq<(Seq<char>, Seq<char>)>) -> Seq<char> {
    seq!['{'] + spec_joined(pairs.map_values(|p: (Seq<char>, Seq<char>)| spec_string_member(p)), seq![','])
        + seq!['}']
}

/// Appends the JSON object of the given string pairs to `out`.
pub fn push_object_of_pairs(out: &mut String, pairs: &Vec<(String, String)>)
    ensures
        final(out)@ == old(out)@ + spec_object_of_pairs(spec_pair_views(pairs@)),
{
    let ghost members = spec_pair_views(pairs@).map_values(
        |p: (Seq<char>, Seq<char>)| spec_string_member(p),
    );
    out.push('{');
    let mut i: usize = 0;
    while i < pairs.len()
        invariant
            i <= pairs@.len(),
            members == spec_pair_views(pairs@).map_values(
                |p: (Seq<char>, Seq<char>)| spec_string_member(p),
            ),
            out@ == old(out)@ + seq!['{'] + spec_joined(members.take(i as int), seq![',']),
        decreases pairs@.len() - i,
    {
        if i > 0 {
            out.push(',');
        }
        push_quoted(out, pairs[i].0.as_str());
        out.push(':');
        push_quoted(out, pairs[i].1.as_str());
        proof {
            assert(members.take(i + 1).drop_last() =~= members.take(i as int));
            assert(members.take(i + 1).last() == spec_string_member(
                (pairs@[i as int].0@, pairs@[i as int].1@),
            ));
            assert_seqs_equal!(
                out@,
                old(out)@ + seq!['{'] + spec_joined(members.take(i + 1), seq![','])
            );
        }
        i = i + 1;
    }
    out.push('}');
    proof {
        assert(members.take(pairs@.len() as int) =~= members);
    }
}

/// Joins a list of names with newlines, the shape of the table-names
/// answer.
pub fn join_lines(names: &Vec<String>) -> (r: String)
    ensures
        r@ == spec_joined(spec_views(names@), seq!['\n']),
{
    let joined = join_with(names, "\n");
    proof {
        reveal_strlit("\n");
        assert_seqs_equal!("\n"@, seq!['\n']);
    }
    joined
}

} // verus!
