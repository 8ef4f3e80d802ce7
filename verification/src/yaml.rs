//! The renderer's data-file format.
//!
//! The template resolves its input by three fixed keys: `grocery` for the
//! primary text, `subtitle` for the secondary text (written as `null` when
//! absent), and the hyphenated `small-title` for the sizing flag. String
//! values are written as double-quoted scalars, with backslash, double quote
//! and the common control characters escaped.

use vstd::prelude::*;

use crate::request::RenderData;
use crate::request::RenderDataView;

verus! {

/// Relies on String::push: appends the given character to the end of the
/// string.
pub assume_specification[ String::push ](s: &mut String, c: char)
    ensures
        final(s)@ == old(s)@.push(c),
;

/// The lowercase hex digit for a value below 16.
pub open spec fn hex_digit(v: int) -> char {
    if v == 0 {
        '0'
    } else if v == 1 {
        '1'
    } else if v == 2 {
        '2'
    } else if v == 3 {
        '3'
    } else if v == 4 {
        '4'
    } else if v == 5 {
        '5'
    } else if v == 6 {
        '6'
    } else if v == 7 {
        '7'
    } else if v == 8 {
        '8'
    } else if v == 9 {
        '9'
    } else if v == 10 {
        'a'
    } else if v == 11 {
        'b'
    } else if v == 12 {
        'c'
    } else if v == 13 {
        'd'
    } else if v == 14 {
        'e'
    } else {
        'f'
    }
}

/// A control character: one that a double-quoted scalar may not carry raw.
pub open spec fn is_control(c: char) -> bool {
    (c as u32) < 0x20 || c as u32 == 0x7F
}

/// How one character appears inside a double-quoted scalar: the common
/// controls by their named escapes, the remaining controls in hex form,
/// everything else as itself.
pub open spec fn esc_char(c: char) -> Seq<char> {
    if c == '\\' {
        seq!['\\', '\\']
    } else if c == '"' {
        seq!['\\', '"']
    } else if c == '\n' {
        seq!['\\', 'n']
    } else if c == '\r' {
        seq!['\\', 'r']
    } else if c == '\t' {
        seq!['\\', 't']
    } else if is_control(c) {
        seq!['\\', 'x', hex_digit(c as u32 as int / 16), hex_digit(c as u32 as int % 16)]
    } else {
        seq![c]
    }
}

/// A string's characters escaped for a double-quoted scalar, in order.
pub open spec fn yaml_escaped(s: Seq<char>) -> Seq<char>
    decreases s.len(),
{
    if s.len() == 0 {
        Seq::empty()
    } else {
        esc_char(s[0]) + yaml_escaped(s.subrange(1, s.len() as int))
    }
}

/// Escaping a string one character longer appends that character's escape.
proof fn lemma_yaml_escaped_push(s: Seq<char>, c: char)
    ensures
        yaml_escaped(s.push(c)) == yaml_escaped(s) + esc_char(c),
    decreases s.len(),
{
    if s.len() == 0 {
        assert(s.push(c)[0] == c);
        assert(s.push(c).subrange(1, 1) =~= Seq::<char>::empty());
        assert(yaml_escaped(Seq::<char>::empty()) == Seq::<char>::empty());
        assert(yaml_escaped(s.push(c)) =~= esc_char(c));
        assert(yaml_escaped(s) + esc_char(c) =~= esc_char(c));
        assert(yaml_escaped(s.push(c)) =~= yaml_escaped(s) + esc_char(c));
    } else {
        let t = s.subrange(1, s.len() as int);
        assert(s.push(c).subrange(1, s.push(c).len() as int) =~= t.push(c));
        lemma_yaml_escaped_push(t, c);
        assert(s.push(c)[0] == s[0]);
        assert(esc_char(s[0]) + (yaml_escaped(t) + esc_char(c)) =~= (esc_char(s[0])
            + yaml_escaped(t)) + esc_char(c));
        assert(yaml_escaped(s.push(c)) == yaml_escaped(s) + esc_char(c));
    }
}

/// Produce the lowercase hex digit for a value below 16.
fn hex_digit_char(v: u32) -> (h: char)
    requires
        v < 16,
    ensures
        h == hex_digit(v as int),
{
    if v == 0 {
        '0'
    } else if v == 1 {
        '1'
    } else if v == 2 {
        '2'
    } else if v == 3 {
        '3'
    } else if v == 4 {
        '4'
    } else if v == 5 {
        '5'
    } else if v == 6 {
        '6'
    } else if v == 7 {
        '7'
    } else if v == 8 {
        '8'
    } else if v == 9 {
        '9'
    } else if v == 10 {
        'a'
    } else if v == 11 {
        'b'
    } else if v == 12 {
        'c'
    } else if v == 13 {
        'd'
    } else if v == 14 {
        'e'
    } else {
        'f'
    }
}

/// Append `s`, escaped for a double-quoted scalar, to `out`.
fn append_escaped(out: &mut String, s: &str)
    ensures
        final(out)@ == old(out)@ + yaml_escaped(s@),
{
    proof {
        assert(s@.subrange(0, 0) =~= Seq::<char>::empty());
        assert(old(out)@ + yaml_escaped(s@.subrange(0, 0)) =~= old(out)@);
    }
    let n: usize = s.unicode_len();
    let mut i: usize = 0;
    while i < n
        invariant
            i <= n,
            n == s@.len(),
            out@ == old(out)@ + yaml_escaped(s@.subrange(0, i as int)),
        decreases n - i,
    {
        let ghost prefix = s@.subrange(0, i as int);
        let c = s.get_char(i);
        if c == '\\' {
            out.append("\\\\");
            proof {
                reveal_strlit("\\\\");
                assert("\\\\"@ =~= esc_char(c));
            }
        } else if c == '"' {
            out.append("\\\"");
            proof {
                reveal_strlit("\\\"");
                assert("\\\""@ =~= esc_char(c));
            }
        } else if c == '\n' {
            out.append("\\n");
            proof {
                reveal_strlit("\\n");
                assert("\\n"@ =~= esc_char(c));
            }
        } else if c == '\r' {
            out.append("\\r");
            proof {
                reveal_strlit("\\r");
                assert("\\r"@ =~= esc_char(c));
            }
        } else if c == '\t' {
            out.append("\\t");
            proof {
                reveal_strlit("\\t");
                assert("\\t"@ =~= esc_char(c));
            }
        } else if (c as u32) < 0x20 || (c as u32) == 0x7F {
            let code: u32 = c as u32;
            out.push('\\');
            out.push('x');
            out.push(hex_digit_char(code / 16));
            out.push(hex_digit_char(code % 16));
            proof {
                assert(out@ =~= (old(out)@ + yaml_escaped(prefix)) + esc_char(c));
            }
        } else {
            out.push(c);
            proof {
                assert(seq![c] =~= esc_char(c));
                assert(out@ =~= (old(out)@ + yaml_escaped(prefix)) + esc_char(c));
            }
        }
        proof {
            lemma_yaml_escaped_push(prefix, c);
            assert(s@.subrange(0, i + 1) =~= prefix.push(c));
            assert(out@ =~= old(out)@ + yaml_escaped(s@.subrange(0, i + 1)));
        }
        i += 1;
    }
    proof {
        assert(s@.subrange(0, n as int) =~= s@);
    }
}

/// The text for a boolean value.
pub open spec fn bool_text(b: bool) -> Seq<char> {
    if b {
        "true"@
    } else {
        "false"@
    }
}

/// The subtitle's line: a quoted scalar, or `null` when absent.
pub open spec fn subtitle_line(s: Option<Seq<char>>) -> Seq<char> {
    match s {
        Some(t) => "subtitle: \""@ + yaml_escaped(t) + "\"\n"@,
        None => "subtitle: null\n"@,
    }
}

/// The whole data file for normalized data `d`.
pub open spec fn yaml_doc(d: RenderDataView) -> Seq<char> {
    "grocery: \""@ + yaml_escaped(d.grocery) + "\"\n"@ + subtitle_line(d.subtitle)
        + "small-title: "@ + bool_text(d.small_title) + "\n"@
}

/// Render the data file that the renderer's template consumes.
pub fn render_yaml(d: &RenderData) -> (out: String)
    ensures
        out@ == yaml_doc(d@),
{
    let mut out = String::new();
    out.append("grocery: \"");
    append_escaped(&mut out, d.grocery.as_str());
    out.append("\"\n");
    match &d.subtitle {
        Some(s) => {
            out.append("subtitle: \"");
            append_escaped(&mut out, s.as_str());
            out.append("\"\n");
        },
        None => {
            out.append("subtitle: null\n");
        },
    }
    out.append("small-title: ");
    if d.small_title {
        out.append("true");
    } else {
        out.append("false");
    }
    out.append("\n");
    proof {
        assert(out@ =~= yaml_doc(d@));
    }
    out
}

} // verus!
