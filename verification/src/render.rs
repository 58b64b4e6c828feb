//! Rendering a [`JsonValue`] as JSON text.
//!
//! [`render`] is the mathematical statement of the text produced; the
//! executable [`render_json`] is proved to emit exactly that text.

use vstd::prelude::*;

use crate::json::{lemma_member_views_of, lemma_views_of, member_views_of, view_of, views_of, JsonVal, JsonValue};
use vstd::string::StrSliceExecFns;

verus! {

/// The character of one hexadecimal digit.
pub open spec fn hex_digit(n: int) -> char {
    if n == 0 {
        '0'
    } else if n == 1 {
        '1'
    } else if n == 2 {
        '2'
    } else if n == 3 {
        '3'
    } else if n == 4 {
        '4'
    } else if n == 5 {
        '5'
    } else if n == 6 {
        '6'
    } else if n == 7 {
        '7'
    } else if n == 8 {
        '8'
    } else if n == 9 {
        '9'
    } else if n == 10 {
        'a'
    } else if n == 11 {
        'b'
    } else if n == 12 {
        'c'
    } else if n == 13 {
        'd'
    } else if n == 14 {
        'e'
    } else {
        'f'
    }
}

/// How one character appears inside a JSON string literal: quotes and
/// backslashes are escaped, control characters take an escape sequence,
/// everything else stands for itself.
pub open spec fn esc_char(c: char) -> Seq<char> {
    if c == '"' {
        seq!['\\', '"']
    } else if c == '\\' {
        seq!['\\', '\\']
    } else if c == '\n' {
        seq!['\\', 'n']
    } else if c == '\r' {
        seq!['\\', 'r']
    } else if c == '\t' {
        seq!['\\', 't']
    } else if (c as u32) < 32 {
        seq!['\\', 'u', '0', '0', hex_digit(c as int / 16), hex_digit(c as int % 16)]
    } else {
        seq![c]
    }
}

/// A whole string escaped, character for character.
pub open spec fn esc_str(s: Seq<char>) -> Seq<char>
    decreases s.len(),
{
    if s.len() == 0 {
        Seq::empty()
    } else {
        esc_str(s.drop_last()) + esc_char(s.last())
    }
}

/// The JSON text of a value.
pub open spec fn render(v: JsonVal) -> Seq<char>
    decreases v, 1int,
{
    match v {
        JsonVal::Null => seq!['n', 'u', 'l', 'l'],
        JsonVal::Bool(b) => if b {
            seq!['t', 'r', 'u', 'e']
        } else {
            seq!['f', 'a', 'l', 's', 'e']
        },
        JsonVal::Num(s) => s,
        JsonVal::Str(s) => seq!['"'] + esc_str(s) + seq!['"'],
        JsonVal::Arr(elems) => seq!['['] + render_elems(elems) + seq![']'],
        JsonVal::Obj(members) => seq!['{'] + render_members(members) + seq!['}'],
    }
}

/// Array elements joined with commas.
pub open spec fn render_elems(elems: Seq<JsonVal>) -> Seq<char>
    decreases elems, 0int,
{
    if elems.len() == 0 {
        Seq::empty()
    } else if elems.len() == 1 {
        render(elems[0])
    } else {
        render_elems(elems.drop_last()) + seq![','] + render(elems.last())
    }
}

/// Object members joined with commas.
pub open spec fn render_members(members: Seq<(Seq<char>, JsonVal)>) -> Seq<char>
    decreases members, 1int,
{
    if members.len() == 0 {
        Seq::empty()
    } else if members.len() == 1 {
        render_member(members[0])
    } else {
        render_members(members.drop_last()) + seq![','] + render_member(members.last())
    }
}

/// One `"key":value` member.
pub open spec fn render_member(m: (Seq<char>, JsonVal)) -> Seq<char>
    decreases m, 0int,
{
    seq!['"'] + esc_str(m.0) + seq!['"', ':'] + render(m.1)
}

fn hex_digit_char(n: u32) -> (r: char)
    requires
        n < 16,
    ensures
        r == hex_digit(n as int),
{
    if n == 0 {
        '0'
    } else if n == 1 {
        '1'
    } else if n == 2 {
        '2'
    } else if n == 3 {
        '3'
    } else if n == 4 {
        '4'
    } else if n == 5 {
        '5'
    } else if n == 6 {
        '6'
    } else if n == 7 {
        '7'
    } else if n == 8 {
        '8'
    } else if n == 9 {
        '9'
    } else if n == 10 {
        'a'
    } else if n == 11 {
        'b'
    } else if n == 12 {
        'c'
    } else if n == 13 {
        'd'
    } else if n == 14 {
        'e'
    } else {
        'f'
    }
}

fn write_escaped_char(c: char, out: &mut Vec<char>)
    ensures
        final(out)@ == old(out)@ + esc_char(c),
{
    if c == '"' {
        out.push('\\');
        out.push('"');
    } else if c == '\\' {
        out.push('\\');
        out.push('\\');
    } else if c == '\n' {
        out.push('\\');
        out.push('n');
    } else if c == '\r' {
        out.push('\\');
        out.push('r');
    } else if c == '\t' {
        out.push('\\');
        out.push('t');
    } else if (c as u32) < 32 {
        let n = c as u32;
        out.push('\\');
        out.push('u');
        out.push('0');
        out.push('0');
        out.push(hex_digit_char(n / 16));
        out.push(hex_digit_char(n % 16));
    } else {
        out.push(c);
    }
    proof {
        assert(out@ =~= old(out)@ + esc_char(c));
    }
}

/// Appends the characters of `s` unchanged.
fn write_raw(s: &str, out: &mut Vec<char>)
    ensures
        final(out)@ == old(out)@ + s@,
{
    let n = s.unicode_len();
    let mut i: usize = 0;
    while i < n
        invariant
            i <= n,
            n == s@.len(),
            out@ == old(out)@ + s@.take(i as int),
        decreases n - i,
    {
        let c = s.get_char(i);
        out.push(c);
        proof {
            assert(out@ =~= old(out)@ + s@.take(i as int + 1));
        }
        i += 1;
    }
    proof {
        assert(s@.take(n as int) =~= s@);
    }
}

/// Appends the characters of `s`, escaped for a JSON string literal.
fn write_escaped(s: &str, out: &mut Vec<char>)
    ensures
        final(out)@ == old(out)@ + esc_str(s@),
{
    let n = s.unicode_len();
    let mut i: usize = 0;
    while i < n
        invariant
            i <= n,
            n == s@.len(),
            out@ == old(out)@ + esc_str(s@.take(i as int)),
        decreases n - i,
    {
        let c = s.get_char(i);
        write_escaped_char(c, out);
        proof {
            assert(s@.take(i as int + 1).drop_last() =~= s@.take(i as int));
            assert(s@.take(i as int + 1).last() == s@[i as int]);
            assert(esc_str(s@.take(i as int + 1)) == esc_str(s@.take(i as int)) + esc_char(
                s@[i as int],
            ));
        }
        i += 1;
    }
    proof {
        assert(s@.take(n as int) =~= s@);
    }
}

fn write_val(v: &JsonValue, out: &mut Vec<char>)
    ensures
        final(out)@ == old(out)@ + render(v@),
    decreases *v,
{
    match v {
        JsonValue::Null => {
            out.push('n');
            out.push('u');
            out.push('l');
            out.push('l');
            proof {
                assert(out@ =~= old(out)@ + render(v@));
            }
        },
        JsonValue::Bool(b) => {
            if *b {
                out.push('t');
                out.push('r');
                out.push('u');
                out.push('e');
            } else {
                out.push('f');
                out.push('a');
                out.push('l');
                out.push('s');
                out.push('e');
            }
            proof {
                assert(out@ =~= old(out)@ + render(v@));
            }
        },
        JsonValue::Num(s) => {
            write_raw(s.as_str(), out);
        },
        JsonValue::Str(s) => {
            out.push('"');
            write_escaped(s.as_str(), out);
            out.push('"');
            proof {
                assert(out@ =~= old(out)@ + render(v@));
            }
        },
        JsonValue::Arr(elems) => {
            let ghost vs = views_of(elems@);
            proof {
                lemma_views_of(elems@);
            }
            out.push('[');
            let n = elems.len();
            let mut i: usize = 0;
            while i < n
                invariant
                    *v == JsonValue::Arr(*elems),
                    i <= n,
                    n == elems@.len(),
                    vs == views_of(elems@),
                    vs.len() == n,
                    forall|k: int| 0 <= k < n ==> vs[k] == view_of(elems@[k]),
                    out@ == old(out)@ + seq!['['] + render_elems(vs.take(i as int)),
                decreases n - i,
            {
                if i > 0 {
                    out.push(',');
                }
                proof {
                    assert(decreases_to!(*v => v->Arr_0));
                    assert(decreases_to!(v->Arr_0 => v->Arr_0@));
                    assert(decreases_to!(v->Arr_0@ => v->Arr_0@[i as int]));
                    assert(decreases_to!(*v => elems@[i as int]));
                }
                write_val(&elems[i], out);
                proof {
                    assert(vs.take(i as int + 1).drop_last() =~= vs.take(i as int));
                    assert(vs.take(i as int + 1).last() == vs[i as int]);
                    assert(out@ =~= old(out)@ + seq!['['] + render_elems(vs.take(i as int + 1)));
                }
                i += 1;
            }
            out.push(']');
            proof {
                assert(vs.take(n as int) =~= vs);
                assert(out@ =~= old(out)@ + render(v@));
            }
        },
        JsonValue::Obj(members) => {
            let ghost ms = member_views_of(members@);
            proof {
                lemma_member_views_of(members@);
            }
            out.push('{');
            let n = members.len();
            let mut i: usize = 0;
            while i < n
                invariant
                    *v == JsonValue::Obj(*members),
                    i <= n,
                    n == members@.len(),
                    ms == member_views_of(members@),
                    ms.len() == n,
                    forall|k: int| 0 <= k < n ==> ms[k] == (members@[k].0@, view_of(members@[k].1)),
                    out@ == old(out)@ + seq!['{'] + render_members(ms.take(i as int)),
                decreases n - i,
            {
                if i > 0 {
                    out.push(',');
                }
                out.push('"');
                write_escaped(members[i].0.as_str(), out);
                out.push('"');
                out.push(':');
                proof {
                    assert(decreases_to!(*v => v->Obj_0));
                    assert(decreases_to!(v->Obj_0 => v->Obj_0@));
                    assert(decreases_to!(v->Obj_0@ => v->Obj_0@[i as int]));
                    assert(decreases_to!(v->Obj_0@[i as int] => v->Obj_0@[i as int].1));
                    assert(decreases_to!(*v => members@[i as int].1));
                }
                write_val(&members[i].1, out);
                proof {
                    assert(ms.take(i as int + 1).drop_last() =~= ms.take(i as int));
                    assert(ms.take(i as int + 1).last() == ms[i as int]);
                    assert(render_member(ms[i as int]) == seq!['"'] + esc_str(
                        members@[i as int].0@,
                    ) + seq!['"', ':'] + render(view_of(members@[i as int].1)));
                    assert(out@ =~= old(out)@ + seq!['{'] + render_members(ms.take(i as int + 1)));
                }
                i += 1;
            }
            out.push('}');
            proof {
                assert(ms.take(n as int) =~= ms);
                assert(out@ =~= old(out)@ + render(v@));
            }
        },
    }
}

/// Renders a value as JSON text.
pub fn render_json(v: &JsonValue) -> (r: String)
    ensures
        r@ == render(v@),
{
    let mut out: Vec<char> = Vec::new();
    write_val(v, &mut out);
    chars_to_string(out)
}

/// Relies on `String: FromIterator<char>`: collecting characters yields the
/// string of exactly those characters, in order.
#[verifier::external_body]
pub(crate) fn chars_to_string(cs: Vec<char>) -> (r: String)
    ensures
        r@ == cs@,
{
    cs.into_iter().collect()
}

} // verus!
