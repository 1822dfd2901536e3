//! JSON framing for request bodies: string escaping, and assembly of an
//! object from named optional fields whose values are already rendered
//! JSON text.  Field names are spliced as they stand; the names used by
//! the operations are plain ASCII identifiers.

use vstd::prelude::*;

use crate::url::params_view;

verus! {

/// Hex digit character for a value below sixteen.
pub open spec fn hex_char(d: int) -> char {
    if d < 10 {
        crate::text::digit_char(d)
    } else if d == 10 {
        'a'
    } else if d == 11 {
        'b'
    } else if d == 12 {
        'c'
    } else if d == 13 {
        'd'
    } else if d == 14 {
        'e'
    } else {
        'f'
    }
}

/// The escape of one character inside a JSON string: quote and backslash
/// escaped, the common control characters by letter, all other control
/// characters in `\u00XX` form, everything else itself.
pub open spec fn json_escape_char(c: char) -> Seq<char> {
    if c == '"' {
        seq!['\\', '"']
    } else if c == '\\' {
        seq!['\\', '\\']
    } else if c == '\n' {
        seq!['\\', 'n']
    } else if c == '\r' {
        seq!['\\', 'r']
    } else if c == '\t' {
        seq!['\\', 't']
    } else if (c as u32) < 32 {
        seq!['\\', 'u', '0', '0', hex_char((c as int) / 16), hex_char((c as int) % 16)]
    } else {
        seq![c]
    }
}

/// The escaped text of `s` from position `i` on.
pub open spec fn json_escape_from(s: Seq<char>, i: int) -> Seq<char>
    decreases s.len() - i,
{
    if i < 0 || i >= s.len() {
        Seq::empty()
    } else {
        json_escape_char(s[i]) + json_escape_from(s, i + 1)
    }
}

/// `s` as a JSON string token: quoted and escaped.
pub open spec fn json_quoted(s: Seq<char>) -> Seq<char> {
    seq!['"'] + json_escape_from(s, 0) + seq!['"']
}

/// One-character string for a hex digit value.
fn hex_str(d: u32) -> (r: &'static str)
    requires
        d < 16,
    ensures
        r@ == seq![hex_char(d as int)],
{
    if d < 10 {
        crate::text::digit_str(d as u8)
    } else {
        proof {
            reveal_strlit("a");
            reveal_strlit("b");
            reveal_strlit("c");
            reveal_strlit("d");
            reveal_strlit("e");
            reveal_strlit("f");
        }
        let r: &'static str = match d {
            10 => "a",
            11 => "b",
            12 => "c",
            13 => "d",
            14 => "e",
            _ => "f",
        };
        proof {
            assert(r@ =~= seq![hex_char(d as int)]);
        }
        r
    }
}

/// Appends the escaped text of `s`.
pub fn append_json_escaped(out: &mut String, s: &str)
    ensures
        final (out)@ == old(out)@ + json_escape_from(s@, 0),
{
    proof {
        reveal_strlit("\\\"");
        reveal_strlit("\\\\");
        reveal_strlit("\\n");
        reveal_strlit("\\r");
        reveal_strlit("\\t");
        reveal_strlit("\\u00");
    }
    let n = s.unicode_len();
    let mut k: usize = 0;
    while k < n
        invariant
            k <= n == s@.len(),
            old(out)@ + json_escape_from(s@, 0) == out@ + json_escape_from(s@, k as int),
        decreases n - k,
    {
        proof {
            reveal_strlit("\\\"");
            reveal_strlit("\\\\");
            reveal_strlit("\\n");
            reveal_strlit("\\r");
            reveal_strlit("\\t");
            reveal_strlit("\\u00");
        }
        let ghost out0 = out@;
        let c = s.get_char(k);
        if c == '"' {
            out.append("\\\"");
            proof {
                assert("\\\""@ =~= seq!['\\', '"']);
            }
        } else if c == '\\' {
            out.append("\\\\");
            proof {
                assert("\\\\"@ =~= seq!['\\', '\\']);
            }
        } else if c == '\n' {
            out.append("\\n");
            proof {
                assert("\\n"@ =~= seq!['\\', 'n']);
            }
        } else if c == '\r' {
            out.append("\\r");
            proof {
                assert("\\r"@ =~= seq!['\\', 'r']);
            }
        } else if c == '\t' {
            out.append("\\t");
            proof {
                assert("\\t"@ =~= seq!['\\', 't']);
            }
        } else if (c as u32) < 32 {
            let code = c as u32;
            out.append("\\u00");
            out.append(hex_str(code / 16));
            out.append(hex_str(code % 16));
            proof {
                assert("\\u00"@ =~= seq!['\\', 'u', '0', '0']);
                assert(out0 + json_escape_char(c) =~= out@);
            }
        } else {
            out.append(s.substring_char(k, k + 1));
            proof {
                assert(s@.subrange(k as int, k + 1 as int) =~= seq![s@[k as int]]);
            }
        }
        proof {
            assert(out0 + json_escape_char(s@[k as int]) =~= out@);
            assert(out0 + (json_escape_char(s@[k as int]) + json_escape_from(s@, k + 1 as int))
                =~= out@ + json_escape_from(s@, k + 1 as int));
        }
        k = k + 1;
    }
}

/// Appends `s` as a JSON string token.
pub fn append_json_quoted(out: &mut String, s: &str)
    ensures
        final (out)@ == old(out)@ + json_quoted(s@),
{
    proof {
        reveal_strlit("\"");
    }
    out.append("\"");
    append_json_escaped(out, s);
    out.append("\"");
    proof {
        assert("\""@ =~= seq!['"']);
        assert(old(out)@ + json_quoted(s@) =~= out@);
    }
}

/// The members of a JSON object, from field `i` on: each set field as
/// `"name":value`, comma-separated; `first` says whether no member has
/// been written yet.
pub open spec fn body_members_from(
    fs: Seq<(Seq<char>, Option<Seq<char>>)>,
    i: int,
    first: bool,
) -> Seq<char>
    decreases fs.len() - i,
{
    if i < 0 || i >= fs.len() {
        Seq::empty()
    } else {
        match fs[i].1 {
            None => body_members_from(fs, i + 1, first),
            Some(v) => (if first {
                Seq::empty()
            } else {
                seq![',']
            }) + seq!['"'] + fs[i].0 + seq!['"', ':'] + v + body_members_from(fs, i + 1, false),
        }
    }
}

/// A JSON object holding every set field, in declaration order.
pub open spec fn json_object_text(fs: Seq<(Seq<char>, Option<Seq<char>>)>) -> Seq<char> {
    seq!['{'] + body_members_from(fs, 0, true) + seq!['}']
}

/// Renders the set fields as a JSON object; an empty object when none is
/// set.
pub fn render_json_object(fields: &Vec<(String, Option<String>)>) -> (r: String)
    ensures
        r@ == json_object_text(params_view(fields@)),
{
    proof {
        reveal_strlit("{");
        reveal_strlit("}");
        reveal_strlit("\"");
        reveal_strlit("\":");
        reveal_strlit(",");
    }
    let ghost fv = params_view(fields@);
    let mut out = String::from_str("{");
    proof {
        assert(out@ =~= seq!['{']);
    }
    let mut k: usize = 0;
    let m = fields.len();
    let mut first: bool = true;
    while k < m
        invariant
            k <= m == fields@.len(),
            fv == params_view(fields@),
            seq!['{'] + body_members_from(fv, 0, true) == out@ + body_members_from(
                fv,
                k as int,
                first,
            ),
        decreases m - k,
    {
        proof {
            reveal_strlit("\"");
            reveal_strlit("\":");
            reveal_strlit(",");
        }
        let ghost out0 = out@;
        let f = &fields[k];
        match &f.1 {
            None => {},
            Some(v) => {
                if !first {
                    out.append(",");
                }
                out.append("\"");
                out.append(f.0.as_str());
                out.append("\":");
                out.append(v.as_str());
                proof {
                    let piece = (if first {
                        Seq::<char>::empty()
                    } else {
                        seq![',']
                    }) + seq!['"'] + fv[k as int].0 + seq!['"', ':'] + v@;
                    assert(out0 + piece =~= out@);
                    assert(out0 + (piece + body_members_from(fv, k + 1 as int, false)) =~= out@
                        + body_members_from(fv, k + 1 as int, false));
                }
                first = false;
            },
        }
        k = k + 1;
    }
    out.append("}");
    proof {
        assert(body_members_from(fv, m as int, first) =~= Seq::<char>::empty());
        assert(out@ =~= (seq!['{'] + body_members_from(fv, 0, true)) + seq!['}']);
        assert(out@ =~= json_object_text(fv));
    }
    out
}

} // verus!
