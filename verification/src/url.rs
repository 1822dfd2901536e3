//! URL templates: substitution of `{name}` placeholders with path-parameter
//! values.  A placeholder whose parameter was declared but never set is a
//! typed error; a brace pair naming no declared parameter is left as it
//! stands; an unmatched `{` is an ordinary character.

use vstd::prelude::*;

use crate::errors::ApiError;

verus! {

/// Least index at or after `i` where a `}` stands, or `-1`.
pub open spec fn find_close(s: Seq<char>, i: int) -> int
    decreases s.len() - i,
{
    if i < 0 || i >= s.len() {
        -1
    } else if s[i] == '}' {
        i
    } else {
        find_close(s, i + 1)
    }
}

pub proof fn lemma_find_close_bounds(s: Seq<char>, i: int)
    ensures
        find_close(s, i) == -1 || (i <= find_close(s, i) < s.len() && s[find_close(s, i)] == '}'),
    decreases s.len() - i,
{
    if 0 <= i && i < s.len() && s[i] != '}' {
        lemma_find_close_bounds(s, i + 1);
    }
}

/// The name/value view of a path-parameter list.
pub open spec fn params_view(ps: Seq<(String, Option<String>)>) -> Seq<
    (Seq<char>, Option<Seq<char>>),
> {
    Seq::new(
        ps.len(),
        |i: int|
            (
                ps[i].0@,
                match ps[i].1 {
                    Some(v) => Some(v@),
                    None => None,
                },
            ),
    )
}

/// First declared parameter of the given name, from position `k` on.
pub open spec fn lookup_from(
    ps: Seq<(Seq<char>, Option<Seq<char>>)>,
    name: Seq<char>,
    k: int,
) -> Option<Option<Seq<char>>>
    decreases ps.len() - k,
{
    if k < 0 || k >= ps.len() {
        None
    } else if ps[k].0 == name {
        Some(ps[k].1)
    } else {
        lookup_from(ps, name, k + 1)
    }
}

/// The substituted text from position `i` on, or the name of the first
/// placeholder whose declared parameter has no value.
pub open spec fn subst_from(
    t: Seq<char>,
    ps: Seq<(Seq<char>, Option<Seq<char>>)>,
    i: int,
) -> Result<Seq<char>, Seq<char>>
    decreases t.len() - i,
    via subst_from_decreases
{
    if i < 0 || i >= t.len() {
        Ok(Seq::empty())
    } else if t[i] == '{' && find_close(t, i + 1) >= 0 {
        let j = find_close(t, i + 1);
        let name = t.subrange(i + 1, j);
        match lookup_from(ps, name, 0) {
            Some(Some(v)) => match subst_from(t, ps, j + 1) {
                Ok(rest) => Ok(v + rest),
                Err(e) => Err(e),
            },
            Some(None) => Err(name),
            None => match subst_from(t, ps, j + 1) {
                Ok(rest) => Ok(t.subrange(i, j + 1) + rest),
                Err(e) => Err(e),
            },
        }
    } else {
        match subst_from(t, ps, i + 1) {
            Ok(rest) => Ok(seq![t[i]] + rest),
            Err(e) => Err(e),
        }
    }
}

#[via_fn]
proof fn subst_from_decreases(t: Seq<char>, ps: Seq<(Seq<char>, Option<Seq<char>>)>, i: int) {
    lemma_find_close_bounds(t, i + 1);
}

/// The whole substituted template, or the name of the first unset
/// placeholder.
pub open spec fn spec_substitute(t: Seq<char>, ps: Seq<(Seq<char>, Option<Seq<char>>)>) -> Result<
    Seq<char>,
    Seq<char>,
> {
    subst_from(t, ps, 0)
}

/// Substitutes every `{name}` placeholder of `template` with the matching
/// parameter's value; fails with a typed error naming the first
/// placeholder whose parameter is unset.
pub fn substitute(template: &str, params: &Vec<(String, Option<String>)>) -> (r: Result<
    String,
    ApiError,
>)
    ensures
        match r {
            Ok(u) => spec_substitute(template@, params_view(params@)) == Ok::<Seq<char>, Seq<char>>(
                u@,
            ),
            Err(e) => e matches ApiError::MissingPathParameter { name } && spec_substitute(
                template@,
                params_view(params@),
            ) == Err::<Seq<char>, Seq<char>>(name@),
        },
{
    let ghost pv = params_view(params@);
    let n = template.unicode_len();
    let mut out = String::new();
    let mut pos: usize = 0;
    while pos < n
        invariant
            pos <= n == template@.len(),
            pv == params_view(params@),
            match subst_from(template@, pv, pos as int) {
                Ok(rest) => subst_from(template@, pv, 0) == Ok::<Seq<char>, Seq<char>>(out@ + rest),
                Err(e) => subst_from(template@, pv, 0) == Err::<Seq<char>, Seq<char>>(e),
            },
        decreases n - pos,
    {
        let ghost out0 = out@;
        let c = template.get_char(pos);
        let mut plain = true;
        if c == '{' {
            // find the closing brace
            let mut j = pos + 1;
            while j < n && template.get_char(j) != '}'
                invariant
                    pos + 1 <= j <= n == template@.len(),
                    find_close(template@, pos + 1 as int) == find_close(template@, j as int),
                decreases n - j,
            {
                j = j + 1;
            }
            if j >= n {
                // no closing brace: the `{` is an ordinary character
                proof {
                    assert(find_close(template@, j as int) == -1);
                }
            } else {
                plain = false;
                proof {
                    assert(find_close(template@, j as int) == j);
                }
                let name_slice = template.substring_char(pos + 1, j);
                let name = String::from_str(name_slice);
                let ghost name_view = template@.subrange(pos + 1 as int, j as int);
                // look the name up among the declared parameters
                let mut k: usize = 0;
                let m = params.len();
                let mut hit: bool = false;
                while k < m && !hit
                    invariant
                        k <= m == params@.len(),
                        pv == params_view(params@),
                        name_view == name@,
                        if hit {
                            k < m && lookup_from(pv, name_view, 0) == Some(pv[k as int].1)
                        } else {
                            lookup_from(pv, name_view, 0) == lookup_from(pv, name_view, k as int)
                        },
                    decreases m - k, (if hit { 0int } else { 1 }),
                {
                    let p = &params[k];
                    if p.0 == name {
                        hit = true;
                    } else {
                        proof {
                            assert(pv[k as int].0 != name_view);
                        }
                        k = k + 1;
                    }
                }
                if hit {
                    match &params[k].1 {
                        Some(v) => {
                            out.append(v.as_str());
                            proof {
                                if let Ok(rest) = subst_from(template@, pv, j + 1 as int) {
                                    assert(out0 + (v@ + rest) =~= out@ + rest);
                                }
                            }
                            pos = j + 1;
                        },
                        None => {
                            proof {
                                assert(subst_from(template@, pv, pos as int) == Err::<
                                    Seq<char>,
                                    Seq<char>,
                                >(name_view));
                            }
                            return Err(ApiError::MissingPathParameter { name });
                        },
                    }
                } else {
                    proof {
                        assert(lookup_from(pv, name_view, 0) is None);
                        assert(template@.subrange(pos as int, j + 1 as int) =~= seq![
                            template@[pos as int],
                        ] + name_view + seq![template@[j as int]]);
                    }
                    let ghost lit = template@.subrange(pos as int, j + 1 as int);
                    out.append(template.substring_char(pos, j + 1));
                    proof {
                        if let Ok(rest) = subst_from(template@, pv, j + 1 as int) {
                            assert(out0 + (lit + rest) =~= out@ + rest);
                        }
                    }
                    pos = j + 1;
                }
            }
        }
        if plain {
            // an ordinary character is copied through
            out.append(template.substring_char(pos, pos + 1));
            proof {
                assert(template@.subrange(pos as int, pos + 1 as int) =~= seq![
                    template@[pos as int],
                ]);
                if let Ok(rest) = subst_from(template@, pv, pos + 1 as int) {
                    assert(out0 + (seq![template@[pos as int]] + rest) =~= out@ + rest);
                }
            }
            pos = pos + 1;
        }
    }
    proof {
        assert(out@ + Seq::<char>::empty() =~= out@);
    }
    Ok(out)
}

} // verus!
