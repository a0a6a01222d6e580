use vstd::prelude::*;

verus! {

/// Relies on `str::strip_prefix` with a string pattern: `Some` of the rest
/// exactly when `s` starts with `prefix`.
#[verifier::external_body]
fn strip_str_prefix<'a>(s: &'a str, prefix: &str) -> (r: Option<&'a str>)
    ensures
        r is Some <==> (prefix@.len() <= s@.len() && s@.subrange(0, prefix@.len() as int)
            == prefix@),
        r matches Some(t) ==> t@ == s@.subrange(prefix@.len() as int, s@.len() as int),
{
    s.strip_prefix(prefix)
}

/// Relies on `str::strip_suffix` with a string pattern: `Some` of the rest
/// exactly when `s` ends with `suffix`.
#[verifier::external_body]
fn strip_str_suffix<'a>(s: &'a str, suffix: &str) -> (r: Option<&'a str>)
    ensures
        r is Some <==> (suffix@.len() <= s@.len() && s@.subrange(
            s@.len() - suffix@.len(),
            s@.len() as int,
        ) == suffix@),
        r matches Some(t) ==> t@ == s@.subrange(0, s@.len() - suffix@.len()),
{
    s.strip_suffix(suffix)
}

/// What stands between the parentheses of `cast(...)`, or `None` when `s`
/// does not have that shape.
pub open spec fn cast_contents(s: Seq<char>, cast: Seq<char>) -> Option<Seq<char>> {
    if s.len() >= cast.len() + 2 && s.subrange(0, cast.len() as int) == cast && s[cast.len() as int]
        == '(' && s.last() == ')' {
        Some(s.subrange(cast.len() as int + 1, s.len() - 1))
    } else {
        None
    }
}

/// Strips the "casting" syntax off `s`: `Foo(bar baz)` with cast `Foo`
/// gives `bar baz`; `None` when `s` is not of the form `cast(...)`.
pub fn strip_cast_func<'a>(s: &'a str, cast: &str) -> (r: Option<&'a str>)
    ensures
        r is Some <==> cast_contents(s@, cast@) is Some,
        r matches Some(t) ==> cast_contents(s@, cast@) == Some(t@),
{
    let open = "(";
    let close = ")";
    proof {
        reveal_strlit("(");
        reveal_strlit(")");
        assert(open@ =~= seq!['(']);
        assert(close@ =~= seq![')']);
    }
    let ghost c = cast@.len() as int;
    let ghost n = s@.len() as int;
    let rest = match strip_str_prefix(s, cast) {
        Some(rest) => rest,
        None => {
            return None;
        },
    };
    assert(rest@ =~= s@.subrange(c, n));
    let inner = match strip_str_prefix(rest, open) {
        Some(inner) => inner,
        None => {
            proof {
                if n >= c + 2 {
                    assert(rest@.subrange(0, 1) =~= seq![s@[c]]);
                }
            }
            return None;
        },
    };
    assert(open@.len() == 1);
    assert(rest@.subrange(0, 1) =~= seq![s@[c]]);
    assert(rest@.subrange(0, 1)[0] == open@[0]);
    assert(s@[c] == '(');
    assert(inner@ =~= s@.subrange(c + 1, n));
    let r = strip_str_suffix(inner, close);
    proof {
        assert(close@.len() == 1);
        if inner@.len() >= 1 {
            assert(inner@.subrange(inner@.len() - 1, inner@.len() as int) =~= seq![s@[n - 1]]);
            if r is Some {
                assert(inner@.subrange(inner@.len() - 1, inner@.len() as int)[0] == close@[0]);
            }
        }
        if r is Some {
            assert(r->0@ =~= s@.subrange(c + 1, n - 1));
        }
    }
    r
}

} // verus!
