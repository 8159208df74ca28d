//! Format templates with positional `{}` placeholders.
//!
//! The grammar: `{{` stands for `{`, `}}` for `}`, `{}` for the next argument,
//! and any other character for itself. A lone brace is malformed.
use vstd::prelude::*;
use vstd::string::*;

verus! {

/// The number of placeholders in a well-formed template, or `None` when the
/// template is malformed.
pub open spec fn arity(t: Seq<char>) -> Option<nat>
    decreases t.len(),
{
    if t.len() == 0 {
        Some(0)
    } else if t.len() >= 2 && t[0] == '{' && t[1] == '{' {
        arity(t.skip(2))
    } else if t.len() >= 2 && t[0] == '}' && t[1] == '}' {
        arity(t.skip(2))
    } else if t.len() >= 2 && t[0] == '{' && t[1] == '}' {
        match arity(t.skip(2)) {
            Some(n) => Some(n + 1),
            None => None,
        }
    } else if t[0] == '{' || t[0] == '}' {
        None
    } else {
        arity(t.skip(1))
    }
}

/// The text of template `t` with the placeholders replaced by `args`, in order.
pub open spec fn fill(t: Seq<char>, args: Seq<Seq<char>>) -> Seq<char>
    decreases t.len(),
{
    if t.len() == 0 {
        Seq::empty()
    } else if t.len() >= 2 && t[0] == '{' && t[1] == '{' {
        seq!['{'] + fill(t.skip(2), args)
    } else if t.len() >= 2 && t[0] == '}' && t[1] == '}' {
        seq!['}'] + fill(t.skip(2), args)
    } else if t.len() >= 2 && t[0] == '{' && t[1] == '}' {
        if args.len() > 0 {
            args[0] + fill(t.skip(2), args.skip(1))
        } else {
            fill(t.skip(2), args)
        }
    } else {
        seq![t[0]] + fill(t.skip(1), args)
    }
}

pub open spec fn shifted(o: Option<nat>, k: nat) -> Option<nat> {
    match o {
        Some(n) => Some(n + k),
        None => None,
    }
}

/// The views of a sequence of strings.
pub open spec fn texts(v: Seq<String>) -> Seq<Seq<char>> {
    v.map_values(|s: String| s@)
}

/// Counts the placeholders of `t`, or returns `None` when `t` is malformed.
pub fn template_arity(t: &str) -> (r: Option<usize>)
    ensures
        match r {
            Some(n) => arity(t@) == Some(n as nat),
            None => arity(t@) is None,
        },
{
    let len = t.unicode_len();
    let mut i: usize = 0;
    let mut n: usize = 0;
    assert(t@.skip(0) =~= t@);
    while i < len
        invariant
            len == t@.len(),
            i <= len,
            n <= i,
            arity(t@) == shifted(arity(t@.skip(i as int)), n as nat),
        decreases len - i,
    {
        let rest = Ghost(t@.skip(i as int));
        let c = t.get_char(i);
        assert(rest@[0] == c);
        if i + 1 < len {
            let d = t.get_char(i + 1);
            assert(rest@[1] == d);
            assert(rest@.skip(2) =~= t@.skip(i + 2));
            if (c == '{' && d == '{') || (c == '}' && d == '}') {
                i = i + 2;
                continue;
            } else if c == '{' && d == '}' {
                i = i + 2;
                n = n + 1;
                continue;
            }
        }
        assert(rest@.skip(1) =~= t@.skip(i + 1));
        if c == '{' || c == '}' {
            return None;
        }
        i = i + 1;
    }
    assert(t@.skip(i as int).len() == 0);
    Some(n)
}

/// Substitutes `args` for the placeholders of the well-formed template `t`.
pub fn fill_template(t: &str, args: &Vec<String>) -> (r: String)
    requires
        arity(t@) == Some(args@.len() as nat),
    ensures
        r@ == fill(t@, texts(args@)),
{
    let len = t.unicode_len();
    let mut i: usize = 0;
    let mut k: usize = 0;
    let mut out = String::new();
    let nargs = args.len();
    assert(t@.skip(0) =~= t@);
    assert(texts(args@).skip(0) =~= texts(args@));
    while i < len
        invariant
            len == t@.len(),
            i <= len,
            k <= args@.len(),
            nargs == args@.len(),
            arity(t@.skip(i as int)) == Some((args@.len() - k) as nat),
            out@ + fill(t@.skip(i as int), texts(args@).skip(k as int)) == fill(t@, texts(args@)),
        decreases len - i,
    {
        let ghost rest = t@.skip(i as int);
        let ghost ts = texts(args@).skip(k as int);
        let ghost before = out@;
        let c = t.get_char(i);
        assert(rest[0] == c);
        if i + 1 < len {
            let d = t.get_char(i + 1);
            assert(rest[1] == d);
            assert(rest.skip(2) =~= t@.skip(i + 2));
            if (c == '{' && d == '{') || (c == '}' && d == '}') {
                out.append(t.substring_char(i, i + 1));
                assert(t@.subrange(i as int, i + 1) =~= seq![c]);
                assert(out@ + fill(t@.skip(i + 2), ts) =~= before + fill(rest, ts));
                i = i + 2;
                continue;
            } else if c == '{' && d == '}' {
                assert(arity(rest) == shifted(arity(rest.skip(2)), 1));
                assert(k < nargs);
                out.append(args[k].as_str());
                assert(ts.skip(1) =~= texts(args@).skip(k + 1));
                assert(ts[0] == args@[k as int]@);
                assert(out@ + fill(t@.skip(i + 2), ts.skip(1)) =~= before + fill(rest, ts));
                i = i + 2;
                k = k + 1;
                continue;
            }
        }
        assert(rest.skip(1) =~= t@.skip(i + 1));
        out.append(t.substring_char(i, i + 1));
        assert(t@.subrange(i as int, i + 1) =~= seq![c]);
        assert(out@ + fill(t@.skip(i + 1), ts) =~= before + fill(rest, ts));
        i = i + 1;
    }
    assert(fill(t@.skip(i as int), texts(args@).skip(k as int)) =~= Seq::<char>::empty());
    assert(out@ =~= out@ + Seq::<char>::empty());
    out
}

} // verus!
