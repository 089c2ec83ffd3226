//! Text helpers shared by the command lines and the replies.

use vstd::prelude::*;

verus! {

/// `r` is an error whose message is `msg`.
pub open spec fn fails_with<T>(r: Result<T, String>, msg: Seq<char>) -> bool {
    match r {
        Ok(_) => false,
        Err(e) => e@ == msg,
    }
}

/// The character sequences of a list of strings.
pub open spec fn texts(v: Seq<String>) -> Seq<Seq<char>> {
    v.map_values(|s: String| s@)
}

/// The parts, in order, with `sep` between each two neighbours.
pub open spec fn join_spec(parts: Seq<Seq<char>>, sep: Seq<char>) -> Seq<char>
    decreases parts.len(),
{
    if parts.len() == 0 {
        Seq::empty()
    } else if parts.len() == 1 {
        parts[0]
    } else {
        join_spec(parts.drop_last(), sep) + sep + parts.last()
    }
}

/// Joins the strings in `parts` with `sep` between each two neighbours.
pub fn join_strings(parts: &Vec<String>, sep: &str) -> (joined: String)
    ensures
        joined@ == join_spec(texts(parts@), sep@),
{
    let mut joined = String::new();
    let ghost all = texts(parts@);
    let mut i: usize = 0;
    while i < parts.len()
        invariant
            0 <= i <= parts.len(),
            all == texts(parts@),
            joined@ == join_spec(all.take(i as int), sep@),
        decreases parts.len() - i,
    {
        assert(all.take(i as int + 1).drop_last() =~= all.take(i as int));
        if i > 0 {
            joined.append(sep);
        } else {
            assert(all.take(0) =~= Seq::<Seq<char>>::empty());
        }
        joined.append(parts[i].as_str());
        i = i + 1;
    }
    assert(all.take(parts.len() as int) =~= all);
    joined
}

/// The concatenation of two strings.
pub fn concat2(a: &str, b: &str) -> (s: String)
    ensures
        s@ == a@ + b@,
{
    let mut s = String::from_str(a);
    s.append(b);
    s
}

/// The concatenation of three strings.
pub fn concat3(a: &str, b: &str, c: &str) -> (s: String)
    ensures
        s@ == a@ + b@ + c@,
{
    let mut s = String::from_str(a);
    s.append(b);
    s.append(c);
    s
}

/// Joining a single part gives that part, untouched.
pub proof fn lemma_join_single(part: Seq<char>, sep: Seq<char>)
    ensures
        join_spec(seq![part], sep) == part,
{
}

/// Joining two non-empty lists one after the other is joining each and
/// putting one separator between the two results: every two neighbouring
/// parts, wherever they stand, are separated by exactly one `sep`.
pub proof fn lemma_join_concat(a: Seq<Seq<char>>, b: Seq<Seq<char>>, sep: Seq<char>)
    requires
        a.len() > 0,
        b.len() > 0,
    ensures
        join_spec(a + b, sep) == join_spec(a, sep) + sep + join_spec(b, sep),
    decreases b.len(),
{
    let ab = a + b;
    assert(ab.last() == b.last());
    if b.len() == 1 {
        assert(ab.drop_last() =~= a);
        assert(join_spec(b, sep) == b[0]);
    } else {
        assert(ab.drop_last() =~= a + b.drop_last());
        lemma_join_concat(a, b.drop_last(), sep);
        assert(join_spec(b, sep) == join_spec(b.drop_last(), sep) + sep + b.last());
        assert(join_spec(ab, sep) =~= join_spec(a, sep) + sep + join_spec(b, sep));
    }
}

/// Every part after the first, each with the separator put in front of it.
pub open spec fn prefixed_rest(parts: Seq<Seq<char>>, sep: Seq<char>) -> Seq<Seq<char>> {
    parts.drop_first().map_values(|p: Seq<char>| sep + p)
}

/// Joining parts p0, p1, ..., pn-1 gives p0 + sep + p1 + sep + ... + sep + pn-1:
/// the first part, then each further part with one separator in front of it.
pub proof fn lemma_join_is_fold(parts: Seq<Seq<char>>, sep: Seq<char>)
    requires
        parts.len() > 0,
    ensures
        join_spec(parts, sep) == parts[0] + prefixed_rest(parts, sep).flatten(),
    decreases parts.len(),
{
    let rest = prefixed_rest(parts, sep);
    rest.lemma_flatten_and_flatten_alt_are_equivalent();
    if parts.len() == 1 {
        assert(rest.len() == 0);
        assert(parts[0] + rest.flatten() =~= parts[0]);
    } else {
        let front = parts.drop_last();
        lemma_join_is_fold(front, sep);
        let front_rest = prefixed_rest(front, sep);
        front_rest.lemma_flatten_and_flatten_alt_are_equivalent();
        assert(rest.drop_last() =~= front_rest);
        assert(rest.last() == sep + parts.last());
        assert(rest.flatten_alt() == rest.drop_last().flatten_alt() + rest.last());
        assert(front[0] == parts[0]);
        assert(join_spec(parts, sep) == join_spec(front, sep) + sep + parts.last());
        assert(join_spec(parts, sep) =~= parts[0] + rest.flatten());
    }
}

/// The lengths of all parts together.
pub open spec fn total_len(parts: Seq<Seq<char>>) -> int
    decreases parts.len(),
{
    if parts.len() == 0 {
        0
    } else {
        total_len(parts.drop_last()) + parts.last().len()
    }
}

/// A joined text of n parts is as long as the parts together plus n - 1
/// separators.
pub proof fn lemma_join_len(parts: Seq<Seq<char>>, sep: Seq<char>)
    requires
        parts.len() > 0,
    ensures
        join_spec(parts, sep).len() == total_len(parts) + (parts.len() - 1) * sep.len(),
    decreases parts.len(),
{
    let n: int = parts.len() as int;
    let k: int = sep.len() as int;
    if n > 1 {
        lemma_join_len(parts.drop_last(), sep);
        assert(join_spec(parts, sep) == join_spec(parts.drop_last(), sep) + sep + parts.last());
        assert(total_len(parts) == total_len(parts.drop_last()) + parts.last().len());
        assert((n - 1) * k == (n - 2) * k + k) by (nonlinear_arith);
    } else {
        assert(parts.last() == parts[0]);
        assert(total_len(parts.drop_last()) == 0);
        assert(join_spec(parts, sep) == parts[0]);
        assert((n - 1) * k == 0) by (nonlinear_arith)
            requires
                n == 1,
        ;
    }
}

} // verus!
