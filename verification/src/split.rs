//! Splitting text at a separator character and joining pieces with one,
//! with the laws that tie the two together.

use vstd::prelude::*;

verus! {

/// The pieces of `s` between occurrences of `sep`, in order (what
/// `str::split` yields). There is always at least one piece.
pub open spec fn split_on(s: Seq<char>, sep: char) -> Seq<Seq<char>>
    decreases s.len(),
{
    if s.len() == 0 {
        seq![Seq::empty()]
    } else {
        let rest = split_on(s.drop_last(), sep);
        if s.last() == sep {
            rest.push(Seq::empty())
        } else {
            rest.update(rest.len() - 1, rest.last().push(s.last()))
        }
    }
}

/// The pieces joined, with `sep` between consecutive pieces.
pub open spec fn join_with(pieces: Seq<Seq<char>>, sep: char) -> Seq<char>
    decreases pieces.len(),
{
    if pieces.len() == 0 {
        Seq::empty()
    } else if pieces.len() == 1 {
        pieces[0]
    } else {
        join_with(pieces.drop_last(), sep) + seq![sep] + pieces.last()
    }
}

pub proof fn lemma_split_nonempty(s: Seq<char>, sep: char)
    ensures
        split_on(s, sep).len() >= 1,
    decreases s.len(),
{
    if s.len() > 0 {
        lemma_split_nonempty(s.drop_last(), sep);
    }
}

/// Text without the separator is a single piece.
pub proof fn lemma_split_single(s: Seq<char>, sep: char)
    requires
        !s.contains(sep),
    ensures
        split_on(s, sep) == seq![s],
    decreases s.len(),
{
    if s.len() > 0 {
        let t = s.drop_last();
        assert(!t.contains(sep)) by {
            if t.contains(sep) {
                let i = choose|i: int| 0 <= i < t.len() && t[i] == sep;
                assert(s[i] == sep);
            }
        }
        lemma_split_single(t, sep);
        assert(s.last() != sep) by {
            assert(s[s.len() - 1] == s.last());
        }
        assert(t.push(s.last()) =~= s);
        assert(seq![t].update(0, t.push(s.last())) =~= seq![s]);
    } else {
        assert(s =~= Seq::<char>::empty());
        assert(seq![Seq::<char>::empty()] =~= seq![s]);
    }
}

/// Splitting text with a separator between two parts splits each part.
pub proof fn lemma_split_concat(a: Seq<char>, b: Seq<char>, sep: char)
    ensures
        split_on(a + seq![sep] + b, sep) == split_on(a, sep) + split_on(b, sep),
    decreases b.len(),
{
    let c = a + seq![sep] + b;
    if b.len() == 0 {
        assert(c.drop_last() =~= a);
        assert(c.last() == sep);
        assert(split_on(b, sep) =~= seq![Seq::<char>::empty()]);
        assert(split_on(a, sep).push(Seq::empty()) =~= split_on(a, sep) + split_on(b, sep));
    } else {
        let b1 = b.drop_last();
        lemma_split_concat(a, b1, sep);
        assert(c.drop_last() =~= a + seq![sep] + b1);
        assert(c.last() == b.last());
        lemma_split_nonempty(a, sep);
        lemma_split_nonempty(b1, sep);
        let sa = split_on(a, sep);
        let sb = split_on(b1, sep);
        if b.last() == sep {
            assert((sa + sb).push(Seq::empty()) =~= sa + sb.push(Seq::empty()));
        } else {
            let x = b.last();
            assert((sa + sb).update((sa + sb).len() - 1, (sa + sb).last().push(x)) =~= sa + sb.update(
                sb.len() - 1,
                sb.last().push(x),
            ));
        }
    }
}

/// Joined pieces that hold no separator split back into the pieces.
pub proof fn lemma_split_join(pieces: Seq<Seq<char>>, sep: char)
    requires
        pieces.len() >= 1,
        forall|i: int| 0 <= i < pieces.len() ==> !pieces[i].contains(sep),
    ensures
        split_on(join_with(pieces, sep), sep) == pieces,
    decreases pieces.len(),
{
    if pieces.len() == 1 {
        lemma_split_single(pieces[0], sep);
        assert(seq![pieces[0]] =~= pieces);
    } else {
        let p = pieces.drop_last();
        lemma_split_join(p, sep);
        lemma_split_concat(join_with(p, sep), pieces.last(), sep);
        lemma_split_single(pieces.last(), sep);
        assert(p + seq![pieces.last()] =~= pieces);
    }
}

/// The views of a vector of character vectors.
pub open spec fn views(v: Seq<Vec<char>>) -> Seq<Seq<char>> {
    v.map_values(|x: Vec<char>| x@)
}

/// The pieces of `c` between occurrences of `sep`.
pub fn split_chars(c: &Vec<char>, sep: char) -> (r: Vec<Vec<char>>)
    ensures
        views(r@) == split_on(c@, sep),
        r.len() >= 1,
{
    let mut done: Vec<Vec<char>> = Vec::new();
    let mut cur: Vec<char> = Vec::new();
    let mut i: usize = 0;
    proof {
        assert(c@.take(0) =~= Seq::<char>::empty());
        assert(views(done@).push(cur@) =~= seq![Seq::<char>::empty()]);
    }
    while i < c.len()
        invariant
            i <= c.len(),
            views(done@).push(cur@) == split_on(c@.take(i as int), sep),
        decreases c.len() - i,
    {
        let x = c[i];
        let ghost before = views(done@).push(cur@);
        proof {
            let t = c@.take(i as int + 1);
            assert(t.drop_last() =~= c@.take(i as int));
            assert(t.last() == x);
        }
        if x == sep {
            proof {
                assert(views(done@.push(cur)) =~= views(done@).push(cur@));
            }
            done.push(cur);
            cur = Vec::new();
            proof {
                assert(views(done@).push(cur@) =~= before.push(Seq::empty()));
            }
        } else {
            cur.push(x);
            proof {
                assert(views(done@).push(cur@) =~= before.update(before.len() - 1, before.last().push(x)));
            }
        }
        i = i + 1;
    }
    proof {
        assert(c@.take(c.len() as int) =~= c@);
        assert(views(done@.push(cur)) =~= views(done@).push(cur@));
    }
    done.push(cur);
    done
}

} // verus!
