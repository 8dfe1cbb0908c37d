//! Splitting a configured domain into its labels and composing the target
//! names: the root domain is the last two dot-separated labels, the base
//! subdomain is whatever precedes them.

use vstd::prelude::*;
use vstd::string::{StrSliceExecFns, StringExecFns};

verus! {

/// The dot-separated labels of `s`, from left to right.  Splitting never
/// yields fewer than one label: the empty sequence splits into one empty
/// label, and every dot adds one more.
pub open spec fn split_labels(s: Seq<char>) -> Seq<Seq<char>>
    decreases s.len(),
{
    if s.len() == 0 {
        seq![Seq::<char>::empty()]
    } else if s.last() == '.' {
        split_labels(s.drop_last()).push(Seq::<char>::empty())
    } else {
        let rest = split_labels(s.drop_last());
        rest.update(rest.len() - 1, rest.last().push(s.last()))
    }
}

/// The labels of `parts` joined with a dot between each pair.
pub open spec fn join_labels(parts: Seq<Seq<char>>) -> Seq<char>
    decreases parts.len(),
{
    if parts.len() == 0 {
        Seq::<char>::empty()
    } else if parts.len() == 1 {
        parts[0]
    } else {
        join_labels(parts.drop_last()) + seq!['.'] + parts.last()
    }
}

pub proof fn lemma_split_labels_len(s: Seq<char>)
    ensures
        split_labels(s).len() >= 1,
    decreases s.len(),
{
    if s.len() > 0 {
        lemma_split_labels_len(s.drop_last());
    }
}

/// Joining the labels of a split restores the original sequence: the split
/// loses nothing but the dots it reinstates.
pub proof fn lemma_join_split(s: Seq<char>)
    ensures
        join_labels(split_labels(s)) == s,
    decreases s.len(),
{
    if s.len() == 0 {
        assert(join_labels(split_labels(s)) =~= s);
    } else {
        let t = s.drop_last();
        lemma_join_split(t);
        lemma_split_labels_len(t);
        let rest = split_labels(t);
        if s.last() == '.' {
            let whole = rest.push(Seq::<char>::empty());
            assert(whole.drop_last() =~= rest);
            assert(join_labels(whole) =~= join_labels(rest) + seq![s.last()]);
            assert(join_labels(whole) =~= s);
        } else {
            let whole = rest.update(rest.len() - 1, rest.last().push(s.last()));
            if rest.len() == 1 {
                assert(join_labels(whole) == whole[0]);
                assert(whole[0] =~= rest[0].push(s.last()));
                assert(join_labels(rest) == rest[0]);
                assert(join_labels(whole) =~= s);
            } else {
                assert(whole.drop_last() =~= rest.drop_last());
                assert(whole.last() =~= rest.last().push(s.last()));
                assert(join_labels(whole) == join_labels(rest.drop_last()) + seq!['.']
                    + rest.last().push(s.last()));
                assert(join_labels(rest) == join_labels(rest.drop_last()) + seq!['.']
                    + rest.last());
                assert(join_labels(whole) =~= join_labels(rest).push(s.last()));
                assert(join_labels(whole) =~= s);
            }
        }
    }
}

/// The views of a sequence of owned strings.
pub open spec fn str_views(ps: Seq<String>) -> Seq<Seq<char>> {
    ps.map_values(|p: String| p@)
}

/// Joins `parts[from..to]` with a dot between each pair of labels.
fn join_range(parts: &Vec<String>, from: usize, to: usize) -> (r: String)
    requires
        from <= to <= parts@.len(),
    ensures
        r@ == join_labels(str_views(parts@).subrange(from as int, to as int)),
{
    let mut r = String::new();
    let mut i: usize = from;
    proof {
        assert(str_views(parts@).subrange(from as int, from as int) =~= Seq::<
            Seq<char>,
        >::empty());
    }
    while i < to
        invariant
            from <= i <= to <= parts@.len(),
            r@ == join_labels(str_views(parts@).subrange(from as int, i as int)),
        decreases to - i,
    {
        proof {
            reveal_strlit(".");
            let sub1 = str_views(parts@).subrange(from as int, i as int);
            let sub2 = str_views(parts@).subrange(from as int, i + 1 as int);
            assert(sub2.drop_last() =~~= sub1);
            assert(sub2.last() == parts@[i as int]@);
        }
        if i > from {
            r.append(".");
            proof {
                assert("."@ =~= seq!['.']);
            }
        }
        let p = &parts[i];
        r.append(p.as_str());
        i = i + 1;
    }
    r
}

/// Splits `domain` into its dot-separated labels, keeping the last two as
/// the root domain and joining the remaining leading labels (possibly none)
/// as the base subdomain.
pub fn extract_subdomain(domain: String) -> (r: (String, String))
    requires
        split_labels(domain@).len() >= 2,
    ensures
        r.0@ == join_labels(split_labels(domain@).take(split_labels(domain@).len() - 2)),
        r.1@ == join_labels(split_labels(domain@).skip(split_labels(domain@).len() - 2)),
{
    let s = domain.as_str();
    let n = s.unicode_len();
    let mut parts: Vec<String> = Vec::new();
    let mut start: usize = 0;
    let mut i: usize = 0;
    proof {
        assert(domain@.take(0) =~= Seq::<char>::empty());
        assert(domain@.subrange(0, 0) =~= Seq::<char>::empty());
        assert(str_views(parts@).push(domain@.subrange(0, 0)) =~~= split_labels(
            domain@.take(0),
        ));
    }
    while i < n
        invariant
            start <= i <= n == domain@.len(),
            s@ == domain@,
            str_views(parts@).push(domain@.subrange(start as int, i as int)) =~~= split_labels(
                domain@.take(i as int),
            ),
        decreases n - i,
    {
        let c = s.get_char(i);
        proof {
            assert(domain@.take(i + 1 as int).drop_last() =~= domain@.take(i as int));
            assert(domain@.take(i + 1 as int).last() == domain@[i as int]);
        }
        if c == '.' {
            let label = s.substring_char(start, i);
            parts.push(String::from_str(label));
            proof {
                assert(domain@.subrange(i + 1 as int, i + 1 as int) =~= Seq::<char>::empty());
                assert(str_views(parts@).push(Seq::<char>::empty()) =~~= split_labels(
                    domain@.take(i + 1 as int),
                ));
            }
            start = i + 1;
        } else {
            proof {
                assert(domain@.subrange(start as int, i + 1 as int) =~= domain@.subrange(
                    start as int,
                    i as int,
                ).push(domain@[i as int]));
                let pv = str_views(parts@);
                let cur = domain@.subrange(start as int, i as int);
                assert(pv.push(cur).last() == cur);
                assert(pv.push(cur).update(pv.len() as int, cur.push(domain@[i as int]))
                    =~~= pv.push(cur.push(domain@[i as int])));
            }
        }
        i = i + 1;
    }
    let last = s.substring_char(start, n);
    parts.push(String::from_str(last));
    proof {
        assert(domain@.take(n as int) =~= domain@);
        assert(str_views(parts@) =~~= split_labels(domain@));
    }
    let m = parts.len();
    let sub = join_range(&parts, 0, m - 2);
    let root = join_range(&parts, m - 2, m);
    proof {
        let sp = split_labels(domain@);
        assert(sp.subrange(0, sp.len() - 2) =~~= sp.take(sp.len() - 2));
        assert(sp.subrange(sp.len() - 2, sp.len() as int) =~~= sp.skip(sp.len() - 2));
    }
    (sub, root)
}

/// The full subdomain: the resolved label alone when the base subdomain is
/// empty, otherwise the label followed by a dot and the base subdomain.
pub open spec fn spec_full_subdomain(label: Seq<char>, base: Seq<char>) -> Seq<char> {
    if base.len() == 0 {
        label
    } else {
        label + seq!['.'] + base
    }
}

/// Composes the full subdomain from a resolved label and the configured base
/// subdomain.
pub fn compose_full_subdomain(label: &String, base: &String) -> (r: String)
    ensures
        r@ == spec_full_subdomain(label@, base@),
{
    if base.as_str().unicode_len() == 0 {
        label.clone()
    } else {
        join_dot(label.as_str(), base.as_str())
    }
}

/// Joins two names with a single dot between them.
pub fn join_dot(left: &str, right: &str) -> (r: String)
    ensures
        r@ == left@ + seq!['.'] + right@,
{
    let mut r = String::from_str(left);
    r.append(".");
    r.append(right);
    proof {
        reveal_strlit(".");
        assert("."@ =~= seq!['.']);
    }
    r
}

} // verus!
