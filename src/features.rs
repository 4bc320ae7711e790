//! Lists of cargo feature names: merging, de-duplication and joining.
use vstd::prelude::*;

verus! {

/// `s` with every repeated entry dropped, each kept where it first occurs.
pub open spec fn unique(s: Seq<Seq<char>>) -> Seq<Seq<char>>
    decreases s.len(),
{
    if s.len() == 0 {
        s
    } else {
        let p = unique(s.drop_last());
        if p.contains(s.last()) {
            p
        } else {
            p.push(s.last())
        }
    }
}

/// The entries of `s` with `sep` between each two of them.
pub open spec fn join_words(s: Seq<Seq<char>>, sep: Seq<char>) -> Seq<char>
    decreases s.len(),
{
    if s.len() == 0 {
        Seq::empty()
    } else if s.len() == 1 {
        s[0]
    } else {
        join_words(s.drop_last(), sep) + sep + s.last()
    }
}

/// `unique` keeps exactly the entries of its argument.
pub proof fn lemma_unique_contains(s: Seq<Seq<char>>, x: Seq<char>)
    ensures
        unique(s).contains(x) <==> s.contains(x),
    decreases s.len(),
{
    if s.len() > 0 {
        lemma_unique_contains(s.drop_last(), x);
        if s.drop_last().contains(x) {
            let k = choose|k: int| 0 <= k < s.drop_last().len() && s.drop_last()[k] == x;
            assert(s[k] == x);
        }
        if s.contains(x) && x != s.last() {
            let k = choose|k: int| 0 <= k < s.len() && s[k] == x;
            assert(s.drop_last()[k] == x);
        }
        if x == s.last() {
            assert(s[s.len() - 1] == x);
            let p = unique(s.drop_last());
            if !p.contains(x) {
                assert(p.push(x)[p.len() as int] == x);
            }
        } else {
            let p = unique(s.drop_last());
            if !p.contains(s.last()) {
                if p.push(s.last()).contains(x) {
                    let k = choose|k: int| 0 <= k < p.len() + 1 && p.push(s.last())[k] == x;
                    assert(p[k] == x);
                }
                if p.contains(x) {
                    let k = choose|k: int| 0 <= k < p.len() && p[k] == x;
                    assert(p.push(s.last())[k] == x);
                }
            }
        }
    }
}

/// A list whose entries are already distinct passes through `unique` unchanged.
pub proof fn lemma_unique_of_distinct(s: Seq<Seq<char>>)
    requires
        s.no_duplicates(),
    ensures
        unique(s) == s,
    decreases s.len(),
{
    if s.len() > 0 {
        assert(s.drop_last().no_duplicates());
        lemma_unique_of_distinct(s.drop_last());
        if s.drop_last().contains(s.last()) {
            let k = choose|k: int| 0 <= k < s.drop_last().len() && s.drop_last()[k] == s.last();
            assert(s[k] == s[s.len() - 1]);
        }
        assert(s.drop_last().push(s.last()) =~= s);
    }
}

/// What `unique` returns holds no entry twice.
pub proof fn lemma_unique_distinct(s: Seq<Seq<char>>)
    ensures
        unique(s).no_duplicates(),
    decreases s.len(),
{
    if s.len() > 0 {
        lemma_unique_distinct(s.drop_last());
        let p = unique(s.drop_last());
        if !p.contains(s.last()) {
            assert forall|i: int, j: int|
                0 <= i < j < p.len() + 1 implies p.push(s.last())[i] != p.push(s.last())[j] by {
                if j == p.len() {
                    assert(p[i] == p.push(s.last())[i]);
                    if p[i] == s.last() {
                        assert(p.contains(s.last()));
                    }
                }
            }
        }
    }
}

/// De-duplicating a merged feature list a second time changes nothing.
pub proof fn lemma_unique_idempotent(s: Seq<Seq<char>>)
    ensures
        unique(unique(s)) == unique(s),
{
    lemma_unique_distinct(s);
    lemma_unique_of_distinct(unique(s));
}

/// Appending entries that are already present leaves the result of `unique` as it is.
pub proof fn lemma_unique_append_present(s: Seq<Seq<char>>, t: Seq<Seq<char>>)
    requires
        forall|i: int| 0 <= i < t.len() ==> s.contains(#[trigger] t[i]),
    ensures
        unique(s + t) == unique(s),
    decreases t.len(),
{
    if t.len() == 0 {
        assert(s + t =~= s);
    } else {
        let u = s + t;
        assert(u.drop_last() =~= s + t.drop_last());
        lemma_unique_append_present(s, t.drop_last());
        assert(s.contains(t[t.len() - 1]));
        lemma_unique_contains(s, t.last());
    }
}

/// Merging a feature list with itself and de-duplicating gives what merging
/// it once and de-duplicating gives.
pub proof fn lemma_merge_twice(s: Seq<Seq<char>>)
    ensures
        unique(s + s) == unique(s),
        unique(unique(s + s)) == unique(s),
{
    assert forall|i: int| 0 <= i < s.len() implies s.contains(#[trigger] s[i]) by {}
    lemma_unique_append_present(s, s);
    lemma_unique_idempotent(s);
}

/// Whether `v` holds an entry equal to `x`.
pub fn contains_string(v: &Vec<String>, x: &String) -> (r: bool)
    ensures
        r == v.deep_view().contains(x@),
{
    let mut i: usize = 0;
    while i < v.len()
        invariant
            i <= v@.len(),
            forall|k: int| 0 <= k < i ==> v@[k]@ != x@,
        decreases v.len() - i,
    {
        if v[i] == *x {
            assert(v.deep_view()[i as int] == x@);
            return true;
        }
        i = i + 1;
    }
    assert forall|k: int| 0 <= k < v.deep_view().len() implies v.deep_view()[k] != x@ by {
        assert(v@[k]@ != x@);
    }
    false
}

/// Drops every repeated entry of `v`, keeping each where it first occurs.
pub fn dedup_strings(v: Vec<String>) -> (r: Vec<String>)
    ensures
        r.deep_view() == unique(v.deep_view()),
{
    let mut r: Vec<String> = Vec::new();
    let mut i: usize = 0;
    while i < v.len()
        invariant
            i <= v@.len(),
            r.deep_view() == unique(v.deep_view().subrange(0, i as int)),
        decreases v.len() - i,
    {
        let ghost pre = v.deep_view().subrange(0, i + 1);
        assert(pre.drop_last() =~= v.deep_view().subrange(0, i as int));
        assert(pre.last() == v@[i as int]@);
        if !contains_string(&r, &v[i]) {
            let s = v[i].clone();
            let ghost old_r = r.deep_view();
            r.push(s);
            assert(r.deep_view() =~= old_r.push(v@[i as int]@));
        }
        i = i + 1;
    }
    assert(v.deep_view().subrange(0, v@.len() as int) =~= v.deep_view());
    r
}

/// Appends a copy of each entry of `src` to `dst`.
pub fn extend_strings(dst: &mut Vec<String>, src: &Vec<String>)
    ensures
        final(dst).deep_view() == old(dst).deep_view() + src.deep_view(),
{
    let ghost start = dst.deep_view();
    let mut i: usize = 0;
    while i < src.len()
        invariant
            i <= src@.len(),
            dst.deep_view() =~= start + src.deep_view().subrange(0, i as int),
        decreases src.len() - i,
    {
        let s = src[i].clone();
        let ghost before = dst.deep_view();
        dst.push(s);
        assert(dst.deep_view() =~= before.push(src@[i as int]@));
        i = i + 1;
    }
    assert(src.deep_view().subrange(0, src@.len() as int) =~= src.deep_view());
}

/// The entries of `v` with `sep` between each two of them.
pub fn join_strings(v: &Vec<String>, sep: &str) -> (r: String)
    ensures
        r@ == join_words(v.deep_view(), sep@),
{
    let mut out = String::new();
    let mut i: usize = 0;
    while i < v.len()
        invariant
            i <= v@.len(),
            out@ == join_words(v.deep_view().subrange(0, i as int), sep@),
        decreases v.len() - i,
    {
        assert(v.deep_view().subrange(0, i + 1).drop_last() =~= v.deep_view().subrange(0, i as int));
        if i > 0 {
            out.append(sep);
        } else {
            assert(out@ + v@[0]@ =~= v@[0]@);
        }
        out.append(v[i].as_str());
        i = i + 1;
    }
    assert(v.deep_view().subrange(0, v@.len() as int) =~= v.deep_view());
    out
}

} // verus!
