//! Listings of MIME types: the distinct types, in order of first appearance.

use vstd::prelude::*;
use crate::error::Error;
use crate::outcome::AndroidTypesReply;
use crate::text::str_equals;

verus! {

/// The texts of a vector of strings.
pub open spec fn texts(v: Seq<String>) -> Seq<Seq<char>> {
    v.map_values(|s: String| s@)
}

/// The texts of a sequence of groups of strings, one group after the other.
pub open spec fn flatten(groups: Seq<Vec<String>>) -> Seq<Seq<char>>
    decreases groups.len(),
{
    if groups.len() == 0 {
        seq![]
    } else {
        flatten(groups.drop_last()) + texts(groups.last()@)
    }
}

/// The distinct elements of `s`, each where it first appears.
pub open spec fn distinct(s: Seq<Seq<char>>) -> Seq<Seq<char>>
    decreases s.len(),
{
    if s.len() == 0 {
        seq![]
    } else {
        let before = distinct(s.drop_last());
        if before.contains(s.last()) {
            before
        } else {
            before.push(s.last())
        }
    }
}

fn contains_text(v: &Vec<String>, t: &str) -> (r: bool)
    ensures
        r == texts(v@).contains(t@),
{
    let mut i: usize = 0;
    while i < v.len()
        invariant
            i <= v.len(),
            forall|j: int| 0 <= j < i ==> v@[j]@ != t@,
        decreases v.len() - i,
    {
        if str_equals(v[i].as_str(), t) {
            assert(texts(v@)[i as int] == t@);
            return true;
        }
        i += 1;
    }
    proof {
        if texts(v@).contains(t@) {
            let k = choose|k: int| 0 <= k < texts(v@).len() && texts(v@)[k] == t@;
            assert(v@[k]@ == t@);
        }
    }
    false
}

/// The distinct MIME types of all groups, in order of first appearance.
pub fn merge_mime_types(groups: &Vec<Vec<String>>) -> (r: Vec<String>)
    ensures
        texts(r@) == distinct(flatten(groups@)),
{
    let mut r: Vec<String> = Vec::new();
    let mut i: usize = 0;
    while i < groups.len()
        invariant
            i <= groups.len(),
            texts(r@) == distinct(flatten(groups@.take(i as int))),
        decreases groups.len() - i,
    {
        let group = &groups[i];
        let ghost done = flatten(groups@.take(i as int));
        let mut j: usize = 0;
        while j < group.len()
            invariant
                j <= group.len(),
                group == groups@[i as int],
                texts(r@) == distinct(done + texts(group@.take(j as int))),
            decreases group.len() - j,
        {
            let ghost before = done + texts(group@.take(j as int));
            let ghost after = done + texts(group@.take(j + 1));
            assert(after.drop_last() =~= before);
            assert(after.last() == group@[j as int]@);
            if !contains_text(&r, group[j].as_str()) {
                r.push(group[j].clone());
                assert(texts(r@) =~= distinct(before).push(group@[j as int]@));
            }
            j += 1;
        }
        assert(group@.take(group.len() as int) =~= group@);
        assert(groups@.take(i + 1).drop_last() =~= groups@.take(i as int));
        assert(flatten(groups@.take(i + 1)) == done + texts(group@));
        i += 1;
    }
    assert(groups@.take(groups.len() as int) =~= groups@);
    r
}

/// The distinct types of one listing, in order of first appearance.
pub fn distinct_types(types: Vec<String>) -> (r: Vec<String>)
    ensures
        texts(r@) == distinct(texts(types@)),
{
    let groups = vec![types];
    let r = merge_mime_types(&groups);
    assert(groups@.drop_last() =~= Seq::<Vec<String>>::empty());
    assert(flatten(groups@.drop_last()) =~= Seq::<Seq<char>>::empty());
    assert(groups@.last() == groups@[0]);
    assert(flatten(groups@) =~= texts(groups@[0]@));
    r
}

/// The result of an Android listing: the distinct types of the primary clip
/// description, nothing without a description, and `NotSupported` without a
/// clipboard manager.
pub fn android_types_result(reply: AndroidTypesReply) -> (r: Result<Vec<String>, Error>)
    ensures
        reply is NoManager ==> r == Err::<Vec<String>, Error>(Error::NotSupported),
        reply is NoDescription ==> (r matches Ok(v) && v@.len() == 0),
        reply matches AndroidTypesReply::Types(t) ==> (r matches Ok(v) && texts(v@) == distinct(texts(t@))),
{
    match reply {
        AndroidTypesReply::NoManager => Err(Error::NotSupported),
        AndroidTypesReply::NoDescription => Ok(Vec::new()),
        AndroidTypesReply::Types(t) => Ok(distinct_types(t)),
    }
}

} // verus!

verus! {

/// Appending `a` adds `a` and nothing else.
proof fn lemma_push_contains(s: Seq<Seq<char>>, a: Seq<char>, x: Seq<char>)
    ensures
        s.push(a).contains(x) <==> (s.contains(x) || x == a),
{
    let t = s.push(a);
    if t.contains(x) {
        let k = choose|k: int| 0 <= k < t.len() && t[k] == x;
        if k < s.len() {
            assert(s[k] == x);
        }
    }
    if s.contains(x) {
        let k = choose|k: int| 0 <= k < s.len() && s[k] == x;
        assert(t[k] == x);
    }
    if x == a {
        assert(t[s.len() as int] == x);
    }
}

/// A merged listing holds exactly the types of its input.
pub proof fn lemma_distinct_same_types(s: Seq<Seq<char>>)
    ensures
        forall|x: Seq<char>| distinct(s).contains(x) <==> s.contains(x),
    decreases s.len(),
{
    if s.len() > 0 {
        let init = s.drop_last();
        lemma_distinct_same_types(init);
        assert(init.push(s.last()) =~= s);
        assert forall|x: Seq<char>| distinct(s).contains(x) <==> s.contains(x) by {
            lemma_push_contains(init, s.last(), x);
            lemma_push_contains(distinct(init), s.last(), x);
        }
    }
}

/// A merged listing never names a type twice.
pub proof fn lemma_distinct_no_duplicates(s: Seq<Seq<char>>)
    ensures
        distinct(s).no_duplicates(),
    decreases s.len(),
{
    if s.len() > 0 {
        lemma_distinct_no_duplicates(s.drop_last());
        let before = distinct(s.drop_last());
        if !before.contains(s.last()) {
            let after = before.push(s.last());
            assert forall|i: int, j: int| 0 <= i < after.len() && 0 <= j < after.len() && i != j implies after[i]
                != after[j] by {
                if i == before.len() {
                    assert(before[j] == after[j]);
                } else if j == before.len() {
                    assert(before[i] == after[i]);
                }
            }
        }
    }
}

/// A listing without repeated types is kept as it is, in its order; in
/// particular merging a merged listing again changes nothing.
pub proof fn lemma_distinct_keeps_listing_without_repeats(s: Seq<Seq<char>>)
    ensures
        s.no_duplicates() ==> distinct(s) == s,
        distinct(distinct(s)) == distinct(s),
{
    if s.no_duplicates() {
        lemma_distinct_keeps_listing_without_repeats_base(s);
    }
    lemma_distinct_no_duplicates(s);
    lemma_distinct_keeps_listing_without_repeats_base(distinct(s));
}

proof fn lemma_distinct_keeps_listing_without_repeats_base(s: Seq<Seq<char>>)
    requires
        s.no_duplicates(),
    ensures
        distinct(s) == s,
    decreases s.len(),
{
    if s.len() > 0 {
        let init = s.drop_last();
        assert(init.no_duplicates());
        lemma_distinct_keeps_listing_without_repeats_base(init);
        assert(!init.contains(s.last())) by {
            if init.contains(s.last()) {
                let k = choose|k: int| 0 <= k < init.len() && init[k] == s.last();
                assert(s[k] == s[s.len() - 1]);
            }
        }
        assert(init.push(s.last()) =~= s);
    }
}

} // verus!
