//! Choosing workspace and environment names from the entries of a directory.
use vstd::prelude::*;

verus! {

/// One entry of a directory: its name, and whether it is a directory.
pub struct DirEntryInfo {
    pub name: String,
    pub is_dir: bool,
}

/// Names that never denote a workspace or an environment.
pub open spec fn is_reserved(name: Seq<char>) -> bool {
    name == "default"@ || name == "current"@
}

/// Whether an entry names a workspace or an environment.
pub open spec fn is_listed(e: DirEntryInfo) -> bool {
    e.is_dir && !is_reserved(e.name@)
}

/// The names of the listed entries of `entries`, in their order.
pub open spec fn listed_names(entries: Seq<DirEntryInfo>) -> Seq<String>
    decreases entries.len(),
{
    if entries.len() == 0 {
        Seq::empty()
    } else {
        let rest = listed_names(entries.drop_last());
        if is_listed(entries.last()) {
            rest.push(entries.last().name)
        } else {
            rest
        }
    }
}

/// Strict lexicographic order on names, character by character, by code point.
pub open spec fn name_lt(a: Seq<char>, b: Seq<char>) -> bool
    decreases a.len(),
{
    if a.len() == 0 {
        b.len() > 0
    } else if b.len() == 0 {
        false
    } else if a[0] != b[0] {
        (a[0] as int) < (b[0] as int)
    } else {
        name_lt(a.drop_first(), b.drop_first())
    }
}

/// Lexicographic order on names, equal names included.
pub open spec fn name_le(a: Seq<char>, b: Seq<char>) -> bool {
    a == b || name_lt(a, b)
}

/// Each name is at most the next one.
pub open spec fn is_ascending(s: Seq<String>) -> bool {
    forall|i: int| 0 <= i < s.len() - 1 ==> name_le(#[trigger] s[i]@, s[i + 1]@)
}

/// Of two names, one is at most the other.
pub proof fn lemma_name_order_total(a: Seq<char>, b: Seq<char>)
    ensures
        name_lt(a, b) || name_le(b, a),
    decreases a.len(),
{
    if a.len() > 0 && b.len() > 0 && a[0] == b[0] {
        lemma_name_order_total(a.drop_first(), b.drop_first());
        if a.drop_first() == b.drop_first() {
            assert forall|k: int| 0 <= k < a.len() implies a[k] == b[k] by {
                if k > 0 {
                    assert(a[k] == a.drop_first()[k - 1]);
                    assert(b[k] == b.drop_first()[k - 1]);
                }
            }
            assert(a =~= b);
        }
    } else if a.len() == 0 && b.len() == 0 {
        assert(a =~= b);
    }
}

/// Every name is at most every later one.
pub open spec fn is_sorted(s: Seq<String>) -> bool {
    forall|i: int, j: int| 0 <= i < j < s.len() ==> name_le(#[trigger] s[i]@, #[trigger] s[j]@)
}

/// The order on names is transitive.
pub proof fn lemma_name_order_transitive(a: Seq<char>, b: Seq<char>, c: Seq<char>)
    requires
        name_lt(a, b),
        name_lt(b, c),
    ensures
        name_lt(a, c),
    decreases a.len(),
{
    if a.len() > 0 && a[0] == b[0] && b[0] == c[0] {
        lemma_name_order_transitive(a.drop_first(), b.drop_first(), c.drop_first());
    }
}

/// A sequence in which each name is at most the next is sorted.
pub proof fn lemma_ascending_is_sorted(s: Seq<String>)
    requires
        is_ascending(s),
    ensures
        is_sorted(s),
{
    assert forall|i: int, j: int| 0 <= i < j < s.len() implies name_le(
        #[trigger] s[i]@,
        #[trigger] s[j]@,
    ) by {
        lemma_ascending_prefix(s, i, j);
    }
}

/// In an ascending sequence the name at `i` is at most the name at `j >= i`.
proof fn lemma_ascending_prefix(s: Seq<String>, i: int, j: int)
    requires
        is_ascending(s),
        0 <= i <= j < s.len(),
    ensures
        name_le(s[i]@, s[j]@),
    decreases j - i,
{
    if i < j {
        lemma_ascending_prefix(s, i, j - 1);
        assert(name_le(s[j - 1]@, s[j]@));
        if name_lt(s[i]@, s[j - 1]@) && name_lt(s[j - 1]@, s[j]@) {
            lemma_name_order_transitive(s[i]@, s[j - 1]@, s[j]@);
        }
    }
}

/// `name` is the name of an entry of `entries` that is listed.
pub open spec fn names_listed_entry(entries: Seq<DirEntryInfo>, name: String) -> bool {
    exists|m: int| 0 <= m < entries.len() && is_listed(entries[m]) && entries[m].name == name
}

/// Every listed name is the name of a directory entry that is not reserved.
pub proof fn lemma_listed_names_come_from_entries(entries: Seq<DirEntryInfo>)
    ensures
        forall|k: int|
            0 <= k < listed_names(entries).len() ==> names_listed_entry(
                entries,
                #[trigger] listed_names(entries)[k],
            ),
    decreases entries.len(),
{
    if entries.len() > 0 {
        let rest = entries.drop_last();
        lemma_listed_names_come_from_entries(rest);
        assert forall|k: int| 0 <= k < listed_names(entries).len() implies names_listed_entry(
            entries,
            #[trigger] listed_names(entries)[k],
        ) by {
            if k < listed_names(rest).len() {
                assert(names_listed_entry(rest, listed_names(rest)[k]));
                let m = choose|m: int|
                    0 <= m < rest.len() && is_listed(rest[m]) && rest[m].name == listed_names(
                        rest,
                    )[k];
                assert(entries[m] == rest[m]);
            } else {
                assert(is_listed(entries[entries.len() - 1]));
            }
        }
    }
}

/// Relies on `<` of `String`: strings are ordered lexicographically by their
/// bytes, which orders UTF-8 text by code point.
#[verifier::external_body]
fn name_precedes(a: &String, b: &String) -> (r: bool)
    ensures
        r == name_lt(a@, b@),
{
    a < b
}

/// Inserts `x` into the ascending `v` at the place that keeps it ascending.
fn insert_ascending(v: &mut Vec<String>, x: String)
    requires
        is_ascending(old(v)@),
    ensures
        is_ascending(final(v)@),
        final(v)@.to_multiset() == old(v)@.to_multiset().insert(x),
{
    let mut p: usize = v.len();
    loop
        invariant
            p <= v@.len(),
            v@ == old(v)@,
            is_ascending(v@),
            p < v@.len() ==> name_lt(x@, v@[p as int]@),
        ensures
            p <= v@.len(),
            v@ == old(v)@,
            is_ascending(v@),
            p < v@.len() ==> name_lt(x@, v@[p as int]@),
            p == 0 || !name_lt(x@, v@[p - 1]@),
        decreases p,
    {
        if p == 0 {
            break;
        }
        if !name_precedes(&x, &v[p - 1]) {
            break;
        }
        p = p - 1;
    }
    proof {
        if p > 0 {
            lemma_name_order_total(x@, v@[p - 1]@);
        }
        vstd::seq_lib::to_multiset_insert(v@, p as int, x);
    }
    let ghost before = v@;
    v.insert(p, x);
    proof {
        assert(v@ == before.insert(p as int, x));
        assert forall|i: int| 0 <= i < v@.len() - 1 implies name_le(#[trigger] v@[i]@, v@[i + 1]@) by {
            if i < p - 1 {
                assert(v@[i] == before[i] && v@[i + 1] == before[i + 1]);
            } else if i == p - 1 {
            } else if i == p {
            } else {
                assert(v@[i] == before[i - 1] && v@[i + 1] == before[i]);
            }
        }
    }
}

/// The names of the directory entries that are directories, without the
/// reserved names, in ascending order.
pub fn sub_dir_names(entries: &Vec<DirEntryInfo>) -> (r: Vec<String>)
    ensures
        is_sorted(r@),
        r@.to_multiset() == listed_names(entries@).to_multiset(),
        forall|k: int| 0 <= k < r@.len() ==> names_listed_entry(entries@, #[trigger] r@[k]),
{
    let default_name = "default".to_owned();
    let current_name = "current".to_owned();
    proof {
        reveal_strlit("default");
        reveal_strlit("current");
    }
    let mut names: Vec<String> = Vec::new();
    let mut i: usize = 0;
    while i < entries.len()
        invariant
            i <= entries@.len(),
            default_name@ == "default"@,
            current_name@ == "current"@,
            is_ascending(names@),
            names@.to_multiset() == listed_names(entries@.subrange(0, i as int)).to_multiset(),
        decreases entries@.len() - i,
    {
        let entry = &entries[i];
        assert(entries@.subrange(0, i + 1).drop_last() =~= entries@.subrange(0, i as int));
        if entry.is_dir && !(entry.name == default_name) && !(entry.name == current_name) {
            let name = entry.name.clone();
            proof {
                listed_names(entries@.subrange(0, i as int)).to_multiset_ensures();
            }
            insert_ascending(&mut names, name);
        }
        i = i + 1;
    }
    assert(entries@.subrange(0, entries@.len() as int) =~= entries@);
    proof {
        let listed = listed_names(entries@);
        lemma_ascending_is_sorted(names@);
        lemma_listed_names_come_from_entries(entries@);
        names@.to_multiset_ensures();
        listed.to_multiset_ensures();
        assert forall|k: int| 0 <= k < names@.len() implies names_listed_entry(
            entries@,
            #[trigger] names@[k],
        ) by {
            assert(names@.contains(names@[k]));
            assert(names@.to_multiset().count(names@[k]) > 0);
            assert(listed.to_multiset().count(names@[k]) > 0);
            assert(listed.contains(names@[k]));
            let l = choose|l: int| 0 <= l < listed.len() && listed[l] == names@[k];
            assert(names_listed_entry(entries@, listed[l]));
        }
    }
    names
}

} // verus!
