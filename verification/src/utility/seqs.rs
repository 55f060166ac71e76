//! Small facts about sequences.

use std::collections::BTreeMap;
use std::collections::BTreeSet;
use vstd::prelude::*;
use vstd::std_specs::btree::*;
use vstd::std_specs::iter::IteratorSpec;
use vstd::string::*;

use crate::utility::text::decimal;
use crate::utility::text::decimal_seq;

verus! {

/// Taking one more item adds exactly that item to what a prefix holds.
pub proof fn lemma_take_contains<T>(s: Seq<T>, i: int)
    requires
        0 <= i < s.len(),
    ensures
        forall|x: T| s.take(i + 1).contains(x) <==> (s.take(i).contains(x) || s[i] == x),
{
    assert forall|x: T| s.take(i + 1).contains(x) <==> (s.take(i).contains(x) || s[i] == x) by {
        if s.take(i).contains(x) {
            let a = s.take(i);
            let j = choose|j: int| 0 <= j < a.len() && a[j] == x;
            assert(s.take(i + 1)[j] == x);
        }
        if s[i] == x {
            assert(s.take(i + 1)[i] == x);
        }
        if s.take(i + 1).contains(x) {
            let b = s.take(i + 1);
            let j = choose|j: int| 0 <= j < b.len() && b[j] == x;
            if j < i {
                assert(s.take(i)[j] == x);
            }
        }
    }
}

/// A copy of a list of texts.
pub fn copy_texts(texts: &Vec<String>) -> (copy: Vec<String>)
    ensures
        copy@ == texts@,
{
    let mut copy: Vec<String> = Vec::new();
    let mut i: usize = 0;
    while i < texts.len()
        invariant
            i <= texts.len(),
            copy@ == texts@.take(i as int),
        decreases texts.len() - i,
    {
        copy.push(texts[i].clone());
        assert(texts@.take(i + 1) == texts@.take(i as int).push(texts@[i as int]));
        i += 1;
    }
    assert(texts@.take(texts.len() as int) == texts@);
    copy
}

/// The lesser of two numbers.
pub open spec fn at_most(a: int, b: int) -> int {
    if a <= b {
        a
    } else {
        b
    }
}

/// Whether the numbers of a list grow from each to the next.
pub open spec fn is_ascending(list: Seq<u64>) -> bool {
    forall|i: int, j: int| 0 <= i < j < list.len() ==> list[i] < list[j]
}

/// The members of a finite set of numbers, from the least to the greatest.
pub open spec fn ascending_seq(set: Set<u64>) -> Seq<u64> {
    choose|list: Seq<u64>| is_ascending(list) && list.to_set() == set
}

/// A set has one ascending list only.
pub proof fn lemma_ascending_unique(a: Seq<u64>, b: Seq<u64>)
    requires
        is_ascending(a),
        is_ascending(b),
        a.to_set() == b.to_set(),
    ensures
        a == b,
    decreases a.len(),
{
    a.unique_seq_to_set();
    b.unique_seq_to_set();
    if a.len() == 0 {
        assert(a =~= b);
    } else {
        let x = a.last();
        let y = b.last();
        assert(a.to_set().contains(a[a.len() - 1]));
        assert(b.to_set().contains(b[b.len() - 1]));
        assert(b.contains(x));
        assert(a.contains(y));
        let k = choose|k: int| 0 <= k < b.len() && b[k] == x;
        let m = choose|m: int| 0 <= m < a.len() && a[m] == y;
        assert(x == y);
        let a0 = a.drop_last();
        let b0 = b.drop_last();
        assert forall|v: u64| a0.to_set().contains(v) <==> b0.to_set().contains(v) by {
            if a0.contains(v) {
                let i = choose|i: int| 0 <= i < a0.len() && a0[i] == v;
                assert(a[i] == v);
                assert(a.to_set().contains(v));
                assert(b.contains(v));
                let j = choose|j: int| 0 <= j < b.len() && b[j] == v;
                assert(j < b.len() - 1);
                assert(b0[j] == v);
            }
            if b0.contains(v) {
                let i = choose|i: int| 0 <= i < b0.len() && b0[i] == v;
                assert(b[i] == v);
                assert(b.to_set().contains(v));
                assert(a.contains(v));
                let j = choose|j: int| 0 <= j < a.len() && a[j] == v;
                assert(j < a.len() - 1);
                assert(a0[j] == v);
            }
        }
        assert(a0.to_set() =~= b0.to_set());
        lemma_ascending_unique(a0, b0);
        assert(a =~= a0.push(x));
        assert(b =~= b0.push(y));
    }
}

/// The numbers of a list without repetitions, from the least to the
/// greatest.
pub fn ascending(items: &Vec<u64>) -> (list: Vec<u64>)
    requires
        items@.no_duplicates(),
    ensures
        is_ascending(list@),
        list@.to_set() == items@.to_set(),
        list@ == ascending_seq(items@.to_set()),
{
    let mut list: Vec<u64> = Vec::new();
    let mut i: usize = 0;
    while i < items.len()
        invariant
            i <= items.len(),
            items@.no_duplicates(),
            is_ascending(list@),
            forall|v: u64| list@.contains(v) <==> items@.take(i as int).contains(v),
        decreases items.len() - i,
    {
        let item = items[i];
        proof {
            lemma_take_contains(items@, i as int);
            if items@.take(i as int).contains(item) {
                let taken = items@.take(i as int);
                let k = choose|k: int| 0 <= k < taken.len() && taken[k] == item;
                assert(items@[k] == items@[i as int]);
            }
        }
        let mut at: usize = 0;
        while at < list.len() && list[at] < item
            invariant
                at <= list.len(),
                forall|k: int| 0 <= k < at ==> list@[k] < item,
            decreases list.len() - at,
        {
            at += 1;
        }
        let ghost before = list@;
        list.insert(at, item);
        proof {
            before.insert_ensures(at as int, item);
            let after = list@;
            assert(after == before.insert(at as int, item));
            assert(!before.contains(item));
            assert forall|a: int, b: int| 0 <= a < b < after.len() implies after[a] < after[b] by {
                if b < at {
                } else if b == at {
                } else if a < at {
                    assert(after[b] == before[b - 1]);
                    if at < before.len() {
                        assert(before[at as int] != item);
                    }
                } else if a == at {
                    assert(after[b] == before[b - 1]);
                    assert(before.contains(before[at as int]));
                    assert(before[at as int] != item);
                } else {
                    assert(after[a] == before[a - 1] && after[b] == before[b - 1]);
                }
            }
            assert forall|v: u64| after.contains(v) <==> (before.contains(v) || v == item) by {
                if before.contains(v) {
                    let k = choose|k: int| 0 <= k < before.len() && before[k] == v;
                    if k < at {
                        assert(after[k] == v);
                    } else {
                        assert(after[k + 1] == v);
                    }
                }
                if v == item {
                    assert(after[at as int] == v);
                }
                if after.contains(v) {
                    let k = choose|k: int| 0 <= k < after.len() && after[k] == v;
                    if k < at {
                        assert(before[k] == v);
                    } else if k > at {
                        assert(before[k - 1] == v);
                    }
                }
            }
        }
        i += 1;
    }
    proof {
        assert(items@.take(items.len() as int) == items@);
        assert(list@.to_set() =~= items@.to_set());
        let chosen = ascending_seq(items@.to_set());
        assert(is_ascending(list@) && list@.to_set() == items@.to_set());
        lemma_ascending_unique(list@, chosen);
    }
    list
}

/// The members of a set, from the least to the greatest.
pub fn members(set: &BTreeSet<u64>) -> (list: Vec<u64>)
    ensures
        list@ == ascending_seq(set@),
        is_ascending(list@),
        list@.to_set() == set@,
        list@.len() == set@.len(),
{
    let mut found: Vec<u64> = Vec::new();
    for item in it: set.iter()
        invariant
            found@ == it.seq().unref().take(it.index() as int),
            it.seq() == spec_btree_keys_iter(set).remaining(),
    {
        found.push(*item);
    }
    assert(found@ == spec_btree_keys_iter(set).remaining().unref());
    let list = ascending(&found);
    proof {
        list@.unique_seq_to_set();
    }
    list
}

/// The keys of a map, each once.
pub fn map_keys<V>(map: &BTreeMap<u64, V>) -> (keys: Vec<u64>)
    ensures
        keys@.no_duplicates(),
        keys@.to_set() == map@.dom(),
        keys@.len() == map@.dom().len(),
{
    let mut keys: Vec<u64> = Vec::new();
    for key in it: map.keys()
        invariant
            keys@ == it.seq().unref().take(it.index() as int),
            it.seq() == spec_keys_iter(map).remaining(),
    {
        keys.push(*key);
    }
    assert(keys@ == spec_keys_iter(map).remaining().unref());
    proof {
        keys@.unique_seq_to_set();
    }
    keys
}

/// The keys of a map, from the least to the greatest.
pub fn sorted_keys<V>(map: &BTreeMap<u64, V>) -> (keys: Vec<u64>)
    ensures
        keys@ == ascending_seq(map@.dom()),
        is_ascending(keys@),
        keys@.to_set() == map@.dom(),
        keys@.len() == map@.dom().len(),
{
    let found = map_keys(map);
    let keys = ascending(&found);
    proof {
        keys@.unique_seq_to_set();
        found@.unique_seq_to_set();
    }
    keys
}

/// The mentions of the first `upto` users of a list, one on each line.
pub open spec fn mentions(users: Seq<u64>, upto: int) -> Seq<char>
    decreases upto,
{
    if upto <= 0 {
        Seq::empty()
    } else {
        mentions(users, upto - 1) + "<@"@ + decimal_seq(users[upto - 1] as nat) + ">\n"@
    }
}

/// Mentions every user of a list, one on each line.
pub fn mention_all(users: &Vec<u64>) -> (text: String)
    ensures
        text@ == mentions(users@, users.len() as int),
{
    let mut text = String::new();
    let mut i: usize = 0;
    while i < users.len()
        invariant
            i <= users.len(),
            text@ == mentions(users@, i as int),
        decreases users.len() - i,
    {
        text.append("<@");
        text.append(decimal(users[i]).as_str());
        text.append(">\n");
        i += 1;
    }
    text
}

} // verus!
