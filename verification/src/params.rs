//! The query parameters of one request: a mapping from wire name to value
//! that never holds an empty value.

use crate::text::{pair_texts, Pair};
use vstd::prelude::*;
use vstd::string::StringExecFns;

verus! {

/// The mapping that a sequence of key-value entries stands for. A later entry
/// replaces an earlier one with the same key.
pub open spec fn entries_map(entries: Seq<Pair>) -> Map<Seq<char>, Seq<char>>
    decreases entries.len(),
{
    if entries.len() == 0 {
        Map::empty()
    } else {
        entries_map(entries.drop_last()).insert(entries.last().0, entries.last().1)
    }
}

/// No key occurs in two entries.
pub open spec fn distinct_keys(entries: Seq<Pair>) -> bool {
    forall|i: int, j: int|
        0 <= i < j < entries.len() ==> (#[trigger] entries[i]).0 != (#[trigger] entries[j]).0
}

/// A key is in the mapping exactly if some entry has it.
pub proof fn lemma_entries_map_domain(entries: Seq<Pair>, key: Seq<char>)
    ensures
        entries_map(entries).contains_key(key) <==> exists|i: int|
            0 <= i < entries.len() && (#[trigger] entries[i]).0 == key,
    decreases entries.len(),
{
    if entries.len() > 0 {
        let front = entries.drop_last();
        lemma_entries_map_domain(front, key);
        if entries_map(entries).contains_key(key) {
            if entries.last().0 == key {
                assert(entries[entries.len() - 1].0 == key);
            } else {
                let i = choose|i: int| 0 <= i < front.len() && (#[trigger] front[i]).0 == key;
                assert(entries[i].0 == key);
            }
        } else {
            assert forall|i: int| 0 <= i < entries.len() implies (#[trigger] entries[i]).0
                != key by {
                if i < front.len() {
                    assert(front[i].0 != key);
                }
            }
        }
    }
}

/// With distinct keys, replacing the entry that holds a key gives the mapping
/// with that key set anew.
pub proof fn lemma_entries_map_update(entries: Seq<Pair>, i: int, value: Seq<char>)
    requires
        distinct_keys(entries),
        0 <= i < entries.len(),
    ensures
        entries_map(entries.update(i, (entries[i].0, value))) == entries_map(entries).insert(
            entries[i].0,
            value,
        ),
        distinct_keys(entries.update(i, (entries[i].0, value))),
    decreases entries.len(),
{
    let key = entries[i].0;
    let changed = entries.update(i, (key, value));
    let front = entries.drop_last();
    assert(distinct_keys(changed)) by {
        assert forall|a: int, b: int| 0 <= a < b < changed.len() implies (#[trigger] changed[a]).0
            != (#[trigger] changed[b]).0 by {
            assert(entries[a].0 != entries[b].0);
        }
    }
    if i == entries.len() - 1 {
        assert(changed.drop_last() =~= front);
        assert(entries_map(changed) =~= entries_map(entries).insert(key, value));
    } else {
        assert(distinct_keys(front)) by {
            assert forall|a: int, b: int| 0 <= a < b < front.len() implies (#[trigger] front[a]).0
                != (#[trigger] front[b]).0 by {
                assert(entries[a].0 != entries[b].0);
            }
        }
        lemma_entries_map_update(front, i, value);
        assert(changed.drop_last() =~= front.update(i, (key, value)));
        assert(entries[i].0 != entries[entries.len() - 1].0);
        assert(entries_map(changed) =~= entries_map(entries).insert(key, value));
    }
}

/// The value of the last entry that has `key` is what the mapping gives it.
pub proof fn lemma_entries_map_last(entries: Seq<Pair>, i: int)
    requires
        0 <= i < entries.len(),
        forall|j: int| i < j < entries.len() ==> (#[trigger] entries[j]).0 != entries[i].0,
    ensures
        entries_map(entries).contains_key(entries[i].0),
        entries_map(entries)[entries[i].0] == entries[i].1,
    decreases entries.len(),
{
    if i < entries.len() - 1 {
        let front = entries.drop_last();
        assert forall|j: int| i < j < front.len() implies (#[trigger] front[j]).0
            != front[i].0 by {
            assert(entries[j].0 != entries[i].0);
        }
        lemma_entries_map_last(front, i);
        assert(entries[entries.len() - 1].0 != entries[i].0);
    }
}

/// The mapping `params` after a parameter named `key` was offered with
/// `value`: an absent or empty value leaves the mapping as it was.
pub open spec fn with_value(
    params: Map<Seq<char>, Seq<char>>,
    key: Seq<char>,
    value: Option<Seq<char>>,
) -> Map<Seq<char>, Seq<char>> {
    match value {
        Some(text) => if text.len() > 0 {
            params.insert(key, text)
        } else {
            params
        },
        None => params,
    }
}

/// No key of the mapping stands for an empty value.
pub open spec fn no_empty_value(params: Map<Seq<char>, Seq<char>>) -> bool {
    forall|key: Seq<char>| params.contains_key(key) ==> (#[trigger] params[key]).len() > 0
}

/// A parameter as a builder offers it: its wire name, and its value where it
/// has one.
pub type Offer = (Seq<char>, Option<Seq<char>>);

/// The mapping `params` after every parameter of `offers` was offered, in
/// order.
pub open spec fn offered(params: Map<Seq<char>, Seq<char>>, offers: Seq<Offer>) -> Map<
    Seq<char>,
    Seq<char>,
>
    decreases offers.len(),
{
    if offers.len() == 0 {
        params
    } else {
        with_value(offered(params, offers.drop_last()), offers.last().0, offers.last().1)
    }
}

/// Offering parameters never brings an empty value into the mapping.
pub proof fn lemma_offered_no_empty(params: Map<Seq<char>, Seq<char>>, offers: Seq<Offer>)
    requires
        no_empty_value(params),
    ensures
        no_empty_value(offered(params, offers)),
    decreases offers.len(),
{
    if offers.len() > 0 {
        lemma_offered_no_empty(params, offers.drop_last());
    }
}

/// A parameter that is offered with a value that is not empty, and whose
/// name no later offer has, is sent with that value.
pub proof fn lemma_offered_holds(params: Map<Seq<char>, Seq<char>>, offers: Seq<Offer>, i: int)
    requires
        0 <= i < offers.len(),
        offers[i].1 is Some,
        offers[i].1.unwrap().len() > 0,
        forall|j: int| i < j < offers.len() ==> (#[trigger] offers[j]).0 != offers[i].0,
    ensures
        offered(params, offers).contains_key(offers[i].0),
        offered(params, offers)[offers[i].0] == offers[i].1.unwrap(),
    decreases offers.len(),
{
    if i < offers.len() - 1 {
        let front = offers.drop_last();
        assert forall|j: int| i < j < front.len() implies (#[trigger] front[j]).0 != front[i].0 by {
            assert(offers[j].0 != offers[i].0);
        }
        lemma_offered_holds(params, front, i);
        assert(offers[offers.len() - 1].0 != offers[i].0);
    }
}

/// The query parameters of a request. Setting a key again replaces its value,
/// and no key ever stands for an empty value.
#[derive(Debug)]
pub struct RequestParameters {
    entries: Vec<(String, String)>,
}

impl View for RequestParameters {
    type V = Map<Seq<char>, Seq<char>>;

    closed spec fn view(&self) -> Map<Seq<char>, Seq<char>> {
        entries_map(pair_texts(self.entries@))
    }
}

fn position(entries: &Vec<(String, String)>, key: &str) -> (at: usize)
    ensures
        at <= entries@.len(),
        at < entries@.len() ==> entries@[at as int].0@ == key@,
        forall|k: int| at < k < entries@.len() ==> (#[trigger] entries@[k]).0@ != key@,
        at == entries@.len() ==> !entries_map(pair_texts(entries@)).contains_key(key@),
{
    let wanted = String::from_str(key);
    let mut i: usize = entries.len();
    while i > 0
        invariant
            i <= entries@.len(),
            wanted@ == key@,
            forall|k: int| i <= k < entries@.len() ==> (#[trigger] entries@[k]).0@ != key@,
        decreases i,
    {
        if entries[i - 1].0 == wanted {
            return i - 1;
        }
        i = i - 1;
    }
    proof {
        let texts = pair_texts(entries@);
        lemma_entries_map_domain(texts, key@);
        if entries_map(texts).contains_key(key@) {
            let k = choose|k: int| 0 <= k < texts.len() && (#[trigger] texts[k]).0 == key@;
            assert(entries@[k].0@ == key@);
        }
    }
    entries.len()
}

impl RequestParameters {
    /// The empty mapping.
    pub fn new() -> (params: Self)
        ensures
            params@ == Map::<Seq<char>, Seq<char>>::empty(),
    {
        let entries: Vec<(String, String)> = Vec::new();
        assert(pair_texts(entries@) =~= Seq::<Pair>::empty());
        RequestParameters { entries }
    }

    #[verifier::type_invariant]
    spec fn filled(&self) -> bool {
        forall|i: int| 0 <= i < self.entries@.len() ==> (#[trigger] self.entries@[i]).1@.len() > 0
    }

    /// Sets `key` to `value`, replacing what the key stood for before. An
    /// empty value is not taken: the mapping stays as it was.
    pub fn insert(&mut self, key: String, value: String)
        ensures
            final(self)@ == with_value(old(self)@, key@, Some(value@)),
    {
        if value.as_str().is_empty() {
            return;
        }
        proof {
            use_type_invariant(&*self);
        }
        let ghost before = pair_texts(self.entries@);
        let mut entries: Vec<(String, String)> = Vec::new();
        core::mem::swap(&mut self.entries, &mut entries);
        entries.push((key, value));
        core::mem::swap(&mut self.entries, &mut entries);
        proof {
            let after = pair_texts(self.entries@);
            assert(after.drop_last() =~= before);
            assert(after.last() == (key@, value@));
        }
    }

    /// The value that `key` stands for, if it stands for one.
    pub fn get(&self, key: &str) -> (value: Option<&str>)
        ensures
            match value {
                Some(text) => self@.contains_key(key@) && self@[key@] == text@ && text@.len() > 0,
                None => !self@.contains_key(key@),
            },
    {
        let at = position(&self.entries, key);
        if at < self.entries.len() {
            proof {
                use_type_invariant(self);
                let texts = pair_texts(self.entries@);
                assert forall|j: int| at < j < texts.len() implies (#[trigger] texts[j]).0
                    != texts[at as int].0 by {
                    assert(self.entries@[j].0@ != key@);
                }
                lemma_entries_map_last(texts, at as int);
            }
            Some(self.entries[at].1.as_str())
        } else {
            None
        }
    }

    /// Whether `key` stands for a value.
    pub fn contains_key(&self, key: &str) -> (found: bool)
        ensures
            found == self@.contains_key(key@),
    {
        self.get(key).is_some()
    }

    /// The mapping as pairs of key and value, each key once and no value
    /// empty.
    pub fn pairs(&self) -> (out: Vec<(String, String)>)
        ensures
            distinct_keys(pair_texts(out@)),
            entries_map(pair_texts(out@)) == self@,
            forall|i: int| 0 <= i < out@.len() ==> (#[trigger] out@[i]).1@.len() > 0,
    {
        proof {
            use_type_invariant(self);
        }
        let mut out: Vec<(String, String)> = Vec::new();
        let mut i: usize = 0;
        assert(pair_texts(out@) =~= pair_texts(self.entries@).take(0));
        while i < self.entries.len()
            invariant
                i <= self.entries@.len(),
                forall|k: int|
                    0 <= k < self.entries@.len() ==> (#[trigger] self.entries@[k]).1@.len() > 0,
                forall|k: int| 0 <= k < out@.len() ==> (#[trigger] out@[k]).1@.len() > 0,
                distinct_keys(pair_texts(out@)),
                entries_map(pair_texts(out@)) == entries_map(
                    pair_texts(self.entries@).take(i as int),
                ),
            decreases self.entries@.len() - i,
        {
            let ghost before = pair_texts(out@);
            let ghost seen = pair_texts(self.entries@).take(i as int);
            let ghost next = pair_texts(self.entries@).take(i as int + 1);
            let key = self.entries[i].0.clone();
            let value = self.entries[i].1.clone();
            proof {
                assert(next.drop_last() =~= seen);
                assert(next.last() == (key@, value@));
            }
            let at = position(&out, key.as_str());
            if at < out.len() {
                proof {
                    lemma_entries_map_update(before, at as int, value@);
                }
                out.set(at, (key, value));
                assert(pair_texts(out@) =~= before.update(at as int, (key@, value@)));
            } else {
                proof {
                    lemma_entries_map_domain(before, key@);
                }
                out.push((key, value));
                proof {
                    let after = pair_texts(out@);
                    assert(after.drop_last() =~= before);
                    assert(after.last() == (key@, value@));
                    assert forall|a: int, b: int| 0 <= a < b < after.len() implies (
                    #[trigger] after[a]).0 != (#[trigger] after[b]).0 by {
                        if b < before.len() {
                            assert(before[a].0 != before[b].0);
                        } else {
                            assert(before[a].0 != key@);
                        }
                    }
                }
            }
            i = i + 1;
        }
        assert(pair_texts(self.entries@).take(i as int) =~= pair_texts(self.entries@));
        out
    }
}

} // verus!
