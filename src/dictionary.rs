use vstd::prelude::*;

verus! {

/// A key and a value, as character sequences.
pub type EntryView = (Seq<char>, Seq<char>);

/// Whether `name` is one of `names`.
pub open spec fn listed(names: Seq<Seq<char>>, name: Seq<char>) -> bool {
    names.contains(name)
}

/// The entries of `s` whose keys are not among `names`, in their order.
pub open spec fn unlisted_entries(s: Seq<EntryView>, names: Seq<Seq<char>>) -> Seq<EntryView> {
    s.filter(|e: EntryView| !listed(names, e.0))
}

/// Whether `i` is the first position of `s` whose key is `key`.
pub open spec fn first_key_at(s: Seq<EntryView>, key: Seq<char>, i: int) -> bool {
    &&& 0 <= i < s.len()
    &&& s[i].0 == key
    &&& forall|j: int| 0 <= j < i ==> s[j].0 != key
}

/// Whether no entry of `s` has the key `key`.
pub open spec fn key_absent(s: Seq<EntryView>, key: Seq<char>) -> bool {
    forall|j: int| 0 <= j < s.len() ==> s[j].0 != key
}

/// An ordered map of option names to option values.
pub struct Dictionary {
    entries: Vec<(String, String)>,
}

impl View for Dictionary {
    type V = Seq<EntryView>;

    closed spec fn view(&self) -> Seq<EntryView> {
        self.entries@.map_values(|e: (String, String)| (e.0@, e.1@))
    }
}

/// Whether `key` is one of `names`.
pub fn names_contain(names: &Vec<String>, key: &String) -> (r: bool)
    ensures
        r == listed(names@.map_values(|s: String| s@), key@),
{
    let ghost view = names@.map_values(|s: String| s@);
    let mut i: usize = 0;
    while i < names.len()
        invariant
            i <= names.len(),
            view == names@.map_values(|s: String| s@),
            forall|j: int| 0 <= j < i ==> view[j] != key@,
        decreases names.len() - i,
    {
        if names[i] == *key {
            assert(view[i as int] == key@);
            return true;
        }
        i += 1;
    }
    assert(!view.contains(key@)) by {
        if view.contains(key@) {
            let j = choose|j: int| 0 <= j < view.len() && view[j] == key@;
            assert(view[j] != key@);
        }
    }
    false
}

impl Dictionary {
    /// An empty dictionary.
    pub fn new() -> (r: Dictionary)
        ensures
            r@ == Seq::<EntryView>::empty(),
    {
        let r = Dictionary { entries: Vec::new() };
        assert(r@ =~= Seq::<EntryView>::empty());
        r
    }

    /// Number of entries.
    pub fn len(&self) -> (r: usize)
        ensures
            r == self@.len(),
    {
        self.entries.len()
    }

    /// Sets `key` to `value`: the first entry with that key takes the new
    /// value; where there is none, the pair is appended.
    pub fn set(&mut self, key: String, value: String)
        ensures
            key_absent(old(self)@, key@) ==> final(self)@ == old(self)@.push((key@, value@)),
            forall|i: int|
                first_key_at(old(self)@, key@, i) ==> final(self)@ == old(self)@.update(
                    i,
                    (key@, value@),
                ),
    {
        let mut i: usize = 0;
        while i < self.entries.len()
            invariant
                i <= self.entries.len(),
                self@ == old(self)@,
                self.entries@.len() == self@.len(),
                forall|j: int| 0 <= j < i ==> self@[j].0 != key@,
            decreases self.entries.len() - i,
        {
            if self.entries[i].0 == key {
                assert(first_key_at(old(self)@, key@, i as int));
                self.entries.set(i, (key, value));
                assert(self@ =~= old(self)@.update(i as int, (key@, value@)));
                return;
            }
            i += 1;
        }
        self.entries.push((key, value));
        assert(self@ =~= old(self)@.push((key@, value@)));
    }

    /// The value of the first entry whose key is `key`.
    pub fn get(&self, key: &String) -> (r: Option<&String>)
        ensures
            key_absent(self@, key@) <==> r is None,
            forall|i: int| first_key_at(self@, key@, i) ==> (r matches Some(v) && v@ == self@[i].1),
    {
        let mut i: usize = 0;
        while i < self.entries.len()
            invariant
                i <= self.entries.len(),
                self.entries@.len() == self@.len(),
                forall|j: int| 0 <= j < i ==> self@[j].0 != key@,
            decreases self.entries.len() - i,
        {
            if self.entries[i].0 == *key {
                assert(self@[i as int].0 == key@);
                assert(forall|k: int| first_key_at(self@, key@, k) ==> k == i);
                return Some(&self.entries[i].1);
            }
            i += 1;
        }
        None
    }

    /// Keeps only the entries whose keys are not among `names`, in their order.
    pub fn retain_unlisted(&mut self, names: &Vec<String>)
        ensures
            final(self)@ == unlisted_entries(old(self)@, names@.map_values(|s: String| s@)),
    {
        let ghost nv = names@.map_values(|s: String| s@);
        let ghost pred = |e: EntryView| !listed(nv, e.0);
        let mut kept: Vec<(String, String)> = Vec::new();
        let mut i: usize = 0;
        while i < self.entries.len()
            invariant
                i <= self.entries.len(),
                self@ == old(self)@,
                self.entries@.len() == self@.len(),
                nv == names@.map_values(|s: String| s@),
                pred == (|e: EntryView| !listed(nv, e.0)),
                kept@.map_values(|e: (String, String)| (e.0@, e.1@)) == self@.take(i as int).filter(pred),
            decreases self.entries.len() - i,
        {
            let ghost before = kept@.map_values(|e: (String, String)| (e.0@, e.1@));
            assert(self@.take(i as int + 1).drop_last() =~= self@.take(i as int));
            assert(self@.take(i as int + 1) =~= self@.take(i as int).push(self@[i as int]));
            proof {
                self@.take(i as int).lemma_filter_push(self@[i as int], pred);
            }
            let listed_here = names_contain(names, &self.entries[i].0);
            if !listed_here {
                let k = self.entries[i].0.clone();
                let v = self.entries[i].1.clone();
                kept.push((k, v));
                assert(kept@.map_values(|e: (String, String)| (e.0@, e.1@)) =~= before.push(
                    self@[i as int],
                ));
            }
            i += 1;
        }
        assert(self@.take(self@.len() as int) =~= self@);
        self.entries = kept;
    }
}

} // verus!
