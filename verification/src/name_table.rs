use crate::text::texts;
use vstd::prelude::*;
use vstd::string::*;

verus! {

/// Whether no name stands twice in the list.
pub open spec fn distinct(names: Seq<Seq<char>>) -> bool {
    forall|i: int, j: int| 0 <= i < j < names.len() ==> names[i] != names[j]
}

/// A place at which `name` stands in the list.
pub open spec fn place_of(names: Seq<Seq<char>>, name: Seq<char>) -> int {
    choose|i: int| 0 <= i < names.len() && names[i] == name
}

/// The map that pairs each name of the list with the item at its place.
pub open spec fn paired<T>(names: Seq<Seq<char>>, items: Seq<T>) -> Map<Seq<char>, T> {
    Map::new(|name: Seq<char>| names.contains(name), |name: Seq<char>| items[place_of(names, name)])
}

/// In a list without repetition a name stands at one place only.
pub proof fn lemma_place_of(names: Seq<Seq<char>>, i: int)
    requires
        distinct(names),
        0 <= i < names.len(),
    ensures
        place_of(names, names[i]) == i,
        names.contains(names[i]),
{
}

/// A table of items by name: each name stands for at most one item.
pub struct NameTable<T> {
    names: Vec<String>,
    items: Vec<T>,
}

impl<T> View for NameTable<T> {
    type V = Map<Seq<char>, T>;

    closed spec fn view(&self) -> Map<Seq<char>, T> {
        paired(texts(self.names@), self.items@)
    }
}

impl<T> NameTable<T> {
    /// Well-formedness: one item for each name, and no name twice.
    pub closed spec fn wf(&self) -> bool {
        &&& self.names@.len() == self.items@.len()
        &&& distinct(texts(self.names@))
    }

    /// The number of names.
    pub closed spec fn spec_len(&self) -> nat {
        self.names@.len()
    }

    /// A table without names.
    pub fn new() -> (result: NameTable<T>)
        ensures
            result.wf(),
            result@ == Map::<Seq<char>, T>::empty(),
            result.spec_len() == 0,
    {
        NameTable { names: Vec::new(), items: Vec::new() }
    }

    /// A table of `n` names holds `n` items.
    pub proof fn lemma_len(&self)
        requires
            self.wf(),
        ensures
            self@.dom().finite(),
            self@.dom().len() == self.spec_len(),
    {
        lemma_distinct_names_count(texts(self.names@));
    }

    /// The number of names.
    pub fn len(&self) -> (result: usize)
        requires
            self.wf(),
        ensures
            result == self.spec_len(),
            result == self@.dom().len(),
    {
        proof {
            self.lemma_len();
        }
        self.names.len()
    }

    /// The name at a place of the table.
    pub closed spec fn name_at(&self, place: int) -> Seq<char> {
        self.names@[place]@
    }

    /// Each name of the table stands at one of its places.
    pub proof fn lemma_name_has_place(&self, name: Seq<char>)
        requires
            self.wf(),
            self@.dom().contains(name),
        ensures
            exists|place: int| 0 <= place < self.spec_len() && self.name_at(place) == name,
    {
        let names = texts(self.names@);
        let place = choose|place: int| 0 <= place < names.len() && names[place] == name;
        assert(self.name_at(place) == name);
    }

    /// The item at a place of the table, for going through all of them.
    pub fn item_at(&self, place: usize) -> (result: &T)
        requires
            self.wf(),
            place < self.spec_len(),
        ensures
            self@.dom().contains(self.name_at(place as int)),
            *result == self@[self.name_at(place as int)],
    {
        proof {
            lemma_place_of(texts(self.names@), place as int);
        }
        &self.items[place]
    }

    /// The place at which `name` stands, if it stands in the table.
    fn find(&self, name: &str) -> (result: Option<usize>)
        requires
            self.wf(),
        ensures
            match result {
                Some(i) => i < self.names@.len() && self.names@[i as int]@ == name@,
                None => !texts(self.names@).contains(name@),
            },
    {
        let key = String::from_str(name);
        let mut i: usize = 0;
        while i < self.names.len()
            invariant
                i <= self.names@.len(),
                key@ == name@,
                forall|j: int| 0 <= j < i ==> self.names@[j]@ != name@,
            decreases self.names@.len() - i,
        {
            if self.names[i] == key {
                return Some(i);
            }
            i = i + 1;
        }
        None
    }

    /// The item that stands under `name`.
    pub fn get(&self, name: &str) -> (result: Option<&T>)
        requires
            self.wf(),
        ensures
            match result {
                Some(item) => self@.dom().contains(name@) && *item == self@[name@],
                None => !self@.dom().contains(name@),
            },
    {
        match self.find(name) {
            Some(i) => {
                proof {
                    lemma_place_of(texts(self.names@), i as int);
                }
                Some(&self.items[i])
            },
            None => None,
        }
    }

    /// Puts `item` under `name`, in place of what stood there.
    pub fn insert(&mut self, name: String, item: T)
        requires
            old(self).wf(),
        ensures
            final(self).wf(),
            final(self)@ == old(self)@.insert(name@, item),
    {
        let ghost old_names = texts(self.names@);
        let ghost old_items = self.items@;
        match self.find(name.as_str()) {
            Some(i) => {
                self.items.set(i, item);
                proof {
                    let names = texts(self.names@);
                    assert forall|key: Seq<char>| names.contains(key) implies #[trigger] paired(
                        names,
                        self.items@,
                    )[key] == paired(old_names, old_items).insert(name@, item)[key] by {
                        lemma_place_of(names, i as int);
                    }
                    assert(names.contains(name@)) by {
                        assert(names[i as int] == name@);
                    }
                }
            },
            None => {
                self.names.push(name);
                self.items.push(item);
                proof {
                    let names = texts(self.names@);
                    assert(names =~= old_names.push(name@));
                    assert forall|key: Seq<char>| names.contains(key) <==> (old_names.contains(key)
                        || key == name@) by {
                        if old_names.contains(key) {
                            let p = choose|p: int| 0 <= p < old_names.len() && old_names[p] == key;
                            assert(names[p] == key);
                        }
                        if key == name@ {
                            assert(names[names.len() - 1] == key);
                        }
                    }
                }
            },
        }
    }

    /// Takes out what stands under `name`.
    pub fn remove(&mut self, name: &str) -> (result: Option<T>)
        requires
            old(self).wf(),
        ensures
            final(self).wf(),
            final(self)@ == old(self)@.remove(name@),
            match result {
                Some(item) => old(self)@.dom().contains(name@) && item == old(self)@[name@],
                None => !old(self)@.dom().contains(name@),
            },
    {
        let ghost old_names = texts(self.names@);
        let ghost old_items = self.items@;
        match self.find(name) {
            Some(i) => {
                let _ = self.names.remove(i);
                let item = self.items.remove(i);
                proof {
                    let names = texts(self.names@);
                    lemma_place_of(old_names, i as int);
                    assert forall|a: int, b: int| 0 <= a < b < names.len() implies names[a]
                        != names[b] by {
                        let first = if a < i { a } else { a + 1 };
                        let second = if b < i { b } else { b + 1 };
                        assert(names[a] == old_names[first] && names[b] == old_names[second]);
                    }
                    assert forall|key: Seq<char>| names.contains(key) <==> (old_names.contains(key)
                        && key != name@) by {
                        if names.contains(key) {
                            let p = choose|p: int| 0 <= p < names.len() && names[p] == key;
                            let origin = if p < i { p } else { p + 1 };
                            assert(old_names[origin] == key);
                        }
                        if old_names.contains(key) && key != name@ {
                            let origin = choose|p: int| 0 <= p < old_names.len() && old_names[p] == key;
                            let p = if origin < i { origin } else { origin - 1 };
                            assert(names[p] == key);
                        }
                    }
                    assert forall|key: Seq<char>| names.contains(key) implies #[trigger] paired(
                        names,
                        self.items@,
                    )[key] == paired(old_names, old_items)[key] by {
                        let p = place_of(names, key);
                        let origin = if p < i { p } else { p + 1 };
                        lemma_place_of(old_names, origin);
                    }
                }
                Some(item)
            },
            None => None,
        }
    }

    /// The names of the table, each once.
    pub fn names(&self) -> (result: Vec<String>)
        requires
            self.wf(),
        ensures
            distinct(texts(result@)),
            texts(result@).to_set() == self@.dom(),
            result@.len() == self.spec_len(),
    {
        let mut result: Vec<String> = Vec::new();
        let mut i: usize = 0;
        while i < self.names.len()
            invariant
                i <= self.names@.len(),
                texts(result@) == texts(self.names@).subrange(0, i as int),
            decreases self.names@.len() - i,
        {
            let ghost before = texts(result@);
            let name = self.names[i].clone();
            result.push(name);
            assert(texts(result@) =~= before.push(name@));
            i = i + 1;
        }
        assert(texts(result@) =~= texts(self.names@));
        result
    }
}

/// A list without repetition has as many names as places.
pub proof fn lemma_distinct_names_count(names: Seq<Seq<char>>)
    requires
        distinct(names),
    ensures
        names.to_set().finite(),
        names.to_set().len() == names.len(),
{
    names.unique_seq_to_set();
}

} // verus!
