//! The named external objects of one namespace.
use crate::assoc::{
    distinct_keys, has_key, lemma_map_of_empty, lemma_map_of_index, lemma_map_of_push,
    lemma_map_of_len, lemma_map_of_update, map_of,
};
use crate::externals::{ExportError, Exportable, Extern, Function, Global};
use crate::memory::Memory;
use crate::table::Table;
use vstd::prelude::*;

verus! {

/// The view of a list of named objects.
pub open spec fn contents_view(contents: Seq<(String, Extern)>) -> Seq<(Seq<char>, Extern)> {
    Seq::new(contents.len(), |i: int| (contents[i].0@, contents[i].1))
}

/// External objects by name. A name has at most one object: defining it
/// again replaces the object.
#[derive(Debug)]
pub struct Exports {
    entries: Vec<(String, Extern)>,
}

impl View for Exports {
    type V = Map<Seq<char>, Extern>;

    closed spec fn view(&self) -> Map<Seq<char>, Extern> {
        map_of(self.pairs())
    }
}

impl Default for Exports {
    fn default() -> (r: Self)
        ensures
            r.wf(),
            r@ == Map::<Seq<char>, Extern>::empty(),
    {
        Exports::new()
    }
}

impl Clone for Exports {
    fn clone(&self) -> (r: Self)
        ensures
            r.pairs() == self.pairs(),
            r.wf() == self.wf(),
            r@ == self@,
    {
        let mut entries: Vec<(String, Extern)> = Vec::new();
        let mut i: usize = 0;
        while i < self.entries.len()
            invariant
                i <= self.entries@.len(),
                entries@.len() == i,
                forall|j: int|
                    0 <= j < i ==> (#[trigger] entries@[j]).0@ == self.entries@[j].0@
                        && entries@[j].1 == self.entries@[j].1,
            decreases self.entries@.len() - i,
        {
            entries.push((self.entries[i].0.clone(), self.entries[i].1));
            i += 1;
        }
        let r = Exports { entries };
        assert(r.pairs() =~= self.pairs());
        r
    }
}

impl Exports {
    /// The names with their objects, in the order in which the names were
    /// first defined.
    pub closed spec fn pairs(&self) -> Seq<(Seq<char>, Extern)> {
        Seq::new(self.entries@.len(), |i: int| (self.entries@[i].0@, self.entries@[i].1))
    }

    /// No name is held twice.
    pub closed spec fn wf(&self) -> bool {
        distinct_keys(self.pairs())
    }

    /// What the map is in terms of the pairs: where no name is held twice,
    /// each pair is one entry of the map and the map has no other.
    pub proof fn lemma_pairs(&self)
        requires
            self.wf(),
        ensures
            distinct_keys(self.pairs()),
            self@ == map_of(self.pairs()),
    {
    }

    /// No objects.
    pub fn new() -> (r: Self)
        ensures
            r.wf(),
            r@ == Map::<Seq<char>, Extern>::empty(),
            r.pairs() == Seq::<(Seq<char>, Extern)>::empty(),
    {
        let r = Exports { entries: Vec::new() };
        proof {
            assert(r.pairs() =~= Seq::<(Seq<char>, Extern)>::empty());
            lemma_map_of_empty::<Seq<char>, Extern>();
        }
        r
    }

    /// The position of `name` among the entries.
    fn find(&self, name: &String) -> (r: Option<usize>)
        ensures
            match r {
                Some(i) => i < self.pairs().len() && self.pairs()[i as int].0 == name@,
                None => !has_key(self.pairs(), name@),
            },
    {
        let mut i: usize = 0;
        while i < self.entries.len()
            invariant
                i <= self.entries@.len(),
                forall|j: int| 0 <= j < i ==> (#[trigger] self.pairs()[j]).0 != name@,
            decreases self.entries@.len() - i,
        {
            if self.entries[i].0 == *name {
                return Some(i);
            }
            i += 1;
        }
        None
    }

    /// The number of names.
    pub fn len(&self) -> (r: usize)
        requires
            self.wf(),
        ensures
            r == self.pairs().len(),
            self@.dom().finite(),
            r == self@.dom().len(),
    {
        proof {
            lemma_map_of_len(self.pairs());
        }
        self.entries.len()
    }

    /// Whether there is no name.
    pub fn is_empty(&self) -> (r: bool)
        ensures
            r == (self.pairs().len() == 0),
            r == (self@ == Map::<Seq<char>, Extern>::empty()),
    {
        proof {
            if self.entries@.len() == 0 {
                assert(self.pairs() =~= Seq::<(Seq<char>, Extern)>::empty());
                lemma_map_of_empty::<Seq<char>, Extern>();
            } else {
                assert(has_key(self.pairs(), self.pairs()[0].0));
                assert(self@.contains_key(self.pairs()[0].0));
            }
        }
        self.entries.len() == 0
    }

    /// Defines `name` as `value`, in place of what it was before.
    pub fn insert(&mut self, name: &str, value: Extern)
        requires
            old(self).wf(),
        ensures
            final(self).wf(),
            final(self)@ == old(self)@.insert(name@, value),
    {
        let key = name.to_owned();
        match self.find(&key) {
            Some(i) => {
                let ghost before = self.pairs();
                self.entries[i] = (key, value);
                proof {
                    assert(self.pairs() =~= before.update(i as int, (before[i as int].0, value)));
                    lemma_map_of_update(before, i as int, value);
                }
            },
            None => {
                let ghost before = self.pairs();
                self.entries.push((key, value));
                proof {
                    assert(self.pairs() =~= before.push((name@, value)));
                    lemma_map_of_push(before, name@, value);
                }
            },
        }
    }

    /// The object defined as `name`, if any.
    pub fn get_extern(&self, name: &str) -> (r: Option<&Extern>)
        requires
            self.wf(),
        ensures
            match r {
                Some(e) => self@.contains_key(name@) && *e == self@[name@],
                None => !self@.contains_key(name@),
            },
    {
        let key = name.to_owned();
        match self.find(&key) {
            Some(i) => {
                proof {
                    lemma_map_of_index(self.pairs(), i as int);
                }
                Some(&self.entries[i].1)
            },
            None => None,
        }
    }

    /// Whether `name` is defined.
    pub fn contains(&self, name: &str) -> (r: bool)
        requires
            self.wf(),
        ensures
            r == self@.contains_key(name@),
    {
        self.get_extern(name).is_some()
    }

    /// The object defined as `name`, as an object of kind `T`. Fails with
    /// `Missing` where the name is not defined and with `IncompatibleType`
    /// where it is defined as an object of another kind.
    pub fn get<T: Exportable>(&self, name: &str) -> (r: Result<&T, ExportError>)
        requires
            self.wf(),
        ensures
            match r {
                Ok(x) => self@.contains_key(name@) && T::spec_from_extern(&self@[name@]) == Some(
                    *x,
                ),
                Err(ExportError::Missing(n)) => !self@.contains_key(name@) && n@ == name@,
                Err(ExportError::IncompatibleType) => self@.contains_key(name@)
                    && T::spec_from_extern(&self@[name@]) is None,
            },
    {
        match self.get_extern(name) {
            None => Err(ExportError::Missing(name.to_owned())),
            Some(ext) => T::get_self_from_extern(ext),
        }
    }

    /// The memory defined as `name`.
    pub fn get_memory(&self, name: &str) -> (r: Result<&Memory, ExportError>)
        requires
            self.wf(),
        ensures
            match r {
                Ok(x) => self@.contains_key(name@) && self@[name@] == Extern::Memory(*x),
                Err(ExportError::Missing(n)) => !self@.contains_key(name@) && n@ == name@,
                Err(ExportError::IncompatibleType) => self@.contains_key(name@) && !(
                self@[name@] is Memory),
            },
    {
        self.get::<Memory>(name)
    }

    /// The table defined as `name`.
    pub fn get_table(&self, name: &str) -> (r: Result<&Table, ExportError>)
        requires
            self.wf(),
        ensures
            match r {
                Ok(x) => self@.contains_key(name@) && self@[name@] == Extern::Table(*x),
                Err(ExportError::Missing(n)) => !self@.contains_key(name@) && n@ == name@,
                Err(ExportError::IncompatibleType) => self@.contains_key(name@) && !(
                self@[name@] is Table),
            },
    {
        self.get::<Table>(name)
    }

    /// The function defined as `name`.
    pub fn get_function(&self, name: &str) -> (r: Result<&Function, ExportError>)
        requires
            self.wf(),
        ensures
            match r {
                Ok(x) => self@.contains_key(name@) && self@[name@] == Extern::Function(*x),
                Err(ExportError::Missing(n)) => !self@.contains_key(name@) && n@ == name@,
                Err(ExportError::IncompatibleType) => self@.contains_key(name@) && !(
                self@[name@] is Function),
            },
    {
        self.get::<Function>(name)
    }

    /// The global defined as `name`.
    pub fn get_global(&self, name: &str) -> (r: Result<&Global, ExportError>)
        requires
            self.wf(),
        ensures
            match r {
                Ok(x) => self@.contains_key(name@) && self@[name@] == Extern::Global(*x),
                Err(ExportError::Missing(n)) => !self@.contains_key(name@) && n@ == name@,
                Err(ExportError::IncompatibleType) => self@.contains_key(name@) && !(
                self@[name@] is Global),
            },
    {
        self.get::<Global>(name)
    }

    /// The names with their objects, in the order in which the names were
    /// first defined.
    pub fn into_vec(self) -> (r: Vec<(String, Extern)>)
        ensures
            contents_view(r@) == self.pairs(),
    {
        assert(contents_view(self.entries@) =~= self.pairs());
        self.entries
    }
}

} // verus!
