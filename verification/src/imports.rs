//! The import resolver: external objects by namespace and name, and their
//! resolution against the imports that a module declares.
use crate::assoc::{
    distinct_keys, has_key, last_wins, lemma_last_wins_of_distinct, lemma_map_of_empty,
    lemma_map_of_index, lemma_map_of_len, lemma_map_of_push, lemma_map_of_update, map_of,
};
use crate::error::{InstantiationError, LinkError};
use crate::exports::{contents_view, Exports};
use crate::externals::Extern;
use crate::module::Module;
use vstd::prelude::*;

verus! {

/// Where an import is looked up: a namespace and a name.
pub type ImportKey = (Seq<char>, Seq<char>);

/// `map` with every name of `names` defined in namespace `ns`, in place of
/// what it was there before.
pub open spec fn with_namespace(
    map: Map<ImportKey, Extern>,
    ns: Seq<char>,
    names: Map<Seq<char>, Extern>,
) -> Map<ImportKey, Extern> {
    Map::new(
        |k: ImportKey| map.contains_key(k) || (k.0 == ns && names.contains_key(k.1)),
        |k: ImportKey|
            if k.0 == ns && names.contains_key(k.1) {
                names[k.1]
            } else {
                map[k]
            },
    )
}

/// The names that `map` defines in namespace `ns`, with their objects.
pub open spec fn namespace_of(map: Map<ImportKey, Extern>, ns: Seq<char>) -> Map<Seq<char>, Extern> {
    Map::new(|n: Seq<char>| map.contains_key((ns, n)), |n: Seq<char>| map[(ns, n)])
}

/// Whether `map` defines any name in namespace `ns`.
pub open spec fn has_namespace(map: Map<ImportKey, Extern>, ns: Seq<char>) -> bool {
    exists|k: ImportKey| #[trigger] map.contains_key(k) && k.0 == ns
}

/// Whether `ns` is one of `names`.
pub open spec fn listed(names: Seq<String>, ns: Seq<char>) -> bool {
    exists|a: int| 0 <= a < names.len() && (#[trigger] names[a])@ == ns
}

/// Whether one of the first `i` pairs is defined in namespace `ns`.
pub open spec fn used_before(pairs: Seq<(ImportKey, Extern)>, i: int, ns: Seq<char>) -> bool {
    exists|j: int| 0 <= j < i && (#[trigger] pairs[j]).0.0 == ns
}

/// The view of a list of keyed objects.
pub open spec fn pairs_view(pairs: Seq<((String, String), Extern)>) -> Seq<(ImportKey, Extern)> {
    Seq::new(pairs.len(), |i: int| ((pairs[i].0.0@, pairs[i].0.1@), pairs[i].1))
}

/// What is shown of imports in place of their contents.
#[derive(Debug, Clone, Copy, PartialEq, Eq, Structural, Hash)]
pub enum ImportsSummary {
    /// There is nothing: shown as `(empty)`.
    Empty,
    /// There are this many items: shown as `(... N item(s) ...)`.
    Items(usize),
}

/// All that is on offer when a module is instantiated: external objects by
/// namespace and name. A key has at most one object: the last definition
/// wins.
#[derive(Debug)]
pub struct Imports {
    map: Vec<((String, String), Extern)>,
}

impl View for Imports {
    type V = Map<ImportKey, Extern>;

    closed spec fn view(&self) -> Map<ImportKey, Extern> {
        map_of(self.pairs())
    }
}

impl Default for Imports {
    fn default() -> (r: Self)
        ensures
            r.wf(),
            r@ == Map::<ImportKey, Extern>::empty(),
    {
        Imports::new()
    }
}

impl Clone for Imports {
    fn clone(&self) -> (r: Self)
        ensures
            r.pairs() == self.pairs(),
            r.wf() == self.wf(),
            r@ == self@,
    {
        let r = Imports { map: self.to_vec() };
        assert(r.pairs() =~= pairs_view(r.map@));
        r
    }
}

impl Imports {
    /// The keys with their objects, in the order in which the keys were first
    /// defined.
    pub closed spec fn pairs(&self) -> Seq<(ImportKey, Extern)> {
        Seq::new(
            self.map@.len(),
            |i: int| ((self.map@[i].0.0@, self.map@[i].0.1@), self.map@[i].1),
        )
    }

    /// No key is held twice.
    pub closed spec fn wf(&self) -> bool {
        distinct_keys(self.pairs())
    }

    /// What the map is in terms of the pairs: where no key is held twice,
    /// each pair is one entry of the map and the map has no other.
    pub proof fn lemma_pairs(&self)
        requires
            self.wf(),
        ensures
            distinct_keys(self.pairs()),
            self@ == map_of(self.pairs()),
    {
    }

    /// Nothing on offer.
    pub fn new() -> (r: Self)
        ensures
            r.wf(),
            r@ == Map::<ImportKey, Extern>::empty(),
            r.pairs() == Seq::<(ImportKey, Extern)>::empty(),
    {
        let r = Imports { map: Vec::new() };
        proof {
            assert(r.pairs() =~= Seq::<(ImportKey, Extern)>::empty());
            lemma_map_of_empty::<ImportKey, Extern>();
        }
        r
    }

    /// The position of the key among the entries.
    fn find(&self, ns: &String, name: &String) -> (r: Option<usize>)
        ensures
            match r {
                Some(i) => i < self.pairs().len() && self.pairs()[i as int].0 == (ns@, name@),
                None => !has_key(self.pairs(), (ns@, name@)),
            },
    {
        let mut i: usize = 0;
        while i < self.map.len()
            invariant
                i <= self.map@.len(),
                forall|j: int| 0 <= j < i ==> (#[trigger] self.pairs()[j]).0 != (ns@, name@),
            decreases self.map@.len() - i,
        {
            if self.map[i].0.0 == *ns && self.map[i].0.1 == *name {
                return Some(i);
            }
            i += 1;
        }
        None
    }

    /// The number of keys.
    pub fn len(&self) -> (r: usize)
        requires
            self.wf(),
        ensures
            self@.dom().finite(),
            r == self@.dom().len(),
    {
        proof {
            lemma_map_of_len(self.pairs());
        }
        self.map.len()
    }

    /// The summary that stands for the contents when the imports are shown:
    /// whether there are any, and how many.
    pub fn summary(&self) -> (r: ImportsSummary)
        requires
            self.wf(),
        ensures
            self@.dom().finite(),
            r == if self@.dom().len() == 0 {
                ImportsSummary::Empty
            } else {
                ImportsSummary::Items(self@.dom().len() as usize)
            },
    {
        let len = self.len();
        if len == 0 {
            ImportsSummary::Empty
        } else {
            ImportsSummary::Items(len)
        }
    }

    /// The object defined as `name` in namespace `ns`, if any.
    pub fn get_export(&self, ns: &str, name: &str) -> (r: Option<Extern>)
        requires
            self.wf(),
        ensures
            r == if self@.contains_key((ns@, name@)) {
                Some(self@[(ns@, name@)])
            } else {
                None
            },
    {
        let ns = ns.to_owned();
        let name = name.to_owned();
        match self.find(&ns, &name) {
            Some(i) => {
                proof {
                    lemma_map_of_index(self.pairs(), i as int);
                }
                Some(self.map[i].1)
            },
            None => None,
        }
    }

    /// Whether any name is defined in namespace `name`.
    pub fn contains_namespace(&self, name: &str) -> (r: bool)
        requires
            self.wf(),
        ensures
            r == has_namespace(self@, name@),
    {
        let key = name.to_owned();
        let mut i: usize = 0;
        while i < self.map.len()
            invariant
                i <= self.map@.len(),
                self.wf(),
                key@ == name@,
                forall|j: int| 0 <= j < i ==> (#[trigger] self.pairs()[j]).0.0 != name@,
            decreases self.map@.len() - i,
        {
            if self.map[i].0.0 == key {
                proof {
                    lemma_map_of_index(self.pairs(), i as int);
                    assert(self@.contains_key(self.pairs()[i as int].0));
                }
                return true;
            }
            i += 1;
        }
        proof {
            assert forall|k: ImportKey| self@.contains_key(k) implies k.0 != name@ by {
                let j = choose|j: int|
                    0 <= j < self.pairs().len() && (#[trigger] self.pairs()[j]).0 == k;
                assert(self.pairs()[j].0.0 != name@);
            }
        }
        false
    }

    /// Defines `name` in namespace `ns` as `val`, in place of what it was
    /// before.
    pub fn define(&mut self, ns: &str, name: &str, val: Extern)
        requires
            old(self).wf(),
        ensures
            final(self).wf(),
            final(self)@ == old(self)@.insert((ns@, name@), val),
    {
        let ns_key = ns.to_owned();
        let name_key = name.to_owned();
        match self.find(&ns_key, &name_key) {
            Some(i) => {
                let ghost before = self.pairs();
                self.map[i] = ((ns_key, name_key), val);
                proof {
                    assert(self.pairs() =~= before.update(i as int, (before[i as int].0, val)));
                    lemma_map_of_update(before, i as int, val);
                }
            },
            None => {
                let ghost before = self.pairs();
                self.map.push(((ns_key, name_key), val));
                proof {
                    assert(self.pairs() =~= before.push(((ns@, name@), val)));
                    lemma_map_of_push(before, (ns@, name@), val);
                }
            },
        }
    }

    /// Defines every name of `contents` in namespace `ns`, from first to
    /// last.
    pub fn register_namespace(&mut self, ns: &str, contents: Vec<(String, Extern)>)
        requires
            old(self).wf(),
        ensures
            final(self).wf(),
            final(self)@ == with_namespace(old(self)@, ns@, last_wins(contents_view(contents@))),
    {
        let ghost all = contents_view(contents@);
        let mut i: usize = 0;
        proof {
            assert(all.take(0) =~= Seq::<(Seq<char>, Extern)>::empty());
            assert(self@ =~= with_namespace(old(self)@, ns@, last_wins(all.take(0))));
        }
        while i < contents.len()
            invariant
                i <= contents@.len(),
                all == contents_view(contents@),
                self.wf(),
                self@ == with_namespace(old(self)@, ns@, last_wins(all.take(i as int))),
            decreases contents@.len() - i,
        {
            self.define(ns, contents[i].0.as_str(), contents[i].1);
            proof {
                let done = all.take(i as int);
                let next = all.take(i + 1);
                assert(next.drop_last() =~= done);
                assert(next.last() == all[i as int]);
                assert(self@ =~= with_namespace(old(self)@, ns@, last_wins(next)));
            }
            i += 1;
        }
        proof {
            assert(all.take(i as int) =~= all);
        }
    }

    /// Defines every name of `exports` in namespace `ns`.
    pub fn register_exports(&mut self, ns: &str, exports: Exports)
        requires
            old(self).wf(),
            exports.wf(),
        ensures
            final(self).wf(),
            final(self)@ == with_namespace(old(self)@, ns@, exports@),
    {
        proof {
            exports.lemma_pairs();
            lemma_last_wins_of_distinct(exports.pairs());
        }
        self.register_namespace(ns, exports.into_vec());
    }

    /// The names defined in namespace `name`, with their objects; `None`
    /// where the namespace has no name.
    pub fn get_namespace_exports(&self, name: &str) -> (r: Option<Exports>)
        requires
            self.wf(),
        ensures
            match r {
                Some(e) => e.wf() && has_namespace(self@, name@) && e@ == namespace_of(
                    self@,
                    name@,
                ),
                None => !has_namespace(self@, name@),
            },
    {
        let key = name.to_owned();
        let mut ret = Exports::new();
        let mut i: usize = 0;
        proof {
            assert(ret@ =~= namespace_of(map_of(self.pairs().take(0)), name@)) by {
                assert(self.pairs().take(0) =~= Seq::<(ImportKey, Extern)>::empty());
                lemma_map_of_empty::<ImportKey, Extern>();
            }
        }
        while i < self.map.len()
            invariant
                i <= self.map@.len(),
                self.wf(),
                ret.wf(),
                key@ == name@,
                forall|n: Seq<char>|
                    ret@.contains_key(n) <==> exists|j: int|
                        0 <= j < i && (#[trigger] self.pairs()[j]).0 == (name@, n),
                forall|j: int|
                    0 <= j < i && (#[trigger] self.pairs()[j]).0.0 == name@ ==> ret@[self.pairs()[j].0.1]
                        == self.pairs()[j].1,
            decreases self.map@.len() - i,
        {
            if self.map[i].0.0 == key {
                let ghost before = ret@;
                ret.insert(self.map[i].0.1.as_str(), self.map[i].1);
                proof {
                    let n_i = self.pairs()[i as int].0.1;
                    assert forall|n: Seq<char>| ret@.contains_key(n) <==> exists|j: int|
                        0 <= j < i + 1 && (#[trigger] self.pairs()[j]).0 == (name@, n) by {
                        if n == n_i {
                            assert(self.pairs()[i as int].0 == (name@, n));
                        } else if before.contains_key(n) {
                            let j = choose|j: int|
                                0 <= j < i && (#[trigger] self.pairs()[j]).0 == (name@, n);
                            assert(0 <= j < i + 1 && self.pairs()[j].0 == (name@, n));
                        }
                    }
                    assert forall|j: int|
                        0 <= j < i + 1 && (#[trigger] self.pairs()[j]).0.0
                            == name@ implies ret@[self.pairs()[j].0.1] == self.pairs()[j].1 by {
                        if j < i {
                            assert(self.pairs()[j].0 != self.pairs()[i as int].0);
                        }
                    }
                }
            }
            i += 1;
        }
        proof {
            assert forall|n: Seq<char>| ret@.contains_key(n) <==> self@.contains_key(
                (name@, n),
            ) by {
                if ret@.contains_key(n) {
                    let j = choose|j: int|
                        0 <= j < i && (#[trigger] self.pairs()[j]).0 == (name@, n);
                    lemma_map_of_index(self.pairs(), j);
                }
                if self@.contains_key((name@, n)) {
                    let j = choose|j: int|
                        0 <= j < self.pairs().len() && (#[trigger] self.pairs()[j]).0 == (
                            name@,
                            n,
                        );
                    assert(0 <= j < i && self.pairs()[j].0 == (name@, n));
                }
            }
            assert forall|n: Seq<char>| ret@.contains_key(n) implies ret@[n] == self@[(
                name@,
                n,
            )] by {
                let j = choose|j: int| 0 <= j < i && (#[trigger] self.pairs()[j]).0 == (name@, n);
                lemma_map_of_index(self.pairs(), j);
            }
            assert(ret@ =~= namespace_of(self@, name@));
            if has_namespace(self@, name@) {
                let k = choose|k: ImportKey| #[trigger] self@.contains_key(k) && k.0 == name@;
                assert(ret@.contains_key(k.1));
            }
            if !(ret@ == Map::<Seq<char>, Extern>::empty()) {
                assert(exists|n: Seq<char>| ret@.contains_key(n)) by {
                    if forall|n: Seq<char>| !ret@.contains_key(n) {
                        assert(ret@ =~= Map::<Seq<char>, Extern>::empty());
                    }
                }
                let n = choose|n: Seq<char>| ret@.contains_key(n);
                assert(self@.contains_key((name@, n)));
            }
        }
        if ret.is_empty() {
            None
        } else {
            Some(ret)
        }
    }

    /// Whether the imports of `module` before the `k`-th are all defined and
    /// the `k`-th is not.
    pub open spec fn first_missing(&self, module: &Module, k: int) -> bool {
        &&& 0 <= k < module.spec_imports().len()
        &&& forall|i: int| 0 <= i < k ==> self@.contains_key(#[trigger] module.import_key(i))
        &&& !self@.contains_key(module.import_key(k))
    }

    /// Resolves the imports that `module` declares, in the order of
    /// declaration. Fails at the first import that is not defined. Only the
    /// key is looked up: whether the object found has the declared type is
    /// not examined here.
    pub fn imports_for_module(&self, module: &Module) -> (r: Result<Vec<Extern>, InstantiationError>)
        requires
            self.wf(),
        ensures
            match r {
                Ok(v) => {
                    &&& v@.len() == module.spec_imports().len()
                    &&& forall|i: int|
                        0 <= i < v@.len() ==> self@.contains_key(#[trigger] module.import_key(i))
                            && v@[i] == self@[module.import_key(i)]
                },
                Err(InstantiationError::Link(LinkError::UnknownImport { namespace, name, expected_type })) =>
                    exists|k: int|
                    {
                        &&& #[trigger] self.first_missing(module, k)
                        &&& (namespace@, name@) == module.import_key(k)
                        &&& expected_type@ == module.import_ty(k)
                    },
            },
    {
        let imports = module.imports();
        let mut ret: Vec<Extern> = Vec::new();
        let mut i: usize = 0;
        while i < imports.len()
            invariant
                i <= imports@.len(),
                imports@ == module.spec_imports(),
                self.wf(),
                ret@.len() == i,
                forall|j: int|
                    0 <= j < i ==> self@.contains_key(#[trigger] module.import_key(j)) && ret@[j]
                        == self@[module.import_key(j)],
            decreases imports@.len() - i,
        {
            let import = &imports[i];
            match self.get_export(import.module(), import.name()) {
                Some(imp) => {
                    ret.push(imp);
                },
                None => {
                    assert(self.first_missing(module, i as int));
                    return Err(
                        InstantiationError::Link(
                            LinkError::UnknownImport {
                                namespace: import.module().to_owned(),
                                name: import.name().to_owned(),
                                expected_type: import.ty().clone(),
                            },
                        ),
                    );
                },
            }
            i += 1;
        }
        Ok(ret)
    }

    /// Defines every pair of `other`, from first to last.
    pub fn extend(&mut self, other: Vec<((String, String), Extern)>)
        requires
            old(self).wf(),
        ensures
            final(self).wf(),
            final(self)@ == old(self)@.union_prefer_right(last_wins(pairs_view(other@))),
    {
        let ghost all = pairs_view(other@);
        let mut n: usize = 0;
        proof {
            assert(all.take(0) =~= Seq::<(ImportKey, Extern)>::empty());
            assert(self@ =~= old(self)@.union_prefer_right(last_wins(all.take(0))));
        }
        while n < other.len()
            invariant
                n <= other@.len(),
                all == pairs_view(other@),
                self.wf(),
                self@ == old(self)@.union_prefer_right(last_wins(all.take(n as int))),
            decreases other@.len() - n,
        {
            self.define(other[n].0.0.as_str(), other[n].0.1.as_str(), other[n].1);
            proof {
                let done = all.take(n as int);
                let next = all.take(n + 1);
                assert(next.drop_last() =~= done);
                assert(next.last() == all[n as int]);
                assert(self@ =~= old(self)@.union_prefer_right(last_wins(next)));
            }
            n += 1;
        }
        proof {
            assert(all.take(n as int) =~= all);
        }
    }

    /// The namespaces in which a name is defined, each once, in the order in
    /// which they were first used.
    pub fn namespaces(&self) -> (r: Vec<String>)
        requires
            self.wf(),
        ensures
            forall|i: int, j: int| 0 <= i < j < r@.len() ==> r@[i]@ != r@[j]@,
            forall|ns: Seq<char>| #[trigger] has_namespace(self@, ns) <==> listed(r@, ns),
    {
        let mut out: Vec<String> = Vec::new();
        let mut i: usize = 0;
        while i < self.map.len()
            invariant
                i <= self.map@.len(),
                self.wf(),
                forall|a: int, b: int| 0 <= a < b < out@.len() ==> out@[a]@ != out@[b]@,
                forall|ns: Seq<char>|
                    #[trigger] used_before(self.pairs(), i as int, ns) <==> listed(out@, ns),
            decreases self.map@.len() - i,
        {
            let ghost before = out@;
            let ghost here = self.pairs()[i as int].0.0;
            let mut known = false;
            let mut k: usize = 0;
            while k < out.len()
                invariant
                    k <= out@.len(),
                    i < self.map@.len(),
                    here == self.map@[i as int].0.0@,
                    known <==> exists|a: int| 0 <= a < k && (#[trigger] out@[a])@ == here,
                decreases out@.len() - k,
            {
                if out[k] == self.map[i].0.0 {
                    known = true;
                }
                k += 1;
            }
            if !known {
                out.push(self.map[i].0.0.clone());
            }
            proof {
                assert forall|ns: Seq<char>| #[trigger]
                    used_before(self.pairs(), i + 1, ns) <==> listed(out@, ns) by {
                    if used_before(self.pairs(), i + 1, ns) {
                        let j = choose|j: int|
                            0 <= j < i + 1 && (#[trigger] self.pairs()[j]).0.0 == ns;
                        if j < i {
                            assert(used_before(self.pairs(), i as int, ns));
                            assert(listed(before, ns));
                            let a = choose|a: int|
                                0 <= a < before.len() && (#[trigger] before[a])@ == ns;
                            assert(out@[a]@ == ns);
                        } else if known {
                            let a = choose|a: int|
                                0 <= a < before.len() && (#[trigger] before[a])@ == here;
                            assert(out@[a]@ == ns);
                        } else {
                            assert(out@[before.len() as int]@ == ns);
                        }
                    }
                    if listed(out@, ns) {
                        let a = choose|a: int| 0 <= a < out@.len() && (#[trigger] out@[a])@ == ns;
                        if a < before.len() {
                            assert(before[a]@ == ns);
                            assert(listed(before, ns));
                            assert(used_before(self.pairs(), i as int, ns));
                            let j = choose|j: int|
                                0 <= j < i && (#[trigger] self.pairs()[j]).0.0 == ns;
                            assert(0 <= j < i + 1 && self.pairs()[j].0.0 == ns);
                        } else {
                            assert(self.pairs()[i as int].0.0 == ns);
                        }
                    }
                }
            }
            i += 1;
        }
        proof {
            assert forall|ns: Seq<char>| #[trigger] has_namespace(self@, ns) <==> listed(
                out@,
                ns,
            ) by {
                if has_namespace(self@, ns) {
                    let k = choose|k: ImportKey| #[trigger] self@.contains_key(k) && k.0 == ns;
                    let j = choose|j: int|
                        0 <= j < self.pairs().len() && (#[trigger] self.pairs()[j]).0 == k;
                    assert(0 <= j < i && self.pairs()[j].0.0 == ns);
                    assert(used_before(self.pairs(), i as int, ns));
                }
                if listed(out@, ns) {
                    assert(used_before(self.pairs(), i as int, ns));
                    let j = choose|j: int| 0 <= j < i && (#[trigger] self.pairs()[j]).0.0 == ns;
                    lemma_map_of_index(self.pairs(), j);
                    assert(self@.contains_key(self.pairs()[j].0));
                }
            }
        }
        out
    }

    /// The keys with their objects, in the order in which the keys were first
    /// defined.
    pub fn to_vec(&self) -> (r: Vec<((String, String), Extern)>)
        ensures
            pairs_view(r@) == self.pairs(),
    {
        let mut out: Vec<((String, String), Extern)> = Vec::new();
        let mut i: usize = 0;
        while i < self.map.len()
            invariant
                i <= self.map@.len(),
                out@.len() == i,
                forall|j: int|
                    0 <= j < i ==> ((#[trigger] out@[j]).0.0@, out@[j].0.1@) == self.pairs()[j].0
                        && out@[j].1 == self.pairs()[j].1,
            decreases self.map@.len() - i,
        {
            out.push(((self.map[i].0.0.clone(), self.map[i].0.1.clone()), self.map[i].1));
            i += 1;
        }
        assert(pairs_view(out@) =~= self.pairs());
        out
    }
}

} // verus!
