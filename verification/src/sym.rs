//! The symbol table: what each name of the program stands for.

use std::collections::HashMap;
use vstd::prelude::*;
use vstd::std_specs::hash::*;
use vstd::std_specs::iter::IteratorSpec;
use crate::ty::BuiltinType;
use crate::vm::{ClassId, FctId, Name, TraitId};

verus! {

broadcast use vstd::std_specs::hash::group_hash_axioms;

/// Names a node of the syntax tree.
#[derive(Debug, Copy, Clone, Hash, PartialEq, Eq, Structural)]
pub struct NodeId(pub usize);

#[derive(Debug, Clone, PartialEq, Eq)]
pub enum Sym {
    SymLocalVar(SymLocalVarType),
    SymFunction(SymFunctionType),
    SymType(BuiltinType),
    SymClass(ClassId),
    SymTrait(TraitId),
    SymFct(FctId),
    /// Stands for nothing.
    SymDummy(u8),
}

#[derive(Debug, Clone, PartialEq, Eq)]
pub struct SymFunctionType {
    pub name: Name,
    pub return_type: BuiltinType,
    pub params: Vec<Param>,
    pub body: NodeId,
}

#[derive(Debug, Copy, Clone, PartialEq, Eq)]
pub struct Param {
    pub name: Name,
    pub data_type: BuiltinType,
}

#[derive(Debug, Copy, Clone, PartialEq, Eq)]
pub struct SymLocalVarType {
    pub name: Name,
    pub data_type: BuiltinType,
    pub expr: Option<NodeId>,
}

#[derive(Debug)]
pub struct SymTable {
    map: HashMap<usize, Sym>,
}

impl View for SymTable {
    type V = Map<usize, Sym>;

    /// What each name stands for, by the number of the name.
    closed spec fn view(&self) -> Map<usize, Sym> {
        self.map@
    }
}

/// The functions that a list refers to.
pub open spec fn listed(found: Seq<&SymFunctionType>) -> Set<SymFunctionType> {
    Set::new(|f: SymFunctionType| exists|i: int| 0 <= i < found.len() && *(#[trigger] found[i]) == f)
}

/// The functions among the first `n` of `items`.
pub open spec fn functions_upto(items: Seq<(&usize, &Sym)>, n: int) -> Set<SymFunctionType> {
    Set::new(
        |f: SymFunctionType|
            exists|i: int| 0 <= i < n && *(#[trigger] items[i]).1 == Sym::SymFunction(f),
    )
}

impl SymTable {
    /// The functions among the symbols of the table.
    pub open spec fn functions(&self) -> Set<SymFunctionType> {
        Set::new(
            |f: SymFunctionType|
                exists|k: usize| self@.contains_key(k) && #[trigger] self@[k] == Sym::SymFunction(f),
        )
    }

    /// Creates a new table.
    pub fn new() -> (table: SymTable)
        ensures
            table@ == Map::<usize, Sym>::empty(),
    {
        SymTable { map: HashMap::new() }
    }

    /// Finds a symbol in the table.
    pub fn find(&self, name: Name) -> (r: Option<&Sym>)
        ensures
            match r {
                Some(sym) => self@.contains_key(name.0) && *sym == self@[name.0],
                None => !self@.contains_key(name.0),
            },
    {
        self.map.get(&name.0)
    }

    /// Inserts a symbol into the table, unless the name stands for one
    /// already: then the table stays as it is and that symbol is returned.
    pub fn insert(&mut self, name: Name, sym: Sym) -> (r: Result<(), &Sym>)
        ensures
            match r {
                Ok(()) => !old(self)@.contains_key(name.0) && final(self)@ == old(self)@.insert(
                    name.0,
                    sym,
                ),
                Err(found) => old(self)@.contains_key(name.0) && *found == old(self)@[name.0]
                    && final(self)@ == old(self)@,
            },
    {
        if self.map.contains_key(&name.0) {
            Err(self.map.get(&name.0).unwrap())
        } else {
            self.map.insert(name.0, sym);
            Ok(())
        }
    }

    /// The class that `name` stands for.
    pub fn get_class(&self, name: Name) -> (r: Option<ClassId>)
        ensures
            r == (if self@.contains_key(name.0) && self@[name.0] is SymClass {
                Some(self@[name.0]->SymClass_0)
            } else {
                None
            }),
    {
        match self.find(name) {
            Some(Sym::SymClass(id)) => Some(*id),
            _ => None,
        }
    }

    /// The trait that `name` stands for.
    pub fn get_trait(&self, name: Name) -> (r: Option<TraitId>)
        ensures
            r == (if self@.contains_key(name.0) && self@[name.0] is SymTrait {
                Some(self@[name.0]->SymTrait_0)
            } else {
                None
            }),
    {
        match self.find(name) {
            Some(Sym::SymTrait(id)) => Some(*id),
            _ => None,
        }
    }

    /// The function that `name` stands for.
    pub fn get_fct(&self, name: Name) -> (r: Option<FctId>)
        ensures
            r == (if self@.contains_key(name.0) && self@[name.0] is SymFct {
                Some(self@[name.0]->SymFct_0)
            } else {
                None
            }),
    {
        match self.find(name) {
            Some(Sym::SymFct(id)) => Some(*id),
            _ => None,
        }
    }

    /// The functions among the symbols, in no particular order.
    pub fn functions_mut(&mut self) -> (r: Vec<&SymFunctionType>)
        ensures
            final(self)@ == old(self)@,
            listed(r@) == old(self).functions(),
    {
        let mut found: Vec<&SymFunctionType> = Vec::new();
        let ghost all = spec_hash_map_iter(&self.map).remaining();
        for item in it: self.map.iter()
            invariant
                it.seq() == all,
                all == spec_hash_map_iter(&self.map).remaining(),
                listed(found@) == functions_upto(all, it.index()),
        {
            let ghost idx = it.index();
            let ghost before = found@;
            assert(all[idx] == item);
            if let Sym::SymFunction(ref fct) = *item.1 {
                found.push(fct);
                proof {
                    assert(*item.1 == Sym::SymFunction(*fct));
                    assert forall|f: SymFunctionType|
                        listed(found@).contains(f) <==> listed(before).contains(f) || f
                            == *fct by {
                        if listed(before).contains(f) {
                            let i = choose|i: int|
                                0 <= i < before.len() && *(#[trigger] before[i]) == f;
                            assert(*found@[i] == f);
                        }
                        if f == *fct {
                            assert(*found@[before.len() as int] == f);
                        }
                    }
                }
            }
            proof {
                assert forall|f: SymFunctionType|
                    functions_upto(all, idx + 1).contains(f) <==> functions_upto(all, idx).contains(
                        f,
                    ) || *item.1 == Sym::SymFunction(f) by {
                    if functions_upto(all, idx).contains(f) {
                        let i = choose|i: int|
                            0 <= i < idx && *(#[trigger] all[i]).1 == Sym::SymFunction(f);
                        assert(*all[i].1 == Sym::SymFunction(f));
                    }
                    if *item.1 == Sym::SymFunction(f) {
                        assert(*all[idx].1 == Sym::SymFunction(f));
                    }
                }
                if !(*item.1 is SymFunction) {
                    assert(found@ == before);
                }
                assert forall|f: SymFunctionType|
                    listed(found@).contains(f) <==> functions_upto(all, idx + 1).contains(f) by {
                    assert(listed(before).contains(f) <==> functions_upto(all, idx).contains(f));
                }
                assert(listed(found@) =~= functions_upto(all, idx + 1));
            }
        }
        proof {
            assert forall|f: SymFunctionType|
                functions_upto(all, all.len() as int).contains(f) <==> self.functions().contains(
                    f,
                ) by {
                if functions_upto(all, all.len() as int).contains(f) {
                    let i = choose|i: int|
                        0 <= i < all.len() && *(#[trigger] all[i]).1 == Sym::SymFunction(f);
                    assert(self.map@.contains_key(*all[i].0) && self.map@[*all[i].0] == *all[i].1);
                    assert(self@[*all[i].0] == Sym::SymFunction(f));
                }
                if self.functions().contains(f) {
                    let k = choose|k: usize|
                        self@.contains_key(k) && #[trigger] self@[k] == Sym::SymFunction(f);
                    assert(all.contains((&k, &self.map@[k])));
                    let i = choose|i: int| 0 <= i < all.len() && all[i] == (&k, &self.map@[k]);
                    assert(*all[i].1 == Sym::SymFunction(f));
                }
            }
            assert(functions_upto(all, all.len() as int) =~= self.functions());
        }
        found
    }
}

} // verus!
