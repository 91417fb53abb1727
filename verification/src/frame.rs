//! The managed stack frame of one function: which storage every live local
//! and temporary has below the frame pointer, and which of that storage the
//! collector has to visit.

use std::collections::HashMap;
use vstd::prelude::*;
use vstd::std_specs::hash::*;
use vstd::std_specs::iter::IteratorSpec;
use crate::free_slots::{
    align_up, best_fit, covers, free_bytes, lemma_align_up, no_fit, FreeSlot, FreeSlots, slots_wf,
};
use crate::mem::{
    align_i32, ptr_width, spec_ptr_width, spec_stack_frame_alignment, stack_frame_alignment,
};
use crate::ty::BuiltinType;
use crate::vm::VM;

verus! {

broadcast use vstd::std_specs::hash::group_hash_axioms;

/// Names one piece of storage in a frame. A frame hands out each name once.
#[derive(Debug, Copy, Clone, PartialEq, Eq, Hash, Structural)]
pub struct ManagedVar(pub usize);

/// What the frame knows of one live piece of storage: the type of the value,
/// its displacement from the frame pointer, and whether the value has been
/// written.
#[derive(Debug, Copy, Clone, PartialEq, Eq)]
pub struct ManagedVarData {
    pub ty: BuiltinType,
    pub offset: i32,
    pub initialized: bool,
}

/// A piece of storage as its user sees it: the name and the displacement.
#[derive(Debug, Copy, Clone, PartialEq, Eq)]
pub struct ManagedStackSlot {
    pub var: ManagedVar,
    pub offset: i32,
}

impl ManagedStackSlot {
    pub fn offset(&self) -> (r: i32)
        ensures
            r == self.offset,
    {
        self.offset
    }
}

/// The bytes that storage for a value of type `ty` takes; `nil` is stored as
/// a pointer.
pub open spec fn slot_size(ty: BuiltinType, vm: &VM) -> int {
    if ty is Nil {
        spec_ptr_width()
    } else {
        ty.spec_size(vm)
    }
}

/// The alignment of storage for a value of type `ty`.
pub open spec fn slot_align(ty: BuiltinType, vm: &VM) -> int {
    if ty is Nil {
        spec_ptr_width()
    } else {
        ty.spec_align(vm)
    }
}

/// The types that a frame can store: those with a size and an alignment
/// above zero.
pub open spec fn allocatable(ty: BuiltinType, vm: &VM) -> bool {
    &&& ty is Nil || ty.has_size(vm)
    &&& 0 < slot_size(ty, vm)
    &&& 0 < slot_align(ty, vm)
}

/// The displacements of the first `n` references of a tuple that is stored
/// at `offset`.
pub open spec fn tuple_roots(offset: int, refs: Seq<i32>, n: int) -> Set<int> {
    Set::new(|o: int| exists|i: int| 0 <= i < n && o == offset + #[trigger] refs[i])
}

impl ManagedVarData {
    /// The first byte of the storage, counted from the frame's low end.
    pub open spec fn span_start(self, vm: &VM) -> int {
        -(self.offset + slot_size(self.ty, vm))
    }

    /// One past the last byte of the storage, counted from the frame's low
    /// end.
    pub open spec fn span_end(self, vm: &VM) -> int {
        -self.offset
    }

    pub open spec fn holds(self, vm: &VM, byte: int) -> bool {
        self.span_start(vm) <= byte < self.span_end(vm)
    }

    /// The displacements that the collector visits for this storage: the
    /// storage itself where it holds a reference, each reference inside it
    /// where it holds a tuple, and nothing before the value is written.
    pub open spec fn roots(self, vm: &VM) -> Set<int> {
        if !self.initialized {
            Set::empty()
        } else if self.ty.spec_reference_type() {
            set![self.offset as int]
        } else if let BuiltinType::Tuple(id) = self.ty {
            let refs = vm.tuples@[id.0 as int].references@;
            tuple_roots(self.offset as int, refs, refs.len() as int)
        } else {
            Set::empty()
        }
    }
}

/// The storage that one lexical block owns.
pub struct ManagedStackScope {
    vars: Vec<ManagedVar>,
}

impl View for ManagedStackScope {
    type V = Seq<ManagedVar>;

    closed spec fn view(&self) -> Seq<ManagedVar> {
        self.vars@
    }
}

impl ManagedStackScope {
    pub fn new() -> (scope: ManagedStackScope)
        ensures
            scope@ == Seq::<ManagedVar>::empty(),
    {
        ManagedStackScope { vars: Vec::new() }
    }

    pub fn add_var(&mut self, var: ManagedVar)
        ensures
            final(self)@ == old(self)@.push(var),
    {
        self.vars.push(var);
    }
}

/// The displacements that a list names.
pub open spec fn offsets_set(offsets: Seq<i32>) -> Set<int> {
    Set::new(|o: int| exists|i: int| 0 <= i < offsets.len() && #[trigger] offsets[i] == o)
}

/// The displacements that the collector visits for the first `n` of `items`.
pub open spec fn roots_upto(items: Seq<(&usize, &ManagedVarData)>, n: int, vm: &VM) -> Set<int> {
    Set::new(|o: int| exists|i: int| 0 <= i < n && (#[trigger] items[i]).1.roots(vm).contains(o))
}

/// The displacements of the frame that hold a live reference.
pub struct GcPoint {
    pub offsets: Vec<i32>,
}

impl View for GcPoint {
    type V = Set<int>;

    open spec fn view(&self) -> Set<int> {
        offsets_set(self.offsets@)
    }
}

impl GcPoint {
    pub fn from_offsets(offsets: Vec<i32>) -> (point: GcPoint)
        ensures
            point.offsets == offsets,
    {
        GcPoint { offsets }
    }
}

/// All storage of one function under compilation.
pub struct ManagedStackFrame {
    vars: HashMap<usize, ManagedVarData>,
    scopes: Vec<ManagedStackScope>,
    next_var: ManagedVar,
    free_slots: FreeSlots,
    stacksize: i32,
}

impl ManagedStackFrame {
    /// The live storage, by name.
    pub closed spec fn vars(&self) -> Map<usize, ManagedVarData> {
        self.vars@
    }

    /// The open scopes, outermost first, each with the names it owns.
    pub closed spec fn scopes(&self) -> Seq<Seq<ManagedVar>> {
        self.scopes@.map_values(|s: ManagedStackScope| s@)
    }

    /// The name that the next allocation gets.
    pub closed spec fn next_var(&self) -> int {
        self.next_var.0 as int
    }

    /// The unused spans of the frame.
    pub closed spec fn free_list(&self) -> Seq<FreeSlot> {
        self.free_slots@
    }

    /// How far the frame extends, before rounding.
    pub closed spec fn raw_stacksize(&self) -> int {
        self.stacksize as int
    }

    /// Whether some open scope owns `var`.
    pub open spec fn owned(&self, var: ManagedVar) -> bool {
        exists|s: int, i: int|
            0 <= s < self.scopes().len() && 0 <= i < self.scopes()[s].len()
                && #[trigger] self.scopes()[s][i] == var
    }

    /// The frame is consistent for the context `vm`.
    pub open spec fn wf(&self, vm: &VM) -> bool {
        &&& slots_wf(self.free_list())
        &&& self.vars().dom().finite()
        &&& 0 <= self.raw_stacksize()
        &&& 0 <= self.next_var()
        // the free spans lie inside the frame
        &&& forall|b: int| #[trigger]
            covers(self.free_list(), b) ==> 0 <= b < self.raw_stacksize()
        // live storage lies inside the frame, and none of it is free
        &&& forall|k: usize| #[trigger]
            self.vars().contains_key(k) ==> {
                &&& k < self.next_var()
                &&& allocatable(self.vars()[k].ty, vm)
                &&& 0 <= self.vars()[k].span_start(vm)
                &&& self.vars()[k].span_end(vm) <= self.raw_stacksize()
            }
        &&& forall|k: usize, b: int|
            self.vars().contains_key(k) && #[trigger] self.vars()[k].holds(vm, b) ==> !covers(
                self.free_list(),
                b,
            )
        // no two pieces of live storage share a byte
        &&& forall|k1: usize, k2: usize|
            #![trigger self.vars()[k1], self.vars()[k2]]
            self.vars().contains_key(k1) && self.vars().contains_key(k2) && k1 != k2 ==> {
                ||| self.vars()[k1].span_end(vm) <= self.vars()[k2].span_start(vm)
                ||| self.vars()[k2].span_end(vm) <= self.vars()[k1].span_start(vm)
            }
        // what a scope owns is live, and is owned once
        &&& forall|s: int, i: int|
            0 <= s < self.scopes().len() && 0 <= i < self.scopes()[s].len()
                ==> self.vars().contains_key((#[trigger] self.scopes()[s][i]).0)
        &&& forall|s: int, i: int, t: int, j: int|
            0 <= s < self.scopes().len() && 0 <= i < self.scopes()[s].len() && 0 <= t
                < self.scopes().len() && 0 <= j < self.scopes()[t].len() && (s != t || i != j)
                ==> #[trigger] self.scopes()[s][i] != #[trigger] self.scopes()[t][j]
    }

    /// The displacements that hold a live reference.
    pub open spec fn roots(&self, vm: &VM) -> Set<int> {
        Set::new(
            |o: int|
                exists|k: usize|
                    self.vars().contains_key(k) && (#[trigger] self.vars()[k]).roots(vm).contains(
                        o,
                    ),
        )
    }

    pub fn new() -> (frame: ManagedStackFrame)
        ensures
            frame.vars() == Map::<usize, ManagedVarData>::empty(),
            frame.scopes() == Seq::<Seq<ManagedVar>>::empty(),
            frame.free_list() == Seq::<FreeSlot>::empty(),
            frame.next_var() == 0,
            frame.raw_stacksize() == 0,
            forall|vm: &VM| frame.wf(vm),
    {
        let frame = ManagedStackFrame {
            vars: HashMap::new(),
            scopes: Vec::new(),
            next_var: ManagedVar(0),
            free_slots: FreeSlots::new(),
            stacksize: 0,
        };
        assert(frame.scopes() =~= Seq::<Seq<ManagedVar>>::empty());
        frame
    }

    /// Whether the frame has neither an open scope nor live storage.
    pub fn is_empty(&self) -> (r: bool)
        ensures
            r == (self.scopes().len() == 0 && self.vars() == Map::<usize, ManagedVarData>::empty()),
    {
        let r = self.scopes.is_empty() && self.vars.is_empty();
        proof {
            if self.vars@.len() == 0 {
                assert(self.vars@.dom().finite());
                assert(self.vars@.dom().len() == 0);
                assert(self.vars@ =~= Map::<usize, ManagedVarData>::empty());
            }
        }
        r
    }

    /// Opens a scope inside the innermost open one.
    pub fn push_scope(&mut self)
        ensures
            final(self).scopes() == old(self).scopes().push(Seq::<ManagedVar>::empty()),
            final(self).vars() == old(self).vars(),
            final(self).free_list() == old(self).free_list(),
            final(self).next_var() == old(self).next_var(),
            final(self).raw_stacksize() == old(self).raw_stacksize(),
            forall|vm: &VM| old(self).wf(vm) ==> final(self).wf(vm),
    {
        self.scopes.push(ManagedStackScope::new());
        proof {
            assert(self.scopes() =~= old(self).scopes().push(Seq::<ManagedVar>::empty()));
            assert forall|vm: &VM| old(self).wf(vm) implies self.wf(vm) by {
                let n = old(self).scopes().len() as int;
                assert forall|s: int, i: int|
                    0 <= s < self.scopes().len() && 0 <= i < self.scopes()[s].len()
                    implies self.vars().contains_key((#[trigger] self.scopes()[s][i]).0) by {
                    assert(self.scopes()[s][i] == old(self).scopes()[s][i]);
                }
                assert forall|s: int, i: int, t: int, j: int|
                    0 <= s < self.scopes().len() && 0 <= i < self.scopes()[s].len() && 0 <= t
                        < self.scopes().len() && 0 <= j < self.scopes()[t].len() && (s != t || i
                        != j) implies #[trigger] self.scopes()[s][i]
                    != #[trigger] self.scopes()[t][j] by {
                    assert(self.scopes()[s][i] == old(self).scopes()[s][i]);
                    assert(self.scopes()[t][j] == old(self).scopes()[t][j]);
                }
            }
        }
    }

    /// Grows the frame by storage of `size` bytes at `alignment`, and returns
    /// the displacement of that storage.
    fn extend_stack(&mut self, size: i32, alignment: i32) -> (offset: i32)
        requires
            0 < size,
            0 < alignment,
            0 <= old(self).raw_stacksize(),
            align_up(old(self).raw_stacksize(), alignment as int) + size <= i32::MAX,
        ensures
            final(self).raw_stacksize() == align_up(old(self).raw_stacksize(), alignment as int)
                + size,
            offset == -final(self).raw_stacksize(),
            final(self).vars() == old(self).vars(),
            final(self).scopes() == old(self).scopes(),
            final(self).next_var() == old(self).next_var(),
            final(self).free_list() == old(self).free_list(),
    {
        proof {
            lemma_align_up(self.stacksize as int, alignment as int);
        }
        self.stacksize = align_i32(self.stacksize, alignment) + size;
        -self.stacksize
    }

    /// Gives storage to a value of type `ty` under a fresh name. The storage
    /// comes from the free span that fits best; where none fits, the frame
    /// grows.
    pub fn allocate(&mut self, ty: BuiltinType, vm: &VM, initialized: bool) -> (slot:
        ManagedStackSlot)
        requires
            old(self).wf(vm),
            allocatable(ty, vm),
            old(self).next_var() < usize::MAX,
            no_fit(old(self).free_list(), slot_size(ty, vm), slot_align(ty, vm)) ==> align_up(
                old(self).raw_stacksize(),
                slot_align(ty, vm),
            ) + slot_size(ty, vm) <= i32::MAX,
        ensures
            final(self).wf(vm),
            slot.var.0 == old(self).next_var(),
            final(self).next_var() == old(self).next_var() + 1,
            final(self).vars() == old(self).vars().insert(
                slot.var.0,
                ManagedVarData { ty, offset: slot.offset, initialized },
            ),
            final(self).scopes() == old(self).scopes(),
            placed(old(self), final(self), ty, vm, slot.offset),
    {
        let var = self.next_var;
        self.next_var = ManagedVar(var.0 + 1);

        let (size, alignment) = if ty.is_nil() {
            (ptr_width(), ptr_width())
        } else {
            (ty.size(vm), ty.align(vm))
        };

        let ghost list = self.free_slots@;
        let alloc = self.free_slots.allocate(size as u32, alignment as u32);

        let offset = if let Some(free_start) = alloc {
            proof {
                let taken = FreeSlot { start: free_start, size: size as u32 };
                let last = free_start + size - 1;
                assert(taken.contains(last));
                assert(taken.bytes().contains(last));
                assert(free_bytes(list).contains(last));
                assert(covers(list, last));
            }
            -(free_start as i32 + size)
        } else {
            self.extend_stack(size, alignment)
        };

        let data = ManagedVarData { ty, offset, initialized };
        self.vars.insert(var.0, data);
        proof {
            let span = FreeSlot { start: data.span_start(vm) as u32, size: size as u32 };
            assert forall|b: int| span.contains(b) <==> data.holds(vm, b) by {}
            if alloc is Some {
                assert forall|b: int| data.holds(vm, b) implies covers(list, b) by {
                    assert(span.bytes().contains(b));
                    assert(free_bytes(list).contains(b));
                }
                assert forall|b: int| #[trigger]
                    covers(self.free_list(), b) <==> covers(list, b) && !data.holds(vm, b) by {
                    assert(free_bytes(self.free_list()).contains(b) <==> free_bytes(list).contains(
                        b,
                    ) && !span.bytes().contains(b));
                }
            } else {
                lemma_align_up(old(self).raw_stacksize(), alignment as int);
            }
            assert forall|k: usize|
                self.vars().contains_key(k) && k != var.0 implies old(self).vars().contains_key(k)
                && self.vars()[k] == old(self).vars()[k] by {}
            assert forall|k1: usize, k2: usize|
                #![trigger self.vars()[k1], self.vars()[k2]]
                self.vars().contains_key(k1) && self.vars().contains_key(k2) && k1 != k2 implies {
                ||| self.vars()[k1].span_end(vm) <= self.vars()[k2].span_start(vm)
                ||| self.vars()[k2].span_end(vm) <= self.vars()[k1].span_start(vm)
            } by {
                if k1 == var.0 {
                    lemma_apart_from_live(old(self), vm, data, k2);
                } else if k2 == var.0 {
                    lemma_apart_from_live(old(self), vm, data, k1);
                }
            }
            assert(self.scopes() == old(self).scopes());
            assert forall|b: int| #[trigger]
                covers(self.free_list(), b) implies 0 <= b < self.raw_stacksize() by {
                assert(covers(old(self).free_list(), b));
            }
            assert forall|k: usize, b: int|
                self.vars().contains_key(k) && #[trigger] self.vars()[k].holds(
                    vm,
                    b,
                ) implies !covers(self.free_list(), b) by {
                if k != var.0 {
                    assert(old(self).vars()[k].holds(vm, b));
                }
                if covers(self.free_list(), b) {
                    assert(covers(old(self).free_list(), b));
                }
            }
        }
        ManagedStackSlot { var, offset }
    }
}

impl ManagedStackFrame {
    /// Gives storage to a value that the innermost open scope owns from now
    /// on.
    pub fn add_scope(&mut self, ty: BuiltinType, vm: &VM) -> (slot: ManagedStackSlot)
        requires
            old(self).wf(vm),
            old(self).scopes().len() > 0,
            allocatable(ty, vm),
            old(self).next_var() < usize::MAX,
            no_fit(old(self).free_list(), slot_size(ty, vm), slot_align(ty, vm)) ==> align_up(
                old(self).raw_stacksize(),
                slot_align(ty, vm),
            ) + slot_size(ty, vm) <= i32::MAX,
        ensures
            final(self).wf(vm),
            slot.var.0 == old(self).next_var(),
            final(self).next_var() == old(self).next_var() + 1,
            final(self).vars() == old(self).vars().insert(
                slot.var.0,
                ManagedVarData { ty, offset: slot.offset, initialized: true },
            ),
            final(self).scopes() == old(self).scopes().update(
                old(self).scopes().len() - 1,
                old(self).scopes().last().push(slot.var),
            ),
            placed(old(self), final(self), ty, vm, slot.offset),
    {
        let var_and_offset = self.allocate(ty, vm, true);
        let ghost mid = self.scopes();
        let n = self.scopes.len();
        let mut scope = self.scopes.pop().unwrap();
        scope.add_var(var_and_offset.var);
        self.scopes.push(scope);
        proof {
            assert(self.scopes() =~= mid.update(n - 1, mid.last().push(var_and_offset.var)));
            assert forall|s: int, i: int|
                0 <= s < mid.len() && 0 <= i < mid[s].len() implies (#[trigger] mid[s][i]).0
                != var_and_offset.var.0 by {
                assert(old(self).vars().contains_key(old(self).scopes()[s][i].0));
            }
        }
        var_and_offset
    }

    /// Gives storage to a temporary, which no scope owns: its user frees it.
    pub fn add_temp(&mut self, ty: BuiltinType, vm: &VM) -> (slot: ManagedStackSlot)
        requires
            old(self).wf(vm),
            allocatable(ty, vm),
            old(self).next_var() < usize::MAX,
            no_fit(old(self).free_list(), slot_size(ty, vm), slot_align(ty, vm)) ==> align_up(
                old(self).raw_stacksize(),
                slot_align(ty, vm),
            ) + slot_size(ty, vm) <= i32::MAX,
        ensures
            final(self).wf(vm),
            slot.var.0 == old(self).next_var(),
            final(self).next_var() == old(self).next_var() + 1,
            final(self).vars() == old(self).vars().insert(
                slot.var.0,
                ManagedVarData { ty, offset: slot.offset, initialized: true },
            ),
            final(self).scopes() == old(self).scopes(),
            placed(old(self), final(self), ty, vm, slot.offset),
    {
        self.allocate(ty, vm, true)
    }

    /// Gives storage to a temporary whose value is written later; until
    /// `mark_initialized` the collector does not visit it.
    pub fn add_temp_uninitialized(&mut self, ty: BuiltinType, vm: &VM) -> (slot: ManagedStackSlot)
        requires
            old(self).wf(vm),
            allocatable(ty, vm),
            old(self).next_var() < usize::MAX,
            no_fit(old(self).free_list(), slot_size(ty, vm), slot_align(ty, vm)) ==> align_up(
                old(self).raw_stacksize(),
                slot_align(ty, vm),
            ) + slot_size(ty, vm) <= i32::MAX,
        ensures
            final(self).wf(vm),
            slot.var.0 == old(self).next_var(),
            final(self).next_var() == old(self).next_var() + 1,
            final(self).vars() == old(self).vars().insert(
                slot.var.0,
                ManagedVarData { ty, offset: slot.offset, initialized: false },
            ),
            final(self).scopes() == old(self).scopes(),
            placed(old(self), final(self), ty, vm, slot.offset),
    {
        self.allocate(ty, vm, false)
    }

    /// Gives the storage of a temporary back.
    pub fn free_temp(&mut self, temp: ManagedStackSlot, vm: &VM)
        requires
            old(self).wf(vm),
            old(self).vars().contains_key(temp.var.0),
            !old(self).owned(temp.var),
        ensures
            final(self).wf(vm),
            freed(old(self), final(self), temp.var, vm),
    {
        self.free(temp.var, vm)
    }

    /// Records that the value of `var` has been written.
    pub fn mark_initialized(&mut self, var: ManagedVar)
        requires
            old(self).vars().contains_key(var.0),
        ensures
            final(self).vars() == old(self).vars().insert(
                var.0,
                ManagedVarData {
                    ty: old(self).vars()[var.0].ty,
                    offset: old(self).vars()[var.0].offset,
                    initialized: true,
                },
            ),
            final(self).scopes() == old(self).scopes(),
            final(self).free_list() == old(self).free_list(),
            final(self).next_var() == old(self).next_var(),
            final(self).raw_stacksize() == old(self).raw_stacksize(),
            forall|vm: &VM| old(self).wf(vm) ==> final(self).wf(vm),
    {
        let found = self.vars.get(&var.0);
        match found {
            Some(data) => {
                let data = ManagedVarData { ty: data.ty, offset: data.offset, initialized: true };
                self.vars.insert(var.0, data);
            },
            None => {},
        }
        proof {
            assert(self.scopes() == old(self).scopes());
            assert forall|vm: &VM| old(self).wf(vm) implies self.wf(vm) by {
                assert forall|k: usize| #[trigger]
                    self.vars().contains_key(k) implies old(self).vars().contains_key(k)
                    && self.vars()[k].ty == old(self).vars()[k].ty && self.vars()[k].offset == old(
                    self,
                ).vars()[k].offset by {}
                assert forall|k: usize, b: int|
                    self.vars().contains_key(k) && #[trigger] self.vars()[k].holds(
                        vm,
                        b,
                    ) implies !covers(self.free_list(), b) by {
                    assert(old(self).vars()[k].holds(vm, b));
                }
            }
        }
    }

    /// Sets the size of a frame that has none yet: the first `size` bytes
    /// are taken before any storage is given out.
    pub fn initial_stacksize(&mut self, size: i32)
        requires
            old(self).raw_stacksize() == 0,
            0 <= size,
        ensures
            final(self).raw_stacksize() == size,
            final(self).vars() == old(self).vars(),
            final(self).scopes() == old(self).scopes(),
            final(self).free_list() == old(self).free_list(),
            final(self).next_var() == old(self).next_var(),
            forall|vm: &VM| old(self).wf(vm) ==> final(self).wf(vm),
    {
        self.stacksize = size;
        proof {
            assert(self.scopes() == old(self).scopes());
            assert forall|vm: &VM| old(self).wf(vm) implies self.wf(vm) by {
                assert forall|b: int| #[trigger]
                    covers(self.free_list(), b) implies 0 <= b < self.raw_stacksize() by {
                    assert(covers(old(self).free_list(), b));
                }
            }
        }
    }

    /// Gives the storage of `var` back to the free list.
    pub fn free(&mut self, var: ManagedVar, vm: &VM)
        requires
            old(self).wf(vm),
            old(self).vars().contains_key(var.0),
            !old(self).owned(var),
        ensures
            final(self).wf(vm),
            freed(old(self), final(self), var, vm),
    {
        let ghost data0 = self.vars@[var.0];
        let removed = self.vars.remove(&var.0);
        match removed {
            Some(data) => {
                let size = if data.ty.is_nil() {
                    ptr_width()
                } else {
                    data.ty.size(vm)
                };
                let start = -(data.offset + size);
                let span = FreeSlot::new(start as u32, size as u32);
                proof {
                    assert forall|b: int| span.contains(b) <==> data.holds(vm, b) by {}
                    assert(self.free_slots.bytes().disjoint(span.bytes())) by {
                        assert forall|b: int|
                            !(free_bytes(self.free_slots@).contains(b) && span.bytes().contains(
                                b,
                            )) by {
                            if span.contains(b) {
                                assert(old(self).vars()[var.0].holds(vm, b));
                            }
                        }
                    }
                }
                let ghost list = self.free_slots@;
                self.free_slots.free(span);
                proof {
                    assert(self.scopes() == old(self).scopes());
                    assert forall|b: int| #[trigger]
                        covers(self.free_list(), b) <==> covers(list, b) || data.holds(vm, b) by {
                        assert(free_bytes(self.free_list()).contains(b) <==> free_bytes(
                            list,
                        ).contains(b) || span.bytes().contains(b));
                    }
                    assert forall|k: usize, b: int|
                        self.vars().contains_key(k) && #[trigger] self.vars()[k].holds(
                            vm,
                            b,
                        ) implies !covers(self.free_list(), b) by {
                        assert(old(self).vars()[k].holds(vm, b));
                        assert(!covers(list, b));
                    }
                    assert forall|s: int, i: int|
                        0 <= s < self.scopes().len() && 0 <= i < self.scopes()[s].len()
                        implies self.vars().contains_key((#[trigger] self.scopes()[s][i]).0) by {
                        assert(old(self).scopes()[s][i] != var);
                    }
                }
            },
            None => {},
        }
    }

    /// Closes the innermost open scope and frees what it owns, in the order
    /// in which the scope came to own it.
    pub fn pop_scope(&mut self, vm: &VM)
        requires
            old(self).wf(vm),
            old(self).scopes().len() > 0,
        ensures
            final(self).wf(vm),
            final(self).scopes() == old(self).scopes().drop_last(),
            final(self).vars() == old(self).vars().remove_keys(
                scope_names(old(self).scopes().last()),
            ),
            final(self).next_var() == old(self).next_var(),
            final(self).raw_stacksize() == old(self).raw_stacksize(),
            forall|b: int| #[trigger]
                covers(final(self).free_list(), b) <==> covers(old(self).free_list(), b)
                    || scope_holds(old(self).vars(), old(self).scopes().last(), vm, b),
    {
        let scope = self.scopes.pop().unwrap();
        let ghost last = scope@;
        let ghost rest = old(self).scopes().drop_last();
        proof {
            assert(last == old(self).scopes().last());
            assert(self.scopes() =~= rest);
            assert forall|s: int, i: int|
                0 <= s < rest.len() && 0 <= i < rest[s].len() implies self.vars().contains_key(
                (#[trigger] rest[s][i]).0,
            ) by {
                assert(rest[s][i] == old(self).scopes()[s][i]);
            }
            assert forall|s: int, i: int, t: int, j: int|
                0 <= s < rest.len() && 0 <= i < rest[s].len() && 0 <= t < rest.len() && 0 <= j
                    < rest[t].len() && (s != t || i != j) implies #[trigger] rest[s][i]
                != #[trigger] rest[t][j] by {
                assert(rest[s][i] == old(self).scopes()[s][i]);
                assert(rest[t][j] == old(self).scopes()[t][j]);
            }
            assert forall|s: int, i: int, j: int|
                0 <= s < rest.len() && 0 <= i < rest[s].len() && 0 <= j < last.len()
                implies #[trigger] rest[s][i] != #[trigger] last[j] by {
                assert(rest[s][i] == old(self).scopes()[s][i]);
                assert(last[j] == old(self).scopes()[rest.len() as int][j]);
            }
            assert forall|i: int, j: int| 0 <= i < j < last.len() implies #[trigger] last[i]
                != #[trigger] last[j] by {
                assert(last[i] == old(self).scopes()[rest.len() as int][i]);
                assert(last[j] == old(self).scopes()[rest.len() as int][j]);
            }
            assert forall|j: int| 0 <= j < last.len() implies self.vars().contains_key(
                (#[trigger] last[j]).0,
            ) by {
                assert(last[j] == old(self).scopes()[rest.len() as int][j]);
            }
            assert(self.vars() =~= old(self).vars().remove_keys(scope_names(last.take(0))));
        }
        let n = scope.vars.len();
        let mut i: usize = 0;
        while i < n
            invariant
                i <= n,
                n == last.len(),
                scope@ == last,
                self.wf(vm),
                old(self).wf(vm),
                self.scopes() == rest,
                self.next_var() == old(self).next_var(),
                self.raw_stacksize() == old(self).raw_stacksize(),
                forall|s: int, k: int, j: int|
                    0 <= s < rest.len() && 0 <= k < rest[s].len() && 0 <= j < last.len()
                        ==> #[trigger] rest[s][k] != #[trigger] last[j],
                forall|a: int, b: int|
                    0 <= a < b < last.len() ==> #[trigger] last[a] != #[trigger] last[b],
                forall|j: int| 0 <= j < last.len() ==> old(self).vars().contains_key(
                    (#[trigger] last[j]).0,
                ),
                self.vars() == old(self).vars().remove_keys(scope_names(last.take(i as int))),
                forall|b: int| #[trigger]
                    covers(self.free_list(), b) <==> covers(old(self).free_list(), b)
                        || scope_holds(old(self).vars(), last.take(i as int), vm, b),
            decreases n - i,
        {
            let var = scope.vars[i];
            let ghost before = *self;
            proof {
                assert(last[i as int] == var);
                if scope_names(last.take(i as int)).contains(var.0) {
                    let j = choose|j: int|
                        0 <= j < last.take(i as int).len() && (#[trigger] last.take(
                            i as int,
                        )[j]).0 == var.0;
                    assert(last[j] != last[i as int]);
                }
                assert(!self.owned(var));
            }
            self.free(var, vm);
            proof {
                let prev = last.take(i as int);
                let next = last.take(i + 1);
                assert(next =~= prev.push(var));
                assert forall|k: usize|
                    scope_names(next).contains(k) <==> scope_names(prev).contains(k) || k
                        == var.0 by {
                    if scope_names(prev).contains(k) {
                        let j = choose|j: int| 0 <= j < prev.len() && (#[trigger] prev[j]).0 == k;
                        assert(next[j].0 == k);
                    }
                    if k == var.0 {
                        assert(next[i as int].0 == k);
                    }
                    if scope_names(next).contains(k) {
                        let j = choose|j: int| 0 <= j < next.len() && (#[trigger] next[j]).0 == k;
                        if j < i {
                            assert(prev[j].0 == k);
                        }
                    }
                }
                assert(self.vars() =~= old(self).vars().remove_keys(scope_names(next)));
                assert(before.vars()[var.0] == old(self).vars()[var.0]);
                assert forall|b: int| #[trigger]
                    covers(self.free_list(), b) <==> covers(old(self).free_list(), b)
                        || scope_holds(old(self).vars(), next, vm, b) by {
                    assert(covers(self.free_list(), b) <==> covers(before.free_list(), b)
                        || before.vars()[var.0].holds(vm, b));
                    if scope_holds(old(self).vars(), prev, vm, b) {
                        let j = choose|j: int|
                            0 <= j < prev.len() && old(self).vars()[(#[trigger] prev[j]).0].holds(
                                vm,
                                b,
                            );
                        assert(old(self).vars()[next[j].0].holds(vm, b));
                    }
                    if old(self).vars()[var.0].holds(vm, b) {
                        assert(old(self).vars()[next[i as int].0].holds(vm, b));
                    }
                    if scope_holds(old(self).vars(), next, vm, b) {
                        let j = choose|j: int|
                            0 <= j < next.len() && old(self).vars()[(#[trigger] next[j]).0].holds(
                                vm,
                                b,
                            );
                        if j < i {
                            assert(old(self).vars()[prev[j].0].holds(vm, b));
                        }
                    }
                }
            }
            i += 1;
        }
        proof {
            assert(last.take(n as int) =~= last);
        }
    }

    /// The displacements that the collector has to visit at this point: of
    /// every live, written piece of storage that holds a reference its own
    /// displacement, and of every one that holds a tuple the displacement of
    /// each reference inside the tuple.
    pub fn gcpoint(&self, vm: &VM) -> (point: GcPoint)
        requires
            self.wf(vm),
            vm.wf(),
        ensures
            point@ == self.roots(vm),
    {
        let mut offsets: Vec<i32> = Vec::new();
        let ghost all = spec_hash_map_iter(&self.vars).remaining();

        for item in it: self.vars.iter()
            invariant
                self.wf(vm),
                vm.wf(),
                it.seq() == all,
                all == spec_hash_map_iter(&self.vars).remaining(),
                offsets_set(offsets@) == roots_upto(all, it.index(), vm),
        {
            let data = item.1;
            let ghost idx = it.index();
            let ghost before = offsets@;
            proof {
                assert(all[idx] == item);
                assert(self.vars@.contains_key(*all[idx].0) && self.vars@[*all[idx].0] == *all[idx].1);
                assert(self.vars().contains_key(*item.0));
            }
            if data.initialized {
                if data.ty.reference_type() {
                    offsets.push(data.offset);
                    proof {
                        lemma_offsets_push(before, data.offset);
                        assert(data.roots(vm) =~= set![data.offset as int]);
                    }
                } else if let Some(tuple_id) = data.ty.tuple_id() {
                    let tuple_references = vm.get_tuple(tuple_id).references();
                    let n = tuple_references.len();
                    let mut j: usize = 0;
                    proof {
                        assert(vm.tuples@[tuple_id.0 as int].wf());
                        assert(tuple_roots(data.offset as int, tuple_references@, 0) =~= Set::<
                            int,
                        >::empty());
                    }
                    while j < n
                        invariant
                            j <= n,
                            n == tuple_references@.len(),
                            data.offset < 0,
                            data.offset + slot_size(data.ty, vm) <= 0,
                            i32::MIN <= data.offset,
                            forall|i: int|
                                0 <= i < tuple_references@.len() ==> 0 <= (
                                #[trigger] tuple_references@[i]) < slot_size(data.ty, vm),
                            offsets_set(offsets@) == offsets_set(before).union(
                                tuple_roots(data.offset as int, tuple_references@, j as int),
                            ),
                        decreases n - j,
                    {
                        let offset = tuple_references[j];
                        let ghost prev = offsets@;
                        offsets.push(data.offset + offset);
                        proof {
                            lemma_offsets_push(prev, (data.offset + offset) as i32);
                            assert(tuple_roots(data.offset as int, tuple_references@, j + 1)
                                =~= tuple_roots(data.offset as int, tuple_references@, j as int).insert(
                                data.offset + offset,
                            ));
                        }
                        j += 1;
                    }
                }
            }
            proof {
                assert forall|o: int|
                    roots_upto(all, idx + 1, vm).contains(o) <==> roots_upto(all, idx, vm).contains(
                        o,
                    ) || data.roots(vm).contains(o) by {
                    if roots_upto(all, idx, vm).contains(o) {
                        let i = choose|i: int|
                            0 <= i < idx && (#[trigger] all[i]).1.roots(vm).contains(o);
                        assert(all[i].1.roots(vm).contains(o));
                    }
                    if data.roots(vm).contains(o) {
                        assert(all[idx].1.roots(vm).contains(o));
                    }
                }
                assert(offsets_set(offsets@) =~= roots_upto(all, idx + 1, vm));
            }
        }
        proof {
            assert forall|o: int| roots_upto(all, all.len() as int, vm).contains(o)
                <==> self.roots(vm).contains(o) by {
                if roots_upto(all, all.len() as int, vm).contains(o) {
                    let i = choose|i: int|
                        0 <= i < all.len() && (#[trigger] all[i]).1.roots(vm).contains(o);
                    assert(self.vars@.contains_key(*all[i].0) && self.vars@[*all[i].0] == *all[i].1);
                    assert(self.vars()[*all[i].0].roots(vm).contains(o));
                }
                if self.roots(vm).contains(o) {
                    let k = choose|k: usize|
                        self.vars().contains_key(k) && (#[trigger] self.vars()[k]).roots(
                            vm,
                        ).contains(o);
                    assert(all.contains((&k, &self.vars@[k])));
                    let i = choose|i: int| 0 <= i < all.len() && all[i] == (&k, &self.vars@[k]);
                    assert(all[i].1.roots(vm).contains(o));
                }
            }
            assert(offsets_set(offsets@) =~= self.roots(vm));
        }
        GcPoint::from_offsets(offsets)
    }

    /// The size of the frame as prologue and epilogue need it: rounded up to
    /// the alignment of stack frames.
    pub fn stacksize(&self) -> (r: i32)
        requires
            0 <= self.raw_stacksize(),
            align_up(self.raw_stacksize(), spec_stack_frame_alignment()) <= i32::MAX,
        ensures
            r == align_up(self.raw_stacksize(), spec_stack_frame_alignment()),
    {
        align_i32(self.stacksize, stack_frame_alignment())
    }
}

/// What an allocation of storage for `ty` does to where the frame ends and
/// to its free list, and at which displacement the storage lies: in the free
/// span that fits best, and behind the rounded end of the frame where none
/// fits.
pub open spec fn placed(
    before: &ManagedStackFrame,
    after: &ManagedStackFrame,
    ty: BuiltinType,
    vm: &VM,
    offset: i32,
) -> bool {
    let size = slot_size(ty, vm);
    let align = slot_align(ty, vm);
    &&& after.raw_stacksize() >= before.raw_stacksize()
    &&& if no_fit(before.free_list(), size, align) {
        &&& after.free_list() == before.free_list()
        &&& after.raw_stacksize() == align_up(before.raw_stacksize(), align) + size
        &&& offset == -after.raw_stacksize()
    } else {
        &&& after.raw_stacksize() == before.raw_stacksize()
        &&& exists|idx: int|
            {
                &&& best_fit(before.free_list(), size, align, idx)
                &&& offset == -(align_up((#[trigger] before.free_list()[idx]).start as int, align)
                    + size)
            }
        &&& forall|b: int| #[trigger]
            covers(after.free_list(), b) <==> covers(before.free_list(), b) && !(-(offset + size)
                <= b < -offset)
    }
}

/// The names that a scope owns.
pub open spec fn scope_names(scope: Seq<ManagedVar>) -> Set<usize> {
    Set::new(|k: usize| exists|i: int| 0 <= i < scope.len() && (#[trigger] scope[i]).0 == k)
}

/// Whether the storage of some name of the scope holds `byte`.
pub open spec fn scope_holds(
    vars: Map<usize, ManagedVarData>,
    scope: Seq<ManagedVar>,
    vm: &VM,
    byte: int,
) -> bool {
    exists|i: int| 0 <= i < scope.len() && vars[(#[trigger] scope[i]).0].holds(vm, byte)
}

/// What freeing `var` does: its name is no longer live, and the bytes of its
/// storage are free.
pub open spec fn freed(
    before: &ManagedStackFrame,
    after: &ManagedStackFrame,
    var: ManagedVar,
    vm: &VM,
) -> bool {
    &&& after.vars() == before.vars().remove(var.0)
    &&& after.scopes() == before.scopes()
    &&& after.next_var() == before.next_var()
    &&& after.raw_stacksize() == before.raw_stacksize()
    &&& forall|b: int| #[trigger]
        covers(after.free_list(), b) <==> covers(before.free_list(), b) || before.vars()[var.0].holds(
            vm,
            b,
        )
}

proof fn lemma_offsets_push(offsets: Seq<i32>, offset: i32)
    ensures
        offsets_set(offsets.push(offset)) == offsets_set(offsets).insert(offset as int),
{
    let pushed = offsets.push(offset);
    assert forall|o: int| offsets_set(pushed).contains(o) <==> offsets_set(offsets).insert(
        offset as int,
    ).contains(o) by {
        if offsets_set(offsets).contains(o) {
            let i = choose|i: int| 0 <= i < offsets.len() && #[trigger] offsets[i] == o;
            assert(pushed[i] == o);
        }
        if o == offset {
            assert(pushed[offsets.len() as int] == o);
        }
    }
    assert(offsets_set(pushed) =~= offsets_set(offsets).insert(offset as int));
}

/// In a consistent frame no byte belongs to two pieces of live storage, and
/// no byte of live storage is free.
pub proof fn lemma_storage_apart(frame: &ManagedStackFrame, vm: &VM, k1: usize, k2: usize, b: int)
    requires
        frame.wf(vm),
        frame.vars().contains_key(k1),
        frame.vars().contains_key(k2),
        k1 != k2,
    ensures
        !(frame.vars()[k1].holds(vm, b) && frame.vars()[k2].holds(vm, b)),
        frame.vars()[k1].holds(vm, b) ==> !covers(frame.free_list(), b),
{
}

/// Storage that was taken from the free list and is freed again leaves the
/// free list and the size of the frame as they were.
pub proof fn lemma_storage_round_trip(
    before: &ManagedStackFrame,
    between: &ManagedStackFrame,
    after: &ManagedStackFrame,
    ty: BuiltinType,
    vm: &VM,
    slot: ManagedStackSlot,
    initialized: bool,
)
    requires
        before.wf(vm),
        after.wf(vm),
        allocatable(ty, vm),
        !no_fit(before.free_list(), slot_size(ty, vm), slot_align(ty, vm)),
        placed(before, between, ty, vm, slot.offset),
        between.vars() == before.vars().insert(
            slot.var.0,
            ManagedVarData { ty, offset: slot.offset, initialized },
        ),
        freed(between, after, slot.var, vm),
    ensures
        after.free_list() == before.free_list(),
        after.raw_stacksize() == before.raw_stacksize(),
{
    let size = slot_size(ty, vm);
    let align = slot_align(ty, vm);
    let list = before.free_list();
    let data = ManagedVarData { ty, offset: slot.offset, initialized };
    let idx = choose|idx: int|
        {
            &&& best_fit(list, size, align, idx)
            &&& slot.offset == -(align_up((#[trigger] list[idx]).start as int, align) + size)
        };
    lemma_align_up(list[idx].start as int, align);
    assert forall|b: int| covers(after.free_list(), b) <==> covers(list, b) by {
        assert(covers(after.free_list(), b) <==> covers(between.free_list(), b) || data.holds(
            vm,
            b,
        ));
        assert(covers(between.free_list(), b) <==> covers(list, b) && !data.holds(vm, b));
        if data.holds(vm, b) {
            assert(list[idx].contains(b));
        }
    }
    assert(free_bytes(after.free_list()) =~= free_bytes(list));
    crate::free_slots::lemma_slots_unique(after.free_list(), list);
}

/// Storage that lies in free bytes, or behind the end of the frame, shares
/// no byte with live storage.
proof fn lemma_apart_from_live(frame: &ManagedStackFrame, vm: &VM, data: ManagedVarData, k: usize)
    requires
        frame.wf(vm),
        frame.vars().contains_key(k),
        data.span_start(vm) < data.span_end(vm),
        (forall|b: int| data.holds(vm, b) ==> covers(frame.free_list(), b))
            || frame.raw_stacksize() <= data.span_start(vm),
    ensures
        data.span_end(vm) <= frame.vars()[k].span_start(vm) || frame.vars()[k].span_end(vm)
            <= data.span_start(vm),
{
    let other = frame.vars()[k];
    if !(data.span_end(vm) <= other.span_start(vm) || other.span_end(vm) <= data.span_start(vm)) {
        let x = if data.span_start(vm) >= other.span_start(vm) {
            data.span_start(vm)
        } else {
            other.span_start(vm)
        };
        assert(data.holds(vm, x));
        assert(other.holds(vm, x));
    }
}

} // verus!
