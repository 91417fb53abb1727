//! The free list of a stack frame: the spans of the frame that are currently
//! unused, kept sorted and coalesced, with best-fit allocation.

use vstd::prelude::*;

verus! {

/// The smallest multiple of `alignment` that is not below `value`
/// (`value` itself when `alignment` is zero).
pub open spec fn align_up(value: int, alignment: int) -> int {
    if alignment == 0 {
        value
    } else {
        ((value + alignment - 1) / alignment) * alignment
    }
}

/// The distance from `value` up to the next multiple of `alignment`.
pub open spec fn padding(value: int, alignment: int) -> int {
    if alignment == 0 || value % alignment == 0 {
        0
    } else {
        alignment - value % alignment
    }
}

/// Rounding up adds exactly the padding, which is smaller than the alignment.
pub proof fn lemma_align_up(value: int, alignment: int)
    requires
        0 <= value,
        0 < alignment,
    ensures
        align_up(value, alignment) == value + padding(value, alignment),
        0 <= padding(value, alignment) < alignment,
        align_up(value, alignment) % alignment == 0,
        padding(value, alignment) == 0 <==> value % alignment == 0,
{
    let q = value / alignment;
    let r = value % alignment;
    vstd::arithmetic::div_mod::lemma_fundamental_div_mod(value, alignment);
    assert(value == alignment * q + r);
    if r == 0 {
        vstd::arithmetic::div_mod::lemma_fundamental_div_mod_converse(
            value + alignment - 1,
            alignment,
            q,
            alignment - 1,
        );
        assert(q * alignment == alignment * q) by (nonlinear_arith);
        vstd::arithmetic::div_mod::lemma_mod_multiples_basic(q, alignment);
    } else {
        assert(alignment * (q + 1) == alignment * q + alignment) by (nonlinear_arith);
        vstd::arithmetic::div_mod::lemma_fundamental_div_mod_converse(
            value + alignment - 1,
            alignment,
            q + 1,
            r - 1,
        );
        assert((q + 1) * alignment == alignment * (q + 1)) by (nonlinear_arith);
        vstd::arithmetic::div_mod::lemma_mod_multiples_basic(q + 1, alignment);
    }
}

/// Whether `value` is a multiple of `size`.
pub fn is_aligned(value: u32, size: u32) -> (r: bool)
    requires
        size > 0,
    ensures
        r == (value as int % size as int == 0),
{
    value % size == 0
}

/// Rounds `value` up to the next multiple of `alignment`.
pub fn align(value: u32, alignment: u32) -> (r: u32)
    requires
        alignment > 0,
        align_up(value as int, alignment as int) <= u32::MAX,
    ensures
        r == align_up(value as int, alignment as int),
{
    proof {
        lemma_align_up(value as int, alignment as int);
    }
    let rem: u32 = value % alignment;
    if rem == 0 {
        value
    } else {
        value + (alignment - rem)
    }
}

/// One unused span of the frame, in bytes counted from the frame's low end.
#[derive(Copy, Clone, PartialEq, Eq, Debug)]
pub struct FreeSlot {
    pub start: u32,
    pub size: u32,
}

impl FreeSlot {
    /// One past the last byte of the span.
    pub open spec fn spec_end(self) -> int {
        self.start + self.size
    }

    /// The span is not empty and its end is itself a `u32`.
    pub open spec fn wf(self) -> bool {
        self.size > 0 && self.start + self.size <= u32::MAX
    }

    pub open spec fn contains(self, byte: int) -> bool {
        self.start <= byte < self.spec_end()
    }

    /// The bytes of the span.
    pub open spec fn bytes(self) -> Set<int> {
        Set::new(|byte: int| self.contains(byte))
    }

    /// Whether a value of `size` bytes fits once the start of the span is
    /// rounded up to `alignment`.
    pub open spec fn fits(self, size: int, alignment: int) -> bool {
        align_up(self.start as int, alignment) + size <= self.spec_end()
    }

    pub fn new(start: u32, size: u32) -> (slot: FreeSlot)
        ensures
            slot == (FreeSlot { start, size }),
    {
        FreeSlot { start, size }
    }

    pub fn start(self) -> (r: u32)
        ensures
            r == self.start,
    {
        self.start
    }

    pub fn end(self) -> (r: u32)
        requires
            self.start + self.size <= u32::MAX,
        ensures
            r == self.spec_end(),
    {
        self.start + self.size
    }

    pub fn size(self) -> (r: u32)
        ensures
            r == self.size,
    {
        self.size
    }
}

/// A list of spans is well formed when every span is, and each one ends
/// strictly before the next begins: sorted, disjoint and never adjacent.
pub open spec fn slots_wf(s: Seq<FreeSlot>) -> bool {
    &&& forall|i: int| 0 <= i < s.len() ==> (#[trigger] s[i]).wf()
    &&& forall|i: int, j: int| 0 <= i < j < s.len() ==> (#[trigger] s[i]).spec_end() < (#[trigger] s[j]).start
}

/// Whether some span of the list holds `byte`.
pub open spec fn covers(s: Seq<FreeSlot>, byte: int) -> bool {
    exists|i: int| 0 <= i < s.len() && (#[trigger] s[i]).contains(byte)
}

/// The bytes that the list holds as free.
pub open spec fn free_bytes(s: Seq<FreeSlot>) -> Set<int> {
    Set::new(|byte: int| covers(s, byte))
}

/// No span of the list fits the request.
pub open spec fn no_fit(s: Seq<FreeSlot>, size: int, alignment: int) -> bool {
    forall|i: int| 0 <= i < s.len() ==> !(#[trigger] s[i]).fits(size, alignment)
}

/// `idx` is the best fit for the request: the span at `idx` fits, no span
/// that fits is smaller, and every span before it that fits is larger. The
/// bytes wasted by a span (padding before the value plus what is left behind
/// it) are its size less the requested size, so the smallest span wastes
/// least.
pub open spec fn best_fit(s: Seq<FreeSlot>, size: int, alignment: int, idx: int) -> bool {
    &&& 0 <= idx < s.len()
    &&& s[idx].fits(size, alignment)
    &&& forall|j: int|
        0 <= j < s.len() && (#[trigger] s[j]).fits(size, alignment) ==> s[idx].size <= s[j].size
    &&& forall|j: int|
        0 <= j < idx && (#[trigger] s[j]).fits(size, alignment) ==> s[idx].size < s[j].size
}

proof fn lemma_bytes_insert(s: Seq<FreeSlot>, idx: int, slot: FreeSlot)
    requires
        0 <= idx <= s.len(),
    ensures
        free_bytes(s.insert(idx, slot)) == free_bytes(s).union(slot.bytes()),
{
    let t = s.insert(idx, slot);
    assert forall|b: int| free_bytes(t).contains(b) <==> free_bytes(s).union(
        slot.bytes(),
    ).contains(b) by {
        if covers(t, b) {
            let i = choose|i: int| 0 <= i < t.len() && (#[trigger] t[i]).contains(b);
            if i < idx {
                assert(s[i].contains(b));
            } else if i > idx {
                assert(s[i - 1].contains(b));
            }
        }
        if covers(s, b) {
            let i = choose|i: int| 0 <= i < s.len() && (#[trigger] s[i]).contains(b);
            if i < idx {
                assert(t[i].contains(b));
            } else {
                assert(t[i + 1].contains(b));
            }
        }
        if slot.contains(b) {
            assert(t[idx].contains(b));
        }
    }
    assert(free_bytes(t) =~= free_bytes(s).union(slot.bytes()));
}

proof fn lemma_bytes_remove(s: Seq<FreeSlot>, idx: int)
    requires
        slots_wf(s),
        0 <= idx < s.len(),
    ensures
        slots_wf(s.remove(idx)),
        free_bytes(s.remove(idx)) == free_bytes(s).difference(s[idx].bytes()),
{
    let t = s.remove(idx);
    assert forall|b: int| free_bytes(t).contains(b) <==> free_bytes(s).difference(
        s[idx].bytes(),
    ).contains(b) by {
        if covers(t, b) {
            let i = choose|i: int| 0 <= i < t.len() && (#[trigger] t[i]).contains(b);
            if i < idx {
                assert(s[i].contains(b));
                assert(s[i].spec_end() < s[idx].start);
            } else {
                assert(s[i + 1].contains(b));
                assert(s[idx].spec_end() < s[i + 1].start);
            }
        }
        if covers(s, b) && !s[idx].contains(b) {
            let i = choose|i: int| 0 <= i < s.len() && (#[trigger] s[i]).contains(b);
            if i < idx {
                assert(t[i].contains(b));
            } else {
                assert(t[i - 1].contains(b));
            }
        }
    }
    assert(free_bytes(t) =~= free_bytes(s).difference(s[idx].bytes()));
    assert forall|i: int, j: int| 0 <= i < j < t.len() implies (#[trigger] t[i]).spec_end() < (
    #[trigger] t[j]).start by {
        let i0 = if i < idx { i } else { i + 1 };
        let j0 = if j < idx { j } else { j + 1 };
        assert(s[i0].spec_end() < s[j0].start);
    }
}

/// A well-formed list is determined by the bytes it holds: the sorted,
/// coalesced form of a set of free bytes is unique.
pub proof fn lemma_slots_unique(a: Seq<FreeSlot>, b: Seq<FreeSlot>)
    requires
        slots_wf(a),
        slots_wf(b),
        free_bytes(a) == free_bytes(b),
    ensures
        a == b,
    decreases a.len(),
{
    if a.len() == 0 {
        if b.len() > 0 {
            assert(b[0].contains(b[0].start as int));
            assert(free_bytes(b).contains(b[0].start as int));
            assert(covers(a, b[0].start as int));
        }
        assert(a =~= b);
    } else if b.len() == 0 {
        assert(a[0].contains(a[0].start as int));
        assert(free_bytes(a).contains(a[0].start as int));
        assert(covers(b, a[0].start as int));
    } else {
        lemma_first_slot(a, b);
        lemma_first_slot(b, a);
        assert(a[0] == b[0]);
        lemma_bytes_remove(a, 0);
        lemma_bytes_remove(b, 0);
        lemma_slots_unique(a.remove(0), b.remove(0));
        assert(a =~= seq![a[0]] + a.remove(0));
        assert(b =~= seq![b[0]] + b.remove(0));
    }
}

proof fn lemma_first_slot(a: Seq<FreeSlot>, b: Seq<FreeSlot>)
    requires
        slots_wf(a),
        slots_wf(b),
        free_bytes(a) == free_bytes(b),
        a.len() > 0,
        b.len() > 0,
    ensures
        b[0].start <= a[0].start,
        a[0].start == b[0].start ==> b[0].spec_end() <= a[0].spec_end(),
{
    let x = a[0].start as int;
    assert(a[0].contains(x));
    assert(free_bytes(a).contains(x));
    assert(covers(b, x));
    let j = choose|j: int| 0 <= j < b.len() && (#[trigger] b[j]).contains(x);
    if j > 0 {
        assert(b[0].spec_end() < b[j].start);
    }
    if a[0].start == b[0].start && a[0].spec_end() < b[0].spec_end() {
        let e = a[0].spec_end();
        assert(b[0].contains(e));
        assert(free_bytes(b).contains(e));
        assert(covers(a, e));
        let i = choose|i: int| 0 <= i < a.len() && (#[trigger] a[i]).contains(e);
        if i > 0 {
            assert(a[0].spec_end() < a[i].start);
        }
    }
}

/// A span that shares no byte with the list lies wholly before or wholly
/// behind each of its spans.
proof fn lemma_apart(s: Seq<FreeSlot>, slot: FreeSlot, i: int)
    requires
        slots_wf(s),
        slot.wf(),
        free_bytes(s).disjoint(slot.bytes()),
        0 <= i < s.len(),
    ensures
        slot.spec_end() <= s[i].start || s[i].spec_end() <= slot.start,
{
    let x = if slot.start >= s[i].start { slot.start as int } else { s[i].start as int };
    if !(slot.spec_end() <= s[i].start || s[i].spec_end() <= slot.start) {
        assert(s[i].contains(x));
        assert(covers(s, x));
        assert(free_bytes(s).contains(x));
        assert(slot.bytes().contains(x));
    }
}

/// The free list of one frame.
pub struct FreeSlots {
    slots: Vec<FreeSlot>,
}

impl View for FreeSlots {
    type V = Seq<FreeSlot>;

    /// The spans of the list, lowest first.
    closed spec fn view(&self) -> Seq<FreeSlot> {
        self.slots@
    }
}

impl FreeSlots {
    /// The list is sorted, and no two of its spans overlap or touch.
    pub open spec fn wf(&self) -> bool {
        slots_wf(self@)
    }

    /// The bytes that are free.
    pub open spec fn bytes(&self) -> Set<int> {
        free_bytes(self@)
    }

    pub fn new() -> (list: FreeSlots)
        ensures
            list@ == Seq::<FreeSlot>::empty(),
            list.wf(),
    {
        FreeSlots { slots: Vec::new() }
    }

    /// The spans of the list, lowest first.
    pub fn slots(&self) -> (r: &Vec<FreeSlot>)
        ensures
            r@ == self@,
    {
        &self.slots
    }

    /// Returns the span `new` to the list, merging it with the span that ends
    /// where it begins and with the span that begins where it ends.
    pub fn free(&mut self, new: FreeSlot)
        requires
            old(self).wf(),
            new.wf(),
            old(self).bytes().disjoint(new.bytes()),
        ensures
            final(self).wf(),
            final(self).bytes() == old(self).bytes().union(new.bytes()),
    {
        let slots = self.slots.len();
        let ghost s = self.slots@;
        let mut idx: usize = 0;
        while idx < slots
            invariant
                idx <= slots,
                slots == s.len(),
                self.slots@ == s,
                old(self)@ == s,
                slots_wf(s),
                new.wf(),
                free_bytes(s).disjoint(new.bytes()),
                forall|j: int| 0 <= j < idx ==> (#[trigger] s[j]).spec_end() < new.start,
            decreases slots - idx,
        {
            let slot = self.slots[idx];
            proof {
                lemma_apart(s, new, idx as int);
                if idx + 1 < slots {
                    lemma_apart(s, new, idx + 1);
                    assert(s[idx as int].spec_end() < s[idx + 1].start);
                }
            }
            if new.end() < slot.start() {
                self.slots.insert(idx, new);
                proof {
                    lemma_bytes_insert(s, idx as int, new);
                    let t = self.slots@;
                    assert forall|i: int, j: int| 0 <= i < j < t.len() implies (#[trigger] t[i]).spec_end()
                        < (#[trigger] t[j]).start by {
                        if j < idx {
                            assert(s[i].spec_end() < s[j].start);
                        } else if j == idx {
                            assert(s[i].spec_end() < new.start);
                        } else if i < idx {
                            assert(s[i].spec_end() < s[j - 1].start);
                        } else if i == idx {
                            if j - 1 > idx {
                                assert(s[idx as int].spec_end() < s[j - 1].start);
                            }
                        } else {
                            assert(s[i - 1].spec_end() < s[j - 1].start);
                        }
                    }
                }
                return ;
            } else if new.end() == slot.start() {
                let merged = FreeSlot::new(new.start(), new.size() + slot.size());
                self.slots[idx] = merged;
                proof {
                    lemma_replace(s, idx as int, merged);
                    assert(merged.bytes() =~= s[idx as int].bytes().union(new.bytes()));
                    assert(s[idx as int].bytes().subset_of(free_bytes(s))) by {
                        assert forall|b: int| s[idx as int].contains(b) implies covers(s, b) by {}
                    }
                    assert(free_bytes(s).difference(s[idx as int].bytes()).union(merged.bytes())
                        =~= free_bytes(s).union(new.bytes()));
                }
                return ;
            } else if slot.end() == new.start() {
                if idx + 1 < slots && self.slots[idx + 1].start() == new.end() {
                    let left = slot;
                    let right = self.slots[idx + 1];
                    self.slots.remove(idx);
                    let size = right.end() - left.start();
                    let merged = FreeSlot::new(left.start(), size);
                    self.slots[idx] = merged;
                    proof {
                        let r = s.remove(idx as int);
                        lemma_bytes_remove(s, idx as int);
                        assert(r[idx as int] == s[idx + 1]);
                        assert forall|j: int| idx < j < r.len() implies merged.spec_end() < (
                        #[trigger] r[j]).start by {
                            assert(r[idx as int].spec_end() < r[j].start);
                        }
                        assert forall|j: int| 0 <= j < idx implies (#[trigger] r[j]).spec_end()
                            < merged.start by {
                            assert(r[j] == s[j]);
                            assert(s[j].spec_end() < s[idx as int].start);
                        }
                        lemma_replace(r, idx as int, merged);
                        assert(merged.bytes() =~= left.bytes().union(new.bytes()).union(
                            right.bytes(),
                        ));
                        assert(left.bytes().subset_of(free_bytes(s))) by {
                            assert forall|b: int| s[idx as int].contains(b) implies covers(
                                s,
                                b,
                            ) by {}
                        }
                        assert(right.bytes().subset_of(free_bytes(s))) by {
                            assert forall|b: int| s[idx + 1].contains(b) implies covers(s, b) by {}
                        }
                        assert(free_bytes(s).difference(left.bytes()).difference(
                            right.bytes(),
                        ).union(merged.bytes()) =~= free_bytes(s).union(new.bytes()));
                    }
                } else {
                    let merged = FreeSlot::new(slot.start(), slot.size() + new.size());
                    self.slots[idx] = merged;
                    proof {
                        assert forall|j: int| idx < j < s.len() implies merged.spec_end() < (
                        #[trigger] s[j]).start by {
                            if j > idx + 1 {
                                assert(s[idx + 1].spec_end() < s[j].start);
                            }
                        }
                        lemma_replace(s, idx as int, merged);
                        assert(merged.bytes() =~= s[idx as int].bytes().union(new.bytes()));
                        assert(s[idx as int].bytes().subset_of(free_bytes(s))) by {
                            assert forall|b: int| s[idx as int].contains(b) implies covers(
                                s,
                                b,
                            ) by {}
                        }
                        assert(free_bytes(s).difference(s[idx as int].bytes()).union(
                            merged.bytes(),
                        ) =~= free_bytes(s).union(new.bytes()));
                    }
                }
                return ;
            }
            idx += 1;
        }
        self.slots.push(new);
        proof {
            assert(self.slots@ =~= s.insert(s.len() as int, new));
            lemma_bytes_insert(s, s.len() as int, new);
        }
    }

    /// Takes `size` bytes, aligned to `alignment`, out of the span that fits
    /// best, and returns where they start. What is left of that span before
    /// and behind the bytes stays in the list. Returns `None`, and changes
    /// nothing, when no span fits.
    pub fn allocate(&mut self, size: u32, alignment: u32) -> (result: Option<u32>)
        requires
            old(self).wf(),
            size > 0,
            alignment > 0,
        ensures
            final(self).wf(),
            match result {
                None => no_fit(old(self)@, size as int, alignment as int) && final(self)@ == old(
                    self,
                )@,
                Some(start) => exists|idx: int|
                    {
                        &&& best_fit(old(self)@, size as int, alignment as int, idx)
                        &&& start == align_up(
                            (#[trigger] old(self)@[idx]).start as int,
                            alignment as int,
                        )
                        &&& start + size <= old(self)@[idx].spec_end()
                    },
            },
            result matches Some(start) ==> {
                &&& (FreeSlot { start, size }).bytes().subset_of(old(self).bytes())
                &&& final(self).bytes() == old(self).bytes().difference(
                    (FreeSlot { start, size }).bytes(),
                )
            },
    {
        let mut result: Option<usize> = None;
        let mut best: u32 = 0;
        let slots = self.slots.len();
        let ghost s = self.slots@;
        let mut idx: usize = 0;
        while idx < slots
            invariant
                idx <= slots,
                slots == s.len(),
                self.slots@ == s,
                old(self)@ == s,
                slots_wf(s),
                size > 0,
                alignment > 0,
                result is None ==> forall|j: int|
                    0 <= j < idx ==> !(#[trigger] s[j]).fits(size as int, alignment as int),
                result matches Some(r) ==> {
                    &&& r < idx
                    &&& s[r as int].fits(size as int, alignment as int)
                    &&& s[r as int].size == best
                    &&& best > size
                    &&& forall|j: int|
                        0 <= j < idx && (#[trigger] s[j]).fits(size as int, alignment as int)
                            ==> best <= s[j].size
                    &&& forall|j: int|
                        0 <= j < r && (#[trigger] s[j]).fits(size as int, alignment as int)
                            ==> best < s[j].size
                },
            decreases slots - idx,
        {
            let slot = self.slots[idx];
            proof {
                lemma_align_up(slot.start as int, alignment as int);
            }
            if slot.size() >= size {
                let rem: u32 = slot.start() % alignment;
                let gap_left: u32 = if rem == 0 {
                    0
                } else {
                    alignment - rem
                };
                if slot.size() == size {
                    if gap_left == 0 {
                        self.slots.remove(idx);
                        proof {
                            lemma_bytes_remove(s, idx as int);
                            assert(s[idx as int].bytes() =~= (FreeSlot {
                                start: slot.start,
                                size,
                            }).bytes());
                            assert(s[idx as int].bytes().subset_of(free_bytes(s))) by {
                                assert forall|b: int| s[idx as int].contains(b) implies covers(
                                    s,
                                    b,
                                ) by {}
                            }
                            assert forall|j: int|
                                0 <= j < s.len() && (#[trigger] s[j]).fits(
                                    size as int,
                                    alignment as int,
                                ) implies s[idx as int].size <= s[j].size by {
                                lemma_align_up(s[j].start as int, alignment as int);
                            }
                            assert(best_fit(s, size as int, alignment as int, idx as int));
                        }
                        return Some(slot.start());
                    }
                } else if gap_left <= slot.size() - size {
                    let better = match result {
                        None => true,
                        Some(_) => slot.size() < best,
                    };
                    if better {
                        best = slot.size();
                        result = Some(idx);
                    }
                }
            }
            idx += 1;
        }
        match result {
            Some(at) => {
                let slot = self.slots[at];
                proof {
                    lemma_align_up(slot.start as int, alignment as int);
                    lemma_bytes_remove(s, at as int);
                }
                self.slots.remove(at);
                let rem: u32 = slot.start() % alignment;
                let gap_left: u32 = if rem == 0 {
                    0
                } else {
                    alignment - rem
                };
                let start: u32 = slot.start() + gap_left;
                let gap_right: u32 = slot.end() - (start + size);
                let ghost taken = FreeSlot { start, size };
                let ghost removed = s.remove(at as int);
                let mut at: usize = at;
                proof {
                    assert forall|j: int| 0 <= j < removed.len() implies (j < at ==> (
                    #[trigger] removed[j]).spec_end() < slot.start) && (j >= at
                        ==> slot.spec_end() < removed[j].start) by {
                        if j < at {
                            assert(s[j].spec_end() < s[at as int].start);
                        } else {
                            assert(s[at as int].spec_end() < s[j + 1].start);
                        }
                    }
                }
                if gap_left > 0 {
                    let left = FreeSlot::new(slot.start(), gap_left);
                    self.slots.insert(at, left);
                    proof {
                        lemma_insert_between(removed, at as int, left);
                    }
                    at += 1;
                }
                let ghost middle = self.slots@;
                if gap_right > 0 {
                    let right = FreeSlot::new(slot.end() - gap_right, gap_right);
                    proof {
                        assert forall|j: int| 0 <= j < at implies (#[trigger] middle[j]).spec_end()
                            < right.start by {
                            if gap_left > 0 && j == at - 1 {
                            } else {
                                assert(middle[j] == removed[j]);
                            }
                        }
                        assert forall|j: int| at <= j < middle.len() implies right.spec_end() < (
                        #[trigger] middle[j]).start by {
                            if gap_left > 0 {
                                assert(middle[j] == removed[j - 1]);
                            } else {
                                assert(middle[j] == removed[j]);
                            }
                        }
                    }
                    self.slots.insert(at, right);
                    proof {
                        lemma_insert_between(middle, at as int, right);
                    }
                }
                proof {
                    let left = FreeSlot { start: slot.start, size: gap_left };
                    let right = FreeSlot { start: (start + size) as u32, size: gap_right };
                    assert(slot.bytes().subset_of(free_bytes(s))) by {
                        assert forall|b: int| slot.contains(b) implies covers(s, b) by {
                            assert(slot == s[result.unwrap() as int]);
                            assert(s[result.unwrap() as int].contains(b));
                        }
                    }
                    assert(slot.bytes() =~= left.bytes().union(taken.bytes()).union(right.bytes()));
                    assert(left.bytes().disjoint(taken.bytes()));
                    assert(right.bytes().disjoint(taken.bytes()));
                    assert(free_bytes(self.slots@) =~= free_bytes(s).difference(taken.bytes()));
                    assert(best_fit(s, size as int, alignment as int, result.unwrap() as int));
                }
                Some(start)
            },
            None => None,
        }
    }
}

/// Putting a span between the spans that end before it and those that begin
/// behind it keeps the list well formed and adds the span's bytes.
proof fn lemma_insert_between(s: Seq<FreeSlot>, idx: int, slot: FreeSlot)
    requires
        slots_wf(s),
        0 <= idx <= s.len(),
        slot.wf(),
        forall|j: int| 0 <= j < idx ==> (#[trigger] s[j]).spec_end() < slot.start,
        forall|j: int| idx <= j < s.len() ==> slot.spec_end() < (#[trigger] s[j]).start,
    ensures
        slots_wf(s.insert(idx, slot)),
        free_bytes(s.insert(idx, slot)) == free_bytes(s).union(slot.bytes()),
{
    let t = s.insert(idx, slot);
    lemma_bytes_insert(s, idx, slot);
    assert forall|i: int, j: int| 0 <= i < j < t.len() implies (#[trigger] t[i]).spec_end() < (
    #[trigger] t[j]).start by {
        let i0 = if i < idx { i } else { i - 1 };
        let j0 = if j < idx { j } else { j - 1 };
        if i != idx && j != idx {
            assert(s[i0].spec_end() < s[j0].start);
        }
    }
}

/// Replacing one span of a well-formed list by a span that keeps clear of its
/// neighbours leaves the list well formed, with the bytes exchanged.
proof fn lemma_replace(s: Seq<FreeSlot>, idx: int, slot: FreeSlot)
    requires
        slots_wf(s),
        0 <= idx < s.len(),
        slot.wf(),
        forall|j: int| 0 <= j < idx ==> (#[trigger] s[j]).spec_end() < slot.start,
        forall|j: int| idx < j < s.len() ==> slot.spec_end() < (#[trigger] s[j]).start,
    ensures
        slots_wf(s.update(idx, slot)),
        free_bytes(s.update(idx, slot)) == free_bytes(s).difference(s[idx].bytes()).union(
            slot.bytes(),
        ),
{
    let t = s.update(idx, slot);
    lemma_bytes_remove(s, idx);
    lemma_bytes_insert(s.remove(idx), idx, slot);
    assert(t =~= s.remove(idx).insert(idx, slot));
    assert forall|i: int, j: int| 0 <= i < j < t.len() implies (#[trigger] t[i]).spec_end() < (
    #[trigger] t[j]).start by {
        if i != idx && j != idx {
            assert(s[i].spec_end() < s[j].start);
        }
    }
}

/// The bytes of all the spans of a list, whatever its order.
pub open spec fn spans_bytes(spans: Seq<FreeSlot>) -> Set<int>
    decreases spans.len(),
{
    if spans.len() == 0 {
        Set::empty()
    } else {
        spans_bytes(spans.drop_last()).union(spans.last().bytes())
    }
}

/// Every span is well formed and no two of the spans share a byte.
pub open spec fn spans_disjoint(spans: Seq<FreeSlot>) -> bool {
    &&& forall|i: int| 0 <= i < spans.len() ==> (#[trigger] spans[i]).wf()
    &&& forall|i: int, j: int|
        0 <= i < j < spans.len() ==> (#[trigger] spans[i]).bytes().disjoint(
            (#[trigger] spans[j]).bytes(),
        )
}

/// `lists` are the states that an empty list runs through when `spans` are
/// freed one after the other: each state is well formed and holds the bytes
/// of the state before it and of the span that was freed.
pub open spec fn free_trace(lists: Seq<Seq<FreeSlot>>, spans: Seq<FreeSlot>) -> bool {
    &&& lists.len() == spans.len() + 1
    &&& lists[0] == Seq::<FreeSlot>::empty()
    &&& forall|i: int|
        0 <= i < spans.len() ==> slots_wf(#[trigger] lists[i + 1]) && free_bytes(lists[i + 1])
            == free_bytes(lists[i]).union(spans[i].bytes())
}

proof fn lemma_free_trace_bytes(lists: Seq<Seq<FreeSlot>>, spans: Seq<FreeSlot>, n: int)
    requires
        free_trace(lists, spans),
        0 <= n <= spans.len(),
    ensures
        free_bytes(lists[n]) == spans_bytes(spans.take(n)),
    decreases n,
{
    if n == 0 {
        assert(free_bytes(lists[0]) =~= Set::<int>::empty());
    } else {
        lemma_free_trace_bytes(lists, spans, n - 1);
        assert(slots_wf(lists[(n - 1) + 1]));
        assert(spans.take(n).drop_last() =~= spans.take(n - 1));
    }
}

/// Freeing spans that share no byte and together make up one unbroken region
/// leaves one entry, which is that region, in whatever order they are freed.
pub proof fn lemma_free_coalesces(
    lists: Seq<Seq<FreeSlot>>,
    spans: Seq<FreeSlot>,
    region: FreeSlot,
)
    requires
        free_trace(lists, spans),
        spans_disjoint(spans),
        region.wf(),
        spans_bytes(spans) == region.bytes(),
    ensures
        lists.last() == seq![region],
{
    let n = spans.len() as int;
    lemma_free_trace_bytes(lists, spans, n);
    assert(spans.take(n) =~= spans);
    let single = seq![region];
    assert(free_bytes(single) =~= region.bytes()) by {
        assert forall|b: int| region.contains(b) implies covers(single, b) by {
            assert(single[0].contains(b));
        }
    }
    if n == 0 {
        assert(region.contains(region.start as int));
        assert(region.bytes().contains(region.start as int));
    } else {
        assert(slots_wf(lists[(n - 1) + 1]));
        lemma_slots_unique(lists.last(), single);
    }
}

/// Taking bytes out of a list and freeing the same bytes again gives the
/// list back as it was.
pub proof fn lemma_alloc_free_round_trip(
    before: Seq<FreeSlot>,
    taken: FreeSlot,
    between: Seq<FreeSlot>,
    after: Seq<FreeSlot>,
)
    requires
        slots_wf(before),
        slots_wf(after),
        taken.bytes().subset_of(free_bytes(before)),
        free_bytes(between) == free_bytes(before).difference(taken.bytes()),
        free_bytes(after) == free_bytes(between).union(taken.bytes()),
    ensures
        after == before,
{
    assert(free_bytes(after) =~= free_bytes(before));
    lemma_slots_unique(after, before);
}

/// An empty list fits no request: the storage has to come from elsewhere.
pub proof fn lemma_no_fit_on_empty(size: int, alignment: int)
    ensures
        no_fit(Seq::<FreeSlot>::empty(), size, alignment),
        forall|idx: int| !best_fit(Seq::<FreeSlot>::empty(), size, alignment, idx),
{
}

/// A request has at most one best fit, so what `allocate` returns depends on
/// the list and the request alone.
pub proof fn lemma_best_fit_unique(s: Seq<FreeSlot>, size: int, alignment: int, i: int, j: int)
    requires
        best_fit(s, size, alignment, i),
        best_fit(s, size, alignment, j),
    ensures
        i == j,
{
}

} // verus!
