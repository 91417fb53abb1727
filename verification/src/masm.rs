//! The buffer that machine code is emitted into, with labels for jumps whose
//! target is not known when they are emitted.

use vstd::prelude::*;

verus! {

/// A place in the code that jumps lead to. It is created first and bound to
/// its place later.
#[derive(Debug, Copy, Clone, PartialEq, Eq, Structural)]
pub struct Label(pub usize);

impl Label {
    pub fn index(&self) -> (r: usize)
        ensures
            r == self.0,
    {
        self.0
    }
}

/// A jump that was emitted before its label was bound: where its
/// displacement stands, and the label.
#[derive(Debug, Copy, Clone, PartialEq, Eq, Structural)]
pub struct ForwardJump {
    pub at: usize,
    pub to: Label,
}

/// The four bytes of a value, the least significant first.
pub open spec fn le_bytes(value: u32) -> Seq<u8> {
    seq![
        (value % 256) as u8,
        (value / 256 % 256) as u8,
        (value / 65536 % 256) as u8,
        (value / 16777216) as u8,
    ]
}

/// The 32 bits of a signed value, read without a sign.
pub open spec fn unsigned32(value: int) -> u32 {
    (value % 0x1_0000_0000) as u32
}

/// The displacement of a jump whose four bytes stand at `at` and which
/// leads to `target`: the distance from the end of those bytes, in 32 bits.
pub open spec fn displacement(at: int, target: int) -> u32 {
    unsigned32(target - (at + 4))
}

/// The 32 bits of `value`, read without a sign.
pub fn as_u32(value: i32) -> (r: u32)
    ensures
        r == unsigned32(value as int),
{
    if value >= 0 {
        value as u32
    } else {
        let r: u64 = (0x1_0000_0000i64 + value as i64) as u64;
        r as u32
    }
}

/// The low 8 bits of `value`, read without a sign.
pub fn as_u8(value: i32) -> (r: u8)
    ensures
        r == (value as int % 256) as u8,
{
    let low: i32 = value % 256;
    if low >= 0 {
        low as u8
    } else {
        (low + 256) as u8
    }
}

/// The bytes with the displacement of the first `n` forward jumps filled
/// in.
pub open spec fn fixed(
    bytes: Seq<u8>,
    labels: Seq<Option<usize>>,
    jumps: Seq<ForwardJump>,
    n: int,
) -> Seq<u8>
    decreases n,
{
    if n <= 0 {
        bytes
    } else {
        let before = fixed(bytes, labels, jumps, n - 1);
        let jump = jumps[n - 1];
        let target = labels[jump.to.0 as int]->0;
        let disp = le_bytes(displacement(jump.at as int, target as int));
        before.update(jump.at as int, disp[0]).update(jump.at + 1, disp[1]).update(
            jump.at + 2,
            disp[2],
        ).update(jump.at + 3, disp[3])
    }
}

pub struct MacroAssembler {
    data: Vec<u8>,
    labels: Vec<Option<usize>>,
    jumps: Vec<ForwardJump>,
}

impl MacroAssembler {
    /// The bytes emitted so far; the displacement of a forward jump is zero
    /// until the code is handed out.
    pub closed spec fn bytes(&self) -> Seq<u8> {
        self.data@
    }

    /// The place of every label, once it is bound.
    pub closed spec fn labels(&self) -> Seq<Option<usize>> {
        self.labels@
    }

    /// The jumps that were emitted before their label was bound.
    pub closed spec fn jumps(&self) -> Seq<ForwardJump> {
        self.jumps@
    }

    /// Every forward jump has its four bytes in the code and leads to a
    /// label of this buffer, which is not bound before the end of those
    /// bytes.
    pub open spec fn wf(&self) -> bool {
        forall|j: int|
            0 <= j < self.jumps().len() ==> {
                &&& (#[trigger] self.jumps()[j]).at + 4 <= self.bytes().len()
                &&& self.jumps()[j].to.0 < self.labels().len()
                &&& self.labels()[self.jumps()[j].to.0 as int] matches Some(target) ==> target
                    >= self.jumps()[j].at + 4
            }
    }

    /// Every label that a forward jump leads to is bound.
    pub open spec fn resolved(&self) -> bool {
        forall|j: int|
            0 <= j < self.jumps().len() ==> self.labels()[(#[trigger] self.jumps()[j]).to.0 as int] is Some
    }

    pub fn new() -> (buf: MacroAssembler)
        ensures
            buf.bytes() == Seq::<u8>::empty(),
            buf.labels() == Seq::<Option<usize>>::empty(),
            buf.jumps() == Seq::<ForwardJump>::empty(),
            buf.wf(),
    {
        MacroAssembler { data: Vec::new(), labels: Vec::new(), jumps: Vec::new() }
    }

    /// The code, with the displacement of every forward jump filled in.
    pub fn data(self) -> (code: Vec<u8>)
        requires
            self.wf(),
            self.resolved(),
        ensures
            code@ == fixed(self.bytes(), self.labels(), self.jumps(), self.jumps().len() as int),
    {
        let mut buf = self;
        buf.fix_forward_jumps();
        buf.data
    }

    /// Fills in the displacement of every forward jump.
    fn fix_forward_jumps(&mut self)
        requires
            old(self).wf(),
            old(self).resolved(),
        ensures
            final(self).bytes() == fixed(
                old(self).bytes(),
                old(self).labels(),
                old(self).jumps(),
                old(self).jumps().len() as int,
            ),
            final(self).labels() == old(self).labels(),
            final(self).jumps() == old(self).jumps(),
    {
        let n = self.jumps.len();
        let mut j: usize = 0;
        while j < n
            invariant
                j <= n,
                n == self.jumps@.len(),
                old(self).wf(),
                old(self).resolved(),
                self.labels@ == old(self).labels@,
                self.jumps@ == old(self).jumps@,
                self.data@.len() == old(self).data@.len(),
                self.data@ == fixed(old(self).data@, old(self).labels@, old(self).jumps@, j as int),
            decreases n - j,
        {
            let jmp = self.jumps[j];
            assert(self.jumps()[j as int].at + 4 <= old(self).bytes().len());
            let target = self.labels[jmp.to.0].unwrap();
            let diff: usize = target - jmp.at - 4;
            let value: u32 = (diff as u64 % 0x1_0000_0000u64) as u32;
            self.data[jmp.at] = (value % 256) as u8;
            self.data[jmp.at + 1] = (value / 256 % 256) as u8;
            self.data[jmp.at + 2] = (value / 65536 % 256) as u8;
            self.data[jmp.at + 3] = (value / 16777216) as u8;
            j += 1;
        }
    }

    /// The number of bytes emitted so far.
    pub fn pos(&self) -> (r: usize)
        ensures
            r == self.bytes().len(),
    {
        self.data.len()
    }

    /// A new label, bound to no place yet.
    pub fn create_label(&mut self) -> (lbl: Label)
        ensures
            lbl.0 == old(self).labels().len(),
            final(self).labels() == old(self).labels().push(None),
            final(self).bytes() == old(self).bytes(),
            final(self).jumps() == old(self).jumps(),
            old(self).wf() ==> final(self).wf(),
    {
        let idx = self.labels.len();
        self.labels.push(None);
        Label(idx)
    }

    /// Binds the label to the place where the next byte is emitted.
    pub fn bind_label(&mut self, lbl: Label)
        requires
            lbl.0 < old(self).labels().len(),
            old(self).labels()[lbl.0 as int] is None,
        ensures
            final(self).labels() == old(self).labels().update(
                lbl.0 as int,
                Some(old(self).bytes().len() as usize),
            ),
            final(self).bytes() == old(self).bytes(),
            final(self).jumps() == old(self).jumps(),
            old(self).wf() ==> final(self).wf(),
    {
        let pos = self.pos();
        self.labels[lbl.index()] = Some(pos);
    }

    /// Emits the four bytes of the displacement of a jump to the label: the
    /// displacement itself where the label is bound, and zero, to be filled
    /// in when the code is handed out, where it is not.
    pub fn emit_label(&mut self, lbl: Label)
        requires
            lbl.0 < old(self).labels().len(),
        ensures
            final(self).labels() == old(self).labels(),
            match old(self).labels()[lbl.0 as int] {
                Some(target) => {
                    &&& final(self).bytes() == old(self).bytes() + le_bytes(
                        displacement(old(self).bytes().len() as int, target as int),
                    )
                    &&& final(self).jumps() == old(self).jumps()
                },
                None => {
                    &&& final(self).bytes() == old(self).bytes() + le_bytes(0)
                    &&& final(self).jumps() == old(self).jumps().push(
                        ForwardJump { at: old(self).bytes().len() as usize, to: lbl },
                    )
                },
            },
            old(self).wf() ==> final(self).wf(),
    {
        let value = self.labels[lbl.index()];
        match value {
            Some(target) => {
                let current = self.pos();
                let diff: u32 = if target >= current && target - current >= 4 {
                    ((target - current - 4) as u64 % 0x1_0000_0000u64) as u32
                } else {
                    let back: u128 = (current as u128 + 4 - target as u128) % 0x1_0000_0000u128;
                    if back == 0 {
                        0
                    } else {
                        (0x1_0000_0000u128 - back) as u32
                    }
                };
                assert(diff == displacement(current as int, target as int)) by {
                    let d = target - (current + 4);
                    if d < 0 {
                        vstd::arithmetic::div_mod::lemma_mod_add_multiples_vanish(d, 0x1_0000_0000);
                        vstd::arithmetic::div_mod::lemma_fundamental_div_mod(-d, 0x1_0000_0000);
                        vstd::arithmetic::div_mod::lemma_fundamental_div_mod(d, 0x1_0000_0000);
                    }
                }
                self.emit_u32(diff);
            },
            None => {
                let pos = self.pos();
                self.emit_u32(0);
                self.jumps.push(ForwardJump { at: pos, to: lbl });
            },
        }
    }

    pub fn emit_u8(&mut self, value: u8)
        ensures
            final(self).bytes() == old(self).bytes().push(value),
            final(self).labels() == old(self).labels(),
            final(self).jumps() == old(self).jumps(),
            old(self).wf() ==> final(self).wf(),
    {
        self.data.push(value);
    }

    /// Emits the four bytes of `value`, the least significant first.
    pub fn emit_u32(&mut self, value: u32)
        ensures
            final(self).bytes() == old(self).bytes() + le_bytes(value),
            final(self).labels() == old(self).labels(),
            final(self).jumps() == old(self).jumps(),
            old(self).wf() ==> final(self).wf(),
    {
        self.data.push((value % 256) as u8);
        self.data.push((value / 256 % 256) as u8);
        self.data.push((value / 65536 % 256) as u8);
        self.data.push((value / 16777216) as u8);
        proof {
            assert(self.data@ =~= old(self).data@ + le_bytes(value));
        }
    }
}

/// `bytes` were emitted into the buffer, and nothing else was done to it.
pub open spec fn emitted(before: &MacroAssembler, after: &MacroAssembler, bytes: Seq<u8>) -> bool {
    &&& after.bytes() == before.bytes() + bytes
    &&& after.labels() == before.labels()
    &&& after.jumps() == before.jumps()
    &&& before.wf() ==> after.wf()
}

/// The four bytes that a jump to the label `lbl` gets when they are emitted
/// at `at`: the displacement where the label is bound, and zero where it is
/// not.
pub open spec fn label_bytes(labels: Seq<Option<usize>>, at: int, lbl: Label) -> Seq<u8> {
    match labels[lbl.0 as int] {
        Some(target) => le_bytes(displacement(at, target as int)),
        None => le_bytes(0),
    }
}

/// The forward jumps once a jump to the label `lbl` is emitted at `at`: the
/// jump is among them where the label is not bound.
pub open spec fn label_jumps(
    labels: Seq<Option<usize>>,
    jumps: Seq<ForwardJump>,
    at: int,
    lbl: Label,
) -> Seq<ForwardJump> {
    match labels[lbl.0 as int] {
        Some(_) => jumps,
        None => jumps.push(ForwardJump { at: at as usize, to: lbl }),
    }
}

/// `bytes` and then a jump to the label `lbl` were emitted into the buffer.
pub open spec fn emitted_jump(
    before: &MacroAssembler,
    after: &MacroAssembler,
    bytes: Seq<u8>,
    lbl: Label,
) -> bool {
    let at = (before.bytes().len() + bytes.len()) as int;
    &&& after.bytes() == before.bytes() + bytes + label_bytes(before.labels(), at, lbl)
    &&& after.labels() == before.labels()
    &&& after.jumps() == label_jumps(before.labels(), before.jumps(), at, lbl)
    &&& before.wf() ==> after.wf()
}

} // verus!
