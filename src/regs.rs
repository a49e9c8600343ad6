//! Register Bundle: named register values applied to a virtual processor as
//! one request, the bundles that bring a processor into long mode, and a
//! register file that models what the processor holds.
use vstd::prelude::*;

verus! {

/// Control register bit CR0.PE: protected mode.
pub const CR0_PE: u64 = 1;
/// Control register bit CR0.MP: monitor coprocessor.
pub const CR0_MP: u64 = 0x2;
/// Control register bit CR0.ET: extension type.
pub const CR0_ET: u64 = 0x10;
/// Control register bit CR0.NE: numeric error.
pub const CR0_NE: u64 = 0x20;
/// Control register bit CR0.WP: write protect.
pub const CR0_WP: u64 = 0x1_0000;
/// Control register bit CR0.AM: alignment mask.
pub const CR0_AM: u64 = 0x4_0000;
/// Control register bit CR0.PG: paging.
pub const CR0_PG: u64 = 0x8000_0000;
/// Control register bit CR4.PAE: physical address extension.
pub const CR4_PAE: u64 = 0x20;
/// EFER bit LME: long mode enable.
pub const EFER_LME: u64 = 0x100;
/// EFER bit LMA: long mode active.
pub const EFER_LMA: u64 = 0x400;

/// RFLAGS at entry: only the reserved bit 1, which always reads as one.
pub const ENTRY_RFLAGS: u64 = 2;

/// The registers this monitor reads or writes.
#[derive(Clone, Copy, Debug, PartialEq, Eq, Structural)]
pub enum RegisterName {
    Rax,
    Rbx,
    Rcx,
    Rdx,
    Rsp,
    Rip,
    Rflags,
    Cr0,
    Cr3,
    Cr4,
    Efer,
    Cs,
    Ds,
    Es,
    Fs,
    Gs,
    Ss,
}

/// Number of distinct register names.
pub const NUM_REGISTER_NAMES: usize = 17;

/// The slot of a register in a register file.
pub open spec fn slot_of(n: RegisterName) -> int {
    match n {
        RegisterName::Rax => 0,
        RegisterName::Rbx => 1,
        RegisterName::Rcx => 2,
        RegisterName::Rdx => 3,
        RegisterName::Rsp => 4,
        RegisterName::Rip => 5,
        RegisterName::Rflags => 6,
        RegisterName::Cr0 => 7,
        RegisterName::Cr3 => 8,
        RegisterName::Cr4 => 9,
        RegisterName::Efer => 10,
        RegisterName::Cs => 11,
        RegisterName::Ds => 12,
        RegisterName::Es => 13,
        RegisterName::Fs => 14,
        RegisterName::Gs => 15,
        RegisterName::Ss => 16,
    }
}

impl RegisterName {
    /// The slot of this register in a register file.
    pub fn slot(self) -> (r: usize)
        ensures
            r as int == slot_of(self),
            r < NUM_REGISTER_NAMES,
    {
        match self {
            RegisterName::Rax => 0,
            RegisterName::Rbx => 1,
            RegisterName::Rcx => 2,
            RegisterName::Rdx => 3,
            RegisterName::Rsp => 4,
            RegisterName::Rip => 5,
            RegisterName::Rflags => 6,
            RegisterName::Cr0 => 7,
            RegisterName::Cr3 => 8,
            RegisterName::Cr4 => 9,
            RegisterName::Efer => 10,
            RegisterName::Cs => 11,
            RegisterName::Ds => 12,
            RegisterName::Es => 13,
            RegisterName::Fs => 14,
            RegisterName::Gs => 15,
            RegisterName::Ss => 16,
        }
    }
}

/// A segment register: base, limit, selector and attribute bits.
#[derive(Clone, Copy, Debug, PartialEq, Eq, Structural)]
pub struct SegmentRegister {
    pub base: u64,
    pub limit: u32,
    pub selector: u16,
    pub attributes: u16,
}

/// The value of one register: a 64-bit integer or a segment descriptor.
#[derive(Clone, Copy, Debug, PartialEq, Eq, Structural)]
pub enum RegisterValue {
    Reg64(u64),
    Segment(SegmentRegister),
}

/// Names and values of registers, paired in order, applied as one request.
pub struct RegisterBundle {
    names: Vec<RegisterName>,
    values: Vec<RegisterValue>,
}

impl View for RegisterBundle {
    type V = Seq<(RegisterName, RegisterValue)>;

    closed spec fn view(&self) -> Seq<(RegisterName, RegisterValue)> {
        Seq::new(self.names@.len(), |i: int| (self.names@[i], self.values@[i]))
    }
}

impl RegisterBundle {
    /// Names and values have the same length.
    pub closed spec fn wf(&self) -> bool {
        self.names@.len() == self.values@.len()
    }

    /// The names of the bundle, in order.
    pub open spec fn names_spec(&self) -> Seq<RegisterName> {
        self@.map_values(|p: (RegisterName, RegisterValue)| p.0)
    }

    /// The values of the bundle, in order.
    pub open spec fn values_spec(&self) -> Seq<RegisterValue> {
        self@.map_values(|p: (RegisterName, RegisterValue)| p.1)
    }

    /// An empty bundle.
    pub fn new() -> (b: RegisterBundle)
        ensures
            b.wf(),
            b@ == Seq::<(RegisterName, RegisterValue)>::empty(),
    {
        let b = RegisterBundle { names: Vec::new(), values: Vec::new() };
        assert(b@ =~= Seq::<(RegisterName, RegisterValue)>::empty());
        b
    }

    /// Appends one register to the bundle; the value is copied, so later
    /// changes to the caller's value do not reach the bundle.
    pub fn push(&mut self, name: RegisterName, value: RegisterValue)
        requires
            old(self).wf(),
        ensures
            final(self).wf(),
            final(self)@ == old(self)@.push((name, value)),
    {
        self.names.push(name);
        self.values.push(value);
        assert(self@ =~= old(self)@.push((name, value)));
    }

    /// Number of registers in the bundle.
    pub fn len(&self) -> (n: usize)
        requires
            self.wf(),
        ensures
            n == self@.len(),
    {
        self.names.len()
    }

    /// The names of the bundle, in order.
    pub fn names(&self) -> (r: &Vec<RegisterName>)
        requires
            self.wf(),
        ensures
            r@ == self.names_spec(),
    {
        assert(self.names@ =~= self.names_spec());
        &self.names
    }

    /// The values of the bundle, in order.
    pub fn values(&self) -> (r: &Vec<RegisterValue>)
        requires
            self.wf(),
        ensures
            r@ == self.values_spec(),
    {
        assert(self.values@ =~= self.values_spec());
        &self.values
    }
}

/// The value a register holds before anything was written to it.
pub open spec fn initial_value(slot: int) -> RegisterValue {
    if slot < 11 {
        RegisterValue::Reg64(0)
    } else {
        RegisterValue::Segment(SegmentRegister { base: 0, limit: 0, selector: 0, attributes: 0 })
    }
}

/// The register contents `regs` after writing the pairs of `b` in order.
pub open spec fn apply_all(regs: Seq<RegisterValue>, b: Seq<(RegisterName, RegisterValue)>) -> Seq<
    RegisterValue,
>
    decreases b.len(),
{
    if b.len() == 0 {
        regs
    } else {
        let last = b.last();
        apply_all(regs, b.drop_last()).update(slot_of(last.0), last.1)
    }
}

/// What reading `names` from the register contents `regs` gives, in order.
pub open spec fn read_all(regs: Seq<RegisterValue>, names: Seq<RegisterName>) -> Seq<RegisterValue> {
    names.map_values(|n: RegisterName| regs[slot_of(n)])
}

/// No register is named twice in `b`.
pub open spec fn distinct_names(b: Seq<(RegisterName, RegisterValue)>) -> bool {
    forall|i: int, j: int| 0 <= i < j < b.len() ==> #[trigger] b[i].0 != #[trigger] b[j].0
}

/// The register state of a virtual processor: one value per register name.
pub struct RegisterFile {
    slots: Vec<RegisterValue>,
}

impl View for RegisterFile {
    type V = Seq<RegisterValue>;

    closed spec fn view(&self) -> Seq<RegisterValue> {
        self.slots@
    }
}

impl RegisterFile {
    /// One slot for each register name.
    pub closed spec fn wf(&self) -> bool {
        self.slots@.len() == NUM_REGISTER_NAMES
    }

    /// A register file in which every register holds zero.
    pub fn new() -> (f: RegisterFile)
        ensures
            f.wf(),
            f@.len() == NUM_REGISTER_NAMES,
            forall|i: int| 0 <= i < NUM_REGISTER_NAMES ==> #[trigger] f@[i] == initial_value(i),
    {
        let mut slots: Vec<RegisterValue> = Vec::new();
        let mut i: usize = 0;
        while i < NUM_REGISTER_NAMES
            invariant
                i <= NUM_REGISTER_NAMES,
                slots@.len() == i,
                forall|k: int| 0 <= k < i ==> #[trigger] slots@[k] == initial_value(k),
            decreases NUM_REGISTER_NAMES - i,
        {
            if i < 11 {
                slots.push(RegisterValue::Reg64(0));
            } else {
                slots.push(
                    RegisterValue::Segment(
                        SegmentRegister { base: 0, limit: 0, selector: 0, attributes: 0 },
                    ),
                );
            }
            i = i + 1;
        }
        RegisterFile { slots }
    }

    /// The value register `name` holds.
    pub fn get(&self, name: RegisterName) -> (v: RegisterValue)
        requires
            self.wf(),
        ensures
            v == self@[slot_of(name)],
    {
        self.slots[name.slot()]
    }

    /// Writes every register of `b`, in order, as one request.
    pub fn set_registers(&mut self, b: &RegisterBundle)
        requires
            old(self).wf(),
            b.wf(),
        ensures
            final(self).wf(),
            final(self)@ == apply_all(old(self)@, b@),
    {
        let n = b.len();
        let names = b.names();
        let values = b.values();
        let mut i: usize = 0;
        while i < n
            invariant
                self.wf(),
                b.wf(),
                n == b@.len(),
                names@ == b.names_spec(),
                values@ == b.values_spec(),
                i <= n,
                self@ == apply_all(old(self)@, b@.take(i as int)),
            decreases n - i,
        {
            let slot = names[i].slot();
            self.slots.set(slot, values[i]);
            proof {
                assert(b@.take(i + 1).drop_last() =~= b@.take(i as int));
            }
            i = i + 1;
        }
        assert(b@.take(n as int) =~= b@);
    }

    /// Reads the registers `names`, in order, as one request.
    pub fn get_registers(&self, names: &Vec<RegisterName>) -> (r: Vec<RegisterValue>)
        requires
            self.wf(),
        ensures
            r@ == read_all(self@, names@),
    {
        let mut r: Vec<RegisterValue> = Vec::new();
        let mut i: usize = 0;
        while i < names.len()
            invariant
                self.wf(),
                i <= names@.len(),
                r@ == read_all(self@, names@.take(i as int)),
            decreases names@.len() - i,
        {
            r.push(self.slots[names[i].slot()]);
            proof {
                assert(read_all(self@, names@.take(i + 1)) =~= read_all(self@, names@.take(i as int)).push(
                    self@[slot_of(names@[i as int])],
                ));
            }
            i = i + 1;
        }
        assert(names@.take(names@.len() as int) =~= names@);
        r
    }
}

/// After a bundle whose names are distinct is written, each register it
/// names holds the value paired with that name; registers that the bundle
/// does not name keep their value.
pub proof fn lemma_apply_all_slot(regs: Seq<RegisterValue>, b: Seq<(RegisterName, RegisterValue)>, n: RegisterName)
    requires
        regs.len() == NUM_REGISTER_NAMES,
        distinct_names(b),
    ensures
        apply_all(regs, b).len() == regs.len(),
        forall|i: int| 0 <= i < b.len() && b[i].0 == n ==> apply_all(regs, b)[slot_of(n)] == b[i].1,
        (forall|i: int| 0 <= i < b.len() ==> b[i].0 != n) ==> apply_all(regs, b)[slot_of(n)] == regs[slot_of(n)],
    decreases b.len(),
{
    if b.len() > 0 {
        let p = b.drop_last();
        assert(distinct_names(p)) by {
            assert forall|i: int, j: int| 0 <= i < j < p.len() implies #[trigger] p[i].0 != #[trigger] p[j].0 by {
                assert(p[i] == b[i] && p[j] == b[j]);
            }
        }
        lemma_apply_all_slot(regs, p, n);
        let last = b.last();
        if last.0 != n {
            assert(slot_of(last.0) != slot_of(n));
            assert forall|i: int| 0 <= i < b.len() && b[i].0 == n implies apply_all(regs, b)[slot_of(n)] == b[i].1 by {
                assert(i < p.len());
                assert(p[i] == b[i]);
            }
        } else {
            assert forall|i: int| 0 <= i < b.len() && b[i].0 == n implies apply_all(regs, b)[slot_of(n)] == b[i].1 by {
                if i < b.len() - 1 {
                    assert(b[i].0 != b[b.len() - 1].0);
                }
            }
        }
    }
}

/// Writing a bundle whose names are distinct and then reading the same names
/// gives back the bundle's values, in order.
pub proof fn lemma_set_then_get(regs: Seq<RegisterValue>, b: Seq<(RegisterName, RegisterValue)>)
    requires
        regs.len() == NUM_REGISTER_NAMES,
        distinct_names(b),
    ensures
        read_all(apply_all(regs, b), b.map_values(|p: (RegisterName, RegisterValue)| p.0))
            == b.map_values(|p: (RegisterName, RegisterValue)| p.1),
{
    let names = b.map_values(|p: (RegisterName, RegisterValue)| p.0);
    let r = read_all(apply_all(regs, b), names);
    assert forall|i: int| 0 <= i < b.len() implies r[i] == b[i].1 by {
        lemma_apply_all_slot(regs, b, b[i].0);
    }
    assert(r =~= b.map_values(|p: (RegisterName, RegisterValue)| p.1));
}

/// CR0 in long mode: protected mode and paging with the usual companions.
pub const LONG_MODE_CR0: u64 = CR0_PE | CR0_MP | CR0_ET | CR0_NE | CR0_WP | CR0_AM | CR0_PG;
/// EFER in long mode: long mode enabled and active.
pub const LONG_MODE_EFER: u64 = EFER_LME | EFER_LMA;
/// Selector of the flat 64-bit code segment.
pub const CODE_SELECTOR: u16 = 0x8;
/// Selector of the flat data segment.
pub const DATA_SELECTOR: u16 = 0x10;
/// Attributes of the code segment: execute/read, accessed, non-system,
/// present, 64-bit, granularity.
pub const CODE_ATTRIBUTES: u16 = 0xa09b;
/// Attributes of the data segment: read/write, accessed, non-system,
/// present, 64-bit, granularity.
pub const DATA_ATTRIBUTES: u16 = 0xa093;

/// The flat code segment.
pub open spec fn code_segment() -> SegmentRegister {
    SegmentRegister { base: 0, limit: 0xffff_ffff, selector: CODE_SELECTOR, attributes: CODE_ATTRIBUTES }
}

/// The flat data segment, shared by DS, ES, FS, GS and SS.
pub open spec fn data_segment() -> SegmentRegister {
    SegmentRegister { base: 0, limit: 0xffff_ffff, selector: DATA_SELECTOR, attributes: DATA_ATTRIBUTES }
}

/// Control registers that make a consistent mode: whenever paging and long
/// mode are both enabled, PAE is enabled too.
pub open spec fn mode_consistent(cr0: u64, cr4: u64, efer: u64) -> bool {
    (cr0 & CR0_PG != 0 && efer & EFER_LME != 0) ==> cr4 & CR4_PAE != 0
}

/// The registers that bring the processor into 64-bit long mode, set in
/// one bundle: CR3 (the page-table root `cr3`), CR4, CR0, EFER and the six
/// segment registers.
pub open spec fn long_mode_registers(cr3: u64) -> Seq<(RegisterName, RegisterValue)> {
    seq![
        (RegisterName::Cr3, RegisterValue::Reg64(cr3)),
        (RegisterName::Cr4, RegisterValue::Reg64(CR4_PAE)),
        (RegisterName::Cr0, RegisterValue::Reg64(LONG_MODE_CR0)),
        (RegisterName::Efer, RegisterValue::Reg64(LONG_MODE_EFER)),
        (RegisterName::Cs, RegisterValue::Segment(code_segment())),
        (RegisterName::Ds, RegisterValue::Segment(data_segment())),
        (RegisterName::Es, RegisterValue::Segment(data_segment())),
        (RegisterName::Fs, RegisterValue::Segment(data_segment())),
        (RegisterName::Gs, RegisterValue::Segment(data_segment())),
        (RegisterName::Ss, RegisterValue::Segment(data_segment())),
    ]
}

/// The registers set once the mode is committed: RFLAGS, RIP and RSP.
pub open spec fn entry_registers(rip: u64, rsp: u64) -> Seq<(RegisterName, RegisterValue)> {
    seq![
        (RegisterName::Rflags, RegisterValue::Reg64(ENTRY_RFLAGS)),
        (RegisterName::Rip, RegisterValue::Reg64(rip)),
        (RegisterName::Rsp, RegisterValue::Reg64(rsp)),
    ]
}

/// The bundle that enters long mode with page tables rooted at `cr3`. The
/// CR0, CR4 and EFER values it carries make a consistent mode.
pub fn long_mode_bundle(cr3: u64) -> (b: RegisterBundle)
    ensures
        b.wf(),
        b@ == long_mode_registers(cr3),
        distinct_names(b@),
        mode_consistent(LONG_MODE_CR0, CR4_PAE, LONG_MODE_EFER),
{
    let code = SegmentRegister {
        base: 0,
        limit: 0xffff_ffff,
        selector: CODE_SELECTOR,
        attributes: CODE_ATTRIBUTES,
    };
    let data = SegmentRegister {
        base: 0,
        limit: 0xffff_ffff,
        selector: DATA_SELECTOR,
        attributes: DATA_ATTRIBUTES,
    };
    let mut b = RegisterBundle::new();
    b.push(RegisterName::Cr3, RegisterValue::Reg64(cr3));
    b.push(RegisterName::Cr4, RegisterValue::Reg64(CR4_PAE));
    b.push(RegisterName::Cr0, RegisterValue::Reg64(LONG_MODE_CR0));
    b.push(RegisterName::Efer, RegisterValue::Reg64(LONG_MODE_EFER));
    b.push(RegisterName::Cs, RegisterValue::Segment(code));
    b.push(RegisterName::Ds, RegisterValue::Segment(data));
    b.push(RegisterName::Es, RegisterValue::Segment(data));
    b.push(RegisterName::Fs, RegisterValue::Segment(data));
    b.push(RegisterName::Gs, RegisterValue::Segment(data));
    b.push(RegisterName::Ss, RegisterValue::Segment(data));
    assert(b@ =~= long_mode_registers(cr3));
    assert(mode_consistent(LONG_MODE_CR0, CR4_PAE, LONG_MODE_EFER)) by (bit_vector);
    b
}

/// The bundle that sets RFLAGS, the first instruction `rip` and the stack
/// pointer `rsp`; applied after the long-mode bundle.
pub fn entry_bundle(rip: u64, rsp: u64) -> (b: RegisterBundle)
    ensures
        b.wf(),
        b@ == entry_registers(rip, rsp),
        distinct_names(b@),
{
    let mut b = RegisterBundle::new();
    b.push(RegisterName::Rflags, RegisterValue::Reg64(ENTRY_RFLAGS));
    b.push(RegisterName::Rip, RegisterValue::Reg64(rip));
    b.push(RegisterName::Rsp, RegisterValue::Reg64(rsp));
    assert(b@ =~= entry_registers(rip, rsp));
    b
}

} // verus!
