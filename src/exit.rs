//! Exit Dispatcher: classifies each exit of a virtual processor and decides
//! what the monitor does next. The caller performs the action (setting
//! registers, running the instruction emulator, running the processor
//! again) and reports back.
use vstd::prelude::*;
use crate::regs::{RegisterBundle, RegisterName, RegisterValue};

verus! {

/// ECX bit of CPUID leaf 1 that tells the guest it runs under a hypervisor.
pub const CPUID_EXT_HYPERVISOR: u64 = 0x8000_0000;
/// The standard feature leaf.
pub const CPUID_FEATURE_LEAF: u64 = 1;
/// The hypervisor vendor leaf.
pub const CPUID_VENDOR_LEAF: u64 = 0x4000_0000;
/// The one MSR this monitor emulates.
pub const EMULATED_MSR: u32 = 1;
/// What a read of the emulated MSR returns in RAX.
pub const EMULATED_MSR_RAX: u64 = 1000;
/// What a read of the emulated MSR returns in RDX.
pub const EMULATED_MSR_RDX: u64 = 1001;

/// The processor state that every exit reports.
#[derive(Clone, Copy, Debug, PartialEq, Eq, Structural)]
pub struct VpContext {
    /// Address of the instruction that caused the exit.
    pub rip: u64,
    /// Length in bytes of that instruction.
    pub instruction_length: u8,
}

/// A CPUID instruction: the leaf asked for and the results the hardware
/// would give.
#[derive(Clone, Copy, Debug, PartialEq, Eq, Structural)]
pub struct CpuidAccess {
    pub leaf: u64,
    pub default_rax: u64,
    pub default_rbx: u64,
    pub default_rcx: u64,
    pub default_rdx: u64,
}

/// An RDMSR or WRMSR instruction.
#[derive(Clone, Copy, Debug, PartialEq, Eq, Structural)]
pub struct MsrAccess {
    pub number: u32,
    pub is_write: bool,
    /// The low half of the value written.
    pub rax: u64,
    /// The high half of the value written.
    pub rdx: u64,
}

/// Why the processor stopped, with what that reason carries.
#[derive(Clone, Copy, Debug, PartialEq, Eq, Structural)]
pub enum ExitReason {
    Halt,
    /// An access to guest-physical memory with no RAM behind it.
    MemoryAccess { gpa: u64 },
    IoPortAccess { port: u16 },
    Cpuid(CpuidAccess),
    MsrAccess(MsrAccess),
    UnrecoverableException,
    /// Any other reason, by its numeric code.
    Other(u32),
}

/// One exit of the virtual processor.
#[derive(Clone, Copy, Debug, PartialEq, Eq, Structural)]
pub struct ExitRecord {
    pub vp: VpContext,
    pub reason: ExitReason,
}

/// Why the monitor stopped the guest for good.
#[derive(Clone, Copy, Debug, PartialEq, Eq, Structural)]
pub enum Fault {
    UnrecoverableException,
    /// An exit reason the monitor does not handle, by its code.
    UnhandledExit(u32),
    /// The instruction emulator could not complete an instruction.
    EmulationFailed,
    /// A call into the hypervisor failed.
    BackendFailed,
}

/// The state of the run loop.
#[derive(Clone, Copy, Debug, PartialEq, Eq, Structural)]
pub enum VmState {
    Running,
    Halted,
    Faulted(Fault),
}

/// What the loop hands to the monitor.
#[derive(Clone, Copy, Debug, PartialEq, Eq, Structural)]
pub enum Event {
    /// The processor exited.
    Exit(ExitRecord),
    /// The instruction emulator finished, successfully or not.
    EmulationDone(bool),
    /// A call into the hypervisor failed.
    BackendFailed,
}

/// What the loop does next.
pub enum Action {
    /// Run the processor again.
    Resume,
    /// Set these registers as one request, then run the processor again.
    SetRegisters(RegisterBundle),
    /// Hand the faulting memory access to the instruction emulator.
    EmulateMmio,
    /// Hand the faulting port access to the instruction emulator.
    EmulateIo,
    /// Leave the loop; the state says why.
    Stop,
}

/// `rip` advanced by `len` bytes, wrapping at 2^64.
pub open spec fn next_rip(rip: u64, len: u8) -> u64 {
    ((rip as int + len as int) % 0x1_0000_0000_0000_0000) as u64
}

/// The address of the instruction after the one that caused the exit.
pub fn advance_rip(vp: VpContext) -> (r: u64)
    ensures
        r == next_rip(vp.rip, vp.instruction_length),
{
    let len = vp.instruction_length as u64;
    if vp.rip <= u64::MAX - len {
        vp.rip + len
    } else {
        vp.rip - (u64::MAX - len) - 1
    }
}

/// The little-endian 32-bit word made of bytes `4w .. 4w + 4` of `id`,
/// with bytes past its end read as zero.
pub open spec fn id_word(id: Seq<u8>, w: int) -> u32 {
    (id_byte(id, 4 * w) + 0x100 * id_byte(id, 4 * w + 1) + 0x1_0000 * id_byte(id, 4 * w + 2)
        + 0x100_0000 * id_byte(id, 4 * w + 3)) as u32
}

/// Byte `i` of `id`, or zero past its end.
pub open spec fn id_byte(id: Seq<u8>, i: int) -> int {
    if 0 <= i < id.len() {
        id[i] as int
    } else {
        0
    }
}

/// The identity this monitor reports to guests, NUL-terminated.
pub open spec fn vendor_id() -> Seq<u8> {
    seq![0x6cu8, 0x69, 0x62, 0x77, 0x68, 0x70, 0x00]
}

/// The answer to one CPUID leaf, as the hypervisor is told it.
#[derive(Clone, Copy, Debug, PartialEq, Eq, Structural)]
pub struct CpuidResult {
    pub function: u32,
    pub eax: u32,
    pub ebx: u32,
    pub ecx: u32,
    pub edx: u32,
}

/// Byte `i` of `id`, or zero past its end.
fn id_byte_at(id: &Vec<u8>, i: usize) -> (b: u32)
    ensures
        b as int == id_byte(id@, i as int),
{
    if i < id.len() {
        id[i] as u32
    } else {
        0
    }
}

/// Word `w` of the identity `id`, packed little-endian.
fn id_word_at(id: &Vec<u8>, w: usize) -> (r: u32)
    requires
        w < 3,
    ensures
        r == id_word(id@, w as int),
{
    id_byte_at(id, 4 * w) + 0x100 * id_byte_at(id, 4 * w + 1) + 0x1_0000 * id_byte_at(id, 4 * w + 2)
        + 0x100_0000 * id_byte_at(id, 4 * w + 3)
}

/// The vendor leaf: the identity `id` (at most twelve bytes) placed across
/// EBX, ECX and EDX, four bytes each, little-endian, zero-padded.
pub fn vendor_leaf(id: &Vec<u8>) -> (r: CpuidResult)
    requires
        id@.len() <= 12,
    ensures
        r.function == CPUID_VENDOR_LEAF,
        r.eax == 0,
        r.ebx == id_word(id@, 0),
        r.ecx == id_word(id@, 1),
        r.edx == id_word(id@, 2),
{
    CpuidResult {
        function: 0x4000_0000,
        eax: 0,
        ebx: id_word_at(id, 0),
        ecx: id_word_at(id, 1),
        edx: id_word_at(id, 2),
    }
}

/// The vendor leaf of this monitor.
pub fn hypervisor_vendor_leaf() -> (r: CpuidResult)
    ensures
        r.function == CPUID_VENDOR_LEAF,
        r.eax == 0,
        r.ebx == id_word(vendor_id(), 0),
        r.ecx == id_word(vendor_id(), 1),
        r.edx == id_word(vendor_id(), 2),
{
    let id: Vec<u8> = vec![0x6cu8, 0x69, 0x62, 0x77, 0x68, 0x70, 0x00];
    assert(id@ =~= vendor_id());
    vendor_leaf(&id)
}

/// Whether the monitor answers CPUID leaf `leaf` itself.
pub open spec fn cpuid_leaf_known_spec(leaf: u64) -> bool {
    leaf == CPUID_FEATURE_LEAF || leaf == CPUID_VENDOR_LEAF
}

/// Whether the monitor answers CPUID leaf `leaf` itself; other leaves get
/// the hardware's answer.
pub fn cpuid_leaf_known(leaf: u64) -> (r: bool)
    ensures
        r == cpuid_leaf_known_spec(leaf),
{
    leaf == CPUID_FEATURE_LEAF || leaf == CPUID_VENDOR_LEAF
}

/// Whether the monitor emulates MSR `number`; others read as zero and
/// writes to them are dropped.
pub fn msr_known(number: u32) -> (r: bool)
    ensures
        r == (number == EMULATED_MSR),
{
    number == EMULATED_MSR
}

/// RAX, RBX, RCX and RDX after a CPUID instruction.
pub open spec fn cpuid_answer(c: CpuidAccess) -> (u64, u64, u64, u64) {
    if c.leaf == CPUID_FEATURE_LEAF {
        (c.default_rax, c.default_rbx, CPUID_EXT_HYPERVISOR, c.default_rdx)
    } else if c.leaf == CPUID_VENDOR_LEAF {
        (
            c.default_rax,
            id_word(vendor_id(), 0) as u64,
            id_word(vendor_id(), 1) as u64,
            id_word(vendor_id(), 2) as u64,
        )
    } else {
        (c.default_rax, c.default_rbx, c.default_rcx, c.default_rdx)
    }
}

/// The registers written back after a CPUID instruction: RIP past it, then
/// RAX, RBX, RCX and RDX.
pub open spec fn cpuid_registers(vp: VpContext, c: CpuidAccess) -> Seq<(RegisterName, RegisterValue)> {
    let (a, b, cx, d) = cpuid_answer(c);
    seq![
        (RegisterName::Rip, RegisterValue::Reg64(next_rip(vp.rip, vp.instruction_length))),
        (RegisterName::Rax, RegisterValue::Reg64(a)),
        (RegisterName::Rbx, RegisterValue::Reg64(b)),
        (RegisterName::Rcx, RegisterValue::Reg64(cx)),
        (RegisterName::Rdx, RegisterValue::Reg64(d)),
    ]
}

/// The registers written back after an MSR access: RIP past the
/// instruction; for a read also RAX and RDX with the MSR's value (zero for
/// one that is not emulated). A write is dropped.
pub open spec fn msr_registers(vp: VpContext, m: MsrAccess) -> Seq<(RegisterName, RegisterValue)> {
    let rip = (RegisterName::Rip, RegisterValue::Reg64(next_rip(vp.rip, vp.instruction_length)));
    if m.is_write {
        seq![rip]
    } else if m.number == EMULATED_MSR {
        seq![
            rip,
            (RegisterName::Rax, RegisterValue::Reg64(EMULATED_MSR_RAX)),
            (RegisterName::Rdx, RegisterValue::Reg64(EMULATED_MSR_RDX)),
        ]
    } else {
        seq![
            rip,
            (RegisterName::Rax, RegisterValue::Reg64(0)),
            (RegisterName::Rdx, RegisterValue::Reg64(0)),
        ]
    }
}

/// The bundle that completes a CPUID instruction.
pub fn handle_cpuid(vp: VpContext, c: CpuidAccess) -> (b: RegisterBundle)
    ensures
        b.wf(),
        b@ == cpuid_registers(vp, c),
{
    let mut rax = c.default_rax;
    let mut rbx = c.default_rbx;
    let mut rcx = c.default_rcx;
    let mut rdx = c.default_rdx;
    if c.leaf == CPUID_FEATURE_LEAF {
        rcx = CPUID_EXT_HYPERVISOR;
    } else if c.leaf == CPUID_VENDOR_LEAF {
        let v = hypervisor_vendor_leaf();
        rbx = v.ebx as u64;
        rcx = v.ecx as u64;
        rdx = v.edx as u64;
    }
    let mut b = RegisterBundle::new();
    b.push(RegisterName::Rip, RegisterValue::Reg64(advance_rip(vp)));
    b.push(RegisterName::Rax, RegisterValue::Reg64(rax));
    b.push(RegisterName::Rbx, RegisterValue::Reg64(rbx));
    b.push(RegisterName::Rcx, RegisterValue::Reg64(rcx));
    b.push(RegisterName::Rdx, RegisterValue::Reg64(rdx));
    assert(b@ =~= cpuid_registers(vp, c));
    b
}

/// The bundle that completes an MSR access.
pub fn handle_msr(vp: VpContext, m: MsrAccess) -> (b: RegisterBundle)
    ensures
        b.wf(),
        b@ == msr_registers(vp, m),
{
    let mut b = RegisterBundle::new();
    b.push(RegisterName::Rip, RegisterValue::Reg64(advance_rip(vp)));
    if !m.is_write {
        let (rax, rdx) = if m.number == EMULATED_MSR {
            (EMULATED_MSR_RAX, EMULATED_MSR_RDX)
        } else {
            (0, 0)
        };
        b.push(RegisterName::Rax, RegisterValue::Reg64(rax));
        b.push(RegisterName::Rdx, RegisterValue::Reg64(rdx));
    }
    assert(b@ =~= msr_registers(vp, m));
    b
}

/// The state after handling `e` in state `s`.
pub open spec fn next_state(s: VmState, e: Event) -> VmState {
    match s {
        VmState::Running => match e {
            Event::Exit(x) => match x.reason {
                ExitReason::Halt => VmState::Halted,
                ExitReason::UnrecoverableException => VmState::Faulted(
                    Fault::UnrecoverableException,
                ),
                ExitReason::Other(code) => VmState::Faulted(Fault::UnhandledExit(code)),
                _ => VmState::Running,
            },
            Event::EmulationDone(ok) => if ok {
                VmState::Running
            } else {
                VmState::Faulted(Fault::EmulationFailed)
            },
            Event::BackendFailed => VmState::Faulted(Fault::BackendFailed),
        },
        _ => s,
    }
}

/// What the loop does after `e` in state `s`.
pub open spec fn action_matches(s: VmState, e: Event, a: Action) -> bool {
    if next_state(s, e) != VmState::Running {
        a is Stop
    } else {
        match e {
            Event::Exit(x) => match x.reason {
                ExitReason::MemoryAccess { .. } => a is EmulateMmio,
                ExitReason::IoPortAccess { .. } => a is EmulateIo,
                ExitReason::Cpuid(c) => match a {
                    Action::SetRegisters(b) => b.wf() && b@ == cpuid_registers(x.vp, c),
                    _ => false,
                },
                ExitReason::MsrAccess(m) => match a {
                    Action::SetRegisters(b) => b.wf() && b@ == msr_registers(x.vp, m),
                    _ => false,
                },
                _ => false,
            },
            _ => a is Resume,
        }
    }
}

/// The monitor's side of the run loop.
pub struct Monitor {
    state: VmState,
}

impl View for Monitor {
    type V = VmState;

    closed spec fn view(&self) -> VmState {
        self.state
    }
}

impl Monitor {
    /// A monitor whose guest is about to run.
    pub fn new() -> (m: Monitor)
        ensures
            m@ == VmState::Running,
    {
        Monitor { state: VmState::Running }
    }

    /// The state of the loop.
    pub fn state(&self) -> (s: VmState)
        ensures
            s == self@,
    {
        self.state
    }

    /// Whether the loop should run the processor again.
    pub fn is_running(&self) -> (r: bool)
        ensures
            r == (self@ == VmState::Running),
    {
        self.state == VmState::Running
    }

    /// Handles one event: moves to the next state and says what the loop
    /// does. Once halted or faulted the monitor stays so and every action is
    /// `Stop`.
    pub fn step(&mut self, e: Event) -> (a: Action)
        ensures
            final(self)@ == next_state(old(self)@, e),
            action_matches(old(self)@, e, a),
    {
        if self.state != VmState::Running {
            return Action::Stop;
        }
        match e {
            Event::Exit(x) => match x.reason {
                ExitReason::Halt => {
                    self.state = VmState::Halted;
                    Action::Stop
                },
                ExitReason::MemoryAccess { .. } => Action::EmulateMmio,
                ExitReason::IoPortAccess { .. } => Action::EmulateIo,
                ExitReason::Cpuid(c) => Action::SetRegisters(handle_cpuid(x.vp, c)),
                ExitReason::MsrAccess(m) => Action::SetRegisters(handle_msr(x.vp, m)),
                ExitReason::UnrecoverableException => {
                    self.state = VmState::Faulted(Fault::UnrecoverableException);
                    Action::Stop
                },
                ExitReason::Other(code) => {
                    self.state = VmState::Faulted(Fault::UnhandledExit(code));
                    Action::Stop
                },
            },
            Event::EmulationDone(ok) => {
                if ok {
                    Action::Resume
                } else {
                    self.state = VmState::Faulted(Fault::EmulationFailed);
                    Action::Stop
                }
            },
            Event::BackendFailed => {
                self.state = VmState::Faulted(Fault::BackendFailed);
                Action::Stop
            },
        }
    }
}

/// From the running state, memory-access, port-access, CPUID and MSR exits
/// keep the loop running; a halt ends it in success; an unrecoverable
/// exception or any other reason ends it in failure. Once the loop has
/// ended, no event moves it again, so the processor is never run again.
pub proof fn lemma_exit_outcomes(x: ExitRecord, later: Event)
    ensures
        (x.reason is MemoryAccess || x.reason is IoPortAccess || x.reason is Cpuid
            || x.reason is MsrAccess) ==> next_state(VmState::Running, Event::Exit(x))
            == VmState::Running,
        x.reason is Halt ==> next_state(VmState::Running, Event::Exit(x)) == VmState::Halted,
        (x.reason is UnrecoverableException || x.reason is Other) ==> next_state(
            VmState::Running,
            Event::Exit(x),
        ) is Faulted,
        next_state(VmState::Running, Event::Exit(x)) != VmState::Running ==> next_state(
            next_state(VmState::Running, Event::Exit(x)),
            later,
        ) == next_state(VmState::Running, Event::Exit(x)),
{
}

/// A CPUID exit for the feature leaf sets the hypervisor-present bit in ECX
/// and moves RIP forward by exactly the reported instruction length.
pub proof fn lemma_cpuid_feature_leaf(vp: VpContext, c: CpuidAccess)
    requires
        c.leaf == CPUID_FEATURE_LEAF,
    ensures
        cpuid_registers(vp, c)[3].0 == RegisterName::Rcx,
        cpuid_registers(vp, c)[3].1 matches RegisterValue::Reg64(ecx) && ecx
            & CPUID_EXT_HYPERVISOR != 0,
        cpuid_registers(vp, c)[0] == (
            RegisterName::Rip,
            RegisterValue::Reg64(next_rip(vp.rip, vp.instruction_length)),
        ),
        vp.rip + vp.instruction_length <= u64::MAX ==> next_rip(vp.rip, vp.instruction_length)
            == vp.rip + vp.instruction_length,
{
    assert(CPUID_EXT_HYPERVISOR & CPUID_EXT_HYPERVISOR != 0) by (bit_vector);
}

/// An MSR write to the emulated MSR writes back RIP alone; a read of it
/// writes back RIP, RAX and RDX.
pub proof fn lemma_msr_write_counts(vp: VpContext, m: MsrAccess)
    requires
        m.number == EMULATED_MSR,
    ensures
        m.is_write ==> msr_registers(vp, m).len() == 1 && msr_registers(vp, m)[0].0
            == RegisterName::Rip,
        !m.is_write ==> msr_registers(vp, m).len() == 3 && msr_registers(vp, m)[0].0
            == RegisterName::Rip && msr_registers(vp, m)[1].0 == RegisterName::Rax
            && msr_registers(vp, m)[2].0 == RegisterName::Rdx,
{
}

} // verus!
