use whp_sample::device::{io_port, PortResponse, OUTPUT_PORT};
use whp_sample::exit::{
    advance_rip, cpuid_leaf_known, handle_cpuid, handle_msr, hypervisor_vendor_leaf, msr_known,
    vendor_leaf, Action, CpuidAccess, Event, ExitReason, ExitRecord, Fault, Monitor, MsrAccess,
    VmState, VpContext,
};
use whp_sample::paging::{read_entry, write_page_tables};
use whp_sample::regs::{
    entry_bundle, long_mode_bundle, RegisterBundle, RegisterFile, RegisterName, RegisterValue,
    SegmentRegister,
};

fn exit(rip: u64, len: u8, reason: ExitReason) -> ExitRecord {
    ExitRecord { vp: VpContext { rip, instruction_length: len }, reason }
}

fn reg64(v: u64) -> RegisterValue {
    RegisterValue::Reg64(v)
}

fn pairs(b: &RegisterBundle) -> Vec<(RegisterName, RegisterValue)> {
    b.names().iter().cloned().zip(b.values().iter().cloned()).collect()
}

#[test]
fn page_tables_at_base() {
    let mut mem = vec![0u8; 0x20_0000];
    let cr3 = write_page_tables(&mut mem, 0x2000);
    assert_eq!(cr3, 0x2000);
    assert_eq!(read_entry(&mem, 0x2000), 0x3007);
    assert_eq!(read_entry(&mem, 0x3000), 0x4007);
    assert_eq!(read_entry(&mem, 0x4000), 0x87);
    assert_eq!(&mem[0x2000..0x2008], &[0x07, 0x30, 0, 0, 0, 0, 0, 0]);
    assert_eq!(&mem[0x4000..0x4008], &[0x87, 0, 0, 0, 0, 0, 0, 0]);
    let nonzero = mem.iter().filter(|b| **b != 0).count();
    assert_eq!(nonzero, 5);
}

#[test]
fn page_tables_ignore_other_content() {
    let mut mem = vec![0xffu8; 0x8000];
    write_page_tables(&mut mem, 0x1000);
    assert_eq!(read_entry(&mem, 0x1000), 0x2007);
    assert_eq!(read_entry(&mem, 0x2000), 0x3007);
    assert_eq!(read_entry(&mem, 0x3000), 0x87);
    assert_eq!(mem[0x1008], 0xff);
    assert_eq!(mem[0x0fff], 0xff);
    assert_eq!(mem[0x4000], 0xff);
}

#[test]
fn page_tables_at_zero_fill_memory_exactly() {
    let mut mem = vec![0u8; 0x3000];
    write_page_tables(&mut mem, 0);
    assert_eq!(read_entry(&mem, 0), 0x1007);
    assert_eq!(read_entry(&mem, 0x1000), 0x2007);
    assert_eq!(read_entry(&mem, 0x2000), 0x87);
}

#[test]
fn register_file_round_trip() {
    let mut regs = RegisterFile::new();
    let b = long_mode_bundle(0x2000);
    regs.set_registers(&b);
    let read = regs.get_registers(b.names());
    assert_eq!(&read, b.values());
    let e = entry_bundle(0, 2 << 20);
    regs.set_registers(&e);
    assert_eq!(&regs.get_registers(e.names()), e.values());
    assert_eq!(regs.get(RegisterName::Cr3), reg64(0x2000));
    assert_eq!(regs.get(RegisterName::Rsp), reg64(0x20_0000));
}

#[test]
fn register_file_starts_at_zero_and_keeps_unnamed() {
    let mut regs = RegisterFile::new();
    assert_eq!(regs.get(RegisterName::Rax), reg64(0));
    let mut b = RegisterBundle::new();
    b.push(RegisterName::Rbx, reg64(9));
    regs.set_registers(&b);
    assert_eq!(regs.get(RegisterName::Rax), reg64(0));
    assert_eq!(regs.get(RegisterName::Rbx), reg64(9));
}

#[test]
fn register_file_repeated_name_keeps_last() {
    let mut regs = RegisterFile::new();
    let mut b = RegisterBundle::new();
    b.push(RegisterName::Rax, reg64(1));
    b.push(RegisterName::Rax, reg64(2));
    assert_eq!(b.len(), 2);
    regs.set_registers(&b);
    assert_eq!(regs.get_registers(b.names()), vec![reg64(2), reg64(2)]);
}

#[test]
fn long_mode_bundle_contents() {
    let b = long_mode_bundle(0x2000);
    let data = RegisterValue::Segment(SegmentRegister {
        base: 0,
        limit: 0xffff_ffff,
        selector: 0x10,
        attributes: 3 + (1 << 7) + (1 << 15) + (1 << 13) + (1 << 4),
    });
    let code = RegisterValue::Segment(SegmentRegister {
        base: 0,
        limit: 0xffff_ffff,
        selector: 0x8,
        attributes: 11 + (1 << 7) + (1 << 15) + (1 << 13) + (1 << 4),
    });
    let cr0 = 1 | (1 << 1) | (1 << 4) | (1 << 5) | (1 << 16) | (1 << 18) | (1 << 31);
    assert_eq!(
        pairs(&b),
        vec![
            (RegisterName::Cr3, reg64(0x2000)),
            (RegisterName::Cr4, reg64(1 << 5)),
            (RegisterName::Cr0, reg64(cr0)),
            (RegisterName::Efer, reg64((1 << 8) | (1 << 10))),
            (RegisterName::Cs, code),
            (RegisterName::Ds, data),
            (RegisterName::Es, data),
            (RegisterName::Fs, data),
            (RegisterName::Gs, data),
            (RegisterName::Ss, data),
        ]
    );
}

#[test]
fn entry_bundle_contents() {
    let b = entry_bundle(0, 2 << 20);
    assert_eq!(
        pairs(&b),
        vec![
            (RegisterName::Rflags, reg64(2)),
            (RegisterName::Rip, reg64(0)),
            (RegisterName::Rsp, reg64(0x20_0000)),
        ]
    );
}

fn cpuid(leaf: u64) -> CpuidAccess {
    CpuidAccess { leaf, default_rax: 11, default_rbx: 22, default_rcx: 33, default_rdx: 44 }
}

#[test]
fn cpuid_feature_leaf_sets_hypervisor_bit() {
    let b = handle_cpuid(VpContext { rip: 0x100, instruction_length: 2 }, cpuid(1));
    assert_eq!(
        pairs(&b),
        vec![
            (RegisterName::Rip, reg64(0x102)),
            (RegisterName::Rax, reg64(11)),
            (RegisterName::Rbx, reg64(22)),
            (RegisterName::Rcx, reg64(0x8000_0000)),
            (RegisterName::Rdx, reg64(44)),
        ]
    );
}

#[test]
fn cpuid_vendor_leaf_reports_identity() {
    let b = handle_cpuid(VpContext { rip: 0x10, instruction_length: 2 }, cpuid(0x4000_0000));
    assert_eq!(b.values()[2], reg64(0x7762_696c));
    assert_eq!(b.values()[3], reg64(0x0000_7068));
    assert_eq!(b.values()[4], reg64(0));
    assert_eq!(b.values()[1], reg64(11));
}

#[test]
fn cpuid_unknown_leaf_uses_defaults() {
    assert!(!cpuid_leaf_known(7));
    assert!(cpuid_leaf_known(1));
    let b = handle_cpuid(VpContext { rip: 0x10, instruction_length: 3 }, cpuid(7));
    assert_eq!(
        b.values(),
        &vec![reg64(0x13), reg64(11), reg64(22), reg64(33), reg64(44)]
    );
}

#[test]
fn vendor_leaf_packs_bytes() {
    let v = hypervisor_vendor_leaf();
    assert_eq!(v.function, 0x4000_0000);
    assert_eq!((v.ebx, v.ecx, v.edx), (0x7762_696c, 0x0000_7068, 0));
    let w = vendor_leaf(&b"ABCDEFGHIJKL".to_vec());
    assert_eq!((w.ebx, w.ecx, w.edx), (0x4443_4241, 0x4847_4645, 0x4c4b_4a49));
    let e = vendor_leaf(&Vec::new());
    assert_eq!((e.eax, e.ebx, e.ecx, e.edx), (0, 0, 0, 0));
}

#[test]
fn rip_wraps_at_top_of_address_space() {
    assert_eq!(advance_rip(VpContext { rip: u64::MAX, instruction_length: 1 }), 0);
    assert_eq!(advance_rip(VpContext { rip: u64::MAX - 1, instruction_length: 3 }), 1);
    assert_eq!(advance_rip(VpContext { rip: 5, instruction_length: 0 }), 5);
}

#[test]
fn msr_write_sets_only_rip() {
    let m = MsrAccess { number: 1, is_write: true, rax: 5, rdx: 6 };
    let b = handle_msr(VpContext { rip: 0x20, instruction_length: 2 }, m);
    assert_eq!(pairs(&b), vec![(RegisterName::Rip, reg64(0x22))]);
}

#[test]
fn msr_read_sets_rip_rax_rdx() {
    let m = MsrAccess { number: 1, is_write: false, rax: 0, rdx: 0 };
    let b = handle_msr(VpContext { rip: 0x20, instruction_length: 2 }, m);
    assert_eq!(
        pairs(&b),
        vec![
            (RegisterName::Rip, reg64(0x22)),
            (RegisterName::Rax, reg64(1000)),
            (RegisterName::Rdx, reg64(1001)),
        ]
    );
}

#[test]
fn msr_unknown_reads_zero() {
    assert!(!msr_known(0x10));
    assert!(msr_known(1));
    let m = MsrAccess { number: 0x10, is_write: false, rax: 7, rdx: 8 };
    let b = handle_msr(VpContext { rip: 0, instruction_length: 2 }, m);
    assert_eq!(b.values(), &vec![reg64(2), reg64(0), reg64(0)]);
    let w = MsrAccess { number: 0x10, is_write: true, rax: 7, rdx: 8 };
    assert_eq!(handle_msr(VpContext { rip: 0, instruction_length: 2 }, w).len(), 1);
}

#[test]
fn steady_exits_keep_running() {
    let mut m = Monitor::new();
    let a = m.step(Event::Exit(exit(0, 3, ExitReason::MemoryAccess { gpa: 0x30_0000 })));
    assert!(matches!(a, Action::EmulateMmio));
    assert!(m.is_running());
    assert!(matches!(m.step(Event::EmulationDone(true)), Action::Resume));
    let a = m.step(Event::Exit(exit(0, 1, ExitReason::IoPortAccess { port: 42 })));
    assert!(matches!(a, Action::EmulateIo));
    let a = m.step(Event::Exit(exit(0, 2, ExitReason::Cpuid(cpuid(1)))));
    assert!(matches!(a, Action::SetRegisters(ref b) if b.len() == 5));
    let a = m.step(Event::Exit(exit(0, 2, ExitReason::MsrAccess(MsrAccess {
        number: 1,
        is_write: false,
        rax: 0,
        rdx: 0,
    }))));
    assert!(matches!(a, Action::SetRegisters(ref b) if b.len() == 3));
    assert_eq!(m.state(), VmState::Running);
}

#[test]
fn halt_ends_in_success() {
    let mut m = Monitor::new();
    assert!(matches!(m.step(Event::Exit(exit(0, 1, ExitReason::Halt))), Action::Stop));
    assert_eq!(m.state(), VmState::Halted);
    assert!(!m.is_running());
    let a = m.step(Event::Exit(exit(0, 2, ExitReason::Cpuid(cpuid(1)))));
    assert!(matches!(a, Action::Stop));
    assert_eq!(m.state(), VmState::Halted);
}

#[test]
fn unrecoverable_exception_is_fatal() {
    let mut m = Monitor::new();
    let a = m.step(Event::Exit(exit(0, 0, ExitReason::UnrecoverableException)));
    assert!(matches!(a, Action::Stop));
    assert_eq!(m.state(), VmState::Faulted(Fault::UnrecoverableException));
}

#[test]
fn unhandled_exit_is_fatal() {
    let mut m = Monitor::new();
    let a = m.step(Event::Exit(exit(0, 0, ExitReason::Other(0x1002))));
    assert!(matches!(a, Action::Stop));
    assert_eq!(m.state(), VmState::Faulted(Fault::UnhandledExit(0x1002)));
    m.step(Event::Exit(exit(0, 1, ExitReason::Halt)));
    assert_eq!(m.state(), VmState::Faulted(Fault::UnhandledExit(0x1002)));
}

#[test]
fn failed_emulation_and_backend_are_fatal() {
    let mut m = Monitor::new();
    m.step(Event::Exit(exit(0, 1, ExitReason::IoPortAccess { port: 1 })));
    assert!(matches!(m.step(Event::EmulationDone(false)), Action::Stop));
    assert_eq!(m.state(), VmState::Faulted(Fault::EmulationFailed));
    let mut n = Monitor::new();
    assert!(matches!(n.step(Event::BackendFailed), Action::Stop));
    assert_eq!(n.state(), VmState::Faulted(Fault::BackendFailed));
}

#[test]
fn output_port_forwards_bytes() {
    match io_port(OUTPUT_PORT, 1, 0x41) {
        PortResponse::Output(b) => assert_eq!(b, vec![0x41]),
        PortResponse::Unsupported => panic!("expected output"),
    }
    match io_port(42, 4, 0x4443_4241) {
        PortResponse::Output(b) => assert_eq!(b, b"ABCD".to_vec()),
        PortResponse::Unsupported => panic!("expected output"),
    }
    match io_port(42, 2, 0x0000_ff10) {
        PortResponse::Output(b) => assert_eq!(b, vec![0x10, 0xff]),
        PortResponse::Unsupported => panic!("expected output"),
    }
}

#[test]
fn other_port_is_unsupported() {
    assert!(matches!(io_port(0x3f8, 1, 0x41), PortResponse::Unsupported));
    assert!(matches!(io_port(43, 4, 0x41), PortResponse::Unsupported));
}

/// Drives the monitor over a scripted sequence of exits, acting as the
/// emulator for port exits through the device. Returns the number of runs
/// and the bytes sent to the output sink.
fn drive(m: &mut Monitor, exits: &[(ExitRecord, u16, u16, u32)]) -> (usize, Vec<u8>) {
    let mut runs = 0;
    let mut out = Vec::new();
    while m.is_running() {
        let (x, port, size, data) = exits[runs];
        runs += 1;
        match m.step(Event::Exit(x)) {
            Action::EmulateIo => {
                if let PortResponse::Output(b) = io_port(port, size, data) {
                    out.extend(b);
                }
                m.step(Event::EmulationDone(true));
            }
            Action::EmulateMmio => {
                m.step(Event::EmulationDone(true));
            }
            _ => {}
        }
    }
    (runs, out)
}

#[test]
fn halt_payload_runs_once() {
    let mut m = Monitor::new();
    let exits = [
        (exit(0, 1, ExitReason::Halt), 0, 0, 0),
        (exit(1, 1, ExitReason::Halt), 0, 0, 0),
    ];
    let (runs, out) = drive(&mut m, &exits);
    assert_eq!(runs, 1);
    assert!(out.is_empty());
    assert_eq!(m.state(), VmState::Halted);
}

#[test]
fn port_write_payload_outputs_one_byte() {
    let mut m = Monitor::new();
    let exits = [
        (exit(0, 1, ExitReason::IoPortAccess { port: 42 }), 42, 1, b'A' as u32),
        (exit(1, 1, ExitReason::Halt), 0, 0, 0),
    ];
    let (runs, out) = drive(&mut m, &exits);
    assert_eq!(runs, 2);
    assert_eq!(out, vec![b'A']);
    assert_eq!(m.state(), VmState::Halted);
}
