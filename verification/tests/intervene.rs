use ones_riscv::concurrency::thread::context::Context;
use ones_riscv::cpu::satp;
use ones_riscv::intervene::context::UserContext;
use ones_riscv::intervene::system_call::Handler as SyscallHandler;
use ones_riscv::intervene::{Cause, Data, KernelInfo, Lib};

#[test]
fn cause_of_external_interrupt() {
    assert_eq!(Lib::cause(0x8000_0000_0000_0009), Cause::External);
}

#[test]
fn cause_of_other_interrupts_is_unknown() {
    assert_eq!(Lib::cause(0x8000_0000_0000_0005), Cause::Unknown);
    assert_eq!(Lib::cause(0x8000_0000_0000_0003), Cause::Unknown);
    assert_eq!(Lib::cause(0x8000_0000_0000_0008), Cause::Unknown);
}

#[test]
fn cause_of_exceptions() {
    assert_eq!(Lib::cause(3), Cause::Breakpoint);
    assert_eq!(Lib::cause(8), Cause::EnvCall);
    assert_eq!(Lib::cause(9), Cause::Unknown);
    assert_eq!(Lib::cause(13), Cause::Unknown);
}

fn data(pc: usize) -> Data {
    Data {
        cx: Context { data_reg: [7; 32], status: 0x20, pc },
        ki: KernelInfo { addr_trans: 1, service: 2, sp: 3 },
    }
}

#[test]
fn breakpoint_skips_compressed_instruction() {
    let mut d = data(0x1000);
    Lib::breakpoiont(&mut d);
    assert_eq!(d.cx.pc, 0x1002);
    assert_eq!(d.cx.data_reg, [7; 32]);
    assert_eq!(d.cx.status, 0x20);
    assert_eq!(d.ki, KernelInfo { addr_trans: 1, service: 2, sp: 3 });
}

#[test]
fn layout_relocates_handlers() {
    let r = Lib::layout(0x8020_1000, 0x8020_1100, 0x8020_1200, 0x8020_1340, 0x3_ffff);
    let base = 0x3_ffff * 4096;
    assert_eq!(r, (base, base + 0x100, base + 0x200, base + 0x340));
}

#[test]
fn user_satp_equals_sv39_satp() {
    assert_eq!(Lib::user_satp(0x80200), 0x8000_0000_0008_0200);
    assert_eq!(Lib::user_satp(0x80200), satp(0x80200));
}

#[test]
fn user_context_init() {
    let mut c = UserContext { x: [5; 32], status: 0, pc: 0 };
    c.init(0x122, 0x1_0000, 0x7fff_f000);
    let mut expected = [0usize; 32];
    expected[2] = 0x7fff_f000;
    assert_eq!(c.x, expected);
    assert_eq!(c.status, 0x22);
    assert_eq!(c.pc, 0x1_0000);
}

#[test]
fn user_context_registers() {
    let mut c = UserContext { x: [0; 32], status: 0, pc: 0x100 };
    c.x[17] = 93;
    c.x[10] = 4;
    c.x[11] = 5;
    c.x[12] = 6;
    assert_eq!(c.iid(), 93);
    assert_eq!(c.iret(), 4);
    assert_eq!(c.iarg(), [4, 5, 6]);
    c.iret_set(0);
    assert_eq!(c.iret(), 0);
    c.sp_set(0x9000);
    assert_eq!(c.x[2], 0x9000);
    c.pc_add(4);
    assert_eq!(c.pc, 0x104);
}

#[test]
fn user_token_is_zero() {
    assert_eq!(SyscallHandler::current_user_token(), 0);
}

#[test]
fn return_to_user_values() {
    let r = Lib::return_to_user(0x8020_1000, 0x8020_1100, 0x8020_1200, 0x8020_1340, 0x3_ffff, 0x3_fffe, 0x80300);
    assert_eq!(r, ones_riscv::intervene::UserReturn {
        handler_user: 0x3_ffff * 4096,
        load_user_context: 0x3_ffff * 4096 + 0x100,
        idata: 0x3_fffe * 4096,
        satp: 0x8000_0000_0008_0300,
    });
}
