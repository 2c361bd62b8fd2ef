use ones_riscv::cpu::data_registers::DataReg;
use ones_riscv::cpu::timer::{Handler as Timer, Record};
use ones_riscv::cpu::{satp, user_status, Handler, Mode, ResetReason};
use std::cmp::Ordering;

#[test]
fn mode_values() {
    assert_eq!(Mode::Bare.value(), 0);
    assert_eq!(Mode::Sv39.value(), 8);
    assert_eq!(Mode::Sv48.value(), 9);
}

#[test]
fn satp_selects_sv39() {
    assert_eq!(satp(0x80200), 0x8000_0000_0008_0200);
    assert_eq!(satp(0), 0x8000_0000_0000_0000);
    assert_eq!(satp(0x80200) >> 60, 8);
}

#[test]
fn user_status_clears_spp() {
    assert_eq!(user_status(0x122), 0x22);
    assert_eq!(user_status(0x22), 0x22);
    assert_eq!(user_status(u64::MAX), 0x8000_0003_000d_e662);
    assert_eq!(user_status(0), 0);
}

#[test]
fn shutdown_reasons() {
    assert_eq!(Handler::shutdown_reason(false), ResetReason::NoReason);
    assert_eq!(Handler::shutdown_reason(true), ResetReason::SystemFailure);
}

#[test]
fn data_register_accessors() {
    let mut r = DataReg::empty();
    assert_eq!(r.0, [0usize; 32]);
    r.0[17] = 64;
    r.0[10] = 1;
    r.0[11] = 2;
    r.0[12] = 3;
    assert_eq!(r.iid(), 64);
    assert_eq!(r.iret(), 1);
    assert_eq!(r.iarg(), [1, 2, 3]);
    r.iret_set(99);
    assert_eq!(r.iret(), 99);
    assert_eq!(r.iarg(), [99, 2, 3]);
    r.sp_set(0x8000);
    assert_eq!(r.0[2], 0x8000);
}

#[test]
fn next_trigger_is_one_interval_later() {
    assert_eq!(Timer::next_trigger(1000), 126_000);
    assert_eq!(Timer::next_trigger(0), 125_000);
}

#[test]
fn records_order_by_reverse_expiry() {
    let early = Record { expire: 10 };
    let late = Record { expire: 20 };
    assert_eq!(early.partial_cmp(&late), Some(Ordering::Greater));
    assert_eq!(late.partial_cmp(&early), Some(Ordering::Less));
    assert_eq!(early.partial_cmp(&Record { expire: 10 }), Some(Ordering::Equal));
    assert!(early == Record { expire: 10 });
}

#[test]
fn record_keys() {
    assert_eq!(Record { expire: 5 }.key(), -5);
    assert_eq!(Record { expire: usize::MAX }.key(), 1);
    assert_eq!(Record { expire: isize::MAX as usize }.key(), -isize::MAX);
    // a key past the signed range compares above every key of a small expiry
    assert_eq!(Record { expire: usize::MAX }.partial_cmp(&Record { expire: 0 }), Some(Ordering::Greater));
}

#[test]
fn satp_fields() {
    let s = satp(0xfff_ffff_ffff);
    assert_eq!(s >> 60, 8);
    assert_eq!(s & 0xfff_ffff_ffff, 0xfff_ffff_ffff);
    assert_eq!((s >> 44) & 0xffff, 0);
}
