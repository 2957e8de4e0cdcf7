use arion_engine::common::global_def::{
    ARION_BUF_SZ, ARION_CYCLES_PER_THREAD, ARION_FD_SZ, ARION_LOG_LEVEL, ARION_MAX_U32,
    ARION_MAX_U64, ARION_PROCESS_PID, ARION_SYSTEM_PAGE_SZ, ARION_UNIX_PATH_MAX, ARION_UUID_SZ,
    CPU_ARCH, EMPTY, LINKAGE_TYPE, RVAL, RVAL128, RVAL256, RVAL512, SEGMENT, SIGNAL,
};

#[test]
fn constants_have_their_values() {
    assert_eq!(ARION_BUF_SZ, 4096);
    assert_eq!(ARION_UUID_SZ, 36);
    assert_eq!(ARION_SYSTEM_PAGE_SZ, 4096);
    assert_eq!(ARION_FD_SZ, 4);
    assert_eq!(ARION_UNIX_PATH_MAX, 108);
    assert_eq!(ARION_PROCESS_PID, 1);
    assert_eq!(ARION_CYCLES_PER_THREAD, 4096);
    assert_eq!(EMPTY, 0);
}

#[test]
fn max_constants_are_type_maxima() {
    assert_eq!(ARION_MAX_U32, u32::MAX);
    assert_eq!(ARION_MAX_U64, u64::MAX);
}

#[test]
fn wide_register_values_have_their_byte_widths() {
    assert_eq!(std::mem::size_of::<RVAL128>(), 16);
    assert_eq!(std::mem::size_of::<RVAL256>(), 32);
    assert_eq!(std::mem::size_of::<RVAL512>(), 64);
    assert_eq!(std::mem::size_of::<RVAL>(), 64);
}

#[test]
fn register_values_of_each_width_can_be_built() {
    let _narrow = RVAL { r8: 0x7f };
    let _half = RVAL { r16: 0x7fff };
    let _word = RVAL { r32: 0x7fff_ffff };
    let _wide = RVAL { r64: 0xdead_beef };
    let _xmm = RVAL { r128: [7u8; 16] };
    let _ymm = RVAL { r256: [1u8; 32] };
    let _zmm = RVAL { r512: [2u8; 64] };
}

#[test]
fn segment_keeps_its_fields() {
    let s = SEGMENT { virt_addr: 0x1000, file_addr: 0x40, align: 0x1000, virt_sz: 0x2000, phy_sz: 0x1800, flags: 5 };
    assert_eq!(s.virt_addr, 0x1000);
    assert_eq!(s.file_addr, 0x40);
    assert_eq!(s.align, 0x1000);
    assert_eq!(s.virt_sz, 0x2000);
    assert_eq!(s.phy_sz, 0x1800);
    assert_eq!(s.flags, 5);
}

#[test]
fn signal_new_stores_sender_and_number() {
    let s = SIGNAL::new(42, 9);
    assert_eq!(s.source_pid, 42);
    assert_eq!(s.signo, 9);
    let t = SIGNAL::new(-1, 15);
    assert_eq!(t.source_pid, -1);
    assert_eq!(t.signo, 15);
}

#[test]
fn log_level_debug_is_one() {
    assert_eq!(ARION_LOG_LEVEL::DEBUG as i32, 1);
    assert_eq!(ARION_LOG_LEVEL::DEBUG.code(), 1);
}

#[test]
fn log_level_codes_match_discriminants() {
    let all = [
        ARION_LOG_LEVEL::TRACE,
        ARION_LOG_LEVEL::DEBUG,
        ARION_LOG_LEVEL::INFO,
        ARION_LOG_LEVEL::WARN,
        ARION_LOG_LEVEL::ERROR,
        ARION_LOG_LEVEL::CRITICAL,
        ARION_LOG_LEVEL::OFF,
    ];
    for (i, level) in all.iter().enumerate() {
        assert_eq!(level.code(), i as i32);
        assert_eq!(level.code(), *level as i32);
    }
}

#[test]
fn cpu_arch_codes_match_discriminants() {
    let all = [
        CPU_ARCH::UNKNOWN_ARCH,
        CPU_ARCH::X86_ARCH,
        CPU_ARCH::X8664_ARCH,
        CPU_ARCH::ARM_ARCH,
        CPU_ARCH::ARM64_ARCH,
    ];
    for (i, arch) in all.iter().enumerate() {
        assert_eq!(arch.code(), i as i32);
        assert_eq!(arch.code(), *arch as i32);
    }
}

#[test]
fn linkage_codes_match_discriminants() {
    let all = [
        LINKAGE_TYPE::UNKNOWN_LINKAGE,
        LINKAGE_TYPE::DYNAMIC_LINKAGE,
        LINKAGE_TYPE::STATIC_LINKAGE,
    ];
    for (i, linkage) in all.iter().enumerate() {
        assert_eq!(linkage.code(), i as i32);
        assert_eq!(linkage.code(), *linkage as i32);
    }
}

#[test]
fn enums_are_copy_and_debug() {
    let a = CPU_ARCH::X8664_ARCH;
    let b = a;
    assert_eq!(format!("{:?}", a), "X8664_ARCH");
    assert_eq!(format!("{:?}", b), "X8664_ARCH");
    assert_eq!(format!("{:?}", LINKAGE_TYPE::STATIC_LINKAGE), "STATIC_LINKAGE");
    assert_eq!(format!("{:?}", ARION_LOG_LEVEL::OFF), "OFF");
}
