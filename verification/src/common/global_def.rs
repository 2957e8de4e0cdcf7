use vstd::prelude::*;

verus! {

/// Size in bytes of the engine's general-purpose I/O buffers.
pub const ARION_BUF_SZ: usize = 0x1000;
/// Length in characters of a textual UUID.
pub const ARION_UUID_SZ: usize = 0x24;
/// Size in bytes of a page of the emulated system.
pub const ARION_SYSTEM_PAGE_SZ: usize = 0x1000;
/// Size in bytes of a file descriptor.
pub const ARION_FD_SZ: usize = 0x4;
/// Largest length of a Unix socket path, terminator included.
pub const ARION_UNIX_PATH_MAX: usize = 0x6C;
/// The largest value of a `u32`.
pub const ARION_MAX_U32: u32 = 0xFFFFFFFF;
/// The largest value of a `u64`.
pub const ARION_MAX_U64: u64 = 0xFFFFFFFFFFFFFFFF;
/// Process identifier of the first emulated process.
pub const ARION_PROCESS_PID: u32 = 0x1;
/// Number of emulated cycles each thread runs before the scheduler switches.
pub const ARION_CYCLES_PER_THREAD: u32 = 0x1000;

/// Marks an empty value (no descriptor, no size).
pub const EMPTY: usize = 0;

/// `ARION_MAX_U32` and `ARION_MAX_U64` are the largest values of their types.
pub proof fn lemma_limit_constants()
    ensures
        ARION_MAX_U32 == u32::MAX,
        ARION_MAX_U64 == u64::MAX,
{
}

/// An address in the emulated address space.
pub type ADDR = u64;
/// Memory protection flags of a segment.
pub type PROT_FLAGS = u8;
/// A byte.
pub type BYTE = u8;
/// The value of a general-purpose register.
pub type REG = u64;

/// Register values of each width.
pub type RVAL8 = u8;
pub type RVAL16 = u16;
pub type RVAL32 = u32;
pub type RVAL64 = u64;
pub type RVAL128 = [BYTE; 16];
pub type RVAL256 = [BYTE; 32];
pub type RVAL512 = [BYTE; 64];

/// A register value of any of the supported widths.
pub union RVAL {
    pub r8: RVAL8,
    pub r16: RVAL16,
    pub r32: RVAL32,
    pub r64: RVAL64,
    pub r128: RVAL128,
    pub r256: RVAL256,
    pub r512: RVAL512,
}

/// A loadable segment of an executable image and where it goes in memory.
pub struct SEGMENT {
    pub virt_addr: ADDR,
    pub file_addr: ADDR,
    pub align: usize,
    pub virt_sz: usize,
    pub phy_sz: usize,
    pub flags: PROT_FLAGS,
}

/// A signal sent to an emulated process, with the process that sent it.
pub struct SIGNAL {
    pub source_pid: libc::pid_t,
    pub signo: libc::c_int,
}

impl SIGNAL {
    /// A signal `signo` coming from the process `source_pid`.
    pub fn new(source_pid: libc::pid_t, signo: libc::c_int) -> (signal: Self)
        ensures
            signal.source_pid == source_pid,
            signal.signo == signo,
    {
        Self { source_pid, signo }
    }
}

/// How an executable is linked.
#[derive(Debug, Clone, Copy)]
pub enum LINKAGE_TYPE {
    UNKNOWN_LINKAGE,
    DYNAMIC_LINKAGE,
    STATIC_LINKAGE,
}

impl LINKAGE_TYPE {
    /// The number that stands for each linkage type across the C interface.
    pub open spec fn spec_code(self) -> i32 {
        match self {
            LINKAGE_TYPE::UNKNOWN_LINKAGE => 0,
            LINKAGE_TYPE::DYNAMIC_LINKAGE => 1,
            LINKAGE_TYPE::STATIC_LINKAGE => 2,
        }
    }

    /// The number that stands for this linkage type across the C interface.
    pub fn code(&self) -> (code: i32)
        ensures
            code == self.spec_code(),
    {
        match self {
            LINKAGE_TYPE::UNKNOWN_LINKAGE => 0,
            LINKAGE_TYPE::DYNAMIC_LINKAGE => 1,
            LINKAGE_TYPE::STATIC_LINKAGE => 2,
        }
    }
}

/// The processor architecture of the emulated program.
#[derive(Debug, Clone, Copy)]
pub enum CPU_ARCH {
    UNKNOWN_ARCH,
    X86_ARCH,
    X8664_ARCH,
    ARM_ARCH,
    ARM64_ARCH,
}

/// Two linkage types that share a number across the C interface are the same
/// linkage type, and each number lies in `0..3`.
pub proof fn lemma_linkage_codes_distinct(a: LINKAGE_TYPE, b: LINKAGE_TYPE)
    ensures
        a.spec_code() == b.spec_code() ==> a == b,
        0 <= a.spec_code() < 3,
{
}

impl CPU_ARCH {
    /// The number that stands for each architecture across the C interface.
    pub open spec fn spec_code(self) -> i32 {
        match self {
            CPU_ARCH::UNKNOWN_ARCH => 0,
            CPU_ARCH::X86_ARCH => 1,
            CPU_ARCH::X8664_ARCH => 2,
            CPU_ARCH::ARM_ARCH => 3,
            CPU_ARCH::ARM64_ARCH => 4,
        }
    }

    /// The number that stands for this architecture across the C interface.
    pub fn code(&self) -> (code: i32)
        ensures
            code == self.spec_code(),
    {
        match self {
            CPU_ARCH::UNKNOWN_ARCH => 0,
            CPU_ARCH::X86_ARCH => 1,
            CPU_ARCH::X8664_ARCH => 2,
            CPU_ARCH::ARM_ARCH => 3,
            CPU_ARCH::ARM64_ARCH => 4,
        }
    }
}

/// Two architectures that share a number across the C interface are the same
/// architecture, and each number lies in `0..5`.
pub proof fn lemma_arch_codes_distinct(a: CPU_ARCH, b: CPU_ARCH)
    ensures
        a.spec_code() == b.spec_code() ==> a == b,
        0 <= a.spec_code() < 5,
{
}

/// The engine's log levels, from the most verbose to none at all.
#[derive(Debug, Clone, Copy)]
pub enum ARION_LOG_LEVEL {
    TRACE,
    DEBUG,
    INFO,
    WARN,
    ERROR,
    CRITICAL,
    OFF,
}

impl ARION_LOG_LEVEL {
    /// The number that stands for each log level across the C interface.
    pub open spec fn spec_code(self) -> i32 {
        match self {
            ARION_LOG_LEVEL::TRACE => 0,
            ARION_LOG_LEVEL::DEBUG => 1,
            ARION_LOG_LEVEL::INFO => 2,
            ARION_LOG_LEVEL::WARN => 3,
            ARION_LOG_LEVEL::ERROR => 4,
            ARION_LOG_LEVEL::CRITICAL => 5,
            ARION_LOG_LEVEL::OFF => 6,
        }
    }

    /// The number that stands for this log level across the C interface.
    pub fn code(&self) -> (code: i32)
        ensures
            code == self.spec_code(),
    {
        match self {
            ARION_LOG_LEVEL::TRACE => 0,
            ARION_LOG_LEVEL::DEBUG => 1,
            ARION_LOG_LEVEL::INFO => 2,
            ARION_LOG_LEVEL::WARN => 3,
            ARION_LOG_LEVEL::ERROR => 4,
            ARION_LOG_LEVEL::CRITICAL => 5,
            ARION_LOG_LEVEL::OFF => 6,
        }
    }
}

/// Two log levels that share a number across the C interface are the same
/// level, each number lies in `0..7`, and `TRACE` through `CRITICAL` and `OFF`
/// are numbered in that order, from the most verbose to none at all.
pub proof fn lemma_log_level_codes(a: ARION_LOG_LEVEL, b: ARION_LOG_LEVEL)
    ensures
        a.spec_code() == b.spec_code() ==> a == b,
        0 <= a.spec_code() < 7,
        ARION_LOG_LEVEL::TRACE.spec_code() < ARION_LOG_LEVEL::DEBUG.spec_code(),
        ARION_LOG_LEVEL::DEBUG.spec_code() < ARION_LOG_LEVEL::INFO.spec_code(),
        ARION_LOG_LEVEL::INFO.spec_code() < ARION_LOG_LEVEL::WARN.spec_code(),
        ARION_LOG_LEVEL::WARN.spec_code() < ARION_LOG_LEVEL::ERROR.spec_code(),
        ARION_LOG_LEVEL::ERROR.spec_code() < ARION_LOG_LEVEL::CRITICAL.spec_code(),
        ARION_LOG_LEVEL::CRITICAL.spec_code() < ARION_LOG_LEVEL::OFF.spec_code(),
{
}

} // verus!
