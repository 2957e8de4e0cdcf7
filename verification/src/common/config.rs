use vstd::prelude::*;

verus! {

/// The engine's configuration, as far as the library reads it: whether the
/// sleep family of system calls is emulated.
pub struct Config {
    enable_sleep_syscalls: bool,
}

impl Config {
    /// The value of the `enable_sleep_syscalls` setting held by this configuration.
    pub closed spec fn sleep_syscalls_enabled(&self) -> bool {
        self.enable_sleep_syscalls
    }

    /// Whether the sleep system calls are enabled in this configuration.
    pub fn is_enable_sleep_syscalls(&self) -> (enabled: bool)
        ensures
            enabled == self.sleep_syscalls_enabled(),
    {
        self.enable_sleep_syscalls
    }
}

/// Builds a configuration whose `enable_sleep_syscalls` setting is the given value.
pub fn new_config(enable_sleep_syscalls: bool) -> (config: Config)
    ensures
        config.sleep_syscalls_enabled() == enable_sleep_syscalls,
{
    Config { enable_sleep_syscalls }
}

} // verus!
