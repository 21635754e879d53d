//! The hook table that a module fills in when it is initialised.

use vstd::prelude::*;

verus! {

/// The address of a hook's entry point inside a loaded module.
///
/// The library never calls a hook. It records where the hook is, and the
/// embedding program turns the address into a call.
pub type HookAddress = usize;

/// What a module declares about itself: a validity flag, the size of the
/// memory it wants for each request's context, and up to five hooks.
///
/// A configuration starts zeroed, is written once by the module's
/// initialiser, and is read-only from then on.
#[derive(Clone, Copy, Debug, PartialEq, Eq)]
pub struct ModuleConfig {
    /// The validity flag. The initialiser sets it to 1; any other value
    /// means that the module did not initialise.
    pub ok: i8,
    pub server_context_mem_size: u32,
    pub context_init_hook: Option<HookAddress>,
    pub context_destroy_hook: Option<HookAddress>,
    pub before_request_hook: Option<HookAddress>,
    pub request_hook: Option<HookAddress>,
    pub response_hook: Option<HookAddress>,
}

impl ModuleConfig {
    /// Whether the initialiser marked the configuration as valid.
    pub open spec fn valid(&self) -> bool {
        self.ok == 1
    }

    /// The configuration in which nothing has been written yet.
    pub open spec fn zeroed() -> ModuleConfig {
        ModuleConfig {
            ok: 0,
            server_context_mem_size: 0,
            context_init_hook: None,
            context_destroy_hook: None,
            before_request_hook: None,
            request_hook: None,
            response_hook: None,
        }
    }

    /// The zeroed configuration that an initialiser is handed.
    pub fn new() -> (config: ModuleConfig)
        ensures
            config == ModuleConfig::zeroed(),
    {
        ModuleConfig {
            ok: 0,
            server_context_mem_size: 0,
            context_init_hook: None,
            context_destroy_hook: None,
            before_request_hook: None,
            request_hook: None,
            response_hook: None,
        }
    }

    /// Whether the initialiser marked the configuration as valid.
    pub fn is_valid(&self) -> (valid: bool)
        ensures
            valid == self.valid(),
    {
        self.ok == 1
    }
}

} // verus!
