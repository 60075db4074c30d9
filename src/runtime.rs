//! The process-wide runtime state: set up once, read-only afterwards.
use vstd::prelude::*;

verus! {

/// The settings the host hands over when it sets up the runtime.
#[derive(Clone, Debug)]
pub struct RuntimeConfig {
    pub batch_size: usize,
    pub memory_budget: usize,
    pub temp_dirs: String,
}

/// Why setting up the runtime was refused.
#[derive(Clone, Copy, Debug, PartialEq, Eq, Structural)]
pub enum InitError {
    /// The runtime was set up before; the state stays as it was.
    AlreadyInitialized,
}

/// The runtime state: empty until the first successful set-up.
pub struct RuntimeState {
    config: Option<RuntimeConfig>,
}

impl RuntimeState {
    pub closed spec fn config(&self) -> Option<RuntimeConfig> {
        self.config
    }

    pub fn new() -> (r: RuntimeState)
        ensures
            r.config() is None,
    {
        RuntimeState { config: None }
    }

    /// Sets up the runtime; a second set-up is refused and changes nothing.
    pub fn initialize(&mut self, config: RuntimeConfig) -> (r: Result<(), InitError>)
        ensures
            old(self).config() is None ==> r is Ok && final(self).config() == Some(config),
            old(self).config() is Some ==> r == Err::<(), InitError>(InitError::AlreadyInitialized)
                && final(self).config() == old(self).config(),
    {
        if self.config.is_some() {
            return Err(InitError::AlreadyInitialized);
        }
        self.config = Some(config);
        Ok(())
    }

    pub fn is_initialized(&self) -> (r: bool)
        ensures
            r == self.config() is Some,
    {
        self.config.is_some()
    }

    /// The settings, once the runtime is set up.
    pub fn settings(&self) -> (r: Option<&RuntimeConfig>)
        ensures
            r == match self.config() {
                Some(c) => Some(&c),
                None => None::<&RuntimeConfig>,
            },
    {
        match &self.config {
            Some(c) => Some(c),
            None => None,
        }
    }
}

} // verus!
