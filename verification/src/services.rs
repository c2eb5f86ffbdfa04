//! Feature toggles for the optional external services the application can
//! attach (AI narration, cloud sync). The core player works with both off.

use vstd::prelude::*;

verus! {

/// Which optional services are enabled.
#[derive(Debug, Clone, PartialEq, Eq, Structural)]
pub struct ServiceManager {
    pub ai_service_enabled: bool,
    pub sync_service_enabled: bool,
}

impl ServiceManager {
    /// A fresh manager with every service off.
    pub fn new() -> (r: Self)
        ensures
            !r.ai_service_enabled,
            !r.sync_service_enabled,
    {
        ServiceManager { ai_service_enabled: false, sync_service_enabled: false }
    }

    /// Turn the AI service on; never fails.
    pub fn initialize_ai_service(&mut self) -> (r: Result<(), &'static str>)
        ensures
            r is Ok,
            final(self).ai_service_enabled,
            final(self).sync_service_enabled == old(self).sync_service_enabled,
    {
        self.ai_service_enabled = true;
        Ok(())
    }

    /// Turn the sync service on; never fails.
    pub fn initialize_sync_service(&mut self) -> (r: Result<(), &'static str>)
        ensures
            r is Ok,
            final(self).sync_service_enabled,
            final(self).ai_service_enabled == old(self).ai_service_enabled,
    {
        self.sync_service_enabled = true;
        Ok(())
    }
}

impl Default for ServiceManager {
    /// Same as `new`: every service off.
    fn default() -> (r: Self)
        ensures
            !r.ai_service_enabled,
            !r.sync_service_enabled,
    {
        ServiceManager::new()
    }
}

} // verus!
