pub mod error;
pub mod loader;
pub mod schema;

use crate::config::error::{ConfigError, ConfigFault};
use crate::config::schema::{config_fault, Config};
use crate::once::OnceSlot;
use std::sync::Arc;
use vstd::prelude::*;

verus! {

/// `Arc::clone` makes another pointer to the same shared value.
#[verifier::external_body]
fn share(shared: &Arc<Config>) -> (r: Arc<Config>)
    ensures
        r == *shared,
{
    Arc::clone(shared)
}

/// Loads the configuration and installs it in `slot`, the one place for
/// the configuration of the process. Nothing is installed if the candidate
/// is at fault; and a slot that is filled keeps its configuration, and the
/// attempt fails.
pub fn init_global_from_file(slot: &mut OnceSlot<Arc<Config>>, candidate: Config) -> (r: Result<
    (),
    ConfigError,
>)
    ensures
        r is Ok <==> config_fault(&candidate) is None && old(slot)@ is None,
        r matches Err(e) ==> e@ == (if config_fault(&candidate) is Some {
            config_fault(&candidate)->Some_0
        } else {
            ConfigFault::AlreadyInitialized
        }),
        r is Err ==> final(slot)@ == old(slot)@,
        r is Ok ==> (final(slot)@ matches Some(c) && *c == candidate),
{
    let shared = match loader::load_arc_from_file(candidate) {
        Err(e) => {
            return Err(e);
        },
        Ok(c) => c,
    };
    match slot.set(shared) {
        Ok(_) => Ok(()),
        Err(_) => Err(ConfigError::AlreadyInitialized),
    }
}

/// The installed configuration.
pub fn global(slot: &OnceSlot<Arc<Config>>) -> (r: Arc<Config>)
    requires
        slot@ is Some,
    ensures
        Some(r) == slot@,
{
    match slot.get() {
        Some(c) => share(c),
        None => vstd::pervasive::unreached(),
    }
}

} // verus!
