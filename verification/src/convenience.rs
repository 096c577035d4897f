//! Convenience constructor: everything from the observed environment state
//! to a ready-to-use sink in one call.

use crate::config_from_env::ConfigFromEnvError;
use crate::config_from_env::EnvSnapshot;
use crate::config_from_env::config_from_env;
use crate::config_from_env::spec_env_resolves;
use crate::config_from_env::spec_load_error;
use crate::config_from_env::spec_resolved_config;
use crate::config::spec_build_plan;
use crate::drain::ReadySink;
use vstd::prelude::*;

verus! {

/// Build a ready-to-use sink from the observed environment state. The result
/// is asynchronously buffered and ready for `slog::Logger::root`. Fails
/// exactly when loading the configuration fails; once the configuration is
/// resolved, building cannot fail.
pub fn drain_from_env(env: EnvSnapshot) -> (r: Result<ReadySink, ConfigFromEnvError>)
    ensures
        r matches Ok(s) ==> spec_env_resolves(env) && s@ == spec_build_plan(
            spec_resolved_config(env),
        ),
        r matches Err(e) ==> !spec_env_resolves(env) && spec_load_error(env, e),
{
    match config_from_env(env) {
        Ok(cfg) => Ok(cfg.build()),
        Err(e) => Err(e),
    }
}

} // verus!
