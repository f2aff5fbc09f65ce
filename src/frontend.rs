//! Checks of the scoring frontend's settings.
use vstd::prelude::*;

use crate::config::{get_profile_config, has_key, ConfigError, RcdsConfig};

verus! {

/// Checks that the profile `profile_name`, whose frontend settings the sync
/// reads, exists.
pub fn check(config: &RcdsConfig, profile_name: &str) -> (r: Result<(), ConfigError>)
    ensures
        r is Ok <==> has_key(config.profiles@, profile_name@),
        r is Err ==> r->Err_0 is ProfileNotFound,
{
    get_profile_config(config, profile_name)?;
    Ok(())
}

} // verus!
