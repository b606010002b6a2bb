//! Locations inside the launcher's data directory. The root is injected by
//! the caller, so path resolution never reads the host environment.

use vstd::prelude::*;
use crate::text::concat_strs;

verus! {

/// The directory that holds one game instance per server profile.
pub fn get_instances_dir_path(game_data_dir: &str) -> (r: String)
    ensures
        r@ == game_data_dir@ + "/instances"@,
{
    concat_strs(game_data_dir, "/instances")
}

/// The directory shared by all instances: versions, libraries and assets.
pub fn get_common_dir_path(game_data_dir: &str) -> (r: String)
    ensures
        r@ == game_data_dir@ + "/common"@,
{
    concat_strs(game_data_dir, "/common")
}

} // verus!
