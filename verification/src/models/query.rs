//! The parameters of a listing.

use vstd::prelude::*;

verus! {

/// The query of a request that lists settings.
#[derive(Clone, Debug)]
pub struct GetSettingsQueryParams {
    /// Only the settings whose key starts with this text are listed.
    pub prefix: String,
}

impl Default for GetSettingsQueryParams {
    /// The empty prefix, with which every setting is listed.
    fn default() -> (params: GetSettingsQueryParams)
        ensures
            params.prefix@ == Seq::<char>::empty(),
    {
        GetSettingsQueryParams { prefix: String::new() }
    }
}

} // verus!
