use vstd::prelude::*;

use crate::configuration::Configuration;

verus! {

/// A client of the search cluster, holding its configuration.
pub struct TypesenseClient {
    pub configuration: Configuration,
}

impl TypesenseClient {
    /// A client with this configuration.
    pub fn new(configuration: Configuration) -> (r: TypesenseClient)
        ensures
            r.configuration == configuration,
    {
        TypesenseClient { configuration }
    }
}

} // verus!
