use vstd::prelude::*;

verus! {

use vstd::string::*;

/// Default lifetime in seconds of issued presigned URLs: one day.
pub const DEFAULT_PATH_EXPIRATION_TIME: u32 = 86400;

/// Default public path prefix under which the store is reachable
/// through the reverse proxy.
pub open spec fn default_proxy_path() -> Seq<char> {
    "/api/media"@
}

/// Read-only configuration established once at process start and never
/// mutated thereafter.
pub struct MediaConfig {
    /// Lifetime in seconds of issued presigned URLs.
    pub path_expiration_time: u32,
    /// Public path prefix substituted for the store's internal path by
    /// the reverse proxy.
    pub proxy_path: String,
}

impl MediaConfig {
    /// The configuration used where the environment overrides nothing.
    pub fn with_defaults() -> (r: MediaConfig)
        ensures
            r.path_expiration_time == DEFAULT_PATH_EXPIRATION_TIME,
            r.proxy_path@ == default_proxy_path(),
    {
        MediaConfig {
            path_expiration_time: 86400,
            proxy_path: String::from_str("/api/media"),
        }
    }
}

} // verus!
