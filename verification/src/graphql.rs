//! The media operations as exposed to the transport layer, in the
//! deployment variant that gates uploads behind an authorization check
//! and announces each successful upload to the event gateway.

pub mod mutation;
