//! Verified core of a man-in-the-middle proxy for the Blaze packet protocol
//! used by Mass Effect 3: packet headers and their request/response
//! relation, component identification, the redirector's answers, the
//! retriever's session and response matching, host lookup decisions and the
//! relay's forwarding decisions.

pub mod packet;
pub mod components;
pub mod models;
pub mod redirector;
pub mod opaque;
pub mod retriever;
pub mod relay;
pub mod laws;
pub mod tdf;

use vstd::prelude::*;

verus! {

/// The external address of the server. This address is what the system
/// hosts file redirects, so no other address is needed.
pub const EXTERNAL_HOST: &'static str = "gosredirector.ea.com";

/// The port the redirector server listens on.
pub const REDIRECTOR_PORT: u16 = 42127;

/// The port the main (proxy) server listens on.
pub const MAIN_PORT: u16 = 42128;

} // verus!
