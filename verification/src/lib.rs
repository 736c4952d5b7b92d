//! Verified core of a desktop login pipeline: PKCE authorization-code
//! negotiation against an identity provider, interception of browser
//! redirects, CSRF validation, token exchange, game-session issuance and
//! identity resolution.
//!
//! The library holds the decision logic and the parsing; the surrounding
//! process (windows, HTTP transport) feeds it plain values and performs the
//! actions it decides on.
//!
//! The pipeline runs in five strict stages, each consuming the previous
//! stage's validated output:
//! - [`flow`] initiates an attempt: endpoints from the discovery document,
//!   fresh PKCE/CSRF/nonce material, the authorization URL;
//! - [`interceptor`] watches an ephemeral browser surface and captures the
//!   matching redirect exactly once;
//! - [`token`] validates the returned state and exchanges the code;
//! - [`session`] derives the hidden hybrid request and assembles the game
//!   session from its fragment and the issuance response;
//! - [`identity`] enumerates characters and resolves the account.
//!
//! [`query`], [`urlenc`] and [`bytes`] hold the URL and parameter parsing
//! these stages share; [`jsonio`], [`b64`] and [`random`] are the trusted
//! boundary to the outside crates; [`pipeline`] fixes the order of the
//! observable progress signals; [`window_finder`] belongs to the separate
//! screen-capture utility.

pub mod b64;
pub mod bytes;
pub mod error;
pub mod flow;
pub mod identity;
pub mod interceptor;
pub mod jsonio;
pub mod pipeline;
pub mod query;
pub mod random;
pub mod session;
pub mod token;
pub mod urlenc;
pub mod window_finder;
