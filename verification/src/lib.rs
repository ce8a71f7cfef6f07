//! Verified core of the Bankai light-client tooling: slot arithmetic for
//! batching beacon-chain epochs, the request plans and reply handling of the
//! Atlantic prover client, and the decisions behind the HTTP routes.

pub mod atlantic;
pub mod constants;
pub mod error;
pub mod helpers;
pub mod routes;
pub mod text;
