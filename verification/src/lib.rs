//! Client-side core of a decentralized storage network: an address-prefixed
//! storage-key codec, deterministic account derivation with a multi-scheme
//! signer, and a session-gated query client that meters reads locally before
//! they reach the network.

pub mod crypto;
pub mod db3_address;
pub mod db3_signer;
pub mod errors;
pub mod key;
pub mod key_derive;
pub mod session_manager;
pub mod store_sdk;
pub mod wire;
