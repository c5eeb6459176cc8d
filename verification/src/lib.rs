//! Client library for the ZyFi transaction-fee sponsorship service.
//!
//! The library builds the two JSON request payloads that the service accepts
//! (fully sponsored and token-fee-paid), frames them as JSON text, and decodes
//! and classifies the service's responses. The network exchange itself is left
//! to the caller: the library hands out a fully prepared request (URL, headers,
//! body) and takes back the raw status and body.

pub mod client;
pub mod codec;
pub mod in_types;
pub mod json;
pub mod out_types;

pub use client::ClientZyFi;
pub use client::Error;
pub use client::PreparedRequest;
pub use in_types::TxData as ZyFiRequest;
pub use out_types::Response as ZyFiResponse;
