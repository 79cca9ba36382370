use vstd::prelude::*;

pub mod error;
pub mod handshake;
pub mod port;
pub mod progress;
pub mod registry;
pub mod transfer;
pub mod upload;

verus! {

} // verus!
