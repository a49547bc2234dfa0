//! Application framework pieces for ABCI modules: the errors a module call
//! can end in, the response an RPC handler gives back, the expansion plan of
//! the `rpcs` attribute, the routing of an RPC call to its handler, and a
//! sample UTXO module.

pub mod error;
pub mod response;
pub mod rpcs;
pub mod dispatch;
pub mod utxo;

pub use error::Error;
pub use response::Response;
