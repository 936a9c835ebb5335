//! Verified core of the Flashblocks peer-to-peer node: the node's
//! configuration, its address handling, and the decisions taken by its
//! event loops. The networking runtime itself lives in `app/`.

pub mod addr;
pub mod identity;
pub mod builder;
pub mod node;
pub mod stream;
pub mod flashblocks;
pub mod laws;
