//! What the adapter of each chain family makes of the answers of its
//! remote node: the canonical block, the head and the version.

pub mod substrate;
pub mod elrond;
pub mod icp;
pub mod solana;
pub mod algorand;
pub mod cast;
pub mod electrum;
pub mod ethers;
pub mod hedera;
pub mod near;
pub mod pivx;
pub mod stellar;
pub mod tendermint;
