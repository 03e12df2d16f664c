//! The data plane of a decentralized storage network.
//!
//! Files are cut into chunks of fixed width and committed into one
//! Merkle-Patricia trie per file ([`in_memory`], over [`trie`]); a provider
//! proves that it holds a chunk with the trie nodes on the way to it. Owners
//! ask for replicas of a file with storage requests; providers volunteer for
//! them if a threshold that follows the number of providers admits them, and
//! confirm once they store the file ([`file_system`], [`threshold`],
//! [`providers`], [`randomness`]). Requests expire in time slots of bounded
//! size that a sweep with a work budget clears.
//!
//! The library is verified: every function states what it returns and
//! changes, and the statements are proved. The functions of [`trie`] and
//! [`hashing`], and a few readers of text in [`cli`] and
//! [`bsp_volunteer_mock`], hand their work to other crates; their statements
//! are taken on trust and say so.
pub mod bsp_volunteer_mock;
pub mod bytes;
pub mod cli;
pub mod file_system;
pub mod file_transfer;
pub mod hashing;
pub mod in_memory;
pub mod keyed;
pub mod providers;
pub mod randomness;
pub mod threshold;
pub mod traits;
pub mod trie;
pub mod types;
