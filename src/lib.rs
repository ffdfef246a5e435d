//! Peer discovery, the file-transfer wire protocol and the transfer-task
//! lifecycle of a local-network file sharing tool.
pub mod device;
pub mod crypto;
pub mod transfer_manager;
pub mod file_transfer;
pub mod network;
