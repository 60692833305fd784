//! A small library for talking to a Zebra (Zcash) node over JSON-RPC:
//! the node address, the request bodies, the menu that drives the program,
//! the text reports it prints, and the input handling around them.

pub mod decimal;
pub mod text;
pub mod connection;
pub mod rpc;
pub mod menu;
pub mod mnemonic;
pub mod report;
