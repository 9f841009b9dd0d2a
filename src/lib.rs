//! A client for the File Transfer Protocol (RFC 959), written as a protocol
//! engine without I/O. It parses replies, classifies status codes, decodes
//! passive-mode addresses, renders commands, and runs each operation as an
//! `Exchange`: a state machine that tells its caller what to write, read,
//! connect or transfer next, and decides from the replies what follows.
pub mod address;
pub mod client;
pub mod error;
pub mod exchange;
pub mod prelude;
pub mod reply;
pub mod status_code;
pub mod text;
