//! Signalling, stream framing and decision logic of a peer-to-peer screen
//! sharing application.
pub mod capture;
pub mod codecs;
pub mod errors;
pub mod gui;
pub mod model;
pub mod nal;
pub mod peer_set;
pub mod peers;
pub mod reader;
pub mod reconnect;
pub mod signalling;
