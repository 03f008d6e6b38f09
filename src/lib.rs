//! Records microphone audio through an external capture tool and turns the
//! recording into text through a remote speech-to-text service.
//!
//! The library holds the decisions: reading the capture tool's device list,
//! the recording session's state machine, the command line, and the decoding
//! of the service's answer. Processes, files and the network stay with the
//! caller.
pub mod cli;
pub mod devices;
pub mod error;
pub mod sample;
pub mod session;
pub mod text;
pub mod transcription;
