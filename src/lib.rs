//! Audio capture normalisation, buffer mixing, the streaming transcription
//! protocol and the single-active-recording rules, with their contracts.
pub mod convert;
pub mod mixer;
pub mod capture;
pub mod realtime;
pub mod session;
pub mod summary;
