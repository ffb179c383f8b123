//! The sample pipeline of an audio recorder that archives its input to a WAV
//! file and echoes it to an output device: stream formats, the exchange
//! channel between the capture and playback callbacks, the capture router,
//! the playback renderer, the WAV sink's lifecycle and the session controller.
pub mod channel;
pub mod format;
pub mod route;
pub mod session;
pub mod wav;
