//! Verified core of the HearYe dictation app: audio shaping, transcript
//! cleanup, settings, the key store cache and the recording session machine.

pub mod audio;
pub mod keychain;
pub mod media;
pub mod paste;
pub mod pipeline;
pub mod text;
pub mod services;
pub mod session;
pub mod settings;
pub mod stt;
pub mod transcript;
pub mod ui;
pub mod wav;
