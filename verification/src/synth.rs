//! The synthesizer's discrete logic: waveform and filter choices, the
//! envelope's stage sequencing, and the voice pool's polyphony policy.
pub mod envelope;
pub mod filter;
pub mod lfo;
pub mod oscillator;
pub mod voice_manager;
