//! The embedded control panel, codec control, display state and USB MIDI
//! input of the STM32 board application.
pub mod audio;
pub mod control;
pub mod display;
pub mod gpio;
pub mod midi;
pub mod board;
pub mod codec;
pub mod mbed_engine;
