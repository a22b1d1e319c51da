//! Desktop-side logic: preset choices and the computer-keyboard layout.
pub mod keyboard;
pub mod presets;
