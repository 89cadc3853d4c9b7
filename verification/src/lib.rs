//! Rapid-trigger key switching: analog travel samples become press and release
//! events, and the events become a boot-keyboard report.

pub mod adc;
pub mod keyboard;
pub mod keyboard_laws;
pub mod keycode;
pub mod rt;
