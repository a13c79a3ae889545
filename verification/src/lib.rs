//! The logic of the bath-monitor panel firmware: what is owed to the server,
//! what the NeoPixels show, how buttons are interpreted, how melodies are
//! scheduled and how the two synth slots step, independent of the hardware
//! that the application drives around it.
pub mod config;
pub mod outbox;
pub mod led_pattern;
pub mod events;
pub mod waveform;
pub mod music;
pub mod debounce;
pub mod buttons;
pub mod text;
pub mod http_client;
pub mod status_poll;
pub mod wifi;
