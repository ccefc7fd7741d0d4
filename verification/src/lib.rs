//! Verified core of a break-reminder engine: the session timer, the sensory
//! channels that tint the screen as a session runs out, the engine frame
//! that drives both, tray and locale texts, global-shortcut validation and
//! routing, main-window bookkeeping, and the renderers' decisions and byte
//! formats.  Floating-point colour math, the clock, threads and every
//! system call are the caller's.

pub mod float_bits;
pub mod text;
pub mod update;

pub mod channel_types;
pub mod frame;
pub mod timer;
pub mod channels;
pub mod channel_system;
pub mod channel_config;
pub mod engine;

pub mod i18n;
pub mod tray;
pub mod shortcuts;
pub mod window;
pub mod settings;

pub mod session;
pub mod phase_timer;
pub mod warmth;
pub mod renderer;
pub mod platform;
pub mod observability;
