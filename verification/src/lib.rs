//! The platform-independent core of a real-time frame loop: raw controller
//! state becomes an edge-counted, double-buffered input snapshot, a render
//! step draws into a software pixel buffer, and a small state machine says
//! what the platform layer has to do next.

pub mod clock;
pub mod frame;
pub mod game;
pub mod gfx;
pub mod input;
pub mod sampler;
pub mod win32;
