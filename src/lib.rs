//! Control of a few macOS device features. The heart of the library is the
//! brightness controller: it picks the active display, finds the private
//! brightness entry points in one of several system libraries, and binds
//! them to that display. Everything that talks to the platform (the display
//! list, the dynamic loader, calls through the resolved entry points, running
//! scripts) is done by the caller; the library decides what to do next and
//! what each answer means.

pub mod bluetooth;
pub mod controller;
pub mod display;
pub mod level;
pub mod music;
pub mod setup;
pub mod text;
pub mod volume;
pub mod weather;
