//! Core bookkeeping of a Wayland compositor: event routing between threads and
//! file descriptors, the per-client protocol state, and the presentation state of
//! outputs. Every decision is a function from state and input to the next state
//! and the messages to send; performing the input and output is left to the caller.

pub mod defs;
pub mod device_manager_module;
pub mod dispatcher;
pub mod drm_output;
pub mod engine;
pub mod engine_laws;
pub mod event_handlers;
pub mod event_kind;
pub mod event_loop;
pub mod exhibitor;
pub mod global;
pub mod mediator;
pub mod messages;
pub mod perceptron;
pub mod protocol;
pub mod proxy;
pub mod proxy_laws;
pub mod registry;
pub mod text;
pub mod udev;
