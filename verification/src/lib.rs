//! The dispatch and correlation core of a bridge between a blocking,
//! string-speaking host and an asynchronous gateway worker.
//!
//! The worker is reached over two channels: a command channel that carries
//! a payload together with a one-shot reply slot, and an event channel on
//! which the worker pushes payloads of its own accord. This crate holds every
//! decision the bridge takes around those channels, as total functions with
//! contracts; the channels themselves, and whatever has to wait on them, stay
//! with the caller, who performs each step the functions here ask for and
//! hands back what came of it.
pub mod error;
pub mod event;
pub mod gateway;
pub mod repository;
pub mod request;
pub mod response;
pub mod state;
pub mod usecase;
