//! Core logic of a terminal dashboard for browsing cloud resources.
//!
//! The crate verifies the parts of the dashboard that decide things: the
//! selectable lists the cursor moves through, the catalog of connector
//! variants, the navigation state machine, and the step functions that the
//! foreground event loop and the background refresh poller follow.  Terminal
//! drawing, cloud calls and async plumbing live outside the library and only
//! hand plain values in and out.

pub mod app;
pub mod cloud;
pub mod events;
pub mod list;
pub mod poller;
pub mod resource;
pub mod service;
