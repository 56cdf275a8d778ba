//! Bookkeeping for driving several instances of a native automation engine:
//! which engine handles each instance owns, in which order they are created,
//! bound and released, which task ids were posted, and the pure decisions
//! around the engine's calls. The calls themselves are made by the host,
//! which hands their results to the steps defined here.

pub mod agent;
pub mod controller;
pub mod discovery;
pub mod error;
pub mod image;
pub mod native;
pub mod registry;
pub mod resource;
pub mod runtime;
pub mod state;
pub mod tasks;
pub mod text;
pub mod update;
