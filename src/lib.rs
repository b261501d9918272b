//! An application-lifecycle kernel: a registry of singletons keyed by kind,
//! layered configuration, ordered and fault-isolated event dispatch, and the
//! boot sequence as a state machine that a caller drives step by step.
pub mod application;
pub mod beans;
pub mod configuration;
pub mod context;
pub mod discovery;
pub mod environment;
pub mod event;
pub mod initializer;
pub mod lifecycle;
pub mod listeners;
pub mod logging;
pub mod multicaster;
pub mod properties;
pub mod server;
pub mod startup;
pub mod text;
pub mod web;
