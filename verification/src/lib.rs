//! Core of an operator-facing cluster dashboard: the concurrent
//! command-execution and event-sourced state pipeline.
//!
//! The library holds the verified logic: classification of child-process
//! output into domain events, the timeout monitor's decisions, the task
//! registry that deduplicates long-running streams, the event reducer that
//! folds domain events into one consistent state snapshot, and the log
//! truncator. Process spawning, channels, timers and rendering live in the
//! surrounding binary, which feeds this library plain values and acts on the
//! values it returns.

pub mod structs;
pub mod widgets;
pub mod strutil;
pub mod line_reader;
pub mod monitor;
pub mod thread_manager;
pub mod aws_api;
pub mod truncator;
pub mod widget_data_store;
pub mod event_thread;
pub mod action_handler;
pub mod ui;
