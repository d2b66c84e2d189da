//! An auction-sniping agent: the bidding state machine, the in-memory
//! event log and stores it runs on, and the decisions of the service
//! runtime that carries events between them.
pub mod auction;
pub mod event;
pub mod keyed_store;
pub mod persistence;
pub mod event_log;
pub mod progress;
pub mod service;
