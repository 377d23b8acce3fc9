//! Coordination core of an exam-room manager: the roster of workstations, the
//! keyboard-daemon protocol, the journal behind the countdown page and the exam timer.
//!
//! Everything here works on plain values. Sockets, files, threads and the terminal
//! belong to the program built around this library.
//!
//! [`shared_data::SharedData`] is the state as a whole, and the laws are stated of it.
//! A program that keeps every changing field behind a guard of its own calls the
//! functions that take single fields (`plan_request`, `reply_to`, `handle_key_on`,
//! `store_query_outcome`, `render_table` and the like); the functions on the whole state
//! are built from these.

pub mod address;
pub mod client;
pub mod clock;
pub mod input_parser;
pub mod kanata_tcp;
pub mod layer_session;
pub mod nonclient_timeraccess;
pub mod persistance;
pub mod shared_data;
pub mod symlinks;
pub mod text;
pub mod timing_webserver;
pub mod tui;
