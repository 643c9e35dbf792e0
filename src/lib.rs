//! A client for a log-storage cluster's broker wire protocol: the codec, the
//! request and response messages, the check of the broker's API versions,
//! and the state machine that folds broker answers into application state.
use vstd::prelude::*;

pub mod api_client;
pub mod api_verification;
pub mod codec;
pub mod event_bus;
pub mod offset_progress_bar;
pub mod operations;
pub mod protocol_request;
pub mod protocol_requests;
pub mod protocol_response;
pub mod protocol_responses;
pub mod sorting;
pub mod state;
pub mod utils;
