//! Normalisation core of a payment gateway: canonical payment records are
//! turned into per-operation connector requests, and connector outcomes are
//! folded back into one client-facing payment representation.

pub mod api;
pub mod capture_sync;
pub mod clock;
pub mod connector;
pub mod customer;
pub mod document;
pub mod domain;
pub mod enums;
pub mod errors;
pub mod headers;
pub mod helpers;
pub mod next_action;
pub mod pattern;
pub mod response;
pub mod response_parts;
pub mod router_data;
pub mod storage;
pub mod text;
pub mod to_response;
pub mod transformers;
pub mod types;
pub mod utils;
