//! Verified core of the Shortas management service: error codes, entities,
//! transfer objects, routing-policy transforms and analytics aggregation.

use vstd::prelude::*;

pub mod access;
pub mod analytics;
pub mod click_router;
pub mod domain_listing;
pub mod dto;
pub mod entities;
pub mod error;
pub mod ext;
pub mod json;
pub mod messaging;
pub mod outbox;
pub mod pagination;
pub mod queries;
pub mod requests;
pub mod route_service;
pub mod rows;
pub mod search;
pub mod settings;
pub mod user;
pub mod web;
pub mod text;
pub mod tls;

verus! {

} // verus!
