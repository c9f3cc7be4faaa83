//! Transfer objects of the API: what requests carry in and responses carry out.

pub mod certificate;
pub mod domain;
pub mod route;

pub mod user;
pub mod workspace;
