//! A client library for a laundry-appliance service: the domain model of its
//! resources, the rules that decide which machine actions are legal, the
//! decisions of the token session, how each request is built and how each
//! decoded reply is settled into a typed result.
pub mod bridge;
pub mod text;

pub mod error;
pub mod model;
pub mod user;

pub mod listing;
pub mod policy;

pub mod action;
pub mod request;
pub mod session;
pub mod settle;
