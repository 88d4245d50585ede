//! Enrollment-data collection for a course-registration portal: the term
//! trackers' decisions, the session-recovery machine, the gateway's request
//! checks, the API-key rules and the CSV observation format.

pub mod config;
pub mod gateway;
pub mod keys;
pub mod observation;
pub mod requests;
pub mod search;
pub mod sections;
pub mod stats;
pub mod text;
pub mod time_helper;
pub mod tracker;
