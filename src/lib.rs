//! Decides which cases of a JUnit-style test report failed, renders them as a
//! chat message, and interprets the webhook's reply.
//!
//! Reading the report, parsing its XML and sending the HTTP request are left to
//! the caller; everything between those edges is here and verified.

use vstd::prelude::*;

pub mod report;
pub mod collect;
pub mod message;
pub mod notify;
