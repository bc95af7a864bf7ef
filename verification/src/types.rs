//! The records that the service answers with, and the values that select
//! what is asked of its two parameterized endpoints.

pub mod announcement;
pub mod auditory;
pub mod department;
pub mod employee;
pub mod faculty;
pub mod group;
pub mod last_update;
pub mod query_params;
pub mod specialities;
