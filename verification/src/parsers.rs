//! The three page parsers.

pub mod course_detail;
pub mod courses;
pub mod topic_detail;
