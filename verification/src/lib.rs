//! Typed records from the pages of a university learning portal.
//!
//! The parsers take a page's markup as text and return courses, topics,
//! learning content, tasks and answers. They never touch the network.
//!
//! A page is read in two steps. [`reader`] asks the document tree what the
//! page shows and writes the answers down as plain values ([`facts`]). The
//! rules in [`parsers`] turn those values into records ([`models`]); they
//! are stated over sequences of characters and do not depend on the tree.

pub mod datetime;
pub mod dom;
pub mod error;
pub mod facts;
pub mod link;
pub mod models;
pub mod parsers;
pub mod reader;
pub mod text;

pub use error::ScraperError;
pub use models::{
    Answer, Content, Course, DateTime, DetailCourse, Rps, Task, TaskStatus, Timestamp, TopicDetail,
    TopicInfo, User,
};
pub use parsers::course_detail::parse_course_detail_from_html;
pub use parsers::courses::parse_courses_from_html;
pub use parsers::topic_detail::parse_topic_detail_from_html;
