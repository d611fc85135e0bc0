//! Records produced by the page parsers, each with its mathematical model.

use vstd::prelude::*;

verus! {

/// A calendar date and wall-clock time without time zone.
#[derive(Debug, Clone, Copy, PartialEq, Eq)]
pub struct DateTime {
    pub year: i32,
    pub month: u32,
    pub day: u32,
    pub hour: u32,
    pub minute: u32,
    pub second: u32,
    /// Nanoseconds past the whole second; values from 1_000_000_000 on denote
    /// a leap second.
    pub nanosecond: u32,
}

impl DateTime {
    /// Every field lies in the range of a calendar date and a time of day.
    pub open spec fn in_range(&self) -> bool {
        &&& 1 <= self.month <= 12
        &&& 1 <= self.day <= 31
        &&& self.hour <= 23
        &&& self.minute <= 59
        &&& self.second <= 59
        &&& self.nanosecond <= 1_999_999_999
    }
}

/// A displayed point in time: the text as shown, and its reading where the
/// text has one of the known formats.
#[derive(Debug, Clone, PartialEq, Eq)]
pub struct Timestamp {
    pub raw: String,
    pub parsed: Option<DateTime>,
}

pub struct TimestampView {
    pub raw: Seq<char>,
    pub parsed: Option<DateTime>,
}

impl DeepView for Timestamp {
    type V = TimestampView;

    open spec fn deep_view(&self) -> TimestampView {
        TimestampView { raw: self.raw@, parsed: self.parsed }
    }
}

/// The date and time `t`, where there is one, has its fields in range.
pub open spec fn time_in_range(t: Option<DateTime>) -> bool {
    t matches Some(t) ==> t.in_range()
}

/// The reading of the timestamp `t`, where there is one, has its fields in
/// range.
pub open spec fn timestamp_in_range(t: Option<TimestampView>) -> bool {
    t matches Some(t) ==> time_in_range(t.parsed)
}

/// The student a session belongs to.
#[derive(Debug, Clone, PartialEq, Eq)]
pub struct User {
    pub name: String,
    pub nim: String,
}

pub struct UserView {
    pub name: Seq<char>,
    pub nim: Seq<char>,
}

impl DeepView for User {
    type V = UserView;

    open spec fn deep_view(&self) -> UserView {
        UserView { name: self.name@, nim: self.nim@ }
    }
}

/// One course of the listing page.
#[derive(Debug, Clone, PartialEq, Eq)]
pub struct Course {
    /// Last path segment of the course link.
    pub id: String,
    pub code: String,
    pub name: String,
    /// Credit count; 0 where the cell holds no number that fits.
    pub credits: u8,
    pub lecturer: String,
    pub academic_year: String,
    /// The course link as written on the page.
    pub href: String,
}

pub struct CourseView {
    pub id: Seq<char>,
    pub code: Seq<char>,
    pub name: Seq<char>,
    pub credits: u8,
    pub lecturer: Seq<char>,
    pub academic_year: Seq<char>,
    pub href: Seq<char>,
}

impl DeepView for Course {
    type V = CourseView;

    open spec fn deep_view(&self) -> CourseView {
        CourseView {
            id: self.id@,
            code: self.code@,
            name: self.name@,
            credits: self.credits,
            lecturer: self.lecturer@,
            academic_year: self.academic_year@,
            href: self.href@,
        }
    }
}

/// Reference to a course's syllabus document.
#[derive(Debug, Clone, PartialEq, Eq)]
pub struct Rps {
    pub id: Option<u64>,
    pub href: Option<String>,
}

pub struct RpsView {
    pub id: Option<u64>,
    pub href: Option<Seq<char>>,
}

impl DeepView for Rps {
    type V = RpsView;

    open spec fn deep_view(&self) -> RpsView {
        RpsView { id: self.id, href: self.href.deep_view() }
    }
}

impl RpsView {
    /// The reference of a course without syllabus link.
    pub open spec fn absent() -> RpsView {
        RpsView { id: None, href: None }
    }
}

/// One topic block of a course page.
#[derive(Debug, Clone, PartialEq, Eq)]
pub struct TopicInfo {
    pub id: Option<u64>,
    pub course_id: Option<u64>,
    pub access_time: Option<DateTime>,
    /// Whether the block carries a link for the student.
    pub is_accessible: bool,
    /// The link reduced to its path.
    pub href: Option<String>,
}

pub struct TopicInfoView {
    pub id: Option<u64>,
    pub course_id: Option<u64>,
    pub access_time: Option<DateTime>,
    pub is_accessible: bool,
    pub href: Option<Seq<char>>,
}

impl DeepView for TopicInfo {
    type V = TopicInfoView;

    open spec fn deep_view(&self) -> TopicInfoView {
        TopicInfoView {
            id: self.id,
            course_id: self.course_id,
            access_time: self.access_time,
            is_accessible: self.is_accessible,
            href: self.href.deep_view(),
        }
    }
}

impl TopicInfoView {
    /// A topic without link has neither identifiers nor a path.
    pub open spec fn well_formed(&self) -> bool {
        !self.is_accessible ==> self.id is None && self.course_id is None && self.href is None
    }

    /// The access time has its fields in range.
    pub open spec fn times_in_range(&self) -> bool {
        time_in_range(self.access_time)
    }
}

/// A course with what its detail page adds.
#[derive(Debug, Clone, PartialEq, Eq)]
pub struct DetailCourse {
    pub course_info: Course,
    pub description: String,
    pub rps: Rps,
    /// Topics in the order of the page.
    pub topics: Vec<TopicInfo>,
}

pub struct DetailCourseView {
    pub course_info: CourseView,
    pub description: Seq<char>,
    pub rps: RpsView,
    pub topics: Seq<TopicInfoView>,
}

impl DetailCourseView {
    /// Every topic is well formed and has its access time in range.
    pub open spec fn well_formed(&self) -> bool {
        forall|i: int|
            0 <= i < self.topics.len() ==> (#[trigger] self.topics[i]).well_formed()
                && self.topics[i].times_in_range()
    }
}

impl DeepView for DetailCourse {
    type V = DetailCourseView;

    open spec fn deep_view(&self) -> DetailCourseView {
        DetailCourseView {
            course_info: self.course_info.deep_view(),
            description: self.description@,
            rps: self.rps.deep_view(),
            topics: self.topics.deep_view(),
        }
    }
}

/// One block of learning content.
#[derive(Debug, Clone, PartialEq, Eq)]
pub struct Content {
    /// Position among the content blocks of the page, from 0.
    pub id: usize,
    pub youtube_id: Option<String>,
    /// Inner markup of the block, unchanged.
    pub raw_html: String,
}

pub struct ContentView {
    pub id: usize,
    pub youtube_id: Option<Seq<char>>,
    pub raw_html: Seq<char>,
}

impl DeepView for Content {
    type V = ContentView;

    open spec fn deep_view(&self) -> ContentView {
        ContentView {
            id: self.id,
            youtube_id: self.youtube_id.deep_view(),
            raw_html: self.raw_html@,
        }
    }
}

/// Where a task stands for the student.
#[derive(Debug, Clone, Copy, PartialEq, Eq, Structural)]
pub enum TaskStatus {
    /// The task is not open yet. No page shape yields it.
    Pending,
    Submitted,
    Graded,
    NotSubmitted,
}

/// What the student handed in for a task.
#[derive(Debug, Clone, PartialEq, Eq)]
pub struct Answer {
    /// Last path segment of the delete link.
    pub id: Option<String>,
    pub content: String,
    pub file_href: Option<String>,
    pub is_graded: bool,
    pub lecturer_notes: String,
    /// The score as displayed; empty while ungraded.
    pub score_text: String,
    pub date_submitted: Option<Timestamp>,
}

pub struct AnswerView {
    pub id: Option<Seq<char>>,
    pub content: Seq<char>,
    pub file_href: Option<Seq<char>>,
    pub is_graded: bool,
    pub lecturer_notes: Seq<char>,
    pub score_text: Seq<char>,
    pub date_submitted: Option<TimestampView>,
}

impl DeepView for Answer {
    type V = AnswerView;

    open spec fn deep_view(&self) -> AnswerView {
        AnswerView {
            id: self.id.deep_view(),
            content: self.content@,
            file_href: self.file_href.deep_view(),
            is_graded: self.is_graded,
            lecturer_notes: self.lecturer_notes@,
            score_text: self.score_text@,
            date_submitted: self.date_submitted.deep_view(),
        }
    }
}

/// One task of a topic.
#[derive(Debug, Clone, PartialEq, Eq)]
pub struct Task {
    pub id: String,
    pub course_id: String,
    pub topic_id: String,
    pub token: String,
    pub title: String,
    pub description: String,
    pub file: Option<String>,
    pub start_date: Option<Timestamp>,
    pub due_date: Option<Timestamp>,
    pub status: TaskStatus,
    pub answer: Option<Answer>,
}

pub struct TaskView {
    pub id: Seq<char>,
    pub course_id: Seq<char>,
    pub topic_id: Seq<char>,
    pub token: Seq<char>,
    pub title: Seq<char>,
    pub description: Seq<char>,
    pub file: Option<Seq<char>>,
    pub start_date: Option<TimestampView>,
    pub due_date: Option<TimestampView>,
    pub status: TaskStatus,
    pub answer: Option<AnswerView>,
}

impl DeepView for Task {
    type V = TaskView;

    open spec fn deep_view(&self) -> TaskView {
        TaskView {
            id: self.id@,
            course_id: self.course_id@,
            topic_id: self.topic_id@,
            token: self.token@,
            title: self.title@,
            description: self.description@,
            file: self.file.deep_view(),
            start_date: self.start_date.deep_view(),
            due_date: self.due_date.deep_view(),
            status: self.status,
            answer: self.answer.deep_view(),
        }
    }
}

impl TaskView {
    /// The status says exactly whether an answer exists and whether it is
    /// graded.
    pub open spec fn well_formed(&self) -> bool {
        match self.answer {
            None => self.status == TaskStatus::NotSubmitted,
            Some(answer) => if answer.is_graded {
                self.status == TaskStatus::Graded
            } else {
                self.status == TaskStatus::Submitted
            },
        }
    }

    /// Every time of the task and of its answer has its fields in range.
    pub open spec fn times_in_range(&self) -> bool {
        &&& timestamp_in_range(self.start_date)
        &&& timestamp_in_range(self.due_date)
        &&& self.answer matches Some(answer) ==> timestamp_in_range(answer.date_submitted)
    }
}

/// A topic with what its detail page shows.
#[derive(Debug, Clone, PartialEq, Eq)]
pub struct TopicDetail {
    pub id: String,
    pub access_time: Option<DateTime>,
    pub is_accessible: bool,
    pub href: String,
    pub description: Option<String>,
    /// Content blocks in the order of the page.
    pub contents: Vec<Content>,
    /// Tasks in the order of the page.
    pub tasks: Vec<Task>,
}

pub struct TopicDetailView {
    pub id: Seq<char>,
    pub access_time: Option<DateTime>,
    pub is_accessible: bool,
    pub href: Seq<char>,
    pub description: Option<Seq<char>>,
    pub contents: Seq<ContentView>,
    pub tasks: Seq<TaskView>,
}

impl TopicDetailView {
    /// Every task is well formed, and every time on the page has its fields
    /// in range.
    pub open spec fn well_formed(&self) -> bool {
        &&& time_in_range(self.access_time)
        &&& forall|i: int|
            0 <= i < self.tasks.len() ==> (#[trigger] self.tasks[i]).well_formed()
                && self.tasks[i].times_in_range()
    }
}

impl DeepView for TopicDetail {
    type V = TopicDetailView;

    open spec fn deep_view(&self) -> TopicDetailView {
        TopicDetailView {
            id: self.id@,
            access_time: self.access_time,
            is_accessible: self.is_accessible,
            href: self.href@,
            description: self.description.deep_view(),
            contents: self.contents.deep_view(),
            tasks: self.tasks.deep_view(),
        }
    }
}

} // verus!
