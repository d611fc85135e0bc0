//! The course detail page: description, syllabus reference and topics.

use crate::datetime::{access_time_of, parse_access_time};
use crate::dom::{first_match_in, first_match_in_document, parse_document, parsed_document};
use crate::error::ScraperError;
use crate::facts::{
    CoursePage, CoursePageView, Paragraph, ParagraphView, SyllabusLink, SyllabusLinkView,
    TopicBlock, TopicBlockView,
};
use crate::link::{id_at, normalize_link, normalized_link, number_at, trailing_id, trailing_number};
use crate::models::{
    Course, CourseView, DetailCourse, DetailCourseView, Rps, RpsView, TopicInfo, TopicInfoView,
};
use crate::reader::{
    course_page_of, read_course_page, topic_block_of, ACCESS_LINK, NOT_CONFIGURED, SYLLABUS_LINK,
};
use scraper::ElementRef;
use crate::text::{trim, trimmed};
use vstd::prelude::*;

verus! {

/// Position of the course identifier among the segments of a topic path.
pub const COURSE_SEGMENT: usize = 3;

/// The syllabus reference that a page with the syllabus link `link` has.
pub open spec fn syllabus_of(link: Option<SyllabusLinkView>) -> RpsView {
    match link {
        Some(link) => RpsView { id: trailing_number(link.href), href: link.href },
        None => RpsView::absent(),
    }
}

/// The text of the first paragraph that holds no syllabus link itself.
pub open spec fn first_plain(paragraphs: Seq<ParagraphView>) -> Option<Seq<char>>
    decreases paragraphs.len(),
{
    if paragraphs.len() == 0 {
        None
    } else if !paragraphs[0].has_syllabus_link {
        Some(paragraphs[0].text)
    } else {
        first_plain(paragraphs.drop_first())
    }
}

/// The description of a course: the trimmed text of the first paragraph
/// without syllabus link in the panel around the syllabus link, and empty
/// where link, panel or such a paragraph is missing.
pub open spec fn description_of(link: Option<SyllabusLinkView>) -> Seq<char> {
    match link {
        Some(link) => match link.panel {
            Some(paragraphs) => match first_plain(paragraphs) {
                Some(text) => trimmed(text),
                None => Seq::empty(),
            },
            None => Seq::empty(),
        },
        None => Seq::empty(),
    }
}

/// The path that a topic block leads to.
pub open spec fn topic_path(block: TopicBlockView) -> Option<Seq<char>> {
    if block.has_link {
        match block.link_href {
            Some(href) => normalized_link(href),
            None => None,
        }
    } else {
        None
    }
}

/// The topic that a topic block describes. Whether the block holds an access
/// link decides alone whether the topic is accessible.
pub open spec fn topic_of(block: TopicBlockView) -> TopicInfoView {
    TopicInfoView {
        id: trailing_number(topic_path(block)),
        course_id: number_at(topic_path(block), COURSE_SEGMENT as int),
        access_time: access_time_of(block.access_label),
        is_accessible: block.has_link,
        href: topic_path(block),
    }
}

/// The topics of the blocks, in their order.
pub open spec fn topics_of(blocks: Seq<TopicBlockView>) -> Seq<TopicInfoView> {
    blocks.map_values(|b: TopicBlockView| topic_of(b))
}

/// The detail record of `course` for what its page shows. A page that warns
/// that the course is not configured gives an empty record whatever else it
/// shows.
pub open spec fn detail_of(page: CoursePageView, course: CourseView) -> DetailCourseView {
    if page.not_configured {
        DetailCourseView {
            course_info: course,
            description: Seq::empty(),
            rps: RpsView::absent(),
            topics: Seq::empty(),
        }
    } else {
        DetailCourseView {
            course_info: course,
            description: description_of(page.syllabus),
            rps: syllabus_of(page.syllabus),
            topics: topics_of(page.topics),
        }
    }
}

/// The detail record of `course` that the markup `html` gives.
pub open spec fn course_detail(html: Seq<char>, course: CourseView) -> DetailCourseView {
    detail_of(course_page_of(&parsed_document(html)), course)
}

/// A copy of a text that may be missing.
pub fn copy_text(text: &Option<String>) -> (copy: Option<String>)
    ensures
        copy.deep_view() == text.deep_view(),
{
    match text {
        Some(t) => Some(t.clone()),
        None => None,
    }
}

/// Derives the syllabus reference from the syllabus link of a page.
pub fn syllabus_from_link(link: &Option<SyllabusLink>) -> (rps: Rps)
    ensures
        rps.deep_view() == syllabus_of(link.deep_view()),
{
    match link {
        Some(link) => Rps { id: trailing_id(&link.href), href: copy_text(&link.href) },
        None => Rps { id: None, href: None },
    }
}

/// Finds the first paragraph that holds no syllabus link itself.
pub fn first_plain_text(paragraphs: &Vec<Paragraph>) -> (text: Option<String>)
    ensures
        text.deep_view() == first_plain(paragraphs.deep_view()),
{
    let n: usize = paragraphs.len();
    let mut i: usize = 0;
    let ghost all = paragraphs.deep_view();
    assert(all.subrange(0, n as int) == all);
    while i < n
        invariant
            n == paragraphs.len(),
            i <= n,
            all == paragraphs.deep_view(),
            first_plain(all) == first_plain(all.subrange(i as int, n as int)),
        decreases n - i,
    {
        assert(all.subrange(i as int, n as int).drop_first() == all.subrange(i + 1, n as int));
        if !paragraphs[i].has_syllabus_link {
            return Some(paragraphs[i].text.clone());
        }
        i += 1;
    }
    None
}

/// Derives the description of a course from the syllabus link of its page.
pub fn description_from_link(link: &Option<SyllabusLink>) -> (description: String)
    ensures
        description@ == description_of(link.deep_view()),
{
    match link {
        Some(link) => match &link.panel {
            Some(paragraphs) => match first_plain_text(paragraphs) {
                Some(text) => trim(text.as_str()),
                None => String::new(),
            },
            None => String::new(),
        },
        None => String::new(),
    }
}

/// Derives a topic from its block.
pub fn topic_from_block(block: &TopicBlock) -> (topic: TopicInfo)
    ensures
        topic.deep_view() == topic_of(block.deep_view()),
        topic.deep_view().well_formed(),
        topic.deep_view().times_in_range(),
{
    let path = if block.has_link {
        match &block.link_href {
            Some(href) => normalize_link(href.as_str()),
            None => None,
        }
    } else {
        None
    };
    TopicInfo {
        id: trailing_id(&path),
        course_id: id_at(&path, COURSE_SEGMENT),
        access_time: parse_access_time(&block.access_label),
        is_accessible: block.has_link,
        href: path,
    }
}

/// Derives the detail record of a course from what its page shows.
pub fn detail_from_page(page: &CoursePage, course: Course) -> (detail: DetailCourse)
    ensures
        detail.deep_view() == detail_of(page.deep_view(), course.deep_view()),
        detail.deep_view().well_formed(),
{
    let mut topics: Vec<TopicInfo> = Vec::new();
    if page.not_configured {
        assert(topics.deep_view() =~= Seq::empty());
        return DetailCourse {
            course_info: course,
            description: String::new(),
            rps: Rps { id: None, href: None },
            topics,
        };
    }
    let n: usize = page.topics.len();
    let mut i: usize = 0;
    while i < n
        invariant
            n == page.topics.len(),
            i <= n,
            topics.len() == i,
            forall|j: int|
                0 <= j < i ==> (#[trigger] topics[j]).deep_view() == topic_of(
                    page.topics[j].deep_view(),
                ),
            forall|j: int|
                0 <= j < i ==> (#[trigger] topics[j]).deep_view().well_formed()
                    && topics[j].deep_view().times_in_range(),
        decreases n - i,
    {
        topics.push(topic_from_block(&page.topics[i]));
        i += 1;
    }
    assert(topics.deep_view() =~= topics_of(page.deep_view().topics));
    DetailCourse {
        course_info: course,
        description: description_from_link(&page.syllabus),
        rps: syllabus_from_link(&page.syllabus),
        topics,
    }
}

/// Reads a course detail page. `course` is the course whose page `html` is;
/// the page does not repeat it. Every page gives a record: what the page
/// lacks is empty or `None` in it.
pub fn parse_course_detail_from_html(html: &str, course: Course) -> (result: Result<
    DetailCourse,
    ScraperError,
>)
    ensures
        result matches Ok(detail) && detail.deep_view() == course_detail(html@, course.deep_view())
            && detail.deep_view().well_formed(),
{
    let doc = parse_document(html);
    let page = read_course_page(&doc);
    Ok(detail_from_page(&page, course))
}

/// A page that warns that the course is not configured gives the course with
/// an empty description, no syllabus reference and no topics, whatever else
/// the page holds.
pub proof fn lemma_unconfigured_course_is_empty(html: Seq<char>, course: CourseView)
    requires
        first_match_in_document(&parsed_document(html), NOT_CONFIGURED@) is Some,
    ensures
        course_detail(html, course) == (DetailCourseView {
            course_info: course,
            description: Seq::empty(),
            rps: RpsView { id: None, href: None },
            topics: Seq::empty(),
        }),
{
}

/// A topic block without access link gives a topic that is not accessible
/// and has neither identifier nor path.
pub proof fn lemma_topic_without_link(block: TopicBlockView)
    requires
        !block.has_link,
    ensures
        !topic_of(block).is_accessible,
        topic_of(block).id is None,
        topic_of(block).course_id is None,
        topic_of(block).href is None,
{
}

/// A block of the page in which no access link is found gives a topic that
/// is not accessible and has neither identifier nor path.
pub proof fn lemma_block_without_access_link(e: ElementRef)
    requires
        first_match_in(e, ACCESS_LINK@) is None,
    ensures
        !topic_of(topic_block_of(e)).is_accessible,
        topic_of(topic_block_of(e)).id is None,
        topic_of(topic_block_of(e)).course_id is None,
        topic_of(topic_block_of(e)).href is None,
{
}

/// A topic is accessible exactly if its block holds an access link.
pub proof fn lemma_link_decides_access(block: TopicBlockView)
    ensures
        topic_of(block).is_accessible == block.has_link,
        topic_of(block).well_formed(),
{
}

/// A page without syllabus link has no syllabus reference and an empty
/// description.
pub proof fn lemma_no_syllabus_link(html: Seq<char>, course: CourseView)
    requires
        first_match_in_document(&parsed_document(html), SYLLABUS_LINK@) is None,
    ensures
        course_detail(html, course).rps == (RpsView { id: None, href: None }),
        course_detail(html, course).description == Seq::<char>::empty(),
{
}

/// The identifier of the syllabus is the number that ends the target of the
/// syllabus link.
pub proof fn lemma_syllabus_id_ends_link(link: SyllabusLinkView)
    ensures
        syllabus_of(Some(link)).id == trailing_number(link.href),
        syllabus_of(Some(link)).href == link.href,
{
}

/// The topics of a page stand in the order of its blocks, one for each.
pub proof fn lemma_topics_keep_order(page: CoursePageView, course: CourseView)
    requires
        !page.not_configured,
    ensures
        detail_of(page, course).topics.len() == page.topics.len(),
        forall|i: int|
            0 <= i < page.topics.len() ==> #[trigger] detail_of(page, course).topics[i] == topic_of(
                page.topics[i],
            ),
{
}

} // verus!
