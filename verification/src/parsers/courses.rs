//! The course listing page.

use crate::dom::{parse_document, parsed_document};
use crate::error::{ScraperError, ScraperErrorView};
use crate::facts::{Row, RowView};
use crate::link::SLASH;
use crate::models::{Course, CourseView};
use crate::reader::{listing_rows, read_listing};
use crate::text::{last_of_split, last_piece, parse_u8, trim, trimmed, unsigned_number};
use vstd::prelude::*;

verus! {

/// The number of cells that a course row has at least.
pub const COURSE_CELLS: usize = 5;

/// Said of a row with too few cells.
pub const TOO_FEW_CELLS: &'static str = "Baris tabel mata kuliah tidak memiliki kolom yang cukup";

/// Said of a row without course link.
pub const NO_COURSE_LINK: &'static str = "Link mata kuliah (href)";

/// Said of a page without any course row.
pub const NO_COURSE_ROWS: &'static str =
    "Tidak ada baris mata kuliah yang ditemukan di dalam tabel";

/// The credit count that `text` writes; 0 where it writes no number that
/// fits 8 bits.
pub open spec fn credits_of(text: Seq<char>) -> u8 {
    match unsigned_number(trimmed(text), u8::MAX as nat) {
        Some(n) => n as u8,
        None => 0,
    }
}

/// The course that a row of the listing describes. A row with fewer than
/// five cells, or without link target in its second cell, describes none.
pub open spec fn course_of_row(row: RowView) -> Result<CourseView, ScraperErrorView> {
    if row.cells.len() < COURSE_CELLS {
        Err(ScraperErrorView::ParsingError(TOO_FEW_CELLS@))
    } else {
        match row.cells[1].link {
            None => Err(ScraperErrorView::ElementNotFound(NO_COURSE_LINK@)),
            Some(href) => Ok(
                CourseView {
                    id: last_piece(href, SLASH@),
                    code: trimmed(row.cells[0].text),
                    name: trimmed(row.cells[1].text),
                    credits: credits_of(row.cells[2].text),
                    lecturer: trimmed(row.cells[3].text),
                    academic_year: trimmed(row.cells[4].text),
                    href,
                },
            ),
        }
    }
}

/// Whether a row describes a course.
pub open spec fn is_course_row(row: RowView) -> bool {
    course_of_row(row) is Ok
}

/// The course of a row, if it describes one.
pub open spec fn course_if_any(row: RowView) -> Option<CourseView> {
    match course_of_row(row) {
        Ok(course) => Some(course),
        Err(_) => None,
    }
}

/// The courses of the rows that describe one, in the order of the rows.
pub open spec fn courses_of_rows(rows: Seq<RowView>) -> Seq<CourseView> {
    rows.filter_map(|row: RowView| course_if_any(row))
}

/// The course list of a page with the given rows: the courses of its rows,
/// or an error where no row describes a course.
pub open spec fn course_list(rows: Seq<RowView>) -> Result<Seq<CourseView>, ScraperErrorView> {
    if courses_of_rows(rows).len() == 0 {
        Err(ScraperErrorView::ParsingError(NO_COURSE_ROWS@))
    } else {
        Ok(courses_of_rows(rows))
    }
}

/// The view of a course list or of the error in its place.
pub open spec fn list_view(result: Result<Vec<Course>, ScraperError>) -> Result<
    Seq<CourseView>,
    ScraperErrorView,
> {
    match result {
        Ok(courses) => Ok(courses.deep_view()),
        Err(e) => Err(e.deep_view()),
    }
}

/// The view of a course or of the error in its place.
pub open spec fn course_view(result: Result<Course, ScraperError>) -> Result<
    CourseView,
    ScraperErrorView,
> {
    match result {
        Ok(course) => Ok(course.deep_view()),
        Err(e) => Err(e.deep_view()),
    }
}

/// Derives a course from a row of the listing.
pub fn extract_course_from_row(row: &Row) -> (result: Result<Course, ScraperError>)
    ensures
        course_view(result) == course_of_row(row.deep_view()),
{
    if row.cells.len() < COURSE_CELLS {
        return Err(ScraperError::ParsingError(String::from_str(TOO_FEW_CELLS)));
    }
    proof {
        let cells = row.deep_view().cells;
    }
    let href = match &row.cells[1].link {
        Some(href) => href.clone(),
        None => {
            return Err(ScraperError::ElementNotFound(String::from_str(NO_COURSE_LINK)));
        },
    };
    let number = trim(row.cells[2].text.as_str());
    let credits: u8 = match parse_u8(number.as_str()) {
        Some(n) => n,
        None => 0,
    };
    Ok(
        Course {
            id: last_of_split(href.as_str(), SLASH),
            code: trim(row.cells[0].text.as_str()),
            name: trim(row.cells[1].text.as_str()),
            credits,
            lecturer: trim(row.cells[3].text.as_str()),
            academic_year: trim(row.cells[4].text.as_str()),
            href,
        },
    )
}

/// Derives the course list from the rows of the listing. Rows that describe
/// no course are passed over; a listing without any course row is an error.
pub fn courses_from_rows(rows: &Vec<Row>) -> (result: Result<Vec<Course>, ScraperError>)
    ensures
        list_view(result) == course_list(rows.deep_view()),
{
    let ghost all = rows.deep_view();
    let ghost pick = |row: RowView| course_if_any(row);
    let mut courses: Vec<Course> = Vec::new();
    let n: usize = rows.len();
    let mut i: usize = 0;
    while i < n
        invariant
            n == rows.len(),
            i <= n,
            all == rows.deep_view(),
            pick == |row: RowView| course_if_any(row),
            courses.deep_view() == all.take(i as int).filter_map(pick),
        decreases n - i,
    {
        assert(all.take(i + 1).drop_last() == all.take(i as int));
        if let Ok(course) = extract_course_from_row(&rows[i]) {
            courses.push(course);
        }
        i += 1;
    }
    assert(all.take(n as int) == all);
    if courses.len() == 0 {
        Err(ScraperError::ParsingError(String::from_str(NO_COURSE_ROWS)))
    } else {
        Ok(courses)
    }
}

/// The course list that the markup `html` gives.
pub open spec fn parsed_courses(html: Seq<char>) -> Result<Seq<CourseView>, ScraperErrorView> {
    course_list(listing_rows(&parsed_document(html)))
}

/// Reads the course listing page. The courses come in the order of the
/// page; rows that describe no course are passed over, and a page without
/// any course row is an error.
pub fn parse_courses_from_html(html: &str) -> (result: Result<Vec<Course>, ScraperError>)
    ensures
        list_view(result) == parsed_courses(html@),
{
    let doc = parse_document(html);
    let rows = read_listing(&doc);
    courses_from_rows(&rows)
}

/// The course list holds exactly the courses of the rows that describe one,
/// in the order of the rows; it is an error exactly if no row does.
pub proof fn lemma_course_list_keeps_course_rows(rows: Seq<RowView>)
    ensures
        courses_of_rows(rows) == rows.filter(|row: RowView| is_course_row(row)).map_values(
            |row: RowView| course_of_row(row)->Ok_0,
        ),
        courses_of_rows(rows).len() == rows.filter(|row: RowView| is_course_row(row)).len(),
        course_list(rows) is Ok <==> exists|i: int| 0 <= i < rows.len() && is_course_row(rows[i]),
        course_list(rows) matches Ok(courses) ==> courses == courses_of_rows(rows) && courses.len()
            >= 1,
        course_list(rows) matches Err(e) ==> e == ScraperErrorView::ParsingError(NO_COURSE_ROWS@),
    decreases rows.len(),
{
    reveal(Seq::filter);
    if rows.len() > 0 {
        let rest = rows.drop_last();
        lemma_course_list_keeps_course_rows(rest);
        if !is_course_row(rows.last()) && exists|i: int|
            0 <= i < rows.len() && is_course_row(rows[i]) {
            let i = choose|i: int| 0 <= i < rows.len() && is_course_row(rows[i]);
            assert(rest[i] == rows[i]);
        }
    }
}

} // verus!
