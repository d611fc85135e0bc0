//! The topic detail page: description, learning content, tasks and answers.

use crate::datetime::{access_time_of, date_time_of, parse_access_time, parse_dt};
use crate::dom::{has_class, matches_in, next_element_of, parse_document, parsed_document};
use crate::error::ScraperError;
use crate::facts::{
    AnswerPanel, AnswerPanelView, ContentBlock, ContentBlockView, PanelBody, PanelBodyView, Row,
    RowView, TaskBlock, TaskBlockView, TaskFormView, TopicPage, TopicPageView,
};
use crate::link::SLASH;
use crate::models::{
    timestamp_in_range, Answer, AnswerView, Content, ContentView, Task, TaskStatus, TaskView,
    Timestamp, TimestampView, TopicDetail, TopicDetailView,
};
use crate::reader::{
    read_topic_page, rows_of, task_block_of, topic_page_of, ANSWER_CLASS, PANEL_ROWS,
};
use crate::text::{
    first_of_split, first_piece, join, joined, last_of_split, last_piece,
    lemma_replaced_at_first_occurrence, lemma_replaced_without_occurrence, occurs_at, remove,
    removed, replace, replaced, same_text, trim, trimmed,
};
use scraper::ElementRef;
use vstd::prelude::*;

verus! {

/// What the portal writes between a label and its value; it is taken out of
/// every cell that is read.
pub const LABEL_MARK: &'static str = ": ";

/// Label of the row with a task's title.
pub const TITLE: &'static str = "Judul";

/// Label of the row with a task's description.
pub const TASK_DESCRIPTION: &'static str = "Deskripsi";

/// Label of the row with a task's file.
pub const FILE: &'static str = "File";

/// Label of the row with the period of a task and of the row with the time
/// of a submission.
pub const SUBMISSION_TIME: &'static str = "Waktu Pengumpulan";

/// Label of the row with the score of an answer.
pub const SCORE: &'static str = "Nilai";

/// Label of the row with the lecturer's notes on an answer.
pub const NOTES: &'static str = "Catatan";

/// What precedes the identifier in the address of a video player.
pub const VIDEO_MARK: &'static str = "embed/";

/// What ends the identifier in the address of a video player.
pub const QUERY_MARK: &'static str = "?";

/// The path under which the page shows the file of an answer.
pub const SHOWN_FILE_PATH: &'static str = "/tugas/mhs";

/// The path under which the file of an answer can be fetched.
pub const FILE_PATH: &'static str = "/tugas";

/// What joins the text nodes of an answer.
pub const SPACE: &'static str = " ";

/// The path of all topic pages.
pub const TOPIC_PATH: &'static str = "/mhs/topik/";

/// The content of the cell of `row` with index `index`: its text without
/// surrounding white space and without label marks.
pub open spec fn cell_content(row: RowView, index: int) -> Option<Seq<char>> {
    if 0 <= index < row.cells.len() {
        Some(removed(trimmed(row.cells[index].text), LABEL_MARK@))
    } else {
        None
    }
}

/// The target of the first link in the cell of `row` with index `index`.
pub open spec fn cell_link(row: RowView, index: int) -> Option<Seq<char>> {
    if 0 <= index < row.cells.len() {
        row.cells[index].link
    } else {
        None
    }
}

/// `text`, or the empty text where it is missing.
pub open spec fn text_or_empty(text: Option<Seq<char>>) -> Seq<char> {
    match text {
        Some(t) => t,
        None => Seq::empty(),
    }
}

/// The row's first cell reads `label`, and the row sets at least
/// `emphasized` texts in bold.
pub open spec fn qualifies(row: RowView, label: Seq<char>, emphasized: nat) -> bool {
    cell_content(row, 0) == Some(label) && row.emphasized.len() >= emphasized
}

/// Index of the last row that qualifies.
pub open spec fn last_row_with(rows: Seq<RowView>, label: Seq<char>, emphasized: nat) -> Option<
    int,
>
    decreases rows.len(),
{
    if rows.len() == 0 {
        None
    } else if qualifies(rows.last(), label, emphasized) {
        Some(rows.len() - 1)
    } else {
        last_row_with(rows.drop_last(), label, emphasized)
    }
}

/// The value of the field `label`: the content of the second cell of the last
/// row labelled so; empty where no row is, or where that row has one cell.
pub open spec fn field_text(rows: Seq<RowView>, label: Seq<char>) -> Seq<char> {
    match last_row_with(rows, label, 0) {
        Some(i) => text_or_empty(cell_content(rows[i], 1)),
        None => Seq::empty(),
    }
}

/// The link of the field `label`: the target of the first link in the second
/// cell of the last row labelled so.
pub open spec fn field_link(rows: Seq<RowView>, label: Seq<char>) -> Option<Seq<char>> {
    match last_row_with(rows, label, 0) {
        Some(i) => cell_link(rows[i], 1),
        None => None,
    }
}

/// A displayed time with its reading.
pub open spec fn timestamp_of(raw: Seq<char>) -> TimestampView {
    TimestampView { raw, parsed: date_time_of(raw) }
}

/// The time set in bold at position `k` of the last period row that sets at
/// least two; `None` where no row does.
pub open spec fn period_time(rows: Seq<RowView>, k: int) -> Option<TimestampView> {
    match last_row_with(rows, SUBMISSION_TIME@, 2) {
        Some(i) => Some(timestamp_of(rows[i].emphasized[k])),
        None => None,
    }
}

/// The status of a task, from whether an answer panel stands behind its
/// table and whether that panel has a score row.
pub open spec fn status_of(has_panel: bool, has_score_row: bool) -> TaskStatus {
    if !has_panel {
        TaskStatus::NotSubmitted
    } else if has_score_row {
        TaskStatus::Graded
    } else {
        TaskStatus::Submitted
    }
}

/// The trimmed texts of the children that are text nodes, in order.
pub open spec fn direct_texts(children: Seq<Option<Seq<char>>>) -> Seq<Seq<char>> {
    children.filter_map(
        |child: Option<Seq<char>>|
            match child {
                Some(text) => Some(trimmed(text)),
                None => None,
            },
    )
}

/// The identifier of an answer: the last path segment of its delete link.
pub open spec fn answer_id(body: Option<PanelBodyView>) -> Option<Seq<char>> {
    match body {
        Some(body) => if body.has_delete_link {
            Some(last_piece(text_or_empty(body.delete_href), SLASH@))
        } else {
            None
        },
        None => None,
    }
}

/// The text of an answer: the text nodes directly in the body, each trimmed,
/// with one space between neighbours.
pub open spec fn answer_content(body: Option<PanelBodyView>) -> Seq<char> {
    match body {
        Some(body) => joined(direct_texts(body.children), SPACE@),
        None => Seq::empty(),
    }
}

/// Where the file of an answer can be fetched: the shown address with the
/// shown path replaced by the real one.
pub open spec fn answer_file(body: Option<PanelBodyView>) -> Option<Seq<char>> {
    match body {
        Some(body) => match body.file_href {
            Some(href) => Some(replaced(href, SHOWN_FILE_PATH@, FILE_PATH@)),
            None => None,
        },
        None => None,
    }
}

/// The time of a submission: the content of the second cell of the last row
/// labelled as submission time.
pub open spec fn submission_time(rows: Seq<RowView>) -> Option<TimestampView> {
    match last_row_with(rows, SUBMISSION_TIME@, 0) {
        Some(i) => Some(timestamp_of(text_or_empty(cell_content(rows[i], 1)))),
        None => None,
    }
}

/// The answer that an answer panel shows.
pub open spec fn answer_of(panel: AnswerPanelView) -> AnswerView {
    AnswerView {
        id: answer_id(panel.body),
        content: answer_content(panel.body),
        file_href: answer_file(panel.body),
        is_graded: last_row_with(panel.rows, SCORE@, 0) is Some,
        lecturer_notes: field_text(panel.rows, NOTES@),
        score_text: field_text(panel.rows, SCORE@),
        date_submitted: submission_time(panel.rows),
    }
}

/// The answer of a task, if a panel stands behind its table.
pub open spec fn answer_behind(panel: Option<AnswerPanelView>) -> Option<AnswerView> {
    match panel {
        Some(panel) => Some(answer_of(panel)),
        None => None,
    }
}

/// Whether the panel behind a task's table has a score row.
pub open spec fn has_score_row(panel: Option<AnswerPanelView>) -> bool {
    match panel {
        Some(panel) => last_row_with(panel.rows, SCORE@, 0) is Some,
        None => false,
    }
}

/// The identifier in the form of a task; empty without form or field.
pub open spec fn form_id(form: Option<TaskFormView>) -> Seq<char> {
    match form {
        Some(form) => text_or_empty(form.id),
        None => Seq::empty(),
    }
}

/// The token in the form of a task; empty without form or field.
pub open spec fn form_token(form: Option<TaskFormView>) -> Seq<char> {
    match form {
        Some(form) => text_or_empty(form.token),
        None => Seq::empty(),
    }
}

/// The task that a task block shows, for the topic and course given.
pub open spec fn task_of(
    block: TaskBlockView,
    topic_id: Seq<char>,
    course_id: Seq<char>,
) -> TaskView {
    TaskView {
        id: form_id(block.form),
        course_id,
        topic_id,
        token: form_token(block.form),
        title: field_text(block.rows, TITLE@),
        description: field_text(block.rows, TASK_DESCRIPTION@),
        file: field_link(block.rows, FILE@),
        start_date: period_time(block.rows, 0),
        due_date: period_time(block.rows, 1),
        status: status_of(block.panel is Some, has_score_row(block.panel)),
        answer: answer_behind(block.panel),
    }
}

/// The identifier of the video that the player address `src` names: what
/// follows the last video mark, up to the first question mark.
pub open spec fn video_id(src: Seq<char>) -> Seq<char> {
    first_piece(last_piece(src, VIDEO_MARK@), QUERY_MARK@)
}

/// The content item at position `position` of a page.
pub open spec fn content_of(block: ContentBlockView, position: usize) -> ContentView {
    ContentView {
        id: position,
        youtube_id: match block.video_src {
            Some(src) => Some(video_id(src)),
            None => None,
        },
        raw_html: block.raw_html,
    }
}

/// The path of the page of a topic.
pub open spec fn topic_href(topic_id: Seq<char>, course_id: Seq<char>) -> Seq<char> {
    TOPIC_PATH@ + course_id + SLASH@ + topic_id
}

/// The description of a topic: the text of its block without surrounding
/// white space.
pub open spec fn trimmed_description(text: Option<Seq<char>>) -> Option<Seq<char>> {
    match text {
        Some(t) => Some(trimmed(t)),
        None => None,
    }
}

/// The topic record for what a topic page shows.
pub open spec fn topic_of_page(
    page: TopicPageView,
    topic_id: Seq<char>,
    course_id: Seq<char>,
) -> TopicDetailView {
    TopicDetailView {
        id: topic_id,
        access_time: access_time_of(page.access_label),
        is_accessible: true,
        href: topic_href(topic_id, course_id),
        description: trimmed_description(page.description),
        contents: Seq::new(
            page.contents.len(),
            |i: int| content_of(page.contents[i], i as usize),
        ),
        tasks: page.tasks.map_values(|b: TaskBlockView| task_of(b, topic_id, course_id)),
    }
}

/// The topic record that the markup `html` gives.
pub open spec fn topic_detail(
    html: Seq<char>,
    topic_id: Seq<char>,
    course_id: Seq<char>,
) -> TopicDetailView {
    topic_of_page(topic_page_of(&parsed_document(html)), topic_id, course_id)
}

/// The content of the cell of a row with the given index, counted from 0:
/// its text without surrounding white space and without label marks. A row
/// with fewer cells gives `None`.
pub fn get_td_content(row: &Row, index: usize) -> (content: Option<String>)
    ensures
        content.deep_view() == cell_content(row.deep_view(), index as int),
{
    if index < row.cells.len() {
        let text = trim(row.cells[index].text.as_str());
        Some(remove(text.as_str(), LABEL_MARK))
    } else {
        None
    }
}

/// The target of the first link in the cell of a row with the given index,
/// counted from 0. A row with fewer cells, or a cell without link, gives
/// `None`.
pub fn get_td_file_href(row: &Row, index: usize) -> (href: Option<String>)
    ensures
        href.deep_view() == cell_link(row.deep_view(), index as int),
{
    if index < row.cells.len() {
        match &row.cells[index].link {
            Some(link) => Some(link.clone()),
            None => None,
        }
    } else {
        None
    }
}

/// Whether the first cell of a row reads `label` and the row sets at least
/// `emphasized` texts in bold.
pub fn row_qualifies(row: &Row, label: &str, emphasized: usize) -> (yes: bool)
    ensures
        yes == qualifies(row.deep_view(), label@, emphasized as nat),
{
    match get_td_content(row, 0) {
        Some(content) => same_text(content.as_str(), label) && row.emphasized.len() >= emphasized,
        None => false,
    }
}

/// Finds the last row whose first cell reads `label` and which sets at least
/// `emphasized` texts in bold.
pub fn find_last_row(rows: &Vec<Row>, label: &str, emphasized: usize) -> (found: Option<usize>)
    ensures
        match found {
            Some(i) => last_row_with(rows.deep_view(), label@, emphasized as nat) == Some(i as int)
                && i < rows.len() && rows[i as int].emphasized.len() >= emphasized,
            None => last_row_with(rows.deep_view(), label@, emphasized as nat) is None,
        },
{
    let ghost all = rows.deep_view();
    let mut i: usize = rows.len();
    assert(all.take(i as int) == all);
    while i > 0
        invariant
            i <= rows.len(),
            all == rows.deep_view(),
            last_row_with(all, label@, emphasized as nat) == last_row_with(
                all.take(i as int),
                label@,
                emphasized as nat,
            ),
        decreases i,
    {
        assert(all.take(i as int).drop_last() == all.take(i - 1));
        i -= 1;
        if row_qualifies(&rows[i], label, emphasized) {
            return Some(i);
        }
    }
    None
}

/// Reads the value of the field `label` out of the rows of a table.
pub fn read_field_text(rows: &Vec<Row>, label: &str) -> (value: String)
    ensures
        value@ == field_text(rows.deep_view(), label@),
{
    match find_last_row(rows, label, 0) {
        Some(i) => {
            match get_td_content(&rows[i], 1) {
                Some(content) => content,
                None => String::new(),
            }
        },
        None => String::new(),
    }
}

/// Reads the link of the field `label` out of the rows of a table.
pub fn read_field_link(rows: &Vec<Row>, label: &str) -> (link: Option<String>)
    ensures
        link.deep_view() == field_link(rows.deep_view(), label@),
{
    match find_last_row(rows, label, 0) {
        Some(i) => {
            get_td_file_href(&rows[i], 1)
        },
        None => None,
    }
}

/// Keeps a displayed time and adds its reading.
pub fn make_timestamp(raw: String) -> (time: Timestamp)
    ensures
        time.deep_view() == timestamp_of(raw@),
        timestamp_in_range(Some(time.deep_view())),
{
    let parsed = parse_dt(raw.as_str());
    Timestamp { raw, parsed }
}

/// Reads the period of a task: its start and its end, from the first two
/// texts set in bold in the last period row that sets at least two.
pub fn read_period(rows: &Vec<Row>) -> (period: (Option<Timestamp>, Option<Timestamp>))
    ensures
        period.0.deep_view() == period_time(rows.deep_view(), 0),
        period.1.deep_view() == period_time(rows.deep_view(), 1),
        timestamp_in_range(period.0.deep_view()),
        timestamp_in_range(period.1.deep_view()),
{
    match find_last_row(rows, SUBMISSION_TIME, 2) {
        Some(i) => {
            let start = make_timestamp(rows[i].emphasized[0].clone());
            let end = make_timestamp(rows[i].emphasized[1].clone());
            (Some(start), Some(end))
        },
        None => (None, None),
    }
}

/// Reads the time of a submission.
pub fn read_submission_time(rows: &Vec<Row>) -> (time: Option<Timestamp>)
    ensures
        time.deep_view() == submission_time(rows.deep_view()),
        timestamp_in_range(time.deep_view()),
{
    match find_last_row(rows, SUBMISSION_TIME, 0) {
        Some(i) => {
            let raw = match get_td_content(&rows[i], 1) {
                Some(content) => content,
                None => String::new(),
            };
            Some(make_timestamp(raw))
        },
        None => None,
    }
}

/// Derives the status of a task from whether an answer panel stands behind
/// its table and whether that panel has a score row.
pub fn derive_status(has_panel: bool, has_score_row: bool) -> (status: TaskStatus)
    ensures
        status == status_of(has_panel, has_score_row),
        status != TaskStatus::Pending,
{
    if !has_panel {
        TaskStatus::NotSubmitted
    } else if has_score_row {
        TaskStatus::Graded
    } else {
        TaskStatus::Submitted
    }
}

/// Collects the text nodes among the children of a panel body, each trimmed.
pub fn collect_direct_texts(children: &Vec<Option<String>>) -> (texts: Vec<String>)
    ensures
        texts.deep_view() == direct_texts(children.deep_view()),
{
    let ghost all = children.deep_view();
    let ghost pick = |child: Option<Seq<char>>|
        match child {
            Some(text) => Some(trimmed(text)),
            None => None,
        };
    let mut texts: Vec<String> = Vec::new();
    let n: usize = children.len();
    let mut i: usize = 0;
    while i < n
        invariant
            n == children.len(),
            i <= n,
            all == children.deep_view(),
            pick == |child: Option<Seq<char>>|
                match child {
                    Some(text) => Some(trimmed(text)),
                    None => None,
                },
            texts.deep_view() == all.take(i as int).filter_map(pick),
        decreases n - i,
    {
        assert(all.take(i + 1).drop_last() == all.take(i as int));
        if let Some(text) = &children[i] {
            texts.push(trim(text.as_str()));
        }
        i += 1;
    }
    assert(all.take(n as int) == all);
    texts
}

/// Derives the identifier of an answer from the body of its panel.
pub fn answer_id_from_body(body: &Option<PanelBody>) -> (id: Option<String>)
    ensures
        id.deep_view() == answer_id(body.deep_view()),
{
    match body {
        Some(body) => {
            if body.has_delete_link {
                match &body.delete_href {
                    Some(href) => Some(last_of_split(href.as_str(), SLASH)),
                    None => {
                        Some(String::new())
                    },
                }
            } else {
                None
            }
        },
        None => None,
    }
}

/// Derives the text of an answer from the body of its panel.
pub fn answer_content_from_body(body: &Option<PanelBody>) -> (content: String)
    ensures
        content@ == answer_content(body.deep_view()),
{
    match body {
        Some(body) => {
            let texts = collect_direct_texts(&body.children);
            join(&texts, SPACE)
        },
        None => String::new(),
    }
}

/// Derives the address of an answer's file from the body of its panel.
pub fn answer_file_from_body(body: &Option<PanelBody>) -> (href: Option<String>)
    ensures
        href.deep_view() == answer_file(body.deep_view()),
{
    match body {
        Some(body) => match &body.file_href {
            Some(href) => Some(replace(href.as_str(), SHOWN_FILE_PATH, FILE_PATH)),
            None => None,
        },
        None => None,
    }
}

/// Derives an answer from its panel.
pub fn answer_from_panel(panel: &AnswerPanel) -> (answer: Answer)
    ensures
        answer.deep_view() == answer_of(panel.deep_view()),
        timestamp_in_range(answer.deep_view().date_submitted),
{
    Answer {
        id: answer_id_from_body(&panel.body),
        content: answer_content_from_body(&panel.body),
        file_href: answer_file_from_body(&panel.body),
        is_graded: find_last_row(&panel.rows, SCORE, 0).is_some(),
        lecturer_notes: read_field_text(&panel.rows, NOTES),
        score_text: read_field_text(&panel.rows, SCORE),
        date_submitted: read_submission_time(&panel.rows),
    }
}

/// Derives a task from its block. `topic_id` and `course_id` name the topic
/// that the page belongs to.
pub fn task_from_block(block: &TaskBlock, topic_id: &str, course_id: &str) -> (task: Task)
    ensures
        task.deep_view() == task_of(block.deep_view(), topic_id@, course_id@),
        task.deep_view().well_formed(),
        task.deep_view().times_in_range(),
{
    let (id, token) = match &block.form {
        Some(form) => {
            let id = match &form.id {
                Some(id) => id.clone(),
                None => String::new(),
            };
            let token = match &form.token {
                Some(token) => token.clone(),
                None => String::new(),
            };
            (id, token)
        },
        None => (String::new(), String::new()),
    };
    let (answer, graded) = match &block.panel {
        Some(panel) => {
            let answer = answer_from_panel(panel);
            let graded = answer.is_graded;
            (Some(answer), graded)
        },
        None => (None, false),
    };
    let (start_date, due_date) = read_period(&block.rows);
    Task {
        id,
        course_id: String::from_str(course_id),
        topic_id: String::from_str(topic_id),
        token,
        title: read_field_text(&block.rows, TITLE),
        description: read_field_text(&block.rows, TASK_DESCRIPTION),
        file: read_field_link(&block.rows, FILE),
        start_date,
        due_date,
        status: derive_status(block.panel.is_some(), graded),
        answer,
    }
}

/// Derives a content item from its block and its position on the page.
pub fn content_from_block(block: &ContentBlock, position: usize) -> (content: Content)
    ensures
        content.deep_view() == content_of(block.deep_view(), position),
{
    let youtube_id = match &block.video_src {
        Some(src) => {
            let behind = last_of_split(src.as_str(), VIDEO_MARK);
            Some(first_of_split(behind.as_str(), QUERY_MARK))
        },
        None => None,
    };
    Content { id: position, youtube_id, raw_html: block.raw_html.clone() }
}

/// Derives the topic record from what the topic page shows.
pub fn topic_from_page(page: &TopicPage, topic_id: &str, course_id: &str) -> (topic: TopicDetail)
    ensures
        topic.deep_view() == topic_of_page(page.deep_view(), topic_id@, course_id@),
        topic.deep_view().well_formed(),
{
    let mut contents: Vec<Content> = Vec::new();
    let n: usize = page.contents.len();
    let mut i: usize = 0;
    while i < n
        invariant
            n == page.contents.len(),
            i <= n,
            contents.len() == i,
            forall|j: int|
                0 <= j < i ==> (#[trigger] contents[j]).deep_view() == content_of(
                    page.contents[j].deep_view(),
                    j as usize,
                ),
        decreases n - i,
    {
        contents.push(content_from_block(&page.contents[i], i));
        i += 1;
    }
    let mut tasks: Vec<Task> = Vec::new();
    let m: usize = page.tasks.len();
    let mut k: usize = 0;
    while k < m
        invariant
            m == page.tasks.len(),
            k <= m,
            tasks.len() == k,
            forall|j: int|
                0 <= j < k ==> (#[trigger] tasks[j]).deep_view() == task_of(
                    page.tasks[j].deep_view(),
                    topic_id@,
                    course_id@,
                ),
            forall|j: int|
                0 <= j < k ==> (#[trigger] tasks[j]).deep_view().well_formed()
                    && tasks[j].deep_view().times_in_range(),
        decreases m - k,
    {
        tasks.push(task_from_block(&page.tasks[k], topic_id, course_id));
        k += 1;
    }
    let mut href = String::from_str(TOPIC_PATH);
    href.append(course_id);
    href.append(SLASH);
    href.append(topic_id);
    let description = match &page.description {
        Some(text) => Some(trim(text.as_str())),
        None => None,
    };
    let topic = TopicDetail {
        id: String::from_str(topic_id),
        access_time: parse_access_time(&page.access_label),
        is_accessible: true,
        href,
        description,
        contents,
        tasks,
    };
    assert(topic.deep_view().contents =~= topic_of_page(
        page.deep_view(),
        topic_id@,
        course_id@,
    ).contents);
    assert(topic.deep_view().tasks =~= topic_of_page(
        page.deep_view(),
        topic_id@,
        course_id@,
    ).tasks);
    topic
}

/// Reads a topic detail page. `topic_id` and `course_id` name the topic whose
/// page `html` is; the page does not repeat them. Every page gives a record:
/// what the page lacks is empty or `None` in it.
pub fn parse_topic_detail_from_html(html: &str, topic_id: &str, course_id: &str) -> (result: Result<
    TopicDetail,
    ScraperError,
>)
    ensures
        result matches Ok(topic) && topic.deep_view() == topic_detail(html@, topic_id@, course_id@)
            && topic.deep_view().well_formed(),
{
    let doc = parse_document(html);
    let page = read_topic_page(&doc);
    Ok(topic_from_page(&page, topic_id, course_id))
}

/// What the index of the last qualifying row says: that row qualifies and
/// none behind it does; without index no row qualifies.
pub proof fn lemma_last_row_with(rows: Seq<RowView>, label: Seq<char>, emphasized: nat)
    ensures
        match last_row_with(rows, label, emphasized) {
            Some(i) => 0 <= i < rows.len() && qualifies(rows[i], label, emphasized) && forall|
                j: int,
            |
                i < j < rows.len() ==> !qualifies(#[trigger] rows[j], label, emphasized),
            None => forall|j: int|
                0 <= j < rows.len() ==> !qualifies(#[trigger] rows[j], label, emphasized),
        },
    decreases rows.len(),
{
    if rows.len() > 0 && !qualifies(rows.last(), label, emphasized) {
        lemma_last_row_with(rows.drop_last(), label, emphasized);
        assert forall|j: int| 0 <= j < rows.len() - 1 implies rows.drop_last()[j] == rows[j] by {}
    }
}

/// The status of a task never is `Pending`, and it agrees with the answer:
/// no answer, an ungraded one, or a graded one.
pub proof fn lemma_status_agrees_with_answer(
    block: TaskBlockView,
    topic_id: Seq<char>,
    course_id: Seq<char>,
)
    ensures
        task_of(block, topic_id, course_id).well_formed(),
        task_of(block, topic_id, course_id).status != TaskStatus::Pending,
        task_of(block, topic_id, course_id).answer is Some <==> block.panel is Some,
{
}

/// A task without answer panel behind its table is not submitted and has no
/// answer.
pub proof fn lemma_no_panel_not_submitted(
    block: TaskBlockView,
    topic_id: Seq<char>,
    course_id: Seq<char>,
)
    requires
        block.panel is None,
    ensures
        task_of(block, topic_id, course_id).status == TaskStatus::NotSubmitted,
        task_of(block, topic_id, course_id).answer is None,
{
}

/// A table whose next sibling element lacks the answer class, or which has
/// no next sibling element, gives a task that is not submitted and has no
/// answer.
pub proof fn lemma_unmarked_sibling_not_submitted(
    table: ElementRef,
    form: Option<TaskFormView>,
    topic_id: Seq<char>,
    course_id: Seq<char>,
)
    requires
        next_element_of(table) matches Some(sibling) ==> !has_class(sibling, ANSWER_CLASS@),
    ensures
        task_of(task_block_of(table, form), topic_id, course_id).status == TaskStatus::NotSubmitted,
        task_of(task_block_of(table, form), topic_id, course_id).answer is None,
{
}

/// A task whose answer panel has a row labelled as score is graded, and the
/// score shown is the content of the second cell of the last such row.
pub proof fn lemma_score_row_means_graded(
    block: TaskBlockView,
    topic_id: Seq<char>,
    course_id: Seq<char>,
    i: int,
)
    requires
        block.panel is Some,
        0 <= i < block.panel->0.rows.len(),
        cell_content(block.panel->0.rows[i], 0) == Some(SCORE@),
    ensures
        task_of(block, topic_id, course_id).status == TaskStatus::Graded,
        task_of(block, topic_id, course_id).answer is Some,
        task_of(block, topic_id, course_id).answer->0.is_graded,
        exists|j: int|
            i <= j < block.panel->0.rows.len() && cell_content(
                #[trigger] block.panel->0.rows[j],
                0,
            ) == Some(SCORE@) && task_of(block, topic_id, course_id).answer->0.score_text
                == text_or_empty(cell_content(block.panel->0.rows[j], 1)),
        (forall|k: int|
            i < k < block.panel->0.rows.len() ==> cell_content(
                #[trigger] block.panel->0.rows[k],
                0,
            ) != Some(SCORE@)) ==> task_of(block, topic_id, course_id).answer->0.score_text
            == text_or_empty(cell_content(block.panel->0.rows[i], 1)),
{
    lemma_last_row_with(block.panel->0.rows, SCORE@, 0);
}

/// A table whose next sibling element carries the answer class and holds a
/// row labelled as score gives a graded task with a graded answer, and the
/// score shown is the content of the second cell of the last such row.
pub proof fn lemma_marked_sibling_with_score_row(
    table: ElementRef,
    form: Option<TaskFormView>,
    topic_id: Seq<char>,
    course_id: Seq<char>,
    i: int,
)
    requires
        next_element_of(table) is Some,
        has_class(next_element_of(table)->0, ANSWER_CLASS@),
        0 <= i < rows_of(matches_in(next_element_of(table)->0, PANEL_ROWS@)).len(),
        cell_content(rows_of(matches_in(next_element_of(table)->0, PANEL_ROWS@))[i], 0) == Some(
            SCORE@,
        ),
    ensures
        task_of(task_block_of(table, form), topic_id, course_id).status == TaskStatus::Graded,
        task_of(task_block_of(table, form), topic_id, course_id).answer is Some,
        task_of(task_block_of(table, form), topic_id, course_id).answer->0.is_graded,
        exists|j: int|
            i <= j < rows_of(matches_in(next_element_of(table)->0, PANEL_ROWS@)).len() && task_of(
                task_block_of(table, form),
                topic_id,
                course_id,
            ).answer->0.score_text == text_or_empty(
                cell_content(
                    #[trigger] rows_of(matches_in(next_element_of(table)->0, PANEL_ROWS@))[j],
                    1,
                ),
            ),
{
    lemma_score_row_means_graded(task_block_of(table, form), topic_id, course_id, i);
}

/// A task whose answer panel has no row labelled as score is submitted and
/// not graded.
pub proof fn lemma_no_score_row_means_submitted(
    block: TaskBlockView,
    topic_id: Seq<char>,
    course_id: Seq<char>,
)
    requires
        block.panel is Some,
        forall|i: int|
            0 <= i < block.panel->0.rows.len() ==> cell_content(
                #[trigger] block.panel->0.rows[i],
                0,
            ) != Some(SCORE@),
    ensures
        task_of(block, topic_id, course_id).status == TaskStatus::Submitted,
        task_of(block, topic_id, course_id).answer is Some,
        !task_of(block, topic_id, course_id).answer->0.is_graded,
{
    lemma_last_row_with(block.panel->0.rows, SCORE@, 0);
}

/// The address of an answer's file has the shown path replaced by the real
/// one: an address that holds the shown path once, between `front` and
/// `behind`, becomes `front`, the real path and `behind`.
pub proof fn lemma_answer_file_path_is_corrected(
    body: PanelBodyView,
    front: Seq<char>,
    behind: Seq<char>,
)
    requires
        body.file_href == Some(front + SHOWN_FILE_PATH@ + behind),
        forall|k: int|
            0 <= k < front.len() ==> !occurs_at(
                front + SHOWN_FILE_PATH@ + behind,
                SHOWN_FILE_PATH@,
                k,
            ),
        forall|k: int| 0 <= k < behind.len() ==> !occurs_at(behind, SHOWN_FILE_PATH@, k),
    ensures
        answer_file(Some(body)) == Some(front + FILE_PATH@ + behind),
{
    reveal_strlit("/tugas/mhs");
    let href = front + SHOWN_FILE_PATH@ + behind;
    let at = front.len() as int;
    assert(href.subrange(at, at + SHOWN_FILE_PATH@.len()) == SHOWN_FILE_PATH@);
    assert(href.subrange(at + SHOWN_FILE_PATH@.len(), href.len() as int) == behind);
    lemma_replaced_at_first_occurrence(href, SHOWN_FILE_PATH@, FILE_PATH@, at);
    lemma_replaced_without_occurrence(behind, SHOWN_FILE_PATH@, FILE_PATH@);
}

/// The tasks and the content items of a topic stand in the order of the
/// page, one for each block, and each content item carries its position.
pub proof fn lemma_topic_keeps_order(page: TopicPageView, topic_id: Seq<char>, course_id: Seq<char>)
    ensures
        topic_of_page(page, topic_id, course_id).tasks.len() == page.tasks.len(),
        topic_of_page(page, topic_id, course_id).contents.len() == page.contents.len(),
        forall|i: int|
            0 <= i < page.tasks.len() ==> #[trigger] topic_of_page(
                page,
                topic_id,
                course_id,
            ).tasks[i] == task_of(page.tasks[i], topic_id, course_id),
        forall|i: int|
            0 <= i < page.contents.len() ==> (#[trigger] topic_of_page(
                page,
                topic_id,
                course_id,
            ).contents[i]).id == i as usize,
{
}

} // verus!
