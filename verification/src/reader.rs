//! Reading what a page shows out of its document tree.

use crate::dom::{
    ancestor_nodes, ancestors_of, attr_of, child_texts, child_texts_of, element_attr,
    element_has_class, element_inner_html, element_text, first_attr_in, first_match_in,
    first_match_in_document, has_class, inner_html_of, matches_in, matches_in_document,
    next_element_of, next_sibling_element, parse_selector, parsed_selector, select_all,
    select_all_in_document, select_first, select_first_attr, select_first_in_document,
    selector_accepts, selector_matches, text_of,
};
use crate::facts::{
    AnswerPanel, AnswerPanelView, Cell, CellView, ContentBlock, ContentBlockView, CoursePage,
    CoursePageView, PanelBody, PanelBodyView, Paragraph, ParagraphView, Row, RowView,
    SyllabusLink, SyllabusLinkView, TaskBlock, TaskBlockView, TaskForm, TaskFormView, TopicBlock,
    TopicBlockView, TopicPage, TopicPageView,
};
use scraper::{ElementRef, Html, Selector};
use vstd::prelude::*;

verus! {

/// Any link.
pub const LINK: &'static str = "a";

/// The attribute of a link that holds its target.
pub const HREF: &'static str = "href";

/// The cells of a row.
pub const CELLS: &'static str = "td";

/// Text set in bold.
pub const BOLD: &'static str = "b";

/// The data rows of the course table.
pub const LISTING_ROWS: &'static str = "table > tbody > tr";

/// The cell that the element `e` is.
pub open spec fn cell_of(e: ElementRef) -> CellView {
    CellView { text: text_of(e), link: first_attr_in(e, LINK@, HREF@) }
}

/// The row that the element `e` is.
pub open spec fn row_of(e: ElementRef) -> RowView {
    RowView {
        cells: matches_in(e, CELLS@).map_values(|c: ElementRef| cell_of(c)),
        emphasized: matches_in(e, BOLD@).map_values(|b: ElementRef| text_of(b)),
    }
}

/// The rows that the elements `found` are.
pub open spec fn rows_of(found: Seq<ElementRef>) -> Seq<RowView> {
    found.map_values(|e: ElementRef| row_of(e))
}

/// The data rows of the course table of `doc`.
pub open spec fn listing_rows(doc: &Html) -> Seq<RowView> {
    rows_of(matches_in_document(doc, LISTING_ROWS@))
}

/// Reads a table cell.
pub fn read_cell(e: ElementRef) -> (cell: Cell)
    ensures
        cell.deep_view() == cell_of(e),
{
    Cell { text: element_text(e), link: select_first_attr(e, LINK, HREF) }
}

/// Reads the texts of the elements `found`.
pub fn read_texts(found: &Vec<ElementRef>) -> (texts: Vec<String>)
    ensures
        texts.deep_view() == found@.map_values(|e: ElementRef| text_of(e)),
{
    let mut texts: Vec<String> = Vec::new();
    let n: usize = found.len();
    let mut i: usize = 0;
    while i < n
        invariant
            n == found.len(),
            i <= n,
            texts.len() == i,
            forall|j: int| 0 <= j < i ==> (#[trigger] texts[j])@ == text_of(found[j]),
        decreases n - i,
    {
        texts.push(element_text(found[i]));
        i += 1;
    }
    texts
}

/// Reads a table row.
pub fn read_row(e: ElementRef) -> (row: Row)
    ensures
        row.deep_view() == row_of(e),
{
    let found = select_all(e, CELLS);
    let mut cells: Vec<Cell> = Vec::new();
    let n: usize = found.len();
    let mut i: usize = 0;
    while i < n
        invariant
            n == found.len(),
            i <= n,
            cells.len() == i,
            forall|j: int| 0 <= j < i ==> (#[trigger] cells[j]).deep_view() == cell_of(found[j]),
        decreases n - i,
    {
        cells.push(read_cell(found[i]));
        i += 1;
    }
    assert(cells.deep_view() =~= found@.map_values(|c: ElementRef| cell_of(c)));
    let bold = select_all(e, BOLD);
    Row { cells, emphasized: read_texts(&bold) }
}

/// Reads the rows that the elements `found` are.
pub fn read_rows(found: &Vec<ElementRef>) -> (rows: Vec<Row>)
    ensures
        rows.deep_view() == rows_of(found@),
{
    let mut rows: Vec<Row> = Vec::new();
    let n: usize = found.len();
    let mut i: usize = 0;
    while i < n
        invariant
            n == found.len(),
            i <= n,
            rows.len() == i,
            forall|j: int| 0 <= j < i ==> (#[trigger] rows[j]).deep_view() == row_of(found[j]),
        decreases n - i,
    {
        rows.push(read_row(found[i]));
        i += 1;
    }
    rows
}

/// Reads the data rows of the course table.
pub fn read_listing(doc: &Html) -> (rows: Vec<Row>)
    ensures
        rows.deep_view() == listing_rows(doc),
{
    let found = select_all_in_document(doc, LISTING_ROWS);
    read_rows(&found)
}

/// The warning shown while a course is not configured.
pub const NOT_CONFIGURED: &'static str = ".white-box.bg-warning";

/// A link to the syllabus of a course.
pub const SYLLABUS_LINK: &'static str = "a.btn-danger[href*='/mhs/rps/']";

/// A content panel.
pub const CONTENT_PANEL: &'static str = ".white-box";

/// A paragraph.
pub const PARAGRAPH: &'static str = "p";

/// The topic blocks of a course page.
pub const TOPIC_BLOCKS: &'static str = ".container-fluid .block4";

/// The link of a topic block that opens the topic.
pub const ACCESS_LINK: &'static str = ".panel-body a.btn-info";

/// The disabled button of a topic block that shows the access time.
pub const ACCESS_BUTTON: &'static str = ".panel-body div div button.disabled";

/// The text of the element `e`, where there is one.
pub open spec fn text_of_found(e: Option<ElementRef>) -> Option<Seq<char>> {
    match e {
        Some(e) => Some(text_of(e)),
        None => None,
    }
}

/// The paragraph that the element `e` is.
pub open spec fn paragraph_of(e: ElementRef) -> ParagraphView {
    ParagraphView {
        text: text_of(e),
        has_syllabus_link: first_match_in(e, SYLLABUS_LINK@) is Some,
    }
}

/// The first element among `nodes` that `selector` matches.
pub open spec fn first_accepted(nodes: Seq<Option<ElementRef>>, selector: Selector) -> Option<
    ElementRef,
>
    decreases nodes.len(),
{
    if nodes.len() == 0 {
        None
    } else {
        match nodes[0] {
            Some(e) if selector_accepts(selector, e) => Some(e),
            _ => first_accepted(nodes.drop_first(), selector),
        }
    }
}

/// The nearest content panel around `e`: its first ancestor, from the parent
/// up, that is one.
pub open spec fn enclosing_panel(e: ElementRef) -> Option<ElementRef> {
    match parsed_selector(CONTENT_PANEL@) {
        Some(selector) => first_accepted(ancestors_of(e), selector),
        None => None,
    }
}

/// The syllabus link that the element `e` is.
pub open spec fn syllabus_link_of(e: ElementRef) -> SyllabusLinkView {
    SyllabusLinkView {
        href: attr_of(e, HREF@),
        panel: match enclosing_panel(e) {
            Some(panel) => Some(
                matches_in(panel, PARAGRAPH@).map_values(|p: ElementRef| paragraph_of(p)),
            ),
            None => None,
        },
    }
}

/// The topic block that the element `e` is.
pub open spec fn topic_block_of(e: ElementRef) -> TopicBlockView {
    TopicBlockView {
        has_link: first_match_in(e, ACCESS_LINK@) is Some,
        link_href: first_attr_in(e, ACCESS_LINK@, HREF@),
        access_label: text_of_found(first_match_in(e, ACCESS_BUTTON@)),
    }
}

/// What the course detail page `doc` shows.
pub open spec fn course_page_of(doc: &Html) -> CoursePageView {
    CoursePageView {
        not_configured: first_match_in_document(doc, NOT_CONFIGURED@) is Some,
        syllabus: match first_match_in_document(doc, SYLLABUS_LINK@) {
            Some(e) => Some(syllabus_link_of(e)),
            None => None,
        },
        topics: matches_in_document(doc, TOPIC_BLOCKS@).map_values(
            |e: ElementRef| topic_block_of(e),
        ),
    }
}

/// Reads the text of an element, where there is one.
pub fn read_text_of_found(e: Option<ElementRef>) -> (text: Option<String>)
    ensures
        text.deep_view() == text_of_found(e),
{
    match e {
        Some(e) => Some(element_text(e)),
        None => None,
    }
}

/// Reads a paragraph.
pub fn read_paragraph(e: ElementRef) -> (paragraph: Paragraph)
    ensures
        paragraph.deep_view() == paragraph_of(e),
{
    Paragraph {
        text: element_text(e),
        has_syllabus_link: select_first(e, SYLLABUS_LINK).is_some(),
    }
}

/// Finds the nearest content panel around an element.
pub fn find_enclosing_panel<'a>(e: ElementRef<'a>) -> (panel: Option<ElementRef<'a>>)
    ensures
        panel == enclosing_panel(e),
{
    match parse_selector(CONTENT_PANEL) {
        Some(selector) => {
            let nodes = ancestor_nodes(e);
            let n: usize = nodes.len();
            let mut i: usize = 0;
            assert(nodes@.subrange(0, n as int) == nodes@);
            while i < n
                invariant
                    n == nodes.len(),
                    i <= n,
                    nodes@ == ancestors_of(e),
                    parsed_selector(CONTENT_PANEL@) == Some(selector),
                    first_accepted(nodes@, selector) == first_accepted(
                        nodes@.subrange(i as int, n as int),
                        selector,
                    ),
                decreases n - i,
            {
                assert(nodes@.subrange(i as int, n as int).drop_first() == nodes@.subrange(
                    i + 1,
                    n as int,
                ));
                if let Some(candidate) = nodes[i] {
                    if selector_matches(&selector, candidate) {
                        return Some(candidate);
                    }
                }
                i += 1;
            }
            None
        },
        None => None,
    }
}

/// Reads a syllabus link and the paragraphs of the panel around it.
pub fn read_syllabus_link(e: ElementRef) -> (link: SyllabusLink)
    ensures
        link.deep_view() == syllabus_link_of(e),
{
    let href = element_attr(e, HREF);
    let panel = match find_enclosing_panel(e) {
        Some(panel) => {
            let found = select_all(panel, PARAGRAPH);
            let mut paragraphs: Vec<Paragraph> = Vec::new();
            let n: usize = found.len();
            let mut i: usize = 0;
            while i < n
                invariant
                    n == found.len(),
                    i <= n,
                    paragraphs.len() == i,
                    forall|j: int|
                        0 <= j < i ==> (#[trigger] paragraphs[j]).deep_view() == paragraph_of(
                            found[j],
                        ),
                decreases n - i,
            {
                paragraphs.push(read_paragraph(found[i]));
                i += 1;
            }
            assert(paragraphs.deep_view() =~= found@.map_values(
                |p: ElementRef| paragraph_of(p),
            ));
            Some(paragraphs)
        },
        None => None,
    };
    SyllabusLink { href, panel }
}

/// Reads a topic block.
pub fn read_topic_block(e: ElementRef) -> (block: TopicBlock)
    ensures
        block.deep_view() == topic_block_of(e),
{
    let link = select_first(e, ACCESS_LINK);
    let link_href = match link {
        Some(a) => element_attr(a, HREF),
        None => None,
    };
    TopicBlock {
        has_link: link.is_some(),
        link_href,
        access_label: read_text_of_found(select_first(e, ACCESS_BUTTON)),
    }
}

/// Reads what a course detail page shows.
pub fn read_course_page(doc: &Html) -> (page: CoursePage)
    ensures
        page.deep_view() == course_page_of(doc),
{
    let not_configured = select_first_in_document(doc, NOT_CONFIGURED).is_some();
    let syllabus = match select_first_in_document(doc, SYLLABUS_LINK) {
        Some(e) => Some(read_syllabus_link(e)),
        None => None,
    };
    let found = select_all_in_document(doc, TOPIC_BLOCKS);
    let mut topics: Vec<TopicBlock> = Vec::new();
    let n: usize = found.len();
    let mut i: usize = 0;
    while i < n
        invariant
            n == found.len(),
            i <= n,
            topics.len() == i,
            forall|j: int|
                0 <= j < i ==> (#[trigger] topics[j]).deep_view() == topic_block_of(found[j]),
        decreases n - i,
    {
        topics.push(read_topic_block(found[i]));
        i += 1;
    }
    assert(topics.deep_view() =~= found@.map_values(|e: ElementRef| topic_block_of(e)));
    CoursePage { not_configured, syllabus, topics }
}

/// The block that describes a topic.
pub const DESCRIPTION: &'static str = "#dashboard div";

/// The heading paragraph that shows the access time of a topic.
pub const ACCESS_HEADING: &'static str = ".panel-heading p";

/// The blocks of learning content.
pub const CONTENT_BLOCKS: &'static str = "#materi .row .col-lg-12";

/// An embedded video player.
pub const VIDEO_FRAME: &'static str = "iframe[src*='youtube.com']";

/// The attribute of a player that holds its source address.
pub const SRC: &'static str = "src";

/// The tables that state the tasks.
pub const TASK_TABLES: &'static str = "#tugas .table-striped";

/// The forms that belong to the tasks.
pub const TASK_FORMS: &'static str = "#tugas .modal";

/// The rows of a task's table.
pub const TASK_ROWS: &'static str = "tbody > tr";

/// The class that marks the panel of a submitted answer.
pub const ANSWER_CLASS: &'static str = "panel-info";

/// The rows of an answer panel.
pub const PANEL_ROWS: &'static str = "tr";

/// The body of an answer panel.
pub const PANEL_BODY: &'static str = ".panel-body";

/// The link to the file of an answer.
pub const ANSWER_FILE: &'static str = "a[href*='/tugas/mhs']";

/// The link that deletes an answer.
pub const DELETE_LINK: &'static str = "a[href*='tugas_del']";

/// The hidden field with the identifier of a task.
pub const TASK_ID_FIELD: &'static str = "input[name='id_tg']";

/// The hidden field with the token of a task's form.
pub const TOKEN_FIELD: &'static str = "input[name='_token']";

/// The attribute of a field that holds its value.
pub const VALUE: &'static str = "value";

/// The content block that the element `e` is.
pub open spec fn content_block_of(e: ElementRef) -> ContentBlockView {
    ContentBlockView { video_src: first_attr_in(e, VIDEO_FRAME@, SRC@), raw_html: inner_html_of(e) }
}

/// The panel body that the element `e` is.
pub open spec fn body_of(e: ElementRef) -> PanelBodyView {
    PanelBodyView {
        children: child_texts_of(e),
        file_href: first_attr_in(e, ANSWER_FILE@, HREF@),
        has_delete_link: first_match_in(e, DELETE_LINK@) is Some,
        delete_href: first_attr_in(e, DELETE_LINK@, HREF@),
    }
}

/// The answer panel that the element `e` is.
pub open spec fn panel_of(e: ElementRef) -> AnswerPanelView {
    AnswerPanelView {
        rows: rows_of(matches_in(e, PANEL_ROWS@)),
        body: match first_match_in(e, PANEL_BODY@) {
            Some(body) => Some(body_of(body)),
            None => None,
        },
    }
}

/// The answer panel of the task whose table is `table`: the next sibling
/// element of the table, if there is one and it carries the answer class.
pub open spec fn panel_behind(table: ElementRef) -> Option<AnswerPanelView> {
    match next_element_of(table) {
        Some(sibling) => if has_class(sibling, ANSWER_CLASS@) {
            Some(panel_of(sibling))
        } else {
            None
        },
        None => None,
    }
}

/// The form fields that the element `e` holds.
pub open spec fn form_of(e: ElementRef) -> TaskFormView {
    TaskFormView {
        id: first_attr_in(e, TASK_ID_FIELD@, VALUE@),
        token: first_attr_in(e, TOKEN_FIELD@, VALUE@),
    }
}

/// The form at position `i` among `forms`, if there are that many.
pub open spec fn form_at(forms: Seq<ElementRef>, i: int) -> Option<TaskFormView> {
    if 0 <= i < forms.len() {
        Some(form_of(forms[i]))
    } else {
        None
    }
}

/// The task whose table is `table` and whose form, if any, is `form`.
pub open spec fn task_block_of(table: ElementRef, form: Option<TaskFormView>) -> TaskBlockView {
    TaskBlockView {
        rows: rows_of(matches_in(table, TASK_ROWS@)),
        panel: panel_behind(table),
        form,
    }
}

/// The tasks of a page: one for each table, in order, each paired with the
/// form at the table's own position.
pub open spec fn task_blocks_of(tables: Seq<ElementRef>, forms: Seq<ElementRef>) -> Seq<
    TaskBlockView,
> {
    Seq::new(tables.len(), |i: int| task_block_of(tables[i], form_at(forms, i)))
}

/// What the topic detail page `doc` shows.
pub open spec fn topic_page_of(doc: &Html) -> TopicPageView {
    TopicPageView {
        description: text_of_found(first_match_in_document(doc, DESCRIPTION@)),
        access_label: text_of_found(first_match_in_document(doc, ACCESS_HEADING@)),
        contents: matches_in_document(doc, CONTENT_BLOCKS@).map_values(
            |e: ElementRef| content_block_of(e),
        ),
        tasks: task_blocks_of(
            matches_in_document(doc, TASK_TABLES@),
            matches_in_document(doc, TASK_FORMS@),
        ),
    }
}

/// Reads a content block.
pub fn read_content_block(e: ElementRef) -> (block: ContentBlock)
    ensures
        block.deep_view() == content_block_of(e),
{
    ContentBlock {
        video_src: select_first_attr(e, VIDEO_FRAME, SRC),
        raw_html: element_inner_html(e),
    }
}

/// Reads the body of an answer panel.
pub fn read_body(e: ElementRef) -> (body: PanelBody)
    ensures
        body.deep_view() == body_of(e),
{
    PanelBody {
        children: child_texts(e),
        file_href: select_first_attr(e, ANSWER_FILE, HREF),
        has_delete_link: select_first(e, DELETE_LINK).is_some(),
        delete_href: select_first_attr(e, DELETE_LINK, HREF),
    }
}

/// Reads an answer panel.
pub fn read_panel(e: ElementRef) -> (panel: AnswerPanel)
    ensures
        panel.deep_view() == panel_of(e),
{
    let found = select_all(e, PANEL_ROWS);
    let body = match select_first(e, PANEL_BODY) {
        Some(body) => Some(read_body(body)),
        None => None,
    };
    AnswerPanel { rows: read_rows(&found), body }
}

/// Reads the answer panel behind a task's table, if there is one.
pub fn read_panel_behind(table: ElementRef) -> (panel: Option<AnswerPanel>)
    ensures
        panel.deep_view() == panel_behind(table),
{
    match next_sibling_element(table) {
        Some(sibling) => {
            if element_has_class(sibling, ANSWER_CLASS) {
                Some(read_panel(sibling))
            } else {
                None
            }
        },
        None => None,
    }
}

/// Reads the fields of a task's form.
pub fn read_form(e: ElementRef) -> (form: TaskForm)
    ensures
        form.deep_view() == form_of(e),
{
    TaskForm {
        id: select_first_attr(e, TASK_ID_FIELD, VALUE),
        token: select_first_attr(e, TOKEN_FIELD, VALUE),
    }
}

/// Reads the tasks of a page: every table with the panel behind it and the
/// form at its own position.
pub fn read_task_blocks(tables: &Vec<ElementRef>, forms: &Vec<ElementRef>) -> (blocks: Vec<
    TaskBlock,
>)
    ensures
        blocks.deep_view() == task_blocks_of(tables@, forms@),
{
    let mut blocks: Vec<TaskBlock> = Vec::new();
    let n: usize = tables.len();
    let mut i: usize = 0;
    while i < n
        invariant
            n == tables.len(),
            i <= n,
            blocks.len() == i,
            forall|j: int|
                0 <= j < i ==> (#[trigger] blocks[j]).deep_view() == task_block_of(
                    tables[j],
                    form_at(forms@, j),
                ),
        decreases n - i,
    {
        let table = tables[i];
        let found = select_all(table, TASK_ROWS);
        let form = if i < forms.len() {
            Some(read_form(forms[i]))
        } else {
            None
        };
        blocks.push(TaskBlock { rows: read_rows(&found), panel: read_panel_behind(table), form });
        i += 1;
    }
    blocks
}

/// Reads what a topic detail page shows.
pub fn read_topic_page(doc: &Html) -> (page: TopicPage)
    ensures
        page.deep_view() == topic_page_of(doc),
{
    let description = read_text_of_found(select_first_in_document(doc, DESCRIPTION));
    let access_label = read_text_of_found(select_first_in_document(doc, ACCESS_HEADING));
    let found = select_all_in_document(doc, CONTENT_BLOCKS);
    let mut contents: Vec<ContentBlock> = Vec::new();
    let n: usize = found.len();
    let mut i: usize = 0;
    while i < n
        invariant
            n == found.len(),
            i <= n,
            contents.len() == i,
            forall|j: int|
                0 <= j < i ==> (#[trigger] contents[j]).deep_view() == content_block_of(found[j]),
        decreases n - i,
    {
        contents.push(read_content_block(found[i]));
        i += 1;
    }
    assert(contents.deep_view() =~= found@.map_values(|e: ElementRef| content_block_of(e)));
    let tables = select_all_in_document(doc, TASK_TABLES);
    let forms = select_all_in_document(doc, TASK_FORMS);
    TopicPage { description, access_label, contents, tasks: read_task_blocks(&tables, &forms) }
}

} // verus!
