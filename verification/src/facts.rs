//! What a page shows, as plain values: the texts, links and marks that the
//! extraction rules read, before any rule is applied to them.

use vstd::prelude::*;

verus! {

/// One table cell.
#[derive(Debug, Clone, PartialEq, Eq)]
pub struct Cell {
    /// The text inside the cell, as written.
    pub text: String,
    /// Target of the first link inside the cell; `None` where the cell has no
    /// link or its first link has no target.
    pub link: Option<String>,
}

pub struct CellView {
    pub text: Seq<char>,
    pub link: Option<Seq<char>>,
}

impl DeepView for Cell {
    type V = CellView;

    open spec fn deep_view(&self) -> CellView {
        CellView { text: self.text@, link: self.link.deep_view() }
    }
}

/// One table row.
#[derive(Debug, Clone, PartialEq, Eq)]
pub struct Row {
    pub cells: Vec<Cell>,
    /// The texts set in bold inside the row, in order.
    pub emphasized: Vec<String>,
}

pub struct RowView {
    pub cells: Seq<CellView>,
    pub emphasized: Seq<Seq<char>>,
}

impl DeepView for Row {
    type V = RowView;

    open spec fn deep_view(&self) -> RowView {
        RowView { cells: self.cells.deep_view(), emphasized: self.emphasized.deep_view() }
    }
}

/// One paragraph of the panel around the syllabus link.
#[derive(Debug, Clone, PartialEq, Eq)]
pub struct Paragraph {
    pub text: String,
    /// Whether the paragraph itself holds a syllabus link.
    pub has_syllabus_link: bool,
}

pub struct ParagraphView {
    pub text: Seq<char>,
    pub has_syllabus_link: bool,
}

impl DeepView for Paragraph {
    type V = ParagraphView;

    open spec fn deep_view(&self) -> ParagraphView {
        ParagraphView { text: self.text@, has_syllabus_link: self.has_syllabus_link }
    }
}

/// The first syllabus link of a course page and its surroundings.
#[derive(Debug, Clone, PartialEq, Eq)]
pub struct SyllabusLink {
    pub href: Option<String>,
    /// The paragraphs of the nearest content panel around the link, in
    /// order; `None` where no such panel encloses it.
    pub panel: Option<Vec<Paragraph>>,
}

pub struct SyllabusLinkView {
    pub href: Option<Seq<char>>,
    pub panel: Option<Seq<ParagraphView>>,
}

impl DeepView for SyllabusLink {
    type V = SyllabusLinkView;

    open spec fn deep_view(&self) -> SyllabusLinkView {
        SyllabusLinkView { href: self.href.deep_view(), panel: self.panel.deep_view() }
    }
}

/// One topic block of a course page.
#[derive(Debug, Clone, PartialEq, Eq)]
pub struct TopicBlock {
    /// Whether the block holds an access link.
    pub has_link: bool,
    /// Target of the access link.
    pub link_href: Option<String>,
    /// Text of the disabled button that shows the access time.
    pub access_label: Option<String>,
}

pub struct TopicBlockView {
    pub has_link: bool,
    pub link_href: Option<Seq<char>>,
    pub access_label: Option<Seq<char>>,
}

impl DeepView for TopicBlock {
    type V = TopicBlockView;

    open spec fn deep_view(&self) -> TopicBlockView {
        TopicBlockView {
            has_link: self.has_link,
            link_href: self.link_href.deep_view(),
            access_label: self.access_label.deep_view(),
        }
    }
}

/// What a course detail page shows.
#[derive(Debug, Clone, PartialEq, Eq)]
pub struct CoursePage {
    /// Whether the page warns that the course is not configured yet.
    pub not_configured: bool,
    pub syllabus: Option<SyllabusLink>,
    pub topics: Vec<TopicBlock>,
}

pub struct CoursePageView {
    pub not_configured: bool,
    pub syllabus: Option<SyllabusLinkView>,
    pub topics: Seq<TopicBlockView>,
}

impl DeepView for CoursePage {
    type V = CoursePageView;

    open spec fn deep_view(&self) -> CoursePageView {
        CoursePageView {
            not_configured: self.not_configured,
            syllabus: self.syllabus.deep_view(),
            topics: self.topics.deep_view(),
        }
    }
}

/// One block of learning content.
#[derive(Debug, Clone, PartialEq, Eq)]
pub struct ContentBlock {
    /// Source address of the embedded video player, if the block has one.
    pub video_src: Option<String>,
    pub raw_html: String,
}

pub struct ContentBlockView {
    pub video_src: Option<Seq<char>>,
    pub raw_html: Seq<char>,
}

impl DeepView for ContentBlock {
    type V = ContentBlockView;

    open spec fn deep_view(&self) -> ContentBlockView {
        ContentBlockView { video_src: self.video_src.deep_view(), raw_html: self.raw_html@ }
    }
}

/// The body of an answer panel.
#[derive(Debug, Clone, PartialEq, Eq)]
pub struct PanelBody {
    /// The children of the body in order: the text of each text node, `None`
    /// for every other child.
    pub children: Vec<Option<String>>,
    /// Target of the link to the submitted file.
    pub file_href: Option<String>,
    /// Whether the body holds a link that deletes the answer.
    pub has_delete_link: bool,
    pub delete_href: Option<String>,
}

pub struct PanelBodyView {
    pub children: Seq<Option<Seq<char>>>,
    pub file_href: Option<Seq<char>>,
    pub has_delete_link: bool,
    pub delete_href: Option<Seq<char>>,
}

impl DeepView for PanelBody {
    type V = PanelBodyView;

    open spec fn deep_view(&self) -> PanelBodyView {
        PanelBodyView {
            children: self.children.deep_view(),
            file_href: self.file_href.deep_view(),
            has_delete_link: self.has_delete_link,
            delete_href: self.delete_href.deep_view(),
        }
    }
}

/// The panel that follows a task's table once an answer exists.
#[derive(Debug, Clone, PartialEq, Eq)]
pub struct AnswerPanel {
    pub rows: Vec<Row>,
    pub body: Option<PanelBody>,
}

pub struct AnswerPanelView {
    pub rows: Seq<RowView>,
    pub body: Option<PanelBodyView>,
}

impl DeepView for AnswerPanel {
    type V = AnswerPanelView;

    open spec fn deep_view(&self) -> AnswerPanelView {
        AnswerPanelView { rows: self.rows.deep_view(), body: self.body.deep_view() }
    }
}

/// The hidden fields of the form that belongs to a task.
#[derive(Debug, Clone, PartialEq, Eq)]
pub struct TaskForm {
    pub id: Option<String>,
    pub token: Option<String>,
}

pub struct TaskFormView {
    pub id: Option<Seq<char>>,
    pub token: Option<Seq<char>>,
}

impl DeepView for TaskForm {
    type V = TaskFormView;

    open spec fn deep_view(&self) -> TaskFormView {
        TaskFormView { id: self.id.deep_view(), token: self.token.deep_view() }
    }
}

/// One task as the page shows it: its table of fields, the answer panel
/// directly behind the table, and the form at the same position among the
/// forms as the table has among the tables.
#[derive(Debug, Clone, PartialEq, Eq)]
pub struct TaskBlock {
    pub rows: Vec<Row>,
    pub panel: Option<AnswerPanel>,
    pub form: Option<TaskForm>,
}

pub struct TaskBlockView {
    pub rows: Seq<RowView>,
    pub panel: Option<AnswerPanelView>,
    pub form: Option<TaskFormView>,
}

impl DeepView for TaskBlock {
    type V = TaskBlockView;

    open spec fn deep_view(&self) -> TaskBlockView {
        TaskBlockView {
            rows: self.rows.deep_view(),
            panel: self.panel.deep_view(),
            form: self.form.deep_view(),
        }
    }
}

/// What a topic detail page shows.
#[derive(Debug, Clone, PartialEq, Eq)]
pub struct TopicPage {
    pub description: Option<String>,
    /// Text of the heading paragraph that shows the access time.
    pub access_label: Option<String>,
    pub contents: Vec<ContentBlock>,
    pub tasks: Vec<TaskBlock>,
}

pub struct TopicPageView {
    pub description: Option<Seq<char>>,
    pub access_label: Option<Seq<char>>,
    pub contents: Seq<ContentBlockView>,
    pub tasks: Seq<TaskBlockView>,
}

impl DeepView for TopicPage {
    type V = TopicPageView;

    open spec fn deep_view(&self) -> TopicPageView {
        TopicPageView {
            description: self.description.deep_view(),
            access_label: self.access_label.deep_view(),
            contents: self.contents.deep_view(),
            tasks: self.tasks.deep_view(),
        }
    }
}

} // verus!
