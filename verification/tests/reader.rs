use scraper::Html;
use spot_scraper::dom::{
    select_all, select_all_in_document, select_first, select_first_attr, select_first_in_document,
};
use spot_scraper::facts::{
    AnswerPanel, Cell, ContentBlock, CoursePage, PanelBody, Paragraph, Row, SyllabusLink,
    TaskBlock, TaskForm, TopicBlock, TopicPage,
};
use scraper::Selector;
use spot_scraper::reader::{
    find_enclosing_panel, read_course_page, read_listing, read_panel_behind, read_row,
    read_topic_page, ACCESS_BUTTON, ACCESS_HEADING, ACCESS_LINK, ANSWER_FILE, BOLD, CELLS,
    CONTENT_BLOCKS, CONTENT_PANEL, DELETE_LINK, DESCRIPTION, LINK, LISTING_ROWS, NOT_CONFIGURED,
    PANEL_BODY, PANEL_ROWS, PARAGRAPH, SYLLABUS_LINK, TASK_FORMS, TASK_ID_FIELD, TASK_ROWS,
    TASK_TABLES, TOKEN_FIELD, TOPIC_BLOCKS, VIDEO_FRAME,
};

fn text(s: &str) -> String {
    s.to_string()
}

#[test]
fn selection_follows_the_selector() {
    let doc = Html::parse_document(
        r#"<div id="a"><p class="x">1</p><span><p>2</p></span></div><p class="x">3</p>"#,
    );
    assert_eq!(select_all_in_document(&doc, "p").len(), 3);
    assert_eq!(select_all_in_document(&doc, "p.x").len(), 2);
    assert_eq!(select_all_in_document(&doc, "#a > p").len(), 1);
    assert_eq!(select_all_in_document(&doc, "table").len(), 0);
    let div = select_first_in_document(&doc, "#a").unwrap();
    assert_eq!(select_all(div, "p").len(), 2);
    assert_eq!(select_all(div, "div").len(), 0);
    assert!(select_first(div, "span > p").is_some());
    assert!(select_first(div, "b").is_none());
    assert_eq!(select_first_attr(div, "p", "class").as_deref(), Some("x"));
    assert_eq!(select_first_attr(div, "span", "class"), None);
    assert_eq!(select_first_attr(div, "b", "class"), None);
}

#[test]
fn text_that_is_no_selector_selects_nothing() {
    let doc = Html::parse_document("<p>1</p>");
    assert!(select_all_in_document(&doc, "p[").is_empty());
    assert!(select_first_in_document(&doc, "").is_none());
    let p = select_first_in_document(&doc, "p").unwrap();
    assert!(select_all(p, ">>").is_empty());
}

#[test]
fn row_holds_cells_links_and_bold_texts() {
    let doc = Html::parse_document(
        r#"<table><tbody><tr>
            <td> satu <i>miring</i></td>
            <td><a>tanpa</a><a href="/kedua">dua</a></td>
            <td><span><a href="/x">x</a></span> <b>t1</b><b> t2 </b></td>
        </tr></tbody></table>"#,
    );
    let tr = select_first_in_document(&doc, "tr").unwrap();
    assert_eq!(
        read_row(tr),
        Row {
            cells: vec![
                Cell { text: text(" satu miring"), link: None },
                Cell { text: text("tanpadua"), link: None },
                Cell { text: text("x t1 t2 "), link: Some(text("/x")) },
            ],
            emphasized: vec![text("t1"), text(" t2 ")],
        }
    );
}

#[test]
fn listing_rows_belong_to_a_table_body() {
    let doc = Html::parse_document(
        r#"<table><thead><tr><td>kepala</td></tr></thead>
           <tbody><tr><td>a</td></tr><tr><td>b</td></tr></tbody>
           <tfoot><tr><td>kaki</td></tr></tfoot></table>"#,
    );
    let rows = read_listing(&doc);
    let texts: Vec<&str> = rows.iter().map(|r| r.cells[0].text.as_str()).collect();
    assert_eq!(texts, vec!["a", "b"]);
}

#[test]
fn enclosing_panel_is_the_nearest_one() {
    let doc = Html::parse_document(
        r#"<div class="white-box" id="luar"><div class="white-box" id="dalam"><p><a id="x">x</a></p></div></div>
           <a id="y">y</a>"#,
    );
    let x = select_first_in_document(&doc, "#x").unwrap();
    let panel = find_enclosing_panel(x).unwrap();
    assert_eq!(panel.value().attr("id"), Some("dalam"));
    let inner = select_first_in_document(&doc, "#dalam").unwrap();
    assert_eq!(find_enclosing_panel(inner).unwrap().value().attr("id"), Some("luar"));
    let y = select_first_in_document(&doc, "#y").unwrap();
    assert!(find_enclosing_panel(y).is_none());
}

#[test]
fn course_page_facts() {
    let doc = Html::parse_document(
        r#"<div class="container-fluid">
          <div class="white-box"><p>satu <a class="btn-danger" href="/mhs/rps/7">RPS</a></p><p> dua </p></div>
          <div class="block4"><div class="panel-body"><a class="btn-info">buka</a>
             <div><div><button class="disabled">Waktu Akses: -</button></div></div></div></div>
          <div class="block4"></div>
        </div>"#,
    );
    assert_eq!(
        read_course_page(&doc),
        CoursePage {
            not_configured: false,
            syllabus: Some(SyllabusLink {
                href: Some(text("/mhs/rps/7")),
                panel: Some(vec![
                    Paragraph { text: text("satu RPS"), has_syllabus_link: true },
                    Paragraph { text: text(" dua "), has_syllabus_link: false },
                ]),
            }),
            topics: vec![
                TopicBlock {
                    has_link: true,
                    link_href: None,
                    access_label: Some(text("Waktu Akses: -")),
                },
                TopicBlock { has_link: false, link_href: None, access_label: None },
            ],
        }
    );
    let warned = Html::parse_document(r#"<div class="bg-warning white-box">x</div>"#);
    assert!(read_course_page(&warned).not_configured);
    let other = Html::parse_document(r#"<div class="bg-warning">x</div><div class="white-box"></div>"#);
    assert!(!read_course_page(&other).not_configured);
}

#[test]
fn answer_panel_is_the_next_element_with_the_answer_class() {
    let doc = Html::parse_document(
        r#"<div id="tugas">
             <table id="t1"></table> teks <!-- catatan --> <div class="panel-info"><div class="panel-body">a<b>b</b>c</div></div>
             <table id="t2"></table><p></p><div class="panel-info"></div>
             <table id="t3"></table>
           </div>"#,
    );
    let t1 = select_first_in_document(&doc, "#t1").unwrap();
    assert_eq!(
        read_panel_behind(t1),
        Some(AnswerPanel {
            rows: Vec::new(),
            body: Some(PanelBody {
                children: vec![Some(text("a")), None, Some(text("c"))],
                file_href: None,
                has_delete_link: false,
                delete_href: None,
            }),
        })
    );
    let t2 = select_first_in_document(&doc, "#t2").unwrap();
    assert_eq!(read_panel_behind(t2), None);
    let t3 = select_first_in_document(&doc, "#t3").unwrap();
    assert_eq!(read_panel_behind(t3), None);
}

#[test]
fn topic_page_facts() {
    let doc = Html::parse_document(
        r#"<div id="dashboard"><div> isi </div></div>
           <div id="materi"><div class="row"><div class="col-lg-12"><iframe src="//youtube.com/embed/q"></iframe><iframe src="//lain/embed/z"></iframe></div></div></div>
           <div id="tugas">
             <table class="table-striped"><tbody><tr><td>Judul</td><td>satu</td></tr></tbody></table>
             <div class="modal"><input name="id_tg" value="1"></div>
             <table class="table-striped"></table>
           </div>"#,
    );
    assert_eq!(
        read_topic_page(&doc),
        TopicPage {
            description: Some(text(" isi ")),
            access_label: None,
            contents: vec![ContentBlock {
                video_src: Some(text("//youtube.com/embed/q")),
                raw_html: text(
                    r#"<iframe src="//youtube.com/embed/q"></iframe><iframe src="//lain/embed/z"></iframe>"#
                ),
            }],
            tasks: vec![
                TaskBlock {
                    rows: vec![Row {
                        cells: vec![
                            Cell { text: text("Judul"), link: None },
                            Cell { text: text("satu"), link: None },
                        ],
                        emphasized: Vec::new(),
                    }],
                    panel: None,
                    form: Some(TaskForm { id: Some(text("1")), token: None }),
                },
                TaskBlock { rows: Vec::new(), panel: None, form: None },
            ],
        }
    );
}

#[test]
fn every_selector_of_the_reader_is_one() {
    let all = [
        ACCESS_BUTTON,
        ACCESS_HEADING,
        ACCESS_LINK,
        ANSWER_FILE,
        BOLD,
        CELLS,
        CONTENT_BLOCKS,
        CONTENT_PANEL,
        DELETE_LINK,
        DESCRIPTION,
        LINK,
        LISTING_ROWS,
        NOT_CONFIGURED,
        PANEL_BODY,
        PANEL_ROWS,
        PARAGRAPH,
        SYLLABUS_LINK,
        TASK_FORMS,
        TASK_ID_FIELD,
        TASK_ROWS,
        TASK_TABLES,
        TOKEN_FIELD,
        TOPIC_BLOCKS,
        VIDEO_FRAME,
    ];
    for css in all {
        assert!(Selector::parse(css).is_ok(), "{}", css);
    }
}
