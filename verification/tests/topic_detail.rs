use spot_scraper::facts::{AnswerPanel, Cell, ContentBlock, PanelBody, Row, TaskBlock, TaskForm};
use spot_scraper::models::{Answer, Content, DateTime, Task, TaskStatus, Timestamp};
use spot_scraper::parsers::topic_detail::{
    answer_from_panel, content_from_block, derive_status, find_last_row, get_td_content,
    get_td_file_href, parse_topic_detail_from_html, task_from_block,
};

const TOPIC: &str = r#"<html><body>
<div class="panel-heading"><p> Waktu Akses: 01-03-2024 10:00 </p></div>
<div id="dashboard"><div>
   Topik pertama: pengantar
</div><div>kedua</div></div>
<div id="materi"><div class="row">
  <div class="col-lg-12"><iframe src="https://www.youtube.com/embed/abc123?rel=0"></iframe></div>
  <div class="col-lg-12"><p>Teks <b>tebal</b></p></div>
</div></div>
<div id="tugas">
  <table class="table table-striped"><tbody>
    <tr><td>Judul</td><td>: Tugas 1</td></tr>
    <tr><td>Deskripsi</td><td>: Kerjakan soal</td></tr>
    <tr><td>File</td><td><a href="/files/soal1.pdf">unduh</a></td></tr>
    <tr><td>Waktu Pengumpulan</td><td><b>01-03-2024 10:00</b> s/d <b>08-03-2024 23:59</b></td></tr>
    <tr><td>Lainnya</td><td>: diabaikan</td></tr>
  </tbody></table>
  <div class="panel PANEL-INFO">
    <table><tbody>
      <tr><td>Waktu Pengumpulan</td><td>: 02/03/2024 09:30:15</td></tr>
      <tr><td>Nilai</td><td>: 85.5</td></tr>
      <tr><td>Catatan</td><td>: Bagus</td></tr>
    </tbody></table>
    <div class="panel-body">Jawaban saya <a href="https://spot.example/tugas/mhs/99">berkas</a>
      baris kedua <a href="/mhs/tugas_del/555">hapus</a></div>
  </div>
  <div class="modal"><form><input type="hidden" name="_token" value="tok1"><input type="hidden" name="id_tg" value="900"></form></div>
  <table class="table-striped"><tbody>
    <tr><td>Judul</td><td>: Tugas 2</td></tr>
  </tbody></table>
  <div class="panel-info"><div class="panel-body">  sudah dikirim  </div></div>
  <div class="modal"><input name="id_tg" value="901"></div>
  <table class="table-striped"><tbody>
    <tr><td>Judul</td><td>: Tugas 3</td></tr>
    <tr><td>Waktu Pengumpulan</td><td><b>hanya satu</b></td></tr>
  </tbody></table>
  <div class="panel panel-default"><table><tbody><tr><td>Nilai</td><td>: 70</td></tr></tbody></table></div>
  <table class="table-striped"><tbody>
    <tr><td>Judul</td><td>: Tugas 4</td></tr>
  </tbody></table>
</div>
</body></html>"#;

fn at(day: u32, hour: u32, minute: u32, second: u32) -> DateTime {
    DateTime { year: 2024, month: 3, day, hour, minute, second, nanosecond: 0 }
}

fn cell(text: &str, link: Option<&str>) -> Cell {
    Cell { text: text.to_string(), link: link.map(|l| l.to_string()) }
}

fn labelled(label: &str, value: &str) -> Row {
    Row { cells: vec![cell(label, None), cell(value, None)], emphasized: Vec::new() }
}

fn score_of(answer: &Answer) -> f32 {
    answer.score_text.parse().unwrap_or(0.0)
}

#[test]
fn topic_page_gives_the_whole_record() {
    let topic = parse_topic_detail_from_html(TOPIC, "77", "1201").unwrap();
    assert_eq!(topic.id, "77");
    assert_eq!(topic.href, "/mhs/topik/1201/77");
    assert!(topic.is_accessible);
    assert_eq!(topic.access_time, Some(at(1, 10, 0, 0)));
    assert_eq!(topic.description.as_deref(), Some("Topik pertama: pengantar"));
    assert_eq!(
        topic.contents,
        vec![
            Content {
                id: 0,
                youtube_id: Some("abc123".to_string()),
                raw_html: r#"<iframe src="https://www.youtube.com/embed/abc123?rel=0"></iframe>"#
                    .to_string(),
            },
            Content { id: 1, youtube_id: None, raw_html: "<p>Teks <b>tebal</b></p>".to_string() },
        ]
    );
    assert_eq!(topic.tasks.len(), 4);
    assert_eq!(
        topic.tasks[0],
        Task {
            id: "900".to_string(),
            course_id: "1201".to_string(),
            topic_id: "77".to_string(),
            token: "tok1".to_string(),
            title: "Tugas 1".to_string(),
            description: "Kerjakan soal".to_string(),
            file: Some("/files/soal1.pdf".to_string()),
            start_date: Some(Timestamp {
                raw: "01-03-2024 10:00".to_string(),
                parsed: Some(at(1, 10, 0, 0)),
            }),
            due_date: Some(Timestamp {
                raw: "08-03-2024 23:59".to_string(),
                parsed: Some(at(8, 23, 59, 0)),
            }),
            status: TaskStatus::Graded,
            answer: Some(Answer {
                id: Some("555".to_string()),
                content: "Jawaban saya baris kedua".to_string(),
                file_href: Some("https://spot.example/tugas/99".to_string()),
                is_graded: true,
                lecturer_notes: "Bagus".to_string(),
                score_text: "85.5".to_string(),
                date_submitted: Some(Timestamp {
                    raw: "02/03/2024 09:30:15".to_string(),
                    parsed: Some(at(2, 9, 30, 15)),
                }),
            }),
        }
    );
}

#[test]
fn graded_task_shows_its_score() {
    let topic = parse_topic_detail_from_html(TOPIC, "77", "1201").unwrap();
    let task = &topic.tasks[0];
    assert_eq!(task.status, TaskStatus::Graded);
    let answer = task.answer.as_ref().unwrap();
    assert!(answer.is_graded);
    assert_eq!(score_of(answer), 85.5);
}

#[test]
fn panel_without_score_row_is_submitted() {
    let topic = parse_topic_detail_from_html(TOPIC, "77", "1201").unwrap();
    let task = &topic.tasks[1];
    assert_eq!(task.title, "Tugas 2");
    assert_eq!(task.id, "901");
    assert_eq!(task.token, "");
    assert_eq!(task.status, TaskStatus::Submitted);
    assert_eq!(
        task.answer,
        Some(Answer {
            id: None,
            content: "sudah dikirim".to_string(),
            file_href: None,
            is_graded: false,
            lecturer_notes: String::new(),
            score_text: String::new(),
            date_submitted: None,
        })
    );
    assert_eq!(score_of(task.answer.as_ref().unwrap()), 0.0);
}

#[test]
fn sibling_without_answer_class_is_not_submitted() {
    let topic = parse_topic_detail_from_html(TOPIC, "77", "1201").unwrap();
    let task = &topic.tasks[2];
    assert_eq!(task.title, "Tugas 3");
    assert_eq!(task.status, TaskStatus::NotSubmitted);
    assert_eq!(task.answer, None);
    assert_eq!(task.id, "");
    assert_eq!(task.token, "");
    assert_eq!(task.start_date, None);
    assert_eq!(task.due_date, None);
}

#[test]
fn table_without_sibling_is_not_submitted() {
    let topic = parse_topic_detail_from_html(TOPIC, "77", "1201").unwrap();
    let task = &topic.tasks[3];
    assert_eq!(task.title, "Tugas 4");
    assert_eq!(task.status, TaskStatus::NotSubmitted);
    assert_eq!(task.answer, None);
}

#[test]
fn empty_page_gives_an_empty_topic() {
    let topic = parse_topic_detail_from_html("", "5", "6").unwrap();
    assert_eq!(topic.id, "5");
    assert_eq!(topic.href, "/mhs/topik/6/5");
    assert_eq!(topic.access_time, None);
    assert_eq!(topic.description, None);
    assert!(topic.contents.is_empty());
    assert!(topic.tasks.is_empty());
}

#[test]
fn topic_page_is_the_same_on_every_call() {
    assert_eq!(
        parse_topic_detail_from_html(TOPIC, "77", "1201"),
        parse_topic_detail_from_html(TOPIC, "77", "1201")
    );
}

#[test]
fn status_follows_panel_and_score_row() {
    assert_eq!(derive_status(false, false), TaskStatus::NotSubmitted);
    assert_eq!(derive_status(false, true), TaskStatus::NotSubmitted);
    assert_eq!(derive_status(true, false), TaskStatus::Submitted);
    assert_eq!(derive_status(true, true), TaskStatus::Graded);
    assert_ne!(derive_status(true, true), TaskStatus::Pending);
}

#[test]
fn cell_content_is_trimmed_and_loses_label_marks() {
    let row = Row {
        cells: vec![cell("  Judul ", None), cell(" : Tugas: satu \n", Some("/f"))],
        emphasized: Vec::new(),
    };
    assert_eq!(get_td_content(&row, 0).as_deref(), Some("Judul"));
    assert_eq!(get_td_content(&row, 1).as_deref(), Some("Tugassatu"));
    assert_eq!(get_td_content(&row, 2), None);
    assert_eq!(get_td_file_href(&row, 0), None);
    assert_eq!(get_td_file_href(&row, 1).as_deref(), Some("/f"));
    assert_eq!(get_td_file_href(&row, 2), None);
}

#[test]
fn last_row_with_a_label_wins() {
    let rows = vec![
        labelled("Judul", "satu"),
        labelled("Nilai", "10"),
        labelled("Judul", "dua"),
        Row { cells: Vec::new(), emphasized: Vec::new() },
    ];
    assert_eq!(find_last_row(&rows, "Judul", 0), Some(2));
    assert_eq!(find_last_row(&rows, "Nilai", 0), Some(1));
    assert_eq!(find_last_row(&rows, "Catatan", 0), None);
    assert_eq!(find_last_row(&rows, "Judul", 1), None);
    let task = task_from_block(&TaskBlock { rows, panel: None, form: None }, "t", "c");
    assert_eq!(task.title, "dua");
    assert_eq!(task.description, "");
    assert_eq!(task.file, None);
}

#[test]
fn period_needs_two_bold_values() {
    let period = |bold: Vec<&str>| Row {
        cells: vec![cell("Waktu Pengumpulan", None), cell("x", None)],
        emphasized: bold.into_iter().map(|b| b.to_string()).collect(),
    };
    let of = |rows: Vec<Row>| {
        let task = task_from_block(&TaskBlock { rows, panel: None, form: None }, "t", "c");
        (task.start_date.map(|t| t.raw), task.due_date.map(|t| t.raw))
    };
    assert_eq!(of(vec![period(vec!["a"])]), (None, None));
    assert_eq!(of(vec![period(vec![])]), (None, None));
    assert_eq!(of(vec![period(vec!["a", "b"])]), (Some("a".to_string()), Some("b".to_string())));
    assert_eq!(
        of(vec![period(vec!["a", "b", "c"])]),
        (Some("a".to_string()), Some("b".to_string()))
    );
    assert_eq!(
        of(vec![period(vec!["a", "b"]), period(vec!["c"])]),
        (Some("a".to_string()), Some("b".to_string()))
    );
    assert_eq!(
        of(vec![period(vec!["a", "b"]), period(vec!["c", "d"])]),
        (Some("c".to_string()), Some("d".to_string()))
    );
}

#[test]
fn task_without_form_has_empty_identifier_and_token() {
    let block = |form: Option<TaskForm>| TaskBlock { rows: Vec::new(), panel: None, form };
    let none = task_from_block(&block(None), "7", "9");
    assert_eq!((none.id.as_str(), none.token.as_str()), ("", ""));
    assert_eq!((none.topic_id.as_str(), none.course_id.as_str()), ("7", "9"));
    let empty = task_from_block(&block(Some(TaskForm { id: None, token: None })), "7", "9");
    assert_eq!((empty.id.as_str(), empty.token.as_str()), ("", ""));
    let full = task_from_block(
        &block(Some(TaskForm { id: Some("12".to_string()), token: Some("abc".to_string()) })),
        "7",
        "9",
    );
    assert_eq!((full.id.as_str(), full.token.as_str()), ("12", "abc"));
}

#[test]
fn answer_reads_body_and_rows() {
    let panel = AnswerPanel {
        rows: vec![labelled("Nilai", ": x"), labelled("Nilai", ": 90"), labelled("Catatan", "")],
        body: Some(PanelBody {
            children: vec![
                Some("  satu ".to_string()),
                None,
                Some("\n".to_string()),
                Some("dua".to_string()),
            ],
            file_href: Some("/tugas/mhs/99".to_string()),
            has_delete_link: true,
            delete_href: None,
        }),
    };
    let answer = answer_from_panel(&panel);
    assert_eq!(answer.content, "satu  dua");
    assert_eq!(answer.file_href.as_deref(), Some("/tugas/99"));
    assert_eq!(answer.id.as_deref(), Some(""));
    assert!(answer.is_graded);
    assert_eq!(answer.score_text, "90");
    assert_eq!(score_of(&answer), 90.0);
    assert_eq!(answer.lecturer_notes, "");
    assert_eq!(answer.date_submitted, None);
    let task = task_from_block(&TaskBlock { rows: Vec::new(), panel: Some(panel), form: None }, "t", "c");
    assert_eq!(task.status, TaskStatus::Graded);
}

#[test]
fn unreadable_score_counts_as_zero() {
    let panel = AnswerPanel { rows: vec![labelled("Nilai", ": belum")], body: None };
    let answer = answer_from_panel(&panel);
    assert!(answer.is_graded);
    assert_eq!(answer.score_text, "belum");
    assert_eq!(score_of(&answer), 0.0);
    assert_eq!(answer.content, "");
    assert_eq!(answer.id, None);
    assert_eq!(answer.file_href, None);
}

#[test]
fn answer_file_path_is_corrected() {
    let with = |href: &str| {
        let panel = AnswerPanel {
            rows: Vec::new(),
            body: Some(PanelBody {
                children: Vec::new(),
                file_href: Some(href.to_string()),
                has_delete_link: false,
                delete_href: None,
            }),
        };
        answer_from_panel(&panel).file_href.unwrap()
    };
    assert_eq!(with("https://spot.example/tugas/mhs/99"), "https://spot.example/tugas/99");
    assert_eq!(with("/tugas/mhs/99"), "/tugas/99");
    assert_eq!(with("/tugas/99"), "/tugas/99");
}

#[test]
fn video_identifier_stands_between_mark_and_query() {
    let with = |src: Option<&str>| {
        content_from_block(
            &ContentBlock { video_src: src.map(|s| s.to_string()), raw_html: "<i>x</i>".to_string() },
            3,
        )
    };
    assert_eq!(with(Some("https://www.youtube.com/embed/abc?rel=0&x=1")).youtube_id.as_deref(), Some("abc"));
    assert_eq!(with(Some("https://www.youtube.com/embed/abc")).youtube_id.as_deref(), Some("abc"));
    assert_eq!(with(Some("https://www.youtube.com/watch?v=abc")).youtube_id.as_deref(), Some("https://www.youtube.com/watch"));
    assert_eq!(with(None).youtube_id, None);
    assert_eq!(with(None).id, 3);
    assert_eq!(with(None).raw_html, "<i>x</i>");
}
