use spot_scraper::error::ScraperError;
use spot_scraper::facts::{Cell, Row};
use spot_scraper::models::Course;
use spot_scraper::parsers::courses::{
    courses_from_rows, extract_course_from_row, parse_courses_from_html,
};

const LISTING: &str = r#"<html><body>
<table class="table">
  <thead><tr><th>Kode</th><th>Nama</th><th>SKS</th><th>Dosen</th><th>Tahun</th></tr></thead>
  <tbody>
    <tr><td> IF101 </td><td><a href="https://spot.example/mhs/dashboard/1201">Algoritma</a></td><td>3</td><td>Dr. Budi</td><td>2023/2024</td></tr>
    <tr><td>rusak</td><td><a href="/mhs/dashboard/1">x</a></td><td>2</td></tr>
    <tr><td>IF102</td><td>Tanpa tautan</td><td>2</td><td>X</td><td>Y</td></tr>
    <tr><td>IF103</td><td><a href="/mhs/dashboard/1305">Basis Data</a></td><td>tiga</td><td>Dr. Sari</td><td> 2023/2024
    </td><td>lebih</td></tr>
  </tbody>
</table>
</body></html>"#;

fn cell(text: &str, link: Option<&str>) -> Cell {
    Cell { text: text.to_string(), link: link.map(|l| l.to_string()) }
}

fn row(cells: Vec<Cell>) -> Row {
    Row { cells, emphasized: Vec::new() }
}

#[test]
fn listing_gives_course_rows_in_page_order() {
    let courses = parse_courses_from_html(LISTING).unwrap();
    assert_eq!(
        courses,
        vec![
            Course {
                id: "1201".to_string(),
                code: "IF101".to_string(),
                name: "Algoritma".to_string(),
                credits: 3,
                lecturer: "Dr. Budi".to_string(),
                academic_year: "2023/2024".to_string(),
                href: "https://spot.example/mhs/dashboard/1201".to_string(),
            },
            Course {
                id: "1305".to_string(),
                code: "IF103".to_string(),
                name: "Basis Data".to_string(),
                credits: 0,
                lecturer: "Dr. Sari".to_string(),
                academic_year: "2023/2024".to_string(),
                href: "/mhs/dashboard/1305".to_string(),
            },
        ]
    );
}

#[test]
fn listing_is_the_same_on_every_call() {
    assert_eq!(parse_courses_from_html(LISTING), parse_courses_from_html(LISTING));
}

#[test]
fn listing_without_table_is_a_parsing_error() {
    let result = parse_courses_from_html("<html><body><p>Silakan login</p></body></html>");
    assert_eq!(
        result,
        Err(ScraperError::ParsingError(
            "Tidak ada baris mata kuliah yang ditemukan di dalam tabel".to_string()
        ))
    );
}

#[test]
fn listing_with_only_malformed_rows_is_a_parsing_error() {
    let html = r#"<table><tbody>
        <tr><td>a</td><td>b</td></tr>
        <tr><td>a</td><td>b</td><td>c</td><td>d</td><td>e</td></tr>
    </tbody></table>"#;
    let result = parse_courses_from_html(html);
    assert!(matches!(result, Err(ScraperError::ParsingError(_))));
}

#[test]
fn header_rows_are_no_course_rows() {
    let html = r#"<table>
        <thead><tr><td>a</td><td><a href="/x/1">b</a></td><td>1</td><td>d</td><td>e</td></tr></thead>
    </table>"#;
    assert!(parse_courses_from_html(html).is_err());
}

#[test]
fn row_with_four_cells_is_a_parsing_error() {
    let r = row(vec![
        cell("a", None),
        cell("b", Some("/mhs/dashboard/9")),
        cell("3", None),
        cell("d", None),
    ]);
    assert_eq!(
        extract_course_from_row(&r),
        Err(ScraperError::ParsingError(
            "Baris tabel mata kuliah tidak memiliki kolom yang cukup".to_string()
        ))
    );
}

#[test]
fn row_without_link_lacks_an_element() {
    let r = row(vec![
        cell("a", Some("/elsewhere")),
        cell("b", None),
        cell("3", None),
        cell("d", None),
        cell("e", None),
    ]);
    assert_eq!(
        extract_course_from_row(&r),
        Err(ScraperError::ElementNotFound("Link mata kuliah (href)".to_string()))
    );
    assert_eq!(
        extract_course_from_row(&r).unwrap_err().context(),
        "Link mata kuliah (href)"
    );
}

#[test]
fn row_fields_are_trimmed_and_credits_fall_back_to_zero() {
    let make = |credits: &str| {
        row(vec![
            cell("\n IF7 ", None),
            cell(" Jaringan\t", Some("/mhs/dashboard/abc")),
            cell(credits, None),
            cell("  Dosen ", None),
            cell(" 2024 ", None),
        ])
    };
    let course = extract_course_from_row(&make(" 4 ")).unwrap();
    assert_eq!(course.id, "abc");
    assert_eq!(course.code, "IF7");
    assert_eq!(course.name, "Jaringan");
    assert_eq!(course.credits, 4);
    assert_eq!(course.lecturer, "Dosen");
    assert_eq!(course.academic_year, "2024");
    assert_eq!(course.href, "/mhs/dashboard/abc");
    assert_eq!(extract_course_from_row(&make("")).unwrap().credits, 0);
    assert_eq!(extract_course_from_row(&make("-1")).unwrap().credits, 0);
    assert_eq!(extract_course_from_row(&make("256")).unwrap().credits, 0);
    assert_eq!(extract_course_from_row(&make("255")).unwrap().credits, 255);
    assert_eq!(extract_course_from_row(&make("3 sks")).unwrap().credits, 0);
}

#[test]
fn course_id_is_what_follows_the_last_slash() {
    let with = |href: &str| {
        let r = row(vec![
            cell("a", None),
            cell("b", Some(href)),
            cell("1", None),
            cell("d", None),
            cell("e", None),
        ]);
        extract_course_from_row(&r).unwrap().id
    };
    assert_eq!(with("https://spot.example/mhs/dashboard/1201"), "1201");
    assert_eq!(with("1201"), "1201");
    assert_eq!(with("/mhs/dashboard/"), "");
    assert_eq!(with(""), "");
}

#[test]
fn rows_count_once_each_and_keep_their_order() {
    let good = |n: &str| {
        row(vec![
            cell(n, None),
            cell("b", Some(n)),
            cell("1", None),
            cell("d", None),
            cell("e", None),
        ])
    };
    let bad = row(vec![cell("x", None)]);
    let rows = vec![bad.clone(), good("1"), bad.clone(), good("2"), good("3"), bad];
    let courses = courses_from_rows(&rows).unwrap();
    let codes: Vec<&str> = courses.iter().map(|c| c.code.as_str()).collect();
    assert_eq!(codes, vec!["1", "2", "3"]);
    assert!(courses_from_rows(&Vec::new()).is_err());
}

#[test]
fn errors_say_their_kind_and_context() {
    assert_eq!(
        ScraperError::ParsingError("x y".to_string()).message(),
        "parsing error: x y"
    );
    assert_eq!(
        ScraperError::ElementNotFound("a".to_string()).message(),
        "element not found: a"
    );
    assert_eq!(ScraperError::ParsingError("x y".to_string()).context(), "x y");
}
