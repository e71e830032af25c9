use yasunori_md::date::{parse_date, serialize_naive_date, serialize_naive_date_weekday, Date};
use yasunori_md::model::{Config, YasunoriEntry};
use yasunori_md::render::{make_content_all, make_markdown_content, make_markdown_contents, make_table};
use yasunori_md::slug::make_anchor_link;
use yasunori_md::strutil::u32_to_string;

fn date(y: u32, m: u32, d: u32) -> Date {
    Date::from_ymd_opt(y, m, d).unwrap()
}

#[test]
fn test_make_table() {
    assert_eq!(
        make_table(&Config {
            markdown_header: String::new(),
            yasunori: vec![YasunoriEntry {
                id: 1,
                title: "Hello World!".into(),
                date: date(2024, 9, 30),
                at: "vim-jp".into(),
                senpan: "None".into(),
                content: String::new(),
                meta: String::new()
            }]
        }),
        r#"
| id | date           | senpan            | place                  | title                                                        |
|----|----------------|-------------------|------------------------|--------------------------------------------------------------|
| [1](#hello-world-2024-09-30) | 2024-09-30 | None | vim-jp | Hello World! |
"#
    );
}

#[test]
fn test_make_markdown_content() {
    assert_eq!(
        make_markdown_content(&YasunoriEntry {
            id: 1,
            title: "brain-yasu**ri".into(),
            date: date(2024, 9, 29),
            content: "content\n".into(),
            meta: "memo\n".into(),
            at: "vim-jp #times-yasunori".into(),
            senpan: "takeokunn".into()
        }),
        r#"
### brain-yasu**ri (2024-09-29)

vim-jp #times-yasunori by takeokunn

```markdown
content
```

memo
"#
    );
}

#[test]
fn test_serialize_naive_date() {
    assert_eq!("2024-09-30", serialize_naive_date(&date(2024, 9, 30)));
}

#[test]
fn test_make_anchor_link() {
    assert_eq!(
        make_anchor_link("サンプルセクション", &date(2024, 9, 30)),
        "#サンプルセクション-2024-09-30",
    );
    assert_eq!(
        make_anchor_link("テスト! セクション", &date(2024, 9, 30)),
        "#テスト-セクション-2024-09-30"
    );
    assert_eq!(
        make_anchor_link("HELLO WORLD", &date(2024, 9, 30)),
        "#hello-world-2024-09-30"
    );
    assert_eq!(
        make_anchor_link("-_!!", &date(2024, 9, 30)),
        "#-_-2024-09-30"
    );
}

#[test]
fn anchor_link_is_deterministic_and_total() {
    let d = date(2024, 9, 30);
    let a = make_anchor_link("Some Title!", &d);
    let b = make_anchor_link("Some Title!", &d);
    assert_eq!(a, b);
    // an empty title and an all-punctuation title still yield an anchor
    assert_eq!(make_anchor_link("", &d), "#-2024-09-30");
    assert_eq!(make_anchor_link("!!??,,..", &d), "#-2024-09-30");
}

#[test]
fn anchor_link_full_width_class_stripped() {
    let d = date(2024, 9, 30);
    assert_eq!(make_anchor_link("ａ：ｂ～", &d), "#ａｂ-2024-09-30");
    // the full-width space becomes a hyphen like the ASCII space
    assert_eq!(make_anchor_link("a　b", &d), "#a-b-2024-09-30");
}

#[test]
fn weekday_serialization() {
    // 2024-09-30 is a Monday
    assert_eq!(serialize_naive_date_weekday(&date(2024, 9, 30)), "2024-09-30 Mon");
    assert_eq!(serialize_naive_date_weekday(&date(2024, 9, 29)), "2024-09-29 Sun");
}

#[test]
fn date_parsing_accepts_exactly_valid_dates() {
    assert_eq!(parse_date("2024-09-30"), Some(date(2024, 9, 30)));
    assert_eq!(parse_date("2024-02-29"), Some(date(2024, 2, 29)));
    assert_eq!(parse_date("0024-01-01"), Some(date(24, 1, 1)));
    assert_eq!(parse_date("2023-02-29"), None);
    assert_eq!(parse_date("2024-13-01"), None);
    assert_eq!(parse_date("2024-00-10"), None);
    assert_eq!(parse_date("2024-9-30"), None);
    assert_eq!(parse_date("2024/09/30"), None);
    assert_eq!(parse_date("2024-09-30 "), None);
}

#[test]
fn zero_padding_of_date_components() {
    assert_eq!(serialize_naive_date(&date(7, 1, 2)), "0007-01-02");
}

#[test]
fn number_rendering() {
    assert_eq!(u32_to_string(0), "0");
    assert_eq!(u32_to_string(7), "7");
    assert_eq!(u32_to_string(120), "120");
    assert_eq!(u32_to_string(4294967295), "4294967295");
}

#[test]
fn rows_and_sections_keep_entry_order() {
    let e1 = YasunoriEntry {
        id: 1,
        title: "First".into(),
        date: date(2024, 9, 29),
        content: "c1\n".into(),
        meta: String::new(),
        at: "vim-jp".into(),
        senpan: "a".into(),
    };
    let e2 = YasunoriEntry {
        id: 2,
        title: "Second".into(),
        date: date(2024, 9, 30),
        content: "c2\n".into(),
        meta: String::new(),
        at: "vim-jp".into(),
        senpan: "b".into(),
    };
    let cfg = Config { markdown_header: String::new(), yasunori: vec![e1, e2] };
    let table = make_table(&cfg);
    let first_row = "| [1](#first-2024-09-29) | 2024-09-29 | a | vim-jp | First |\n";
    let second_row = "| [2](#second-2024-09-30) | 2024-09-30 | b | vim-jp | Second |\n";
    assert!(table.find(first_row).unwrap() < table.find(second_row).unwrap());
    let sections = make_markdown_contents(&cfg);
    assert!(sections.find("### First").unwrap() < sections.find("### Second").unwrap());
}

#[test]
fn assembled_document_layout() {
    let cfg = Config {
        markdown_header: "# Head\n".into(),
        yasunori: vec![YasunoriEntry {
            id: 1,
            title: "Hello World!".into(),
            date: date(2024, 9, 30),
            at: "vim-jp".into(),
            senpan: "None".into(),
            content: String::new(),
            meta: String::new(),
        }],
    };
    let expected = "# Head\n\n| id | date           | senpan            | place                  | title                                                        |\n|----|----------------|-------------------|------------------------|--------------------------------------------------------------|\n| [1](#hello-world-2024-09-30) | 2024-09-30 | None | vim-jp | Hello World! |\n\n## Contents\n\n\n### Hello World! (2024-09-30)\n\nvim-jp by None\n\n```markdown\n```\n\n\n";
    assert_eq!(make_content_all(&cfg), expected);
}
