use yasunori_md::date::Date;
use yasunori_md::decode::{decode_config, decode_entry, DecodeError};
use yasunori_md::model::{Config, ConfigRaw, YasunoriEntry, YasunoriEntryRaw};
use yasunori_md::toml_doc::{entry_from_toml, render_document, DocumentError};

fn raw_entry() -> YasunoriEntryRaw {
    YasunoriEntryRaw {
        id: Some(1),
        title: Some("Hello".into()),
        date: Some("2024-09-30".into()),
        content: Some("body\n".into()),
        meta: Some("memo\n".into()),
        at: Some("Earth".into()),
        senpan: Some("someone".into()),
    }
}

#[test]
fn test_entry_from_toml() {
    assert_eq!(
        entry_from_toml(
            r#"
markdown_header = ""
[[yasunori]]
id = 1
title = "Hello"
date = "2024-09-30"
at = "Earth"
senpan = ""
content = """
yasunori said,
Let there be light.
"""
meta = """
"""
        "#
            .into()
        )
        .unwrap(),
        Config {
            markdown_header: String::new(),
            yasunori: vec![YasunoriEntry {
                id: 1,
                title: "Hello".into(),
                date: Date::from_ymd_opt(2024, 9, 30).unwrap(), // a Monday
                content: "yasunori said,
Let there be light.\n"
                    .into(),
                at: "Earth".into(),
                senpan: "".into(),
                meta: "".into()
            }]
        }
    );
}

#[test]
fn decode_defaults_absent_optional_fields() {
    let raw = YasunoriEntryRaw { content: None, meta: None, ..raw_entry() };
    let e = decode_entry(&raw).unwrap();
    assert_eq!(e.content, "");
    assert_eq!(e.meta, "");
    // a present field is kept as stored
    let e = decode_entry(&raw_entry()).unwrap();
    assert_eq!(e.content, "body\n");
    assert_eq!(e.meta, "memo\n");
}

#[test]
fn decode_rejects_each_missing_required_field() {
    let cases = vec![
        (YasunoriEntryRaw { id: None, ..raw_entry() }, DecodeError::MissingId),
        (YasunoriEntryRaw { title: None, ..raw_entry() }, DecodeError::MissingTitle),
        (YasunoriEntryRaw { date: None, ..raw_entry() }, DecodeError::MissingDate),
        (YasunoriEntryRaw { at: None, ..raw_entry() }, DecodeError::MissingAt),
        (YasunoriEntryRaw { senpan: None, ..raw_entry() }, DecodeError::MissingSenpan),
        (
            YasunoriEntryRaw { date: Some("2024-13-01".into()), ..raw_entry() },
            DecodeError::InvalidDate,
        ),
        (YasunoriEntryRaw { id: Some(-1), ..raw_entry() }, DecodeError::InvalidId),
        (YasunoriEntryRaw { id: Some(5_000_000_000), ..raw_entry() }, DecodeError::InvalidId),
    ];
    for (raw, expected) in cases {
        assert_eq!(decode_entry(&raw), Err(expected));
    }
}

#[test]
fn decode_reports_first_failing_entry() {
    let raw = ConfigRaw {
        markdown_header: None,
        yasunori: Some(vec![
            raw_entry(),
            YasunoriEntryRaw { at: None, ..raw_entry() },
            YasunoriEntryRaw { title: None, ..raw_entry() },
        ]),
    };
    assert_eq!(decode_config(&raw), Err(DecodeError::MissingAt));
}

#[test]
fn decode_keeps_entry_order_and_header_default() {
    let raw = ConfigRaw {
        markdown_header: None,
        yasunori: Some(vec![
            YasunoriEntryRaw { title: Some("A".into()), ..raw_entry() },
            YasunoriEntryRaw { title: Some("B".into()), ..raw_entry() },
        ]),
    };
    let cfg = decode_config(&raw).unwrap();
    assert_eq!(cfg.markdown_header, "");
    assert_eq!(cfg.yasunori.len(), 2);
    assert_eq!(cfg.yasunori[0].title, "A");
    assert_eq!(cfg.yasunori[1].title, "B");
}

#[test]
fn missing_at_yields_decode_error_end_to_end() {
    let doc = r#"
[[yasunori]]
id = 1
title = "Hello"
date = "2024-09-30"
senpan = ""
"#;
    assert_eq!(
        entry_from_toml(doc.into()),
        Err(DocumentError::Decode(DecodeError::MissingAt))
    );
}

#[test]
fn syntax_error_is_reported() {
    let r = entry_from_toml("this is [not valid toml".into());
    assert!(matches!(r, Err(DocumentError::Syntax(_))));
    let msg = r.unwrap_err().message();
    assert!(msg.starts_with("Unable to parse the toml: "));
}

#[test]
fn missing_entries_table_is_reported() {
    assert_eq!(
        entry_from_toml("markdown_header = \"x\"\n".into()),
        Err(DocumentError::Decode(DecodeError::MissingEntries))
    );
}

#[test]
fn duplicate_ids_are_accepted() {
    let doc = r#"
[[yasunori]]
id = 7
title = "One"
date = "2024-09-29"
at = "vim-jp"
senpan = ""

[[yasunori]]
id = 7
title = "Two"
date = "2024-09-30"
at = "vim-jp"
senpan = ""
"#;
    let cfg = entry_from_toml(doc.into()).unwrap();
    assert_eq!(cfg.yasunori.len(), 2);
    assert_eq!(cfg.yasunori[0].id, 7);
    assert_eq!(cfg.yasunori[1].id, 7);
}

#[test]
fn end_to_end_scenario() {
    let doc = r#"
[[yasunori]]
id = 1
title = "Hello World!"
date = "2024-09-30"
senpan = "None"
at = "vim-jp"
content = ""
meta = ""
"#;
    let out = render_document(doc.into()).unwrap();
    assert!(out.contains(
        "| [1](#hello-world-2024-09-30) | 2024-09-30 | None | vim-jp | Hello World! |\n"
    ));
}

#[test]
fn pipeline_is_deterministic() {
    let doc = r##"
markdown_header = "# List\n"
[[yasunori]]
id = 1
title = "Hello World!"
date = "2024-09-30"
senpan = "None"
at = "vim-jp"
content = "a body\n"
meta = "a note\n"
"##;
    let a = render_document(doc.into()).unwrap();
    let b = render_document(doc.into()).unwrap();
    assert_eq!(a, b);
}

#[test]
fn out_of_range_id_yields_decode_error_end_to_end() {
    let doc = r#"
[[yasunori]]
id = 5000000000
title = "Hello"
date = "2024-09-30"
at = "vim-jp"
senpan = ""
"#;
    assert_eq!(
        entry_from_toml(doc.into()),
        Err(DocumentError::Decode(DecodeError::InvalidId))
    );
}

#[test]
fn decode_error_messages_name_the_field() {
    assert_eq!(
        DocumentError::Decode(DecodeError::MissingAt).message(),
        "missing required field: at"
    );
    assert_eq!(
        DocumentError::Decode(DecodeError::InvalidDate).message(),
        "invalid date: expected a valid YYYY-MM-DD"
    );
}
