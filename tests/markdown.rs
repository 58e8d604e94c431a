use note_shell::error::TransferError;
use note_shell::stamp::{format_stamp, DISPLAY_STAMP_FORMAT, FILE_STAMP_FORMAT, YEAR_10000_SECS};
use note_shell::markdown::{
    decode_notes, export_all_notes_to_markdown, export_note_to_markdown, note_markdown,
    note_section_markdown, notes_markdown, NoteFields, UNTITLED,
};

fn is_display_stamp(s: &str) -> bool {
    let c: Vec<char> = s.chars().collect();
    if c.len() != 23 {
        return false;
    }
    let digits = [0, 1, 2, 3, 5, 6, 8, 9, 11, 12, 14, 15, 17, 18];
    digits.iter().all(|&i| c[i].is_ascii_digit())
        && c[4] == '-'
        && c[7] == '-'
        && c[10] == ' '
        && c[13] == ':'
        && c[16] == ':'
        && s.ends_with(" UTC")
}

fn note(title: Option<&str>, content: Option<&str>, created_at: Option<&str>) -> NoteFields {
    NoteFields {
        title: title.map(String::from),
        content: content.map(String::from),
        created_at: created_at.map(String::from),
    }
}

#[test]
fn single_note_document_exact() {
    assert_eq!(
        note_markdown("T", "C", "2024-01-02 03:04:05 UTC"),
        "# T\n\nC\n\n---\n\n*导出时间: 2024-01-02 03:04:05 UTC*"
    );
}

#[test]
fn single_note_export_has_heading_body_and_stamp() {
    let doc = export_note_to_markdown("T", "C").unwrap();
    assert_eq!(doc.lines().filter(|l| l.starts_with('#')).count(), 1);
    assert_eq!(doc.lines().last().map(|l| l.starts_with("*导出时间: ")), Some(true));
    assert!(doc.starts_with("# T\n\nC\n\n---\n\n*导出时间: "));
    assert_eq!(doc.matches("# T").count(), 1);
    assert!(doc.ends_with('*'));
    let prefix = "# T\n\nC\n\n---\n\n*导出时间: ";
    let stamp = &doc[prefix.len()..doc.len() - 1];
    assert!(is_display_stamp(stamp), "stamp {:?}", stamp);
}

#[test]
fn section_with_all_fields() {
    let s = note_section_markdown(&note(Some("A"), Some("x"), Some("t1")));
    assert_eq!(s, "## A\n\n*创建时间: t1*\n\nx\n\n---\n\n");
}

#[test]
fn section_with_no_fields_uses_fallbacks() {
    let s = note_section_markdown(&note(None, None, None));
    assert_eq!(s, "## 无标题\n\n*创建时间: *\n\n\n\n---\n\n");
    assert_eq!(UNTITLED, "无标题");
}

#[test]
fn collection_document_exact() {
    let notes = vec![note(Some("A"), Some("x"), Some("t1")), note(None, None, None)];
    assert_eq!(
        notes_markdown(&notes, "S"),
        "# 笔记导出\n\n导出时间: S\n\n---\n\n## A\n\n*创建时间: t1*\n\nx\n\n---\n\n## 无标题\n\n*创建时间: *\n\n\n\n---\n\n"
    );
}

#[test]
fn empty_collection_is_header_only() {
    assert_eq!(notes_markdown(&Vec::new(), "S"), "# 笔记导出\n\n导出时间: S\n\n---\n\n");
}

#[test]
fn decode_reads_fields_and_falls_back() {
    let notes = decode_notes(r#"[{"title":"A","content":"x","created_at":"t1"}, {}, 5, {"title": 3, "content": null}]"#)
        .unwrap();
    assert_eq!(notes.len(), 4);
    assert_eq!(notes[0].title.as_deref(), Some("A"));
    assert_eq!(notes[0].content.as_deref(), Some("x"));
    assert_eq!(notes[0].created_at.as_deref(), Some("t1"));
    for n in &notes[1..] {
        assert!(n.title.is_none() && n.content.is_none() && n.created_at.is_none());
    }
}

#[test]
fn export_all_with_empty_note() {
    let doc = export_all_notes_to_markdown(r#"[{"title":"A","content":"x","created_at":"t1"}, {}]"#).unwrap();
    assert!(doc.starts_with("# 笔记导出\n\n导出时间: "));
    assert!(doc.contains("## A\n\n*创建时间: t1*\n\nx\n\n---\n\n"));
    assert!(doc.ends_with("## 无标题\n\n*创建时间: *\n\n\n\n---\n\n"));
    let stamp_start = "# 笔记导出\n\n导出时间: ".len();
    let stamp_end = doc.find("\n\n---").unwrap();
    assert!(is_display_stamp(&doc[stamp_start..stamp_end]));
}

#[test]
fn export_all_rejects_text_that_is_not_json() {
    match export_all_notes_to_markdown("not json") {
        Err(TransferError::Parse(detail)) => assert!(!detail.is_empty()),
        other => panic!("expected a parse error, got {:?}", other),
    }
}

#[test]
fn export_all_rejects_a_top_level_object() {
    assert!(matches!(export_all_notes_to_markdown(r#"{"title":"A"}"#), Err(TransferError::Parse(_))));
}

#[test]
fn export_all_of_empty_array() {
    let doc = export_all_notes_to_markdown("[]").unwrap();
    assert!(doc.starts_with("# 笔记导出\n\n导出时间: "));
    assert!(doc.ends_with(" UTC\n\n---\n\n"));
}

#[test]
fn decode_rejects_text_that_is_not_json() {
    assert!(matches!(decode_notes("[1,"), Err(TransferError::Parse(_))));
}

#[test]
fn clock_error_message() {
    assert_eq!(TransferError::Clock.message(), "无法读取当前时间");
}

#[test]
fn parse_error_message() {
    let e = export_all_notes_to_markdown("not json").unwrap_err();
    assert!(e.message().starts_with("解析笔记数据失败: "));
    assert!(e.message().len() > "解析笔记数据失败: ".len());
}

#[test]
fn stamp_of_known_second() {
    assert_eq!(format_stamp(1431648000, DISPLAY_STAMP_FORMAT).as_deref(), Some("2015-05-15 00:00:00 UTC"));
    assert_eq!(format_stamp(1431648001, FILE_STAMP_FORMAT).as_deref(), Some("20150515_000001"));
    assert_eq!(format_stamp(0, DISPLAY_STAMP_FORMAT).as_deref(), Some("1970-01-01 00:00:00 UTC"));
}

#[test]
fn stamp_past_year_9999_has_sign() {
    let s = format_stamp(YEAR_10000_SECS, FILE_STAMP_FORMAT).unwrap();
    assert_eq!(s, "+100000101_000000");
    assert_eq!(format_stamp(u64::MAX, FILE_STAMP_FORMAT), None);
}
