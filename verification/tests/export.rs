use voxii::export::{
    documents_folder_name, export_directory, export_file_name, render_meeting_markdown, safe_char,
    sanitize_title, ActionItem, ExportDirectory, MeetingRecord,
};

fn item(task: &str, assignee: Option<&str>, due: Option<&str>, status: &str) -> ActionItem {
    ActionItem {
        id: "a".to_string(),
        task: task.to_string(),
        assignee: assignee.map(|s| s.to_string()),
        due_date: due.map(|s| s.to_string()),
        priority: "medium".to_string(),
        status: status.to_string(),
        context: None,
    }
}

fn meeting() -> MeetingRecord {
    MeetingRecord {
        id: "m".to_string(),
        title: "Weekly sync".to_string(),
        notes: "Bring slides".to_string(),
        transcript: "hello there".to_string(),
        summary: "## Summary\nAll good".to_string(),
        action_items: vec![
            item("Ship it", Some("Ada"), Some("2024-05-01"), "completed"),
            item("Write docs", None, None, "pending"),
        ],
        created_at: "2024-04-30T10:00:00Z".to_string(),
        updated_at: "2024-04-30T11:00:00Z".to_string(),
    }
}

#[test]
fn meeting_is_rendered_with_all_its_parts() {
    assert_eq!(
        render_meeting_markdown(&meeting(), true),
        "# Weekly sync\n\n**Date:** 2024-04-30T10:00:00Z  \n**Last Updated:** 2024-04-30T11:00:00Z\n\n\
         ---\n\n## Summary\nAll good\n\n\
         ## Action Items\n\n- [x] **Ada**: Ship it (due: 2024-05-01)\n- [ ] **Unassigned**: Write docs\n\n\
         ## Notes\n\nBring slides\n\n\
         ## Transcript\n\n<details>\n<summary>Click to expand transcript</summary>\n\nhello there\n\n</details>\n\n\
         ---\n*Generated by Voxii*\n"
    );
}

#[test]
fn transcript_is_left_out_unless_asked_for() {
    let document = render_meeting_markdown(&meeting(), false);
    assert!(!document.contains("## Transcript"));
    assert!(document.ends_with("## Notes\n\nBring slides\n\n---\n*Generated by Voxii*\n"));
}

#[test]
fn empty_parts_are_left_out() {
    let bare = MeetingRecord {
        id: String::new(),
        title: String::new(),
        notes: String::new(),
        transcript: String::new(),
        summary: String::new(),
        action_items: Vec::new(),
        created_at: String::new(),
        updated_at: String::new(),
    };
    assert_eq!(
        render_meeting_markdown(&bare, true),
        "# \n\n**Date:**   \n**Last Updated:** \n\n---\n*Generated by Voxii*\n"
    );
}

#[test]
fn only_completed_items_are_ticked() {
    let mut record = meeting();
    record.summary = String::new();
    record.notes = String::new();
    record.action_items = vec![
        item("a", Some("X"), None, "Completed"),
        item("b", Some(""), Some(""), "completed"),
    ];
    assert_eq!(
        render_meeting_markdown(&record, false),
        "# Weekly sync\n\n**Date:** 2024-04-30T10:00:00Z  \n**Last Updated:** 2024-04-30T11:00:00Z\n\n\
         ## Action Items\n\n- [ ] **X**: a\n- [x] ****: b (due: )\n\n\
         ---\n*Generated by Voxii*\n"
    );
}

#[test]
fn titles_are_made_safe_for_file_names() {
    assert_eq!(sanitize_title("Q3/Q4: plan?"), "Q3_Q4_ plan_");
    assert_eq!(sanitize_title("r\u{e9}sum\u{e9} - v2"), "r\u{e9}sum\u{e9} - v2");
    assert_eq!(sanitize_title("a\tb\nc.d"), "a_b_c_d");
    assert_eq!(sanitize_title(""), "");
    assert_eq!(sanitize_title("\u{4f1a}\u{8bae} \u{0663}"), "\u{4f1a}\u{8bae} \u{0663}");
}

#[test]
fn export_file_is_named_by_date_and_title() {
    assert_eq!(
        export_file_name("2024-04-30T10:00:00Z", " Weekly sync: notes "),
        "2024-04-30 - Weekly sync_ notes.md"
    );
    assert_eq!(export_file_name("2024-04-30", "x"), "2024-04-30 - x.md");
    assert_eq!(export_file_name("T10:00", "x"), " - x.md");
    assert_eq!(export_file_name("", ""), " - .md");
    assert_eq!(export_file_name("aTbTc", "  "), "a - .md");
}

#[test]
fn exports_go_to_the_configured_directory_or_to_the_documents() {
    assert_eq!(export_directory(""), ExportDirectory::Documents);
    assert_eq!(export_directory("/exports"), ExportDirectory::Configured("/exports".to_string()));
    assert_eq!(export_directory(" "), ExportDirectory::Configured(" ".to_string()));
    assert_eq!(documents_folder_name(), "Voxii");
}

#[test]
fn letters_numbers_spaces_and_hyphens_may_stand_in_file_names() {
    assert_eq!(safe_char('a', true), 'a');
    assert_eq!(safe_char('/', false), '_');
    assert_eq!(safe_char(' ', false), ' ');
    assert_eq!(safe_char('-', false), '-');
    assert_eq!(safe_char('_', false), '_');
    assert_eq!(safe_char('\u{e9}', true), '\u{e9}');
    assert_eq!(safe_char('\u{e9}', false), '_');
}
