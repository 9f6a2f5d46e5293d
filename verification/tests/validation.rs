use patentmate::mock_session::disclosure_for_index;
use patentmate::models::{DisclosureDocument, DisclosureSection, ValidationLevel};
use patentmate::validation::{find_section, has_q_format, validate_disclosure_document};

fn section(id: &str, title: &str, content: &str) -> DisclosureSection {
    DisclosureSection {
        id: id.to_string(),
        title: title.to_string(),
        content: content.to_string(),
    }
}

#[test]
fn demo_second_version_has_no_issues() {
    let issues = validate_disclosure_document(&disclosure_for_index(1));
    assert!(issues.is_empty(), "{:?}", issues);
}

#[test]
fn demo_first_version_lacks_q_format() {
    let issues = validate_disclosure_document(&disclosure_for_index(0));
    assert_eq!(issues.len(), 1);
    assert_eq!(issues[0].code, "questions_q_format");
    assert_eq!(issues[0].section_id.as_deref(), Some("questions"));
    assert!(matches!(issues[0].level, ValidationLevel::Error));
    assert_eq!(
        issues[0].message,
        "“需工程师补齐的关键改进建议”必须使用 Q1/Q2 问答式格式。"
    );
}

#[test]
fn demo_final_version_warns_about_bare_marker() {
    let issues = validate_disclosure_document(&disclosure_for_index(2));
    assert_eq!(issues.len(), 1);
    assert_eq!(issues[0].code, "missing_marker_implementation");
    assert!(matches!(issues[0].level, ValidationLevel::Warning));
    assert_eq!(
        issues[0].message,
        "八、具体实施方式 中出现缺失信息提示时，应使用“【待工程师补充】”统一标记。"
    );
}

#[test]
fn empty_document_reports_count_and_every_missing_chapter() {
    let doc = DisclosureDocument {
        version: 1,
        sections: Vec::new(),
        annotations: Vec::new(),
    };
    let issues = validate_disclosure_document(&doc);
    assert_eq!(issues.len(), 11);
    assert_eq!(issues[0].code, "section_count_mismatch");
    assert_eq!(
        issues[0].message,
        "当前输出共包含 0 个章节/专项，预期为 10 个。"
    );
    assert_eq!(issues[0].section_id, None);
    assert_eq!(issues[1].code, "missing_section_title");
    assert_eq!(issues[1].message, "缺少必需章节/专项“一、发明名称”。");
    assert_eq!(issues[10].code, "missing_section_questions");
}

#[test]
fn wrong_order_and_blank_content_are_reported() {
    let mut doc = disclosure_for_index(1);
    doc.sections.swap(0, 1);
    doc.sections[2].content = " \n\t ".to_string();
    let issues = validate_disclosure_document(&doc);
    let codes: Vec<&str> = issues.iter().map(|i| i.code.as_str()).collect();
    assert_eq!(
        codes,
        vec!["section_order_0", "section_order_1", "empty_section_background"]
    );
    assert_eq!(
        issues[0].message,
        "第 1 个章节/专项应为“一、发明名称”，当前实际为“二、技术领域”。"
    );
    assert_eq!(issues[0].section_id.as_deref(), Some("field"));
    assert_eq!(issues[2].message, "三、背景技术及现有缺陷 当前内容为空。");
}

#[test]
fn missing_table_headers_are_reported() {
    let mut doc = disclosure_for_index(1);
    doc.sections[5].content = "没有表格".to_string();
    doc.sections[8].content = "也没有表格".to_string();
    let issues = validate_disclosure_document(&doc);
    let codes: Vec<&str> = issues.iter().map(|i| i.code.as_str()).collect();
    assert_eq!(codes, vec!["benefits_table_format", "layout_table_format"]);
}

#[test]
fn extra_chapter_counts_as_mismatch() {
    let mut doc = disclosure_for_index(1);
    doc.sections.push(section("extra", "附加", "内容"));
    let issues = validate_disclosure_document(&doc);
    assert_eq!(issues.len(), 1);
    assert_eq!(
        issues[0].message,
        "当前输出共包含 11 个章节/专项，预期为 10 个。"
    );
}

#[test]
fn q_format_needs_q_and_digit_at_line_start() {
    assert!(has_q_format("Q1：问题"));
    assert!(has_q_format("前言\n  \u{3000}Q2 问题"));
    assert!(has_q_format("a\r\n Q9"));
    assert!(!has_q_format("问题 Q1"));
    assert!(!has_q_format("Q"));
    assert!(!has_q_format("Qa1"));
    assert!(!has_q_format("x Q1\n"));
    assert!(!has_q_format(""));
}

#[test]
fn find_section_returns_first_match() {
    let doc = DisclosureDocument {
        version: 1,
        sections: vec![section("a", "t1", "c1"), section("a", "t2", "c2")],
        annotations: Vec::new(),
    };
    assert_eq!(find_section(&doc, "a").map(|s| s.title.as_str()), Some("t1"));
    assert!(find_section(&doc, "b").is_none());
}

#[test]
fn bare_pending_text_in_solution_is_a_warning() {
    let mut doc = disclosure_for_index(1);
    doc.sections[4].content = "方案细节待补充".to_string();
    let issues = validate_disclosure_document(&doc);
    assert_eq!(issues.len(), 1);
    assert_eq!(issues[0].code, "missing_marker_technical_solution");
    assert_eq!(issues[0].section_id.as_deref(), Some("technical_solution"));
    assert_eq!(
        issues[0].message,
        "五、技术方案 中出现缺失信息提示时，应使用“【待工程师补充】”统一标记。"
    );
    doc.sections[4].content = "方案细节待补充【待工程师补充】".to_string();
    assert!(validate_disclosure_document(&doc).is_empty());
}

#[test]
fn chapter_check_counts_one_error_per_bad_chapter() {
    let mut doc = disclosure_for_index(1);
    doc.sections.truncate(9);
    doc.sections[3].content = "   ".to_string();
    doc.sections[5].title = "六、效果".to_string();
    let issues = validate_disclosure_document(&doc);
    let chapter: Vec<&str> = issues
        .iter()
        .filter(|i| {
            i.code == "section_count_mismatch"
                || i.code.starts_with("missing_section_")
                || i.code.starts_with("section_order_")
                || i.code.starts_with("empty_section_")
        })
        .map(|i| i.code.as_str())
        .collect();
    assert_eq!(
        chapter,
        vec![
            "section_count_mismatch",
            "empty_section_purpose",
            "section_order_5",
            "missing_section_questions"
        ]
    );
    assert!(issues
        .iter()
        .take(4)
        .all(|i| matches!(i.level, ValidationLevel::Error)));
}
