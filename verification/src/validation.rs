//! The output-format rules that a disclosure document must follow.
use vstd::prelude::*;

use crate::models::{
    issues_view, sections_view, DisclosureDocument, DisclosureDocumentView, DisclosureSection,
    DisclosureSectionView, ValidationIssue, ValidationIssueView, ValidationLevel,
};
use crate::text::{
    cat2, cat3, chars_of, char_is_digit, char_is_whitespace, contains, contains_str, decimal,
    decimal_string, is_blank, is_digit, is_ws, owned, str_eq, trim,
};

verus! {

/// Number of chapters a disclosure document must have.
pub const SECTION_COUNT: usize = 10;

/// Header row the "benefits" chapter must contain.
pub const BENEFITS_TABLE_HEADER: &'static str = "| 维度 | 技术突破点 | 效果与价值体现 |";

/// Header row the "layout" chapter must contain.
pub const LAYOUT_TABLE_HEADER: &'static str = "| 布局方向 | 保护策略 | 建议权利要求架构 |";

pub const BENEFITS_TABLE_MESSAGE: &'static str =
    "第六部分“有益效果”必须使用“维度 | 技术突破点 | 效果与价值体现”表格格式。";

pub const LAYOUT_TABLE_MESSAGE: &'static str =
    "“专利挖掘与布局建议”必须使用“布局方向 | 保护策略 | 建议权利要求架构”表格格式。";

pub const QUESTIONS_MESSAGE: &'static str = "“需工程师补齐的关键改进建议”必须使用 Q1/Q2 问答式格式。";

/// Marker text whose bare form must be replaced by the full marker.
pub const PENDING_TEXT: &'static str = "待补充";

/// The uniform marker for information the engineer still has to supply.
pub const PENDING_MARKER: &'static str = "【待工程师补充】";

/// Id of the `i`-th required chapter.
pub open spec fn required_id(i: int) -> Seq<char> {
    if i == 0 {
        "title"@
    } else if i == 1 {
        "field"@
    } else if i == 2 {
        "background"@
    } else if i == 3 {
        "purpose"@
    } else if i == 4 {
        "technical_solution"@
    } else if i == 5 {
        "benefits"@
    } else if i == 6 {
        "figures"@
    } else if i == 7 {
        "implementation"@
    } else if i == 8 {
        "layout"@
    } else {
        "questions"@
    }
}

/// Title of the `i`-th required chapter.
pub open spec fn required_title(i: int) -> Seq<char> {
    if i == 0 {
        "一、发明名称"@
    } else if i == 1 {
        "二、技术领域"@
    } else if i == 2 {
        "三、背景技术及现有缺陷"@
    } else if i == 3 {
        "四、发明目的"@
    } else if i == 4 {
        "五、技术方案"@
    } else if i == 5 {
        "六、有益效果"@
    } else if i == 6 {
        "七、附图说明"@
    } else if i == 7 {
        "八、具体实施方式"@
    } else if i == 8 {
        "🔍 专利挖掘与布局建议"@
    } else {
        "🛠️ 需工程师补齐的关键改进建议"@
    }
}

/// Id and title of the `index`-th required chapter.
pub fn required_section(index: usize) -> (r: (&'static str, &'static str))
    requires
        index < SECTION_COUNT,
    ensures
        r.0@ == required_id(index as int),
        r.1@ == required_title(index as int),
{
    match index {
        0 => ("title", "一、发明名称"),
        1 => ("field", "二、技术领域"),
        2 => ("background", "三、背景技术及现有缺陷"),
        3 => ("purpose", "四、发明目的"),
        4 => ("technical_solution", "五、技术方案"),
        5 => ("benefits", "六、有益效果"),
        6 => ("figures", "七、附图说明"),
        7 => ("implementation", "八、具体实施方式"),
        8 => ("layout", "🔍 专利挖掘与布局建议"),
        _ => ("questions", "🛠️ 需工程师补齐的关键改进建议"),
    }
}

pub open spec fn make_issue(
    code: Seq<char>,
    message: Seq<char>,
    section_id: Option<Seq<char>>,
    level: ValidationLevel,
) -> ValidationIssueView {
    ValidationIssueView { code, message, section_id, level }
}

/// The first section of `secs` at or after position `i` whose id is `id`.
pub open spec fn find_section_from(
    secs: Seq<DisclosureSectionView>,
    id: Seq<char>,
    i: int,
) -> Option<DisclosureSectionView>
    decreases secs.len() - i,
{
    if i < 0 || i >= secs.len() {
        None
    } else if secs[i].id == id {
        Some(secs[i])
    } else {
        find_section_from(secs, id, i + 1)
    }
}

/// The first section whose id is `id`.
pub open spec fn find_section_spec(
    secs: Seq<DisclosureSectionView>,
    id: Seq<char>,
) -> Option<DisclosureSectionView> {
    find_section_from(secs, id, 0)
}

/// The issue reported when the number of chapters is wrong.
pub open spec fn count_issues(doc: DisclosureDocumentView) -> Seq<ValidationIssueView> {
    if doc.sections.len() != SECTION_COUNT {
        seq![
            make_issue(
                "section_count_mismatch"@,
                "当前输出共包含 "@ + decimal(doc.sections.len()) + " 个章节/专项，预期为 10 个。"@,
                None,
                ValidationLevel::Error,
            ),
        ]
    } else {
        seq![]
    }
}

/// What the `i`-th required chapter of `doc` is reported for, if anything.
pub open spec fn entry_issue(doc: DisclosureDocumentView, i: int) -> Option<ValidationIssueView> {
    let id = required_id(i);
    let title = required_title(i);
    if i < doc.sections.len() {
        let s = doc.sections[i];
        if s.id == id && s.title == title {
            if trim(s.content).len() == 0 {
                Some(
                    make_issue(
                        "empty_section_"@ + id,
                        title + " 当前内容为空。"@,
                        Some(id),
                        ValidationLevel::Error,
                    ),
                )
            } else {
                None
            }
        } else {
            Some(
                make_issue(
                    "section_order_"@ + decimal(i as nat),
                    "第 "@ + decimal((i + 1) as nat) + " 个章节/专项应为“"@ + title + "”，当前实际为“"@
                        + s.title + "”。"@,
                    Some(s.id),
                    ValidationLevel::Error,
                ),
            )
        }
    } else {
        Some(
            make_issue(
                "missing_section_"@ + id,
                "缺少必需章节/专项“"@ + title + "”。"@,
                Some(id),
                ValidationLevel::Error,
            ),
        )
    }
}

/// The issues found for the first `n` required chapters, in order.
pub open spec fn entry_issues(doc: DisclosureDocumentView, n: nat) -> Seq<ValidationIssueView>
    decreases n,
{
    if n == 0 {
        seq![]
    } else {
        let prev = entry_issues(doc, (n - 1) as nat);
        match entry_issue(doc, n - 1) {
            Some(x) => prev.push(x),
            None => prev,
        }
    }
}

pub open spec fn required_section_issues(doc: DisclosureDocumentView) -> Seq<ValidationIssueView> {
    count_issues(doc) + entry_issues(doc, SECTION_COUNT as nat)
}

/// The issue reported when chapter `sid` exists but lacks the table header.
pub open spec fn table_issues(
    doc: DisclosureDocumentView,
    sid: Seq<char>,
    header: Seq<char>,
    code: Seq<char>,
    message: Seq<char>,
) -> Seq<ValidationIssueView> {
    match find_section_spec(doc.sections, sid) {
        Some(s) => if !contains(s.content, header) {
            seq![make_issue(code, message, Some(sid), ValidationLevel::Error)]
        } else {
            seq![]
        },
        None => seq![],
    }
}

/// Only whitespace stands between the start of the line holding position `j` and `j`.
pub open spec fn line_prefix_blank(s: Seq<char>, j: int) -> bool
    decreases j,
{
    if j <= 0 {
        true
    } else if s[j - 1] == '\n' {
        true
    } else {
        is_ws(s[j - 1]) && line_prefix_blank(s, j - 1)
    }
}

/// A line of `s` whose trimmed text starts with `Q` and a digit has its `Q` at `j`.
pub open spec fn q_line_at(s: Seq<char>, j: int) -> bool {
    0 <= j && j + 1 < s.len() && s[j] == 'Q' && is_digit(s[j + 1]) && line_prefix_blank(s, j)
}

/// Some line of `s`, once trimmed, starts with `Q` followed by a digit.
pub open spec fn has_q_line(s: Seq<char>) -> bool {
    exists|j: int| q_line_at(s, j)
}

pub open spec fn questions_issues(doc: DisclosureDocumentView) -> Seq<ValidationIssueView> {
    match find_section_spec(doc.sections, "questions"@) {
        Some(s) => if !has_q_line(s.content) {
            seq![
                make_issue(
                    "questions_q_format"@,
                    QUESTIONS_MESSAGE@,
                    Some("questions"@),
                    ValidationLevel::Error,
                ),
            ]
        } else {
            seq![]
        },
        None => seq![],
    }
}

/// The warning for chapter `sid` when it holds the bare pending text but not the marker.
pub open spec fn marker_issues(doc: DisclosureDocumentView, sid: Seq<char>) -> Seq<
    ValidationIssueView,
> {
    match find_section_spec(doc.sections, sid) {
        Some(s) => if contains(s.content, PENDING_TEXT@) && !contains(s.content, PENDING_MARKER@) {
            seq![
                make_issue(
                    "missing_marker_"@ + sid,
                    s.title + " 中出现缺失信息提示时，应使用“【待工程师补充】”统一标记。"@,
                    Some(sid),
                    ValidationLevel::Warning,
                ),
            ]
        } else {
            seq![]
        },
        None => seq![],
    }
}

/// Every issue found in `doc`, in the order in which they are reported.
pub open spec fn document_issues(doc: DisclosureDocumentView) -> Seq<ValidationIssueView> {
    required_section_issues(doc) + table_issues(
        doc,
        "benefits"@,
        BENEFITS_TABLE_HEADER@,
        "benefits_table_format"@,
        BENEFITS_TABLE_MESSAGE@,
    ) + table_issues(
        doc,
        "layout"@,
        LAYOUT_TABLE_HEADER@,
        "layout_table_format"@,
        LAYOUT_TABLE_MESSAGE@,
    ) + questions_issues(doc) + marker_issues(doc, "technical_solution"@) + marker_issues(
        doc,
        "implementation"@,
    )
}

/// Some issue of `issues` is an error (not a warning).
pub open spec fn has_error(issues: Seq<ValidationIssueView>) -> bool {
    exists|i: int| 0 <= i < issues.len() && issues[i].level == ValidationLevel::Error
}

/// Checks `document` against the required chapter list, table formats,
/// question format and pending-information markers.
pub fn validate_disclosure_document(document: &DisclosureDocument) -> (issues: Vec<ValidationIssue>)
    ensures
        issues_view(issues@) == document_issues(document@),
{
    let mut issues: Vec<ValidationIssue> = Vec::new();
    validate_required_sections(document, &mut issues);
    validate_table_header(
        document,
        "benefits",
        BENEFITS_TABLE_HEADER,
        "benefits_table_format",
        BENEFITS_TABLE_MESSAGE,
        &mut issues,
    );
    validate_table_header(
        document,
        "layout",
        LAYOUT_TABLE_HEADER,
        "layout_table_format",
        LAYOUT_TABLE_MESSAGE,
        &mut issues,
    );
    validate_questions_format(document, &mut issues);
    validate_missing_fact_markers(document, &mut issues);
    issues
}

fn issue(code: String, message: String, section_id: Option<String>, level: ValidationLevel) -> (r:
    ValidationIssue)
    ensures
        r.code == code,
        r.message == message,
        r.section_id == section_id,
        r.level == level,
{
    ValidationIssue { code, message, section_id, level }
}

proof fn lemma_push_view(v: Seq<ValidationIssue>, x: ValidationIssue)
    ensures
        issues_view(v.push(x)) == issues_view(v).push(x@),
{
    assert(issues_view(v.push(x)) =~= issues_view(v).push(x@));
}

fn validate_required_sections(document: &DisclosureDocument, issues: &mut Vec<ValidationIssue>)
    ensures
        issues_view(final(issues)@) == issues_view(old(issues)@) + required_section_issues(
            document@,
        ),
{
    let ghost doc = document@;
    let ghost start = issues_view(issues@);
    if document.sections.len() != SECTION_COUNT {
        let mut m = owned("当前输出共包含 ");
        let n = decimal_string(document.sections.len() as u64);
        m.append(n.as_str());
        m.append(" 个章节/专项，预期为 10 个。");
        let x = issue(owned("section_count_mismatch"), m, None, ValidationLevel::Error);
        proof {
            lemma_push_view(issues@, x);
        }
        issues.push(x);
    }
    assert(issues_view(issues@) =~= start + count_issues(doc));
    let mut index: usize = 0;
    while index < SECTION_COUNT
        invariant
            index <= SECTION_COUNT,
            doc == document@,
            issues_view(issues@) == start + count_issues(doc) + entry_issues(doc, index as nat),
        decreases SECTION_COUNT - index,
    {
        let (expected_id, expected_title) = required_section(index);
        let ghost before = issues_view(issues@);
        if index < document.sections.len() {
            let section = &document.sections[index];
            assert(doc.sections[index as int] == section@);
            if str_eq(section.id.as_str(), expected_id) && str_eq(
                section.title.as_str(),
                expected_title,
            ) {
                if is_blank(section.content.as_str()) {
                    let code = cat2("empty_section_", expected_id);
                    let message = cat2(expected_title, " 当前内容为空。");
                    let x = issue(code, message, Some(owned(expected_id)), ValidationLevel::Error);
                    proof {
                        lemma_push_view(issues@, x);
                    }
                    issues.push(x);
                }
            } else {
                let code = cat2("section_order_", decimal_string(index as u64).as_str());
                let mut m = owned("第 ");
                m.append(decimal_string((index + 1) as u64).as_str());
                m.append(" 个章节/专项应为“");
                m.append(expected_title);
                m.append("”，当前实际为“");
                m.append(section.title.as_str());
                m.append("”。");
                let x = issue(code, m, Some(owned(section.id.as_str())), ValidationLevel::Error);
                proof {
                    lemma_push_view(issues@, x);
                }
                issues.push(x);
            }
        } else {
            let code = cat2("missing_section_", expected_id);
            let message = cat3("缺少必需章节/专项“", expected_title, "”。");
            let x = issue(code, message, Some(owned(expected_id)), ValidationLevel::Error);
            proof {
                lemma_push_view(issues@, x);
            }
            issues.push(x);
        }
        index = index + 1;
        proof {
            assert(issues_view(issues@) =~= start + count_issues(doc) + entry_issues(
                doc,
                index as nat,
            ));
        }
    }
}

/// The first section of `document` whose id is `section_id`.
pub fn find_section<'a>(document: &'a DisclosureDocument, section_id: &str) -> (r: Option<
    &'a DisclosureSection,
>)
    ensures
        match r {
            Some(s) => find_section_spec(document@.sections, section_id@) == Some(s@),
            None => find_section_spec(document@.sections, section_id@).is_none(),
        },
{
    let ghost secs = document@.sections;
    let mut i: usize = 0;
    while i < document.sections.len()
        invariant
            i <= document.sections.len(),
            secs == document@.sections,
            find_section_spec(secs, section_id@) == find_section_from(secs, section_id@, i as int),
        decreases document.sections.len() - i,
    {
        assert(secs[i as int] == document.sections@[i as int]@);
        if str_eq(document.sections[i].id.as_str(), section_id) {
            return Some(&document.sections[i]);
        }
        i = i + 1;
    }
    None
}

fn validate_table_header(
    document: &DisclosureDocument,
    section_id: &str,
    expected_header: &str,
    code: &str,
    message: &str,
    issues: &mut Vec<ValidationIssue>,
)
    ensures
        issues_view(final(issues)@) == issues_view(old(issues)@) + table_issues(
            document@,
            section_id@,
            expected_header@,
            code@,
            message@,
        ),
{
    match find_section(document, section_id) {
        Some(section) => {
            if !contains_str(section.content.as_str(), expected_header) {
                let x = issue(
                    owned(code),
                    owned(message),
                    Some(owned(section_id)),
                    ValidationLevel::Error,
                );
                proof {
                    lemma_push_view(issues@, x);
                }
                issues.push(x);
            } else {
                assert(issues_view(issues@) =~= issues_view(issues@) + seq![]);
            }
        },
        None => {
            assert(issues_view(issues@) =~= issues_view(issues@) + seq![]);
        },
    }
}

/// Whether some line of `content`, once trimmed, starts with `Q` and a digit.
pub fn has_q_format(content: &str) -> (b: bool)
    ensures
        b == has_q_line(content@),
{
    let v = chars_of(content);
    let mut blank: bool = true;
    let mut i: usize = 0;
    while i < v.len()
        invariant
            i <= v.len(),
            v@ == content@,
            blank == line_prefix_blank(v@, i as int),
            forall|k: int| 0 <= k < i ==> !q_line_at(v@, k),
        decreases v.len() - i,
    {
        if blank && v[i] == 'Q' && i + 1 < v.len() && char_is_digit(v[i + 1]) {
            assert(q_line_at(v@, i as int));
            return true;
        }
        let c = v[i];
        if c == '\n' {
            blank = true;
        } else {
            blank = blank && char_is_whitespace(c);
        }
        i = i + 1;
    }
    assert forall|j: int| !q_line_at(content@, j) by {
        if 0 <= j < i {
        }
    }
    false
}

fn validate_questions_format(document: &DisclosureDocument, issues: &mut Vec<ValidationIssue>)
    ensures
        issues_view(final(issues)@) == issues_view(old(issues)@) + questions_issues(document@),
{
    match find_section(document, "questions") {
        Some(section) => {
            if !has_q_format(section.content.as_str()) {
                let x = issue(
                    owned("questions_q_format"),
                    owned(QUESTIONS_MESSAGE),
                    Some(owned("questions")),
                    ValidationLevel::Error,
                );
                proof {
                    lemma_push_view(issues@, x);
                }
                issues.push(x);
            } else {
                assert(issues_view(issues@) =~= issues_view(issues@) + seq![]);
            }
        },
        None => {
            assert(issues_view(issues@) =~= issues_view(issues@) + seq![]);
        },
    }
}

fn validate_marker(
    document: &DisclosureDocument,
    section_id: &str,
    issues: &mut Vec<ValidationIssue>,
)
    ensures
        issues_view(final(issues)@) == issues_view(old(issues)@) + marker_issues(
            document@,
            section_id@,
        ),
{
    match find_section(document, section_id) {
        Some(section) => {
            if contains_str(section.content.as_str(), PENDING_TEXT) && !contains_str(
                section.content.as_str(),
                PENDING_MARKER,
            ) {
                let message = cat2(
                    section.title.as_str(),
                    " 中出现缺失信息提示时，应使用“【待工程师补充】”统一标记。",
                );
                let x = issue(
                    cat2("missing_marker_", section_id),
                    message,
                    Some(owned(section_id)),
                    ValidationLevel::Warning,
                );
                proof {
                    lemma_push_view(issues@, x);
                }
                issues.push(x);
            } else {
                assert(issues_view(issues@) =~= issues_view(issues@) + seq![]);
            }
        },
        None => {
            assert(issues_view(issues@) =~= issues_view(issues@) + seq![]);
        },
    }
}

fn validate_missing_fact_markers(document: &DisclosureDocument, issues: &mut Vec<ValidationIssue>)
    ensures
        issues_view(final(issues)@) == issues_view(old(issues)@) + marker_issues(
            document@,
            "technical_solution"@,
        ) + marker_issues(document@, "implementation"@),
{
    validate_marker(document, "technical_solution", issues);
    validate_marker(document, "implementation", issues);
}

/// Only error-level issues count as errors: a list of warnings has none,
/// and a list with one error-level issue has one, whatever else it holds.
pub proof fn lemma_only_error_level_counts(issues: Seq<ValidationIssueView>, k: int)
    ensures
        (forall|j: int| 0 <= j < issues.len() ==> #[trigger] issues[j].level
            == ValidationLevel::Warning) ==> !has_error(issues),
        0 <= k < issues.len() && issues[k].level == ValidationLevel::Error ==> has_error(issues),
{
}

/// The `i`-th required chapter of `doc` is present, in place, and not blank.
pub open spec fn chapter_ok(doc: DisclosureDocumentView, i: int) -> bool {
    &&& i < doc.sections.len()
    &&& doc.sections[i].id == required_id(i)
    &&& doc.sections[i].title == required_title(i)
    &&& trim(doc.sections[i].content).len() > 0
}

/// How many of the first `n` required chapters are missing, misplaced or blank.
pub open spec fn bad_chapters(doc: DisclosureDocumentView, n: nat) -> nat
    decreases n,
{
    if n == 0 {
        0
    } else {
        bad_chapters(doc, (n - 1) as nat) + if chapter_ok(doc, n - 1) {
            0nat
        } else {
            1nat
        }
    }
}

proof fn lemma_entry_issues_count(doc: DisclosureDocumentView, n: nat)
    ensures
        entry_issues(doc, n).len() == bad_chapters(doc, n),
        forall|k: int|
            0 <= k < entry_issues(doc, n).len() ==> (#[trigger] entry_issues(doc, n)[k]).level
                == ValidationLevel::Error,
    decreases n,
{
    if n > 0 {
        lemma_entry_issues_count(doc, (n - 1) as nat);
    }
}

/// The chapter check reports one error for a wrong chapter count and one
/// error for each required chapter that is missing, misplaced or blank, and
/// nothing else.
pub proof fn lemma_required_section_issue_count(doc: DisclosureDocumentView)
    ensures
        required_section_issues(doc).len() == (if doc.sections.len() != SECTION_COUNT {
            1nat
        } else {
            0nat
        }) + bad_chapters(doc, SECTION_COUNT as nat),
        forall|k: int|
            0 <= k < required_section_issues(doc).len() ==> (#[trigger] required_section_issues(
                doc,
            )[k]).level == ValidationLevel::Error,
{
    lemma_entry_issues_count(doc, SECTION_COUNT as nat);
    let c = count_issues(doc);
    let e = entry_issues(doc, SECTION_COUNT as nat);
    assert forall|k: int| 0 <= k < required_section_issues(doc).len() implies (
    #[trigger] required_section_issues(doc)[k]).level == ValidationLevel::Error by {
        if k >= c.len() {
            assert(required_section_issues(doc)[k] == e[k - c.len()]);
        }
    }
}

} // verus!
