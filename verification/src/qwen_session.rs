//! The live analysis path: turning a model reply into the next disclosure
//! version, marking what changed, building the prompts, and assembling the
//! session that the front end shows.
use vstd::prelude::*;

use crate::ai_payload::{
    balanced_json_spec, extract_balanced_json, json_text, section_texts, strip_fence_spec,
    strip_markdown_code_block, AiDisclosurePayload, AiDisclosureSections, JsonValue,
};
use crate::mock_session::{
    active_actions_spec, advisory_actions_spec, msg, skip_question_spec, SKIP_STATUS, TIMESTAMP,
};
use crate::model_config::ModelProviderConfig;
use crate::models::{
    issues_view, messages_view, opt_view, ChatMessage, ChatMessageView, DemoSettings, MessageIntent,
    MessageRole, RetryMetadata, SessionActions, SessionProgress, SessionSnapshotView, SessionStage,
    ValidationLevel,
    annotations_view, sections_view, Annotation, AnnotationKind, AnnotationView, DisclosureDocument,
    DisclosureDocumentView, DisclosureSection, DisclosureSectionView, SessionSnapshot,
};
use crate::text::{
    cat2, chars_of, contains, contains_str, decimal, decimal_string, is_blank, occurs_at,
    occurs_at_exec, owned, starts_with, starts_with_str, str_eq, string_of_range, trim, trim_str,
    first_chars, cat3, join, lemma_trim_result, join_strings, strings_view,
};
use crate::validation::{
    count_issues, document_issues, entry_issue, has_error, required_id, required_section, required_title,
    validate_disclosure_document, SECTION_COUNT,
};

verus! {

broadcast use vstd::string::group_string_axioms;

/// Note of an annotation that marks added content.
pub const ADDITION_NOTE: &'static str = "基于 Qwen 分析结果补充了新的工程或专利表达。";

/// Note of an annotation that marks rewritten content.
pub const REWRITE_NOTE: &'static str = "基于 Qwen 分析结果重写了原有描述，使其更适合交底书结构。";

/// Most characters an annotation excerpt shows.
pub const SNIPPET_CHARS: usize = 42;

/// What the engineer did in a turn of the live session.
#[derive(Debug, Clone)]
pub enum UserTurn {
    Answer(String),
    Skip,
}

// ---------------------------------------------------------------------------
// Excerpts
// ---------------------------------------------------------------------------

/// The first characters of the trimmed text, trimmed again.
pub open spec fn snippet_spec(s: Seq<char>) -> Seq<char> {
    trim(first_chars(trim(s), SNIPPET_CHARS as nat))
}

/// Repeatedly removes `p` from the front of `s` (what `str::trim_start_matches`
/// computes for a string pattern; an empty pattern removes nothing).
pub open spec fn strip_all(s: Seq<char>, p: Seq<char>) -> Seq<char>
    decreases s.len(),
{
    if p.len() > 0 && starts_with(s, p) {
        strip_all(s.skip(p.len() as int), p)
    } else {
        s
    }
}

pub fn snippet(content: &str) -> (r: String)
    ensures
        r@ == snippet_spec(content@),
{
    let t = trim_str(content);
    let v = chars_of(t.as_str());
    let n: usize = if v.len() <= SNIPPET_CHARS {
        v.len()
    } else {
        SNIPPET_CHARS
    };
    let head = string_of_range(&v, 0, n);
    assert(head@ =~= first_chars(t@, SNIPPET_CHARS as nat));
    trim_str(head.as_str())
}

/// `s` with every leading repetition of `p` removed.
pub fn trim_start_matches_str(s: &str, p: &str) -> (r: String)
    ensures
        r@ == strip_all(s@, p@),
{
    let sv = chars_of(s);
    let pv = chars_of(p);
    if pv.len() == 0 {
        return owned(s);
    }
    let mut i: usize = 0;
    assert(sv@.skip(0) =~= sv@);
    while i <= sv.len() && occurs_at_exec(&sv, &pv, i)
        invariant
            i <= sv.len(),
            pv.len() > 0,
            sv@ == s@,
            pv@ == p@,
            strip_all(s@, p@) == strip_all(sv@.skip(i as int), p@),
        decreases sv.len() - i,
    {
        let ghost rest = sv@.skip(i as int);
        assert(rest.subrange(0, pv.len() as int) =~= sv@.subrange(i as int, i + pv.len()));
        assert(rest.skip(pv.len() as int) =~= sv@.skip(i + pv.len()));
        i = i + pv.len();
    }
    let ghost rest = sv@.skip(i as int);
    proof {
        if pv.len() <= rest.len() {
            assert(rest.subrange(0, pv.len() as int) =~= sv@.subrange(i as int, i + pv.len()));
        }
    }
    let r = string_of_range(&sv, i, sv.len());
    assert(r@ =~= rest);
    r
}

// ---------------------------------------------------------------------------
// Annotations
// ---------------------------------------------------------------------------

/// The content of the last section of `secs[0..n]` whose id is `id`
/// (the value a map collected from the sections keeps for that id).
pub open spec fn lookup_last(secs: Seq<DisclosureSectionView>, id: Seq<char>, n: int) -> Option<
    Seq<char>,
>
    decreases n,
{
    if n <= 0 || n > secs.len() {
        None
    } else if secs[n - 1].id == id {
        Some(secs[n - 1].content)
    } else {
        lookup_last(secs, id, n - 1)
    }
}

/// The previous content of chapter `id`, if a previous version had it.
pub open spec fn prev_content(previous: Option<DisclosureDocumentView>, id: Seq<char>) -> Option<
    Seq<char>,
> {
    match previous {
        Some(d) => lookup_last(d.sections, id, d.sections.len() as int),
        None => None,
    }
}

/// Length in UTF-8 bytes, as `str::len` reports it.
pub open spec fn byte_len(s: Seq<char>) -> int {
    (vstd::utf8::encode_utf8(s).len() as usize) as int
}

/// Whether the new content adds to the previous one (rather than rewriting it).
pub open spec fn annotation_kind_spec(prev: Option<Seq<char>>, content: Seq<char>) -> AnnotationKind {
    match prev {
        None => AnnotationKind::Addition,
        Some(p) => if trim(p).len() == 0 {
            AnnotationKind::Addition
        } else if contains(content, p) || byte_len(content) > byte_len(p) + 24 {
            AnnotationKind::Addition
        } else {
            AnnotationKind::Rewrite
        },
    }
}

pub open spec fn annotation_excerpt_spec(prev: Option<Seq<char>>, content: Seq<char>) -> Seq<char> {
    match prev {
        Some(p) => if starts_with(content, p) {
            snippet_spec(strip_all(content, p))
        } else {
            snippet_spec(content)
        },
        None => snippet_spec(content),
    }
}

/// The annotation of one chapter of the new version, unless it did not change
/// or there is nothing to excerpt.
pub open spec fn annotation_for_spec(
    previous: Option<DisclosureDocumentView>,
    sec: DisclosureSectionView,
    version: u32,
) -> Option<AnnotationView> {
    let prev = prev_content(previous, sec.id);
    if prev == Some(sec.content) {
        None
    } else {
        let kind = annotation_kind_spec(prev, sec.content);
        let excerpt = annotation_excerpt_spec(prev, sec.content);
        if excerpt.len() == 0 {
            None
        } else {
            Some(
                AnnotationView {
                    id: "ann-"@ + sec.id + "-v"@ + decimal(version as nat),
                    kind,
                    section_id: sec.id,
                    excerpt,
                    note: if kind == AnnotationKind::Addition {
                        ADDITION_NOTE@
                    } else {
                        REWRITE_NOTE@
                    },
                },
            )
        }
    }
}

/// The annotations of the first `n` chapters of `next`, in order.
pub open spec fn annotations_upto(
    previous: Option<DisclosureDocumentView>,
    next: DisclosureDocumentView,
    n: int,
) -> Seq<AnnotationView>
    decreases n,
{
    if n <= 0 || n > next.sections.len() {
        seq![]
    } else {
        let prev = annotations_upto(previous, next, n - 1);
        match annotation_for_spec(previous, next.sections[n - 1], next.version) {
            Some(a) => prev.push(a),
            None => prev,
        }
    }
}

pub open spec fn derive_annotations_spec(
    previous: Option<DisclosureDocumentView>,
    next: DisclosureDocumentView,
) -> Seq<AnnotationView> {
    annotations_upto(previous, next, next.sections.len() as int)
}

pub open spec fn doc_opt_view(d: Option<&DisclosureDocument>) -> Option<DisclosureDocumentView> {
    match d {
        Some(x) => Some(x@),
        None => None,
    }
}

/// Index of the last section of `document` whose id is `id`.
pub fn last_section_index(document: &DisclosureDocument, id: &str) -> (r: Option<usize>)
    ensures
        match r {
            Some(k) => k < document.sections.len() && lookup_last(
                document@.sections,
                id@,
                document@.sections.len() as int,
            ) == Some(document.sections@[k as int].content@),
            None => lookup_last(document@.sections, id@, document@.sections.len() as int).is_none(),
        },
{
    let ghost secs = document@.sections;
    let mut j: usize = document.sections.len();
    while j > 0
        invariant
            j <= document.sections.len(),
            secs == document@.sections,
            lookup_last(secs, id@, secs.len() as int) == lookup_last(secs, id@, j as int),
        decreases j,
    {
        assert(secs[j - 1] == document.sections@[j - 1]@);
        if str_eq(document.sections[j - 1].id.as_str(), id) {
            return Some(j - 1);
        }
        j = j - 1;
    }
    None
}

fn annotation_for(previous: Option<&DisclosureDocument>, section: &DisclosureSection, version: u32) -> (r:
    Option<Annotation>)
    ensures
        match r {
            Some(a) => annotation_for_spec(doc_opt_view(previous), section@, version) == Some(a@),
            None => annotation_for_spec(doc_opt_view(previous), section@, version).is_none(),
        },
{
    let content = section.content.as_str();
    let prev: Option<&str> = match previous {
        Some(d) => match last_section_index(d, section.id.as_str()) {
            Some(k) => Some(d.sections[k].content.as_str()),
            None => None,
        },
        None => None,
    };
    let ghost pv: Option<Seq<char>> = match prev {
        Some(p) => Some(p@),
        None => None,
    };
    assert(pv == prev_content(doc_opt_view(previous), section@.id));
    if let Some(p) = prev {
        if str_eq(p, content) {
            return None;
        }
    }
    let kind = match prev {
        None => AnnotationKind::Addition,
        Some(p) => {
            if is_blank(p) {
                AnnotationKind::Addition
            } else {
                let grows: bool = content.len() > p.len() && content.len() - p.len() > 24;
                if contains_str(content, p) || grows {
                    AnnotationKind::Addition
                } else {
                    AnnotationKind::Rewrite
                }
            }
        },
    };
    let note: &str = match kind {
        AnnotationKind::Addition => ADDITION_NOTE,
        AnnotationKind::Rewrite => REWRITE_NOTE,
    };
    let excerpt = match prev {
        Some(p) => {
            if starts_with_str(content, p) {
                let rest = trim_start_matches_str(content, p);
                snippet(rest.as_str())
            } else {
                snippet(content)
            }
        },
        None => snippet(content),
    };
    if excerpt.as_str().is_empty() {
        return None;
    }
    let mut id = owned("ann-");
    id.append(section.id.as_str());
    id.append("-v");
    id.append(decimal_string(version as u64).as_str());
    Some(
        Annotation {
            id,
            kind,
            section_id: owned(section.id.as_str()),
            excerpt,
            note: owned(note),
        },
    )
}

/// Marks every chapter of `next` that is new or changed since `previous`.
pub fn derive_annotations(previous: Option<&DisclosureDocument>, next: &DisclosureDocument) -> (v:
    Vec<Annotation>)
    ensures
        annotations_view(v@) == derive_annotations_spec(doc_opt_view(previous), next@),
{
    let mut v: Vec<Annotation> = Vec::new();
    let mut i: usize = 0;
    while i < next.sections.len()
        invariant
            i <= next.sections.len(),
            annotations_view(v@) == annotations_upto(doc_opt_view(previous), next@, i as int),
        decreases next.sections.len() - i,
    {
        assert(next@.sections[i as int] == next.sections@[i as int]@);
        match annotation_for(previous, &next.sections[i], next.version) {
            Some(a) => {
                v.push(a);
                assert(annotations_view(v@) =~= annotations_upto(
                    doc_opt_view(previous),
                    next@,
                    i + 1,
                ));
            },
            None => {},
        }
        i = i + 1;
    }
    v
}

// ---------------------------------------------------------------------------
// The next disclosure version from a model reply
// ---------------------------------------------------------------------------

/// A chapter's content: the trimmed reply text, or the previous content when
/// the reply left the chapter blank (nothing if there was none).
pub open spec fn section_content_spec(
    previous: Option<DisclosureDocumentView>,
    ai: Seq<char>,
    id: Seq<char>,
) -> Seq<char> {
    if trim(ai).len() == 0 {
        match prev_content(previous, id) {
            Some(c) => c,
            None => Seq::empty(),
        }
    } else {
        trim(ai)
    }
}

pub open spec fn payload_sections_spec(
    previous: Option<DisclosureDocumentView>,
    texts: Seq<Seq<char>>,
) -> Seq<DisclosureSectionView> {
    Seq::new(
        SECTION_COUNT as nat,
        |i: int|
            DisclosureSectionView {
                id: required_id(i),
                title: required_title(i),
                content: section_content_spec(previous, texts[i], required_id(i)),
            },
    )
}

/// The version after `previous` (the first one when there is none).
pub open spec fn next_version(previous: Option<DisclosureDocumentView>) -> u32 {
    match previous {
        Some(d) => (d.version + 1) as u32,
        None => 1,
    }
}

/// The disclosure built from the chapter texts of a reply.
pub open spec fn disclosure_from_payload_spec(
    previous: Option<DisclosureDocumentView>,
    texts: Seq<Seq<char>>,
) -> DisclosureDocumentView {
    let provisional = DisclosureDocumentView {
        version: next_version(previous),
        sections: payload_sections_spec(previous, texts),
        annotations: seq![],
    };
    DisclosureDocumentView {
        annotations: derive_annotations_spec(previous, provisional),
        ..provisional
    }
}

pub open spec fn session_doc_view(previous: Option<&SessionSnapshot>) -> Option<DisclosureDocumentView> {
    match previous {
        Some(s) => Some(s.disclosure@),
        None => None,
    }
}

/// The version counter of `previous` can still be incremented.
pub open spec fn version_in_range(previous: Option<&SessionSnapshot>) -> bool {
    match previous {
        Some(s) => s.disclosure.version < u32::MAX,
        None => true,
    }
}

/// The next disclosure version from a model reply and the previous session.
pub fn disclosure_from_payload(previous: Option<&SessionSnapshot>, payload: &AiDisclosurePayload) -> (d:
    DisclosureDocument)
    requires
        version_in_range(previous),
    ensures
        d@ == disclosure_from_payload_spec(session_doc_view(previous), section_texts(payload.sections)),
{
    let texts = payload.sections.as_map();
    let ghost tv = section_texts(payload.sections);
    assert(tv.len() == SECTION_COUNT);
    assert(texts@.map_values(|x: String| x@).len() == texts@.len());
    let prev_doc: Option<&DisclosureDocument> = match previous {
        Some(s) => Some(&s.disclosure),
        None => None,
    };
    assert(doc_opt_view(prev_doc) == session_doc_view(previous));
    let ghost target = payload_sections_spec(session_doc_view(previous), tv);
    let mut sections: Vec<DisclosureSection> = Vec::new();
    let mut i: usize = 0;
    while i < SECTION_COUNT
        invariant
            i <= SECTION_COUNT,
            texts@.len() == SECTION_COUNT,
            tv == texts@.map_values(|x: String| x@),
            doc_opt_view(prev_doc) == session_doc_view(previous),
            target == payload_sections_spec(session_doc_view(previous), tv),
            sections_view(sections@) == target.take(i as int),
        decreases SECTION_COUNT - i,
    {
        let (id, title) = required_section(i);
        let ai = texts[i].as_str();
        assert(ai@ == tv[i as int]);
        let content = if is_blank(ai) {
            match prev_doc {
                Some(d) => match last_section_index(d, id) {
                    Some(k) => owned(d.sections[k].content.as_str()),
                    None => String::new(),
                },
                None => String::new(),
            }
        } else {
            trim_str(ai)
        };
        let sec = DisclosureSection { id: owned(id), title: owned(title), content };
        assert(sec@ == target[i as int]);
        let ghost before = sections@;
        let ghost secv = sec@;
        sections.push(sec);
        proof {
            assert(sections_view(sections@) =~= sections_view(before).push(secv));
            assert(target.take(i + 1) =~= target.take(i as int).push(target[i as int]));
        }
        i = i + 1;
    }
    assert(target.take(SECTION_COUNT as int) =~= target);
    let version: u32 = match previous {
        Some(s) => s.disclosure.version + 1,
        None => 1,
    };
    let provisional = DisclosureDocument { version, sections, annotations: Vec::new() };
    assert(provisional@.annotations =~= seq![]);
    let annotations = derive_annotations(prev_doc, &provisional);
    DisclosureDocument { annotations, ..provisional }
}

// ---------------------------------------------------------------------------
// Prompts
// ---------------------------------------------------------------------------

/// Instructions sent as the system message of every request.
pub const SYSTEM_PROMPT: &'static str = r#"你是一位资深专利工程师与专利代理人协作专家。你的任务是把工程师草稿和补充回答，整理为符合 PatentScribe AI V1 结构约束的技术交底书。

【输出格式 — 最高优先级】
你的整个回复必须是且仅是一个合法 JSON 对象。禁止任何前缀、后缀、Markdown 代码块标记（如 ```json）、解释文字。第一个字符必须是 {，最后一个字符必须是 }。

JSON 结构固定如下（10 个 sections 字段全部必填，不得遗漏任何一个）：
{
  "diagnosis_summary": "对当前草稿的整体诊断，2-4 句话",
  "follow_up_question": "若仍需追问则填写一条可直接回复的问题，否则填空字符串",
  "completeness_advisory": "若不再追问则填写完整度评语，否则填空字符串",
  "sections": {
    "title": "发明名称，一句话",
    "field": "技术领域描述",
    "background": "背景技术及现有缺陷",
    "purpose": "发明目的",
    "technical_solution": "技术方案，使用工程师口吻",
    "benefits": "有益效果，必须是 Markdown 表格，表头固定为 | 维度 | 技术突破点 | 效果与价值体现 |",
    "figures": "附图说明",
    "implementation": "具体实施方式，尽量结合已有回答补全参数",
    "layout": "专利挖掘与布局建议，必须是 Markdown 表格，表头固定为 | 布局方向 | 保护策略 | 建议权利要求架构 |",
    "questions": "需工程师补齐的关键改进建议，必须使用 Q1/Q2 问答式"
  }
}

硬约束：
1. sections 中 10 个字段全部必须有实质内容（至少两句话），绝对不能为空字符串。
2. 信息缺失时只能写【待工程师补充】，不得虚构技术事实。
3. 第五部分"技术方案"使用工程师口吻，不要堆砌法律术语。
4. follow_up_question 和 completeness_advisory 只能二选一有内容。
5. 每个 section 内容要精练，避免冗长，确保总输出不超过 3500 tokens。
"#;

pub const NO_HISTORY: &'static str = "无历史问答。";

pub const NO_PREVIOUS_DISCLOSURE: &'static str = "无上一版交底书。";

pub const OMITTED_DISCLOSURE: &'static str =
    "（省略上一版全文以节省空间，请基于你已知的上下文重新生成完整 10 个 sections）";

pub const ANSWER_TURN_HEAD: &'static str = "本轮工程师补充：";

pub const SKIP_TURN: &'static str =
    "本轮工程师选择跳过当前追问，请保留待补充标记并继续生成下一条更聚焦的追问。";

pub const FIRST_TURN: &'static str = "这是初次分析，请基于原始草稿生成诊断、交底书和第一条追问。";

pub const RETRY_HEAD: &'static str = "⚠️ 这是第 ";

pub const RETRY_TAIL: &'static str = " 次生成尝试。上一次输出存在结构问题（可能是 JSON 不完整、sections 字段为空、或缺少表格/Q 格式）。请务必：\n\
             1. 输出必须是完整合法的 JSON\n\
             2. sections 全部 10 个字段都必须有内容\n\
             3. benefits 和 layout 必须包含指定表头的 Markdown 表格\n\
             4. questions 必须使用 Q1/Q2 格式\n\
             5. 每段内容精练，总输出控制在 3000 tokens 以内";

pub const FOLLOW_UP_LINE_HEAD: &'static str = "AI 追问：";

pub const ANSWER_LINE_HEAD: &'static str = "工程师回答：";

pub const SKIP_LINE: &'static str = "工程师操作：跳过上一条追问。";

/// Status text that marks a skipped question in the history.
pub const SKIP_MARK: &'static str = "跳过当前追问";

pub fn build_system_prompt() -> (r: String)
    ensures
        r@ == SYSTEM_PROMPT@,
{
    owned(SYSTEM_PROMPT)
}

/// The history line a message contributes, if any.
pub open spec fn history_line(m: ChatMessageView) -> Option<Seq<char>> {
    if m.role == MessageRole::Assistant && m.intent == MessageIntent::FollowUp {
        Some(FOLLOW_UP_LINE_HEAD@ + m.content)
    } else if m.role == MessageRole::Engineer && m.intent == MessageIntent::Answer {
        Some(ANSWER_LINE_HEAD@ + m.content)
    } else if m.role == MessageRole::System && m.intent == MessageIntent::Status && contains(
        m.content,
        SKIP_MARK@,
    ) {
        Some(SKIP_LINE@)
    } else {
        None
    }
}

/// The history lines of `msgs[0..n]`, in order.
pub open spec fn history_lines(msgs: Seq<ChatMessageView>, n: int) -> Seq<Seq<char>>
    decreases n,
{
    if n <= 0 || n > msgs.len() {
        seq![]
    } else {
        match history_line(msgs[n - 1]) {
            Some(l) => history_lines(msgs, n - 1).push(l),
            None => history_lines(msgs, n - 1),
        }
    }
}

/// The question-and-answer history of a session, one line per entry.
pub open spec fn history_spec(msgs: Seq<ChatMessageView>) -> Seq<char> {
    let lines = history_lines(msgs, msgs.len() as int);
    if lines.len() == 0 {
        NO_HISTORY@
    } else {
        join(lines, "\n"@)
    }
}

pub fn extract_conversation_history(session: &SessionSnapshot) -> (r: String)
    ensures
        r@ == history_spec(messages_view(session.messages@)),
{
    let ghost msgs = messages_view(session.messages@);
    let mut lines: Vec<String> = Vec::new();
    let mut i: usize = 0;
    while i < session.messages.len()
        invariant
            i <= session.messages.len(),
            msgs == messages_view(session.messages@),
            strings_view(lines@) == history_lines(msgs, i as int),
        decreases session.messages.len() - i,
    {
        let m = &session.messages[i];
        assert(msgs[i as int] == m@);
        let line: Option<String> = if m.role == MessageRole::Assistant && m.intent
            == MessageIntent::FollowUp {
            Some(cat2(FOLLOW_UP_LINE_HEAD, m.content.as_str()))
        } else if m.role == MessageRole::Engineer && m.intent == MessageIntent::Answer {
            Some(cat2(ANSWER_LINE_HEAD, m.content.as_str()))
        } else if m.role == MessageRole::System && m.intent == MessageIntent::Status
            && contains_str(m.content.as_str(), SKIP_MARK) {
            Some(owned(SKIP_LINE))
        } else {
            None
        };
        match line {
            Some(l) => {
                let ghost before = lines@;
                let ghost lv = l@;
                lines.push(l);
                assert(strings_view(lines@) =~= strings_view(before).push(lv));
            },
            None => {},
        }
        i = i + 1;
    }
    if lines.len() == 0 {
        owned(NO_HISTORY)
    } else {
        join_strings(&lines, "\n")
    }
}

/// Each chapter as its title and content on separate lines, chapters separated by a blank line.
pub open spec fn format_disclosure_spec(doc: DisclosureDocumentView) -> Seq<char> {
    join(
        Seq::new(
            doc.sections.len(),
            |i: int| doc.sections[i].title + "\n"@ + doc.sections[i].content,
        ),
        "\n\n"@,
    )
}

pub fn format_disclosure(disclosure: &DisclosureDocument) -> (r: String)
    ensures
        r@ == format_disclosure_spec(disclosure@),
{
    let ghost target = Seq::new(
        disclosure@.sections.len(),
        |i: int| disclosure@.sections[i].title + "\n"@ + disclosure@.sections[i].content,
    );
    let mut parts: Vec<String> = Vec::new();
    let mut i: usize = 0;
    while i < disclosure.sections.len()
        invariant
            i <= disclosure.sections.len(),
            target.len() == disclosure.sections.len(),
            target == Seq::new(
                disclosure@.sections.len(),
                |i: int| disclosure@.sections[i].title + "\n"@ + disclosure@.sections[i].content,
            ),
            strings_view(parts@) == target.take(i as int),
        decreases disclosure.sections.len() - i,
    {
        let s = &disclosure.sections[i];
        assert(disclosure@.sections[i as int] == s@);
        let p = cat3(s.title.as_str(), "\n", s.content.as_str());
        let ghost before = parts@;
        let ghost pv = p@;
        parts.push(p);
        assert(strings_view(parts@) =~= strings_view(before).push(pv));
        i = i + 1;
        assert(target.take(i as int) =~= target.take(i - 1).push(target[i - 1]));
    }
    assert(target.take(target.len() as int) =~= target);
    join_strings(&parts, "\n\n")
}

pub open spec fn session_opt_view(s: Option<&SessionSnapshot>) -> Option<SessionSnapshotView> {
    match s {
        Some(x) => Some(x@),
        None => None,
    }
}

/// What the prompt says about this turn.
pub open spec fn turn_text_spec(turn: Option<UserTurn>) -> Seq<char> {
    match turn {
        Some(UserTurn::Answer(a)) => ANSWER_TURN_HEAD@ + a@,
        Some(UserTurn::Skip) => SKIP_TURN@,
        None => FIRST_TURN@,
    }
}

pub open spec fn opt_turn(turn: Option<&UserTurn>) -> Option<UserTurn> {
    match turn {
        Some(t) => Some(*t),
        None => None,
    }
}

/// The user prompt of attempt `attempt`: the draft, the previous version (left
/// out on retries), the history, this turn and, on retries, a reminder of the format.
pub open spec fn prompt_spec(
    source_draft: Seq<char>,
    previous: Option<SessionSnapshotView>,
    turn: Option<UserTurn>,
    attempt: u8,
) -> Seq<char> {
    let history = match previous {
        Some(p) => if history_spec(p.messages).len() > 0 {
            history_spec(p.messages)
        } else {
            NO_HISTORY@
        },
        None => NO_HISTORY@,
    };
    let current = if attempt > 1 {
        OMITTED_DISCLOSURE@
    } else {
        match previous {
            Some(p) => format_disclosure_spec(p.disclosure),
            None => NO_PREVIOUS_DISCLOSURE@,
        }
    };
    let retry = if attempt > 1 {
        RETRY_HEAD@ + decimal(attempt as nat) + RETRY_TAIL@
    } else {
        Seq::empty()
    };
    "原始工程草稿：\n"@ + trim(source_draft) + "\n\n当前交底书版本：\n"@ + current + "\n\n历史问答：\n"@
        + history + "\n\n"@ + turn_text_spec(turn) + "\n\n"@ + retry
}

pub fn build_prompt(
    source_draft: &str,
    previous: Option<&SessionSnapshot>,
    turn: Option<&UserTurn>,
    attempt: u8,
) -> (r: String)
    ensures
        r@ == prompt_spec(source_draft@, session_opt_view(previous), opt_turn(turn), attempt),
{
    let conversation_history = match previous {
        Some(p) => {
            let h = extract_conversation_history(p);
            if h.as_str().is_empty() {
                owned(NO_HISTORY)
            } else {
                h
            }
        },
        None => owned(NO_HISTORY),
    };
    let current_disclosure = if attempt > 1 {
        owned(OMITTED_DISCLOSURE)
    } else {
        match previous {
            Some(p) => format_disclosure(&p.disclosure),
            None => owned(NO_PREVIOUS_DISCLOSURE),
        }
    };
    let latest_turn = match turn {
        Some(UserTurn::Answer(answer)) => cat2(ANSWER_TURN_HEAD, answer.as_str()),
        Some(UserTurn::Skip) => owned(SKIP_TURN),
        None => owned(FIRST_TURN),
    };
    let retry_guidance = if attempt > 1 {
        cat3(RETRY_HEAD, decimal_string(attempt as u64).as_str(), RETRY_TAIL)
    } else {
        String::new()
    };
    let mut r = owned("原始工程草稿：\n");
    r.append(trim_str(source_draft).as_str());
    r.append("\n\n当前交底书版本：\n");
    r.append(current_disclosure.as_str());
    r.append("\n\n历史问答：\n");
    r.append(conversation_history.as_str());
    r.append("\n\n");
    r.append(latest_turn.as_str());
    r.append("\n\n");
    r.append(retry_guidance.as_str());
    r
}

// ---------------------------------------------------------------------------
// The live session
// ---------------------------------------------------------------------------

pub const LIVE_START: &'static str =
    "已通过配置文件指定的 Qwen 模型实时分析演示草稿。当前会话会继续沿用该模型配置执行追问与预览更新。";

pub const LIVE_ANSWER_STATUS: &'static str = "已通过 Qwen 实时更新右侧交底书预览。";

pub const LIVE_SKIP_STATUS: &'static str =
    "已跳过当前追问，并要求 Qwen 在保留待补充标记的前提下生成下一步建议。";

pub const VALIDATION_WARNING: &'static str =
    "Qwen 已返回最新版本，但格式校验未完全通过，当前结果已保留并显示校验提示。";

pub const DEFAULT_ADVISORY: &'static str =
    "当前交底书信息已较为完整，可以继续补充，也可以直接下载当前版本。";

/// Most generation attempts per turn.
pub const MAX_ATTEMPTS: u8 = 3;

/// What one turn of the live model produced.
#[derive(Debug, Clone)]
pub struct GeneratedDisclosure {
    pub diagnosis_summary: String,
    pub follow_up_question: Option<String>,
    pub completeness_advisory: Option<String>,
    pub disclosure: DisclosureDocument,
    pub attempts: u8,
    pub reached_retry_limit: bool,
}

/// A trimmed value, or nothing when it is blank.
pub open spec fn sanitized_spec(value: Option<Seq<char>>) -> Option<Seq<char>> {
    match value {
        Some(v) => if trim(v).len() == 0 {
            None
        } else {
            Some(trim(v))
        },
        None => None,
    }
}

pub fn sanitized_optional(value: Option<String>) -> (r: Option<String>)
    ensures
        opt_view(r) == sanitized_spec(opt_view(value)),
{
    match value {
        Some(current) => {
            let trimmed = trim_str(current.as_str());
            if trimmed.as_str().is_empty() {
                None
            } else {
                Some(trimmed)
            }
        },
        None => None,
    }
}

fn message(id: &str, role: MessageRole, intent: MessageIntent, content: &str) -> (m: ChatMessage)
    ensures
        m@ == msg(id@, role, intent, content@),
{
    ChatMessage {
        id: owned(id),
        role,
        intent,
        content: owned(content),
        timestamp: owned(TIMESTAMP),
    }
}

/// The question index before this turn.
pub open spec fn turns_before(previous: Option<SessionSnapshotView>) -> int {
    match previous {
        Some(p) => p.progress.current_question_index as int,
        None => 0,
    }
}

/// The question index after this turn: one more when the engineer answered or skipped.
pub open spec fn turns_after(previous: Option<SessionSnapshotView>, turn: Option<UserTurn>) -> int {
    if turn is Some {
        turns_before(previous) + 1
    } else {
        turns_before(previous)
    }
}

pub open spec fn at_least_one(n: int) -> int {
    if n >= 1 {
        n
    } else {
        1
    }
}

/// The model asked a (non-blank) follow-up question.
pub open spec fn has_follow_up_spec(g: GeneratedDisclosure) -> bool {
    match g.follow_up_question {
        Some(q) => trim(q@).len() > 0,
        None => false,
    }
}

/// The counters this turn derives stay within `usize`.
pub open spec fn live_in_range(
    previous: Option<SessionSnapshotView>,
    turn: Option<UserTurn>,
    g: GeneratedDisclosure,
) -> bool {
    turns_after(previous, turn) + (if has_follow_up_spec(g) {
        1int
    } else {
        0int
    }) <= usize::MAX
}

/// The messages of the live session after this turn.
pub open spec fn live_messages_spec(
    previous: Option<SessionSnapshotView>,
    turn: Option<UserTurn>,
    g: GeneratedDisclosure,
) -> Seq<ChatMessageView> {
    let before = turns_before(previous);
    let m0 = match previous {
        Some(p) => p.messages,
        None => seq![msg("live-start"@, MessageRole::System, MessageIntent::Status, LIVE_START@)],
    };
    let n = decimal((before + 1) as nat);
    let m1 = match turn {
        Some(UserTurn::Answer(a)) => m0.push(
            msg("answer-"@ + n, MessageRole::Engineer, MessageIntent::Answer, a@),
        ).push(msg("live-status-"@ + n, MessageRole::System, MessageIntent::Status, LIVE_ANSWER_STATUS@)),
        Some(UserTurn::Skip) => m0.push(
            msg("skip-"@ + n, MessageRole::System, MessageIntent::Status, LIVE_SKIP_STATUS@),
        ),
        None => m0,
    };
    let done = turns_after(previous, turn);
    let k = decimal(at_least_one(done) as nat);
    let m2 = m1.push(
        msg("diagnosis-"@ + k, MessageRole::Assistant, MessageIntent::Diagnosis, g.diagnosis_summary@),
    );
    let m3 = if g.reached_retry_limit {
        m2.push(
            msg("validation-warning-"@ + k, MessageRole::System, MessageIntent::Status, VALIDATION_WARNING@),
        )
    } else {
        m2
    };
    if has_follow_up_spec(g) {
        m3.push(
            msg(
                "follow-up-"@ + decimal((done + 1) as nat),
                MessageRole::Assistant,
                MessageIntent::FollowUp,
                g.follow_up_question->Some_0@,
            ),
        )
    } else {
        m3.push(
            msg(
                "advisory-"@ + k,
                MessageRole::Assistant,
                MessageIntent::Advisory,
                match g.completeness_advisory {
                    Some(a) => a@,
                    None => DEFAULT_ADVISORY@,
                },
            ),
        )
    }
}

/// The live session after this turn.
pub open spec fn live_session_spec(
    session_id: Seq<char>,
    settings: DemoSettings,
    source_draft: Seq<char>,
    previous: Option<SessionSnapshotView>,
    turn: Option<UserTurn>,
    g: GeneratedDisclosure,
) -> SessionSnapshotView {
    let follow = has_follow_up_spec(g);
    let done = turns_after(previous, turn);
    SessionSnapshotView {
        session_id,
        stage: if follow {
            SessionStage::AwaitingAnswer
        } else {
            SessionStage::AdvisoryComplete
        },
        source_draft,
        messages: live_messages_spec(previous, turn, g),
        disclosure: g.disclosure@,
        settings,
        actions: if follow {
            active_actions_spec()
        } else {
            advisory_actions_spec()
        },
        progress: SessionProgress {
            current_question_index: done as usize,
            total_questions: at_least_one(done + if follow {
                1int
            } else {
                0int
            }) as usize,
        },
        validation_issues: document_issues(g.disclosure@),
        retry_metadata: RetryMetadata { attempt_count: g.attempts, max_attempts: MAX_ATTEMPTS },
    }
}

proof fn lemma_push_message(v: Seq<ChatMessage>, m: ChatMessage)
    ensures
        messages_view(v.push(m)) == messages_view(v).push(m@),
{
    assert(messages_view(v.push(m)) =~= messages_view(v).push(m@));
}

pub open spec fn owned_session_view(s: Option<SessionSnapshot>) -> Option<SessionSnapshotView> {
    match s {
        Some(x) => Some(x@),
        None => None,
    }
}

/// Whether the counters of a turn stay within `usize` (see `live_in_range`).
pub fn live_in_range_exec(
    previous: Option<&SessionSnapshot>,
    turn: Option<&UserTurn>,
    generated: &GeneratedDisclosure,
) -> (b: bool)
    ensures
        b == live_in_range(session_opt_view(previous), opt_turn(turn), *generated),
{
    let before: usize = match previous {
        Some(p) => p.progress.current_question_index,
        None => 0,
    };
    let done: usize = if turn.is_some() {
        if before == usize::MAX {
            return false;
        }
        before + 1
    } else {
        before
    };
    let follow: bool = match &generated.follow_up_question {
        Some(q) => !is_blank(q.as_str()),
        None => false,
    };
    !(follow && done == usize::MAX)
}

/// Assembles the session shown after a turn of the live model.
pub fn build_live_session(
    session_id: &str,
    settings: DemoSettings,
    source_draft: String,
    previous: Option<SessionSnapshot>,
    turn: Option<UserTurn>,
    generated: GeneratedDisclosure,
) -> (r: SessionSnapshot)
    requires
        live_in_range(
            owned_session_view(previous),
            turn,
            generated,
        ),
    ensures
        r@ == live_session_spec(
            session_id@,
            settings,
            source_draft@,
            owned_session_view(previous),
            turn,
            generated,
        ),
        r@.validation_issues == document_issues(r@.disclosure),
        r@.progress.current_question_index <= r@.progress.total_questions,
        (r@.stage == SessionStage::AwaitingAnswer) == has_follow_up_spec(generated),
        previous matches Some(p) ==> p@.messages.is_prefix_of(r@.messages),
{
    let ghost pv: Option<SessionSnapshotView> = owned_session_view(previous);
    let completed_turns_before: usize = match &previous {
        Some(p) => p.progress.current_question_index,
        None => 0,
    };
    let mut messages: Vec<ChatMessage> = match previous {
        Some(p) => p.messages,
        None => {
            let mut v: Vec<ChatMessage> = Vec::new();
            v.push(message("live-start", MessageRole::System, MessageIntent::Status, LIVE_START));
            assert(messages_view(v@) =~= seq![
                msg("live-start"@, MessageRole::System, MessageIntent::Status, LIVE_START@),
            ]);
            v
        },
    };
    let ghost m0 = messages_view(messages@);
    let completed_turns: usize = match &turn {
        Some(UserTurn::Answer(answer)) => {
            let n = decimal_string((completed_turns_before + 1) as u64);
            let a = message(
                cat2("answer-", n.as_str()).as_str(),
                MessageRole::Engineer,
                MessageIntent::Answer,
                answer.as_str(),
            );
            proof {
                lemma_push_message(messages@, a);
            }
            messages.push(a);
            let b = message(
                cat2("live-status-", n.as_str()).as_str(),
                MessageRole::System,
                MessageIntent::Status,
                LIVE_ANSWER_STATUS,
            );
            proof {
                lemma_push_message(messages@, b);
            }
            messages.push(b);
            completed_turns_before + 1
        },
        Some(UserTurn::Skip) => {
            let n = decimal_string((completed_turns_before + 1) as u64);
            let a = message(
                cat2("skip-", n.as_str()).as_str(),
                MessageRole::System,
                MessageIntent::Status,
                LIVE_SKIP_STATUS,
            );
            proof {
                lemma_push_message(messages@, a);
            }
            messages.push(a);
            completed_turns_before + 1
        },
        None => completed_turns_before,
    };
    let shown: usize = if completed_turns >= 1 {
        completed_turns
    } else {
        1
    };
    let k = decimal_string(shown as u64);
    let d = message(
        cat2("diagnosis-", k.as_str()).as_str(),
        MessageRole::Assistant,
        MessageIntent::Diagnosis,
        generated.diagnosis_summary.as_str(),
    );
    proof {
        lemma_push_message(messages@, d);
    }
    messages.push(d);
    if generated.reached_retry_limit {
        let w = message(
            cat2("validation-warning-", k.as_str()).as_str(),
            MessageRole::System,
            MessageIntent::Status,
            VALIDATION_WARNING,
        );
        proof {
            lemma_push_message(messages@, w);
        }
        messages.push(w);
    }
    let has_follow_up: bool = match &generated.follow_up_question {
        Some(q) => !is_blank(q.as_str()),
        None => false,
    };
    if has_follow_up {
        let q: &str = match &generated.follow_up_question {
            Some(q) => q.as_str(),
            None => "",
        };
        let f = message(
            cat2("follow-up-", decimal_string((completed_turns + 1) as u64).as_str()).as_str(),
            MessageRole::Assistant,
            MessageIntent::FollowUp,
            q,
        );
        proof {
            lemma_push_message(messages@, f);
        }
        messages.push(f);
    } else {
        let text: &str = match &generated.completeness_advisory {
            Some(a) => a.as_str(),
            None => DEFAULT_ADVISORY,
        };
        let a = message(
            cat2("advisory-", k.as_str()).as_str(),
            MessageRole::Assistant,
            MessageIntent::Advisory,
            text,
        );
        proof {
            lemma_push_message(messages@, a);
        }
        messages.push(a);
    }
    let total: usize = completed_turns + if has_follow_up {
        1
    } else {
        0
    };
    let total_questions: usize = if total >= 1 {
        total
    } else {
        1
    };
    let stage = if has_follow_up {
        SessionStage::AwaitingAnswer
    } else {
        SessionStage::AdvisoryComplete
    };
    let actions = if has_follow_up {
        SessionActions { can_submit: true, can_skip: true, can_download: true, can_terminate: true }
    } else {
        SessionActions { can_submit: true, can_skip: false, can_download: true, can_terminate: true }
    };
    let validation_issues = validate_disclosure_document(&generated.disclosure);
    let r = SessionSnapshot {
        session_id: owned(session_id),
        stage,
        source_draft,
        messages,
        disclosure: generated.disclosure,
        settings,
        actions,
        progress: SessionProgress { current_question_index: completed_turns, total_questions },
        validation_issues,
        retry_metadata: RetryMetadata {
            attempt_count: generated.attempts,
            max_attempts: MAX_ATTEMPTS,
        },
    };
    assert(r@.messages =~= live_messages_spec(pv, turn, generated));
    r
}

// ---------------------------------------------------------------------------
// Generation attempts
// ---------------------------------------------------------------------------

/// The outcome of checking one reply: done, or ask again with the next attempt number.
pub enum GenerationStep {
    Finished(GeneratedDisclosure),
    Retry(u8),
}

/// Checks the reply of attempt `attempt`: a reply whose disclosure has no
/// error-level issue finishes the turn; otherwise the turn is retried, and
/// after the last attempt the last reply is kept and marked as over the limit.
pub fn assess_generation_attempt(
    previous: Option<&SessionSnapshot>,
    payload: AiDisclosurePayload,
    attempt: u8,
) -> (r: GenerationStep)
    requires
        1 <= attempt <= MAX_ATTEMPTS,
        version_in_range(previous),
    ensures
        ({
            let d = disclosure_from_payload_spec(
                session_doc_view(previous),
                section_texts(payload.sections),
            );
            let clean = !has_error(document_issues(d));
            match r {
                GenerationStep::Finished(g) => {
                    &&& g.disclosure@ == d
                    &&& g.diagnosis_summary@ == payload.diagnosis_summary@
                    &&& opt_view(g.follow_up_question) == sanitized_spec(
                        opt_view(payload.follow_up_question),
                    )
                    &&& opt_view(g.completeness_advisory) == sanitized_spec(
                        opt_view(payload.completeness_advisory),
                    )
                    &&& clean ==> g.attempts == attempt && !g.reached_retry_limit
                    &&& !clean ==> attempt == MAX_ATTEMPTS && g.attempts == MAX_ATTEMPTS
                        && g.reached_retry_limit
                    &&& !g.reached_retry_limit ==> clean
                    &&& 1 <= g.attempts <= MAX_ATTEMPTS
                },
                GenerationStep::Retry(n) => !clean && attempt < MAX_ATTEMPTS && n == attempt + 1,
            }
        }),
        ({
            let issues = document_issues(
                disclosure_from_payload_spec(
                    session_doc_view(previous),
                    section_texts(payload.sections),
                ),
            );
            &&& (forall|k: int| 0 <= k < issues.len() ==> #[trigger] issues[k].level
                != ValidationLevel::Error) ==> (r matches GenerationStep::Finished(g) && g.attempts
                == attempt && !g.reached_retry_limit)
            &&& (exists|k: int| 0 <= k < issues.len() && #[trigger] issues[k].level
                == ValidationLevel::Error) ==> (r matches GenerationStep::Retry(n) ==> n == attempt
                + 1) && (r matches GenerationStep::Finished(g) ==> g.reached_retry_limit)
        }),
{
    let disclosure = disclosure_from_payload(previous, &payload);
    let issues = validate_disclosure_document(&disclosure);
    let mut has_error_issue: bool = false;
    let mut i: usize = 0;
    while i < issues.len()
        invariant
            i <= issues.len(),
            has_error_issue <==> exists|k: int|
                0 <= k < i && issues_view(issues@)[k].level == ValidationLevel::Error,
        decreases issues.len() - i,
    {
        assert(issues_view(issues@)[i as int] == issues@[i as int]@);
        if issues[i].level == ValidationLevel::Error {
            has_error_issue = true;
        }
        i = i + 1;
    }
    assert(has_error_issue == has_error(issues_view(issues@)));
    if !has_error_issue {
        return GenerationStep::Finished(
            GeneratedDisclosure {
                diagnosis_summary: payload.diagnosis_summary,
                follow_up_question: sanitized_optional(payload.follow_up_question),
                completeness_advisory: sanitized_optional(payload.completeness_advisory),
                disclosure,
                attempts: attempt,
                reached_retry_limit: false,
            },
        );
    }
    if attempt < MAX_ATTEMPTS {
        return GenerationStep::Retry(attempt + 1);
    }
    GenerationStep::Finished(
        GeneratedDisclosure {
            diagnosis_summary: payload.diagnosis_summary,
            follow_up_question: sanitized_optional(payload.follow_up_question),
            completeness_advisory: sanitized_optional(payload.completeness_advisory),
            disclosure,
            attempts: MAX_ATTEMPTS,
            reached_retry_limit: true,
        },
    )
}

// ---------------------------------------------------------------------------
// Talking to the endpoint
// ---------------------------------------------------------------------------

/// Where and as whom requests are sent, with surrounding whitespace removed.
#[derive(Debug, Clone)]
pub struct QwenEndpoint {
    pub api_key: String,
    pub endpoint: String,
    pub model: String,
}

impl QwenEndpoint {
    pub fn from_config(config: &ModelProviderConfig) -> (r: QwenEndpoint)
        ensures
            r.api_key@ == trim(config.api_key@),
            r.endpoint@ == trim(config.api_url@),
            r.model@ == trim(config.model_name@),
    {
        QwenEndpoint {
            api_key: trim_str(config.api_key.as_str()),
            endpoint: trim_str(config.api_url.as_str()),
            model: trim_str(config.model_name.as_str()),
        }
    }
}

/// The error object a failed request may carry.
#[derive(Debug, Clone)]
pub struct QwenErrorBody {
    pub message: String,
    pub code: Option<String>,
}

pub open spec fn api_error_spec(status: Seq<char>, body: Seq<char>, envelope: Option<QwenErrorBody>) -> Seq<
    char,
> {
    let detail = match envelope {
        Some(e) => match e.code {
            Some(c) => e.message@ + " ("@ + c@ + ")"@,
            None => e.message@,
        },
        None => body,
    };
    "Qwen 接口返回 "@ + status + "："@ + detail
}

/// The message for a request that the endpoint refused: its error object when
/// the body holds one, otherwise the body itself.
pub fn api_error_message(status: &str, body: String, envelope: Option<QwenErrorBody>) -> (r: String)
    ensures
        r@ == api_error_spec(status@, body@, envelope),
{
    let detail = match envelope {
        Some(e) => match e.code {
            Some(code) => {
                let mut m = e.message;
                m.append(" (");
                m.append(code.as_str());
                m.append(")");
                m
            },
            None => e.message,
        },
        None => body,
    };
    cat3("Qwen 接口返回 ", status, "：").concat(detail.as_str())
}

pub const NO_CHOICE_ERROR: &'static str = "Qwen 未返回 choices[0].message.content。";

/// The content of the first choice of a reply.
pub fn first_choice_content(contents: Vec<String>) -> (r: Result<String, String>)
    ensures
        contents@.len() > 0 ==> (r matches Ok(c) && c == contents@[0]),
        contents@.len() == 0 ==> (r matches Err(e) && e@ == NO_CHOICE_ERROR@),
{
    let mut contents = contents;
    if contents.len() == 0 {
        return Err(owned(NO_CHOICE_ERROR));
    }
    Ok(contents.swap_remove(0))
}

/// Most characters of a reply quoted in an error message.
pub const PREVIEW_CHARS: usize = 200;

pub open spec fn preview_spec(content: Seq<char>) -> Seq<char> {
    first_chars(trim(content), PREVIEW_CHARS as nat)
}

pub fn preview(content: &str) -> (r: String)
    ensures
        r@ == preview_spec(content@),
{
    let t = trim_str(content);
    let v = chars_of(t.as_str());
    let n: usize = if v.len() <= PREVIEW_CHARS {
        v.len()
    } else {
        PREVIEW_CHARS
    };
    let r = string_of_range(&v, 0, n);
    assert(r@ =~= first_chars(t@, PREVIEW_CHARS as nat));
    r
}

pub const NO_JSON_HEAD: &'static str = "Qwen 返回内容中未找到完整的 JSON 对象：";

/// The JSON text to parse from a reply: fences removed and the outermost
/// object cut out; an error quoting the reply when it holds no `{`.
pub fn locate_json_payload(content: &str) -> (r: Result<String, String>)
    ensures
        match balanced_json_spec(strip_fence_spec(content@)) {
            Some(j) => (r matches Ok(x) && x@ == j),
            None => (r matches Err(e) && e@ == NO_JSON_HEAD@ + preview_spec(content@)),
        },
{
    let stripped = strip_markdown_code_block(content);
    match extract_balanced_json(stripped.as_str()) {
        Some(j) => Ok(j),
        None => Err(cat2(NO_JSON_HEAD, preview(content).as_str())),
    }
}

/// The error reported when neither the reply nor its repair parses.
pub fn payload_parse_error(content: &str, error: &str) -> (r: String)
    ensures
        r@ == "Qwen JSON 解析失败："@ + error@ + "；原始内容前200字符："@ + preview_spec(content@),
{
    let mut m = cat3("Qwen JSON 解析失败：", error, "；原始内容前200字符：");
    m.append(preview(content).as_str());
    m
}

// ---------------------------------------------------------------------------
// Laws
// ---------------------------------------------------------------------------

proof fn lemma_history_prefix(msgs: Seq<ChatMessageView>, m: ChatMessageView, n: int)
    requires
        n <= msgs.len(),
    ensures
        history_lines(msgs.push(m), n) == history_lines(msgs, n),
    decreases n,
{
    if n > 0 {
        lemma_history_prefix(msgs, m, n - 1);
        assert(msgs.push(m)[n - 1] == msgs[n - 1]);
    }
}

/// How the history grows by one message: a follow-up question and an answer
/// each add their line, a status message that reports a skipped question adds
/// the skip line, and any other message adds nothing.
pub proof fn lemma_history_step(msgs: Seq<ChatMessageView>, m: ChatMessageView)
    ensures
        ({
            let before = history_lines(msgs, msgs.len() as int);
            let after = history_lines(msgs.push(m), msgs.len() + 1int);
            &&& m.role == MessageRole::Assistant && m.intent == MessageIntent::FollowUp ==> after
                == before.push(FOLLOW_UP_LINE_HEAD@ + m.content)
            &&& m.role == MessageRole::Engineer && m.intent == MessageIntent::Answer ==> after
                == before.push(ANSWER_LINE_HEAD@ + m.content)
            &&& m.role == MessageRole::System && m.intent == MessageIntent::Status && contains(
                m.content,
                SKIP_MARK@,
            ) ==> after == before.push(SKIP_LINE@)
            &&& !(m.role == MessageRole::Assistant && m.intent == MessageIntent::FollowUp) && !(
            m.role == MessageRole::Engineer && m.intent == MessageIntent::Answer) && !(m.role
                == MessageRole::System && m.intent == MessageIntent::Status && contains(
                m.content,
                SKIP_MARK@,
            )) ==> after == before
        }),
{
    lemma_history_prefix(msgs, m, msgs.len() as int);
}

/// The status messages that both the demo and the live session record for a
/// skipped question are recognised as skips, so a skip always reaches the
/// question-and-answer history sent to the model, right after what came before it.
pub proof fn lemma_skips_reach_history(
    s: SessionSnapshotView,
    session_id: Seq<char>,
    settings: DemoSettings,
    source_draft: Seq<char>,
    previous: SessionSnapshotView,
    g: GeneratedDisclosure,
)
    ensures
        contains(SKIP_STATUS@, SKIP_MARK@),
        contains(LIVE_SKIP_STATUS@, SKIP_MARK@),
        history_lines(skip_question_spec(s).messages, s.messages.len() + 1int) == history_lines(
            s.messages,
            s.messages.len() as int,
        ).push(SKIP_LINE@),
        history_lines(
            live_session_spec(
                session_id,
                settings,
                source_draft,
                Some(previous),
                Some(UserTurn::Skip),
                g,
            ).messages,
            previous.messages.len() + 1int,
        ) == history_lines(previous.messages, previous.messages.len() as int).push(SKIP_LINE@),
{
    reveal_strlit("跳过当前追问");
    reveal_strlit("已跳过当前追问，系统将继续保留待补充标记并进入下一项引导。");
    reveal_strlit("已跳过当前追问，并要求 Qwen 在保留待补充标记的前提下生成下一步建议。");
    assert(SKIP_STATUS@.subrange(1, 7) =~= SKIP_MARK@);
    assert(occurs_at(SKIP_STATUS@, SKIP_MARK@, 1));
    assert(LIVE_SKIP_STATUS@.subrange(1, 7) =~= SKIP_MARK@);
    assert(occurs_at(LIVE_SKIP_STATUS@, SKIP_MARK@, 1));
    let n = decimal((s.progress.current_question_index + 1) as nat);
    let k = msg("skip-"@ + n, MessageRole::System, MessageIntent::Status, SKIP_STATUS@);
    let t = skip_question_spec(s).messages;
    assert(t == s.messages.push(k).push(t.last()));
    lemma_history_prefix(s.messages.push(k), t.last(), s.messages.len() + 1int);
    lemma_history_step(s.messages, k);
    let before = previous.progress.current_question_index as int;
    let lk = msg(
        "skip-"@ + decimal((before + 1) as nat),
        MessageRole::System,
        MessageIntent::Status,
        LIVE_SKIP_STATUS@,
    );
    lemma_history_step(previous.messages, lk);
    let lm = live_session_spec(
        session_id,
        settings,
        source_draft,
        Some(previous),
        Some(UserTurn::Skip),
        g,
    ).messages;
    let m1 = previous.messages.push(lk);
    let m2 = m1.push(lm[m1.len() as int]);
    lemma_history_prefix(m1, lm[m1.len() as int], m1.len() as int);
    assert(lm.take(m2.len() as int) =~= m2);
    lemma_history_take(lm, m2.len() as int, m1.len() as int);
}

proof fn lemma_history_take(msgs: Seq<ChatMessageView>, k: int, n: int)
    requires
        0 <= n <= k <= msgs.len(),
    ensures
        history_lines(msgs.take(k), n) == history_lines(msgs, n),
    decreases n,
{
    if n > 0 {
        lemma_history_take(msgs, k, n - 1);
        assert(msgs.take(k)[n - 1] == msgs[n - 1]);
    }
}

/// A skipped question counts as a completed turn, exactly like an answered
/// one: both raise the question index by one, give the same progress, stage
/// and actions, and number the next follow-up question after it. The skip is
/// recorded right after the earlier messages.
pub proof fn lemma_live_skip_counts_like_answer(
    session_id: Seq<char>,
    settings: DemoSettings,
    source_draft: Seq<char>,
    previous: Option<SessionSnapshotView>,
    answer: String,
    g: GeneratedDisclosure,
)
    requires
        live_in_range(previous, Some(UserTurn::Skip), g),
    ensures
        ({
            let before: int = match previous {
                Some(p) => p.progress.current_question_index as int,
                None => 0,
            };
            let earlier = match previous {
                Some(p) => p.messages,
                None => seq![msg("live-start"@, MessageRole::System, MessageIntent::Status, LIVE_START@)],
            };
            let s = live_session_spec(session_id, settings, source_draft, previous, Some(UserTurn::Skip), g);
            let a = live_session_spec(
                session_id,
                settings,
                source_draft,
                previous,
                Some(UserTurn::Answer(answer)),
                g,
            );
            &&& s.progress.current_question_index == before + 1
            &&& s.progress == a.progress
            &&& s.stage == a.stage
            &&& s.actions == a.actions
            &&& s.messages.len() > earlier.len()
            &&& s.messages.take(earlier.len() as int) == earlier
            &&& s.messages[earlier.len() as int] == msg(
                "skip-"@ + decimal((before + 1) as nat),
                MessageRole::System,
                MessageIntent::Status,
                LIVE_SKIP_STATUS@,
            )
            &&& has_follow_up_spec(g) ==> s.messages.last().id == "follow-up-"@ + decimal(
                (before + 2) as nat,
            ) && a.messages.last().id == s.messages.last().id
            &&& has_follow_up_spec(g) ==> s.progress.total_questions == before + 2
        }),
{
    let earlier = match previous {
        Some(p) => p.messages,
        None => seq![msg("live-start"@, MessageRole::System, MessageIntent::Status, LIVE_START@)],
    };
    let s = live_session_spec(session_id, settings, source_draft, previous, Some(UserTurn::Skip), g);
    assert(s.messages.take(earlier.len() as int) =~= earlier);
}

/// The reply field whose name is `name` (the last field for any other name).
pub open spec fn reply_field(s: AiDisclosureSections, name: Seq<char>) -> JsonValue {
    if name == "title"@ {
        s.title
    } else if name == "field"@ {
        s.field
    } else if name == "background"@ {
        s.background
    } else if name == "purpose"@ {
        s.purpose
    } else if name == "technical_solution"@ {
        s.technical_solution
    } else if name == "benefits"@ {
        s.benefits
    } else if name == "figures"@ {
        s.figures
    } else if name == "implementation"@ {
        s.implementation
    } else if name == "layout"@ {
        s.layout
    } else {
        s.questions
    }
}

/// Each chapter of a disclosure built from a reply shows the reply field named
/// like the chapter's id, trimmed; only when that field is blank does the
/// chapter keep its previous content (or stay empty when there was none).
pub proof fn lemma_chapters_take_their_reply_field(
    previous: Option<DisclosureDocumentView>,
    payload: AiDisclosureSections,
    i: int,
)
    requires
        0 <= i < SECTION_COUNT,
    ensures
        ({
            let sec = disclosure_from_payload_spec(previous, section_texts(payload)).sections[i];
            let text = json_text(reply_field(payload, sec.id));
            &&& sec.id == required_id(i)
            &&& trim(text).len() > 0 ==> sec.content == trim(text)
            &&& trim(text).len() == 0 ==> sec.content == match prev_content(previous, sec.id) {
                Some(c) => c,
                None => Seq::<char>::empty(),
            }
        }),
{
    reveal_strlit("title");
    reveal_strlit("field");
    reveal_strlit("background");
    reveal_strlit("purpose");
    reveal_strlit("technical_solution");
    reveal_strlit("benefits");
    reveal_strlit("figures");
    reveal_strlit("implementation");
    reveal_strlit("layout");
    reveal_strlit("questions");
    let id = required_id(i);
    assert(json_text(reply_field(payload, id)) == section_texts(payload)[i]) by {
        if i == 0 {
        } else if i == 1 {
            assert("field"@ != "title"@) by { assert("field"@[0] != "title"@[0]); }
        } else if i == 2 {
            assert("background"@.len() != "title"@.len());
            assert("background"@.len() != "field"@.len());
        } else if i == 3 {
            assert("purpose"@[0] != "title"@[0]);
            assert("purpose"@[0] != "field"@[0]);
            assert("purpose"@[0] != "background"@[0]);
        } else if i == 4 {
            assert("technical_solution"@.len() == 18);
        } else if i == 5 {
            assert("benefits"@.len() == 8);
        } else if i == 6 {
            assert("figures"@[0] != "field"@[0] || "figures"@.len() != "field"@.len());
            assert("figures"@[0] != "purpose"@[0]);
        } else if i == 7 {
            assert("implementation"@.len() == 14);
        } else if i == 8 {
            assert("layout"@.len() == 6);
        } else {
            assert("questions"@.len() == 9);
            assert("questions"@[0] != "benefits"@[0]);
        }
    }
}

/// A disclosure built from a model reply always has exactly the required
/// chapters, in order: the only chapter issue it can get is an empty chapter.
pub proof fn lemma_payload_disclosure_has_required_chapters(
    previous: Option<DisclosureDocumentView>,
    texts: Seq<Seq<char>>,
)
    ensures
        ({
            let d = disclosure_from_payload_spec(previous, texts);
            &&& d.sections.len() == SECTION_COUNT
            &&& forall|i: int|
                0 <= i < SECTION_COUNT ==> d.sections[i].id == required_id(i) && d.sections[i].title
                    == required_title(i)
            &&& count_issues(d).len() == 0
            &&& forall|i: int|
                0 <= i < SECTION_COUNT ==> (#[trigger] entry_issue(d, i)) is None || entry_issue(
                    d,
                    i,
                )->Some_0.code == "empty_section_"@ + required_id(i)
        }),
{
}

/// Each new version from a model reply is numbered one past the previous one.
pub proof fn lemma_payload_version_increments(previous: DisclosureDocumentView, texts: Seq<Seq<char>>)
    requires
        previous.version < u32::MAX,
    ensures
        disclosure_from_payload_spec(Some(previous), texts).version == previous.version + 1,
{
}

proof fn lemma_lookup_last_unique(secs: Seq<DisclosureSectionView>, k: int, n: int)
    requires
        0 <= k < n <= secs.len(),
        forall|a: int, b: int| 0 <= a < b < secs.len() ==> secs[a].id != secs[b].id,
    ensures
        lookup_last(secs, secs[k].id, n) == Some(secs[k].content),
    decreases n,
{
    if n - 1 != k {
        lemma_lookup_last_unique(secs, k, n - 1);
    }
}

/// Comparing a document with distinct chapter ids against itself marks nothing.
pub proof fn lemma_unchanged_document_has_no_annotations(d: DisclosureDocumentView)
    requires
        forall|a: int, b: int| 0 <= a < b < d.sections.len() ==> d.sections[a].id != d.sections[b].id,
    ensures
        derive_annotations_spec(Some(d), d) == Seq::<AnnotationView>::empty(),
{
    assert forall|n: int| 0 <= n <= d.sections.len() implies annotations_upto(Some(d), d, n)
        == Seq::<AnnotationView>::empty() by {
        lemma_annotations_upto_empty(d, n);
    }
}

proof fn lemma_annotations_upto_empty(d: DisclosureDocumentView, n: int)
    requires
        0 <= n <= d.sections.len(),
        forall|a: int, b: int| 0 <= a < b < d.sections.len() ==> d.sections[a].id != d.sections[b].id,
    ensures
        annotations_upto(Some(d), d, n) == Seq::<AnnotationView>::empty(),
    decreases n,
{
    if n > 0 {
        lemma_annotations_upto_empty(d, n - 1);
        lemma_lookup_last_unique(d.sections, n - 1, d.sections.len() as int);
    }
}

/// Every annotation points at a chapter of the new version whose content is
/// not what the previous version held under that id, and shows a non-empty
/// excerpt of at most the excerpt length.
pub proof fn lemma_annotations_mark_changes(
    previous: Option<DisclosureDocumentView>,
    next: DisclosureDocumentView,
    j: int,
)
    requires
        0 <= j < derive_annotations_spec(previous, next).len(),
    ensures
        ({
            let a = derive_annotations_spec(previous, next)[j];
            exists|i: int|
                0 <= i < next.sections.len() && #[trigger] next.sections[i].id == a.section_id
                    && prev_content(previous, next.sections[i].id) != Some(next.sections[i].content)
                    && a.excerpt.len() > 0 && a.excerpt.len() <= SNIPPET_CHARS
        }),
{
    lemma_annotations_upto_mark(previous, next, next.sections.len() as int, j);
}

proof fn lemma_annotations_upto_mark(
    previous: Option<DisclosureDocumentView>,
    next: DisclosureDocumentView,
    n: int,
    j: int,
)
    requires
        0 <= n <= next.sections.len(),
        0 <= j < annotations_upto(previous, next, n).len(),
    ensures
        ({
            let a = annotations_upto(previous, next, n)[j];
            exists|i: int|
                0 <= i < next.sections.len() && #[trigger] next.sections[i].id == a.section_id
                    && prev_content(previous, next.sections[i].id) != Some(next.sections[i].content)
                    && a.excerpt.len() > 0 && a.excerpt.len() <= SNIPPET_CHARS
        }),
    decreases n,
{
    let prev = annotations_upto(previous, next, n - 1);
    if j < prev.len() {
        lemma_annotations_upto_mark(previous, next, n - 1, j);
        assert(annotations_upto(previous, next, n)[j] == prev[j]);
    } else {
        let s = next.sections[n - 1];
        let p = prev_content(previous, s.id);
        lemma_snippet_len(if p is Some && starts_with(s.content, p->Some_0) {
            strip_all(s.content, p->Some_0)
        } else {
            s.content
        });
        assert(next.sections[n - 1].id == annotations_upto(previous, next, n)[j].section_id);
    }
}

/// An excerpt never exceeds the excerpt length.
pub proof fn lemma_snippet_len(s: Seq<char>)
    ensures
        snippet_spec(s).len() <= SNIPPET_CHARS,
{
    let f = first_chars(trim(s), SNIPPET_CHARS as nat);
    lemma_trim_result(f);
}

} // verus!
