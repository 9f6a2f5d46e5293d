//! The offline demo session: a fixed two-question walk through the
//! disclosure workflow, used when no model provider is configured.
use vstd::prelude::*;

use crate::models::{
    annotations_view, issues_view, messages_view, sections_view, Annotation, AnnotationKind,
    AnnotationView, ChatMessage, ChatMessageView, DemoSettings, DisclosureDocument,
    DisclosureDocumentView, DisclosureSection, DisclosureSectionView, DownloadRequest,
    DownloadResponse, DownloadResponseView, DownloadStatus, MessageIntent, MessageRole,
    PdfProcessingMode, RetryMetadata, SessionActions, SessionProgress, SessionRequest,
    SessionSnapshot, SessionSnapshotView, SessionStage, StartDemoSessionRequest,
    UpdateSettingsRequest,
};
use crate::text::{cat2, cat3, decimal, decimal_string, lemma_trim_nonblank, owned, trim, trim_str};
use crate::validation::{document_issues, required_id, required_title, validate_disclosure_document, SECTION_COUNT};

verus! {

/// Number of follow-up questions in the demo walk.
pub const QUESTION_TOTAL: usize = 2;

/// Timestamp carried by every generated message.
pub const TIMESTAMP: &'static str = "2026-05-15T09:00:00+08:00";

pub const DEMO_SESSION_ID: &'static str = "demo-session-001";

pub const START_STATUS: &'static str =
    "已加载当前输入的交底书草稿，正在以 PatentScribe 工作流展示第一轮诊断。";

pub const START_DIAGNOSIS: &'static str =
    "诊断报告：当前草稿已具备基础技术背景，但对现有技术对比不足，新颖性论证偏弱；具体实施方式缺少参数区间与控制条件。";

pub const ANSWER_STATUS: &'static str = "已根据你的补充更新右侧交底书预览。";

pub const SKIP_STATUS: &'static str =
    "已跳过当前追问，系统将继续保留待补充标记并进入下一项引导。";

pub const TERMINATED_NOTE: &'static str =
    "当前会话已提前终止。你仍可查看右侧预览并下载当前版本。";

pub const ADVISORY_AFTER_SKIP: &'static str =
    "当前交底书已达到演示级完整度。仍有待工程师补充项，但你现在可以终止或下载当前版本。";

pub const ADVISORY_COMPLETE: &'static str =
    "当前交底书信息已较为完整，可以继续补充，也可以直接下载当前版本。";

pub const QUESTION_0: &'static str =
    "为了强化新颖性论证，请补充：现有技术通常采用什么结构或流程？你的方案与它的关键差异是什么？";

pub const QUESTION_1: &'static str =
    "为了让具体实施方式可落地，请补充：关键参数范围、触发条件或控制逻辑分别是什么？";

pub const NO_QUESTION: &'static str = "当前没有新的追问。";

pub const MODE_DIRECT: &'static str = "直接提交大模型";

pub const MODE_LOCAL: &'static str = "本地预处理";

pub const TECH_0: &'static str =
    "本方案通过多级调度模块协调边缘节点与云端分析链路，以降低交底信息整理过程中的往返耗时。【待工程师补充】现有技术的典型链路与本方案的差异点。";

pub const TECH_1: &'static str =
    "本方案通过多级调度模块协调边缘节点与云端分析链路，并在任务切换时引入上下文快照与优先级阈值控制，使交底信息能按创新点、现有技术对比和实施参数三个维度渐进完善。";

pub const TECH_2: &'static str =
    "本方案通过多级调度模块协调边缘节点与云端分析链路，并在任务切换时引入上下文快照、优先级阈值控制和参数回填机制，以支持交底草稿在多轮补充中持续收敛。建议后续补充实验参数与异常处理策略。";

pub const IMPL_0: &'static str =
    "实施例一：【待工程师补充】关键阈值、切换条件和输入输出关系。实施例二：【待工程师补充】异常场景下的处理策略。";

pub const IMPL_1: &'static str =
    "实施例一：当输入任务优先级高于阈值时，系统保留上一轮快照并优先写回新颖性对比信息。实施例二：【待工程师补充】异常场景下的恢复策略与默认参数范围。";

pub const IMPL_2: &'static str =
    "实施例一：当输入任务优先级高于阈值时，系统保留上一轮快照并优先写回新颖性对比信息。实施例二：当检测到参数缺失时，系统以待补充标记保留空位，并提示工程师补充控制条件与范围值。";

pub const TITLE_TEXT: &'static str = "一种用于专利交底信息渐进完善的协同生成方法";

pub const FIELD_TEXT: &'static str =
    "本发明涉及 AI 辅助专利交底书生成与技术信息整理领域，尤其涉及一种对话式渐进补全方法。";

pub const BACKGROUND_TEXT: &'static str =
    "现有交底书撰写流程通常依赖工程师先提交不完整初稿，再由代理人多轮追问补足。该流程存在技术对比不充分、实施细节遗漏、沟通周期长等问题。";

pub const PURPOSE_TEXT: &'static str =
    "本方案旨在减少交底书从初稿到可交付版本之间的往返轮次，并保持待补充信息可见。";

pub const BENEFITS_TEXT: &'static str =
    "| 维度 | 技术突破点 | 效果与价值体现 |\n| --- | --- | --- |\n| 沟通效率 | 通过会话驱动的渐进补全 | 缩短工程师与代理人之间的来回沟通 |\n| 信息完整度 | 以待补充标记保留缺口 | 降低遗漏关键实施细节的风险 |";

pub const FIGURES_TEXT: &'static str =
    "图 1 为对话驱动的交底完善流程示意图；图 2 为多级调度模块的结构示意图。";

pub const LAYOUT_TEXT: &'static str =
    "| 布局方向 | 保护策略 | 建议权利要求架构 |\n| --- | --- | --- |\n| 会话驱动补全 | 覆盖追问触发逻辑与状态迁移 | 独立方法权利要求 + 系统权利要求 |\n| 参数回填机制 | 覆盖待补充标记与参数写回策略 | 方法从属权利要求 |";

pub const QUESTIONS_0: &'static str =
    "请补充异常场景下的恢复策略，并说明关键阈值的来源与范围。";

pub const QUESTIONS_N: &'static str =
    "Q1：请补充异常场景下的恢复策略，以支撑可实施性判断。\nQ2：请补充关键阈值的来源和范围，以强化技术方案的落地边界。";

pub const EXPORT_PREFIX: &'static str = "导出命令链路已接通；";

pub const EXPORT_WITH_HISTORY: &'static str = "当前占位导出将包含 AI 追问记录";

pub const EXPORT_WITHOUT_HISTORY: &'static str = "当前占位导出默认不包含 AI 追问记录";

pub const EXPORT_VALID: &'static str = "当前版本已通过 demo 级输出格式校验";

pub const EXPORT_INVALID: &'static str = "当前版本仍存在输出格式提示，正式导出前建议继续修正";

// ---------------------------------------------------------------------------
// Specification
// ---------------------------------------------------------------------------

pub open spec fn msg(
    id: Seq<char>,
    role: MessageRole,
    intent: MessageIntent,
    content: Seq<char>,
) -> ChatMessageView {
    ChatMessageView { id, role, intent, content, timestamp: TIMESTAMP@ }
}

pub open spec fn active_actions_spec() -> SessionActions {
    SessionActions { can_submit: true, can_skip: true, can_download: true, can_terminate: true }
}

pub open spec fn advisory_actions_spec() -> SessionActions {
    SessionActions { can_submit: true, can_skip: false, can_download: true, can_terminate: true }
}

/// The follow-up question asked at step `index`.
pub open spec fn question_spec(index: int) -> Seq<char> {
    if index == 0 {
        QUESTION_0@
    } else if index == 1 {
        QUESTION_1@
    } else {
        NO_QUESTION@
    }
}

pub open spec fn sec(id: Seq<char>, title: Seq<char>, content: Seq<char>) -> DisclosureSectionView {
    DisclosureSectionView { id, title, content }
}

pub open spec fn ann(
    id: Seq<char>,
    kind: AnnotationKind,
    section_id: Seq<char>,
    excerpt: Seq<char>,
    note: Seq<char>,
) -> AnnotationView {
    AnnotationView { id, kind, section_id, excerpt, note }
}

pub open spec fn tech_spec(index: int) -> Seq<char> {
    if index == 0 {
        TECH_0@
    } else if index == 1 {
        TECH_1@
    } else {
        TECH_2@
    }
}

pub open spec fn impl_spec(index: int) -> Seq<char> {
    if index == 0 {
        IMPL_0@
    } else if index == 1 {
        IMPL_1@
    } else {
        IMPL_2@
    }
}

pub open spec fn annotations_spec(index: int) -> Seq<AnnotationView> {
    if index == 0 {
        seq![
            ann(
                "a1"@,
                AnnotationKind::Addition,
                "purpose"@,
                "降低交底信息整理过程中的往返耗时"@,
                "基于系统诊断补齐发明目的。"@,
            ),
            ann(
                "a2"@,
                AnnotationKind::Rewrite,
                "technical_solution"@,
                "多级调度模块协调边缘节点与云端分析链路"@,
                "将原始口语化描述改写为可写入交底书的工程表述。"@,
            ),
        ]
    } else if index == 1 {
        seq![
            ann(
                "a3"@,
                AnnotationKind::Addition,
                "technical_solution"@,
                "引入上下文快照与优先级阈值控制"@,
                "基于工程师回答补充控制逻辑。"@,
            ),
            ann(
                "a4"@,
                AnnotationKind::Rewrite,
                "implementation"@,
                "系统保留上一轮快照并优先写回新颖性对比信息"@,
                "将实施步骤重写为更清晰的执行顺序。"@,
            ),
        ]
    } else {
        seq![
            ann(
                "a5"@,
                AnnotationKind::Addition,
                "implementation"@,
                "以待补充标记保留空位"@,
                "保留缺失信息提示，避免虚构核心技术事实。"@,
            ),
            ann(
                "a6"@,
                AnnotationKind::Rewrite,
                "benefits"@,
                "减少工程师与代理人之间的来回沟通"@,
                "将效果描述改写为可核验的业务收益。"@,
            ),
        ]
    }
}

/// The demo disclosure document shown at step `index`.
pub open spec fn disclosure_spec(index: int) -> DisclosureDocumentView {
    DisclosureDocumentView {
        version: ((index as u32) + 1) as u32,
        sections: seq![
            sec("title"@, "一、发明名称"@, TITLE_TEXT@),
            sec("field"@, "二、技术领域"@, FIELD_TEXT@),
            sec("background"@, "三、背景技术及现有缺陷"@, BACKGROUND_TEXT@),
            sec("purpose"@, "四、发明目的"@, PURPOSE_TEXT@),
            sec("technical_solution"@, "五、技术方案"@, tech_spec(index)),
            sec("benefits"@, "六、有益效果"@, BENEFITS_TEXT@),
            sec("figures"@, "七、附图说明"@, FIGURES_TEXT@),
            sec("implementation"@, "八、具体实施方式"@, impl_spec(index)),
            sec("layout"@, "🔍 专利挖掘与布局建议"@, LAYOUT_TEXT@),
            sec(
                "questions"@,
                "🛠️ 需工程师补齐的关键改进建议"@,
                if index == 0 {
                    QUESTIONS_0@
                } else {
                    QUESTIONS_N@
                },
            ),
        ],
        annotations: annotations_spec(index),
    }
}

/// `s` with its validation issues recomputed from its disclosure.
pub open spec fn refreshed(s: SessionSnapshotView) -> SessionSnapshotView {
    SessionSnapshotView { validation_issues: document_issues(s.disclosure), ..s }
}

pub open spec fn start_session_spec(settings: DemoSettings, draft: Seq<char>) -> SessionSnapshotView {
    refreshed(
        SessionSnapshotView {
            session_id: DEMO_SESSION_ID@,
            stage: SessionStage::AwaitingAnswer,
            source_draft: trim(draft),
            messages: seq![
                msg("m1"@, MessageRole::System, MessageIntent::Status, START_STATUS@),
                msg("m2"@, MessageRole::Assistant, MessageIntent::Diagnosis, START_DIAGNOSIS@),
                msg("m3"@, MessageRole::Assistant, MessageIntent::FollowUp, question_spec(0)),
            ],
            disclosure: disclosure_spec(0),
            settings,
            actions: active_actions_spec(),
            progress: SessionProgress { current_question_index: 0, total_questions: QUESTION_TOTAL },
            validation_issues: seq![],
            retry_metadata: RetryMetadata { attempt_count: 0, max_attempts: 3 },
        },
    )
}

/// Moving on to the next question (or to the closing advice) after an answer or a skip.
pub open spec fn advance_spec(s: SessionSnapshotView, skipped: bool) -> SessionSnapshotView {
    let next = s.progress.current_question_index + 1;
    if next >= QUESTION_TOTAL {
        refreshed(
            SessionSnapshotView {
                disclosure: disclosure_spec(next),
                progress: SessionProgress { current_question_index: QUESTION_TOTAL, ..s.progress },
                stage: SessionStage::AdvisoryComplete,
                actions: advisory_actions_spec(),
                messages: s.messages.push(
                    msg(
                        "advisory-complete"@,
                        MessageRole::Assistant,
                        MessageIntent::Advisory,
                        if skipped {
                            ADVISORY_AFTER_SKIP@
                        } else {
                            ADVISORY_COMPLETE@
                        },
                    ),
                ),
                ..s
            },
        )
    } else {
        refreshed(
            SessionSnapshotView {
                disclosure: disclosure_spec(next),
                progress: SessionProgress { current_question_index: next as usize, ..s.progress },
                stage: SessionStage::AwaitingAnswer,
                actions: active_actions_spec(),
                messages: s.messages.push(
                    msg(
                        "follow-up-"@ + decimal((next + 1) as nat),
                        MessageRole::Assistant,
                        MessageIntent::FollowUp,
                        question_spec(next),
                    ),
                ),
                ..s
            },
        )
    }
}

pub open spec fn submit_answer_spec(s: SessionSnapshotView, answer: Seq<char>) -> SessionSnapshotView {
    let n = decimal((s.progress.current_question_index + 1) as nat);
    advance_spec(
        SessionSnapshotView {
            messages: s.messages.push(
                msg("answer-"@ + n, MessageRole::Engineer, MessageIntent::Answer, answer),
            ).push(msg("status-"@ + n, MessageRole::System, MessageIntent::Status, ANSWER_STATUS@)),
            ..s
        },
        false,
    )
}

pub open spec fn skip_question_spec(s: SessionSnapshotView) -> SessionSnapshotView {
    let n = decimal((s.progress.current_question_index + 1) as nat);
    advance_spec(
        SessionSnapshotView {
            messages: s.messages.push(
                msg("skip-"@ + n, MessageRole::System, MessageIntent::Status, SKIP_STATUS@),
            ),
            ..s
        },
        true,
    )
}

pub open spec fn mode_name(mode: PdfProcessingMode) -> Seq<char> {
    match mode {
        PdfProcessingMode::DirectToModel => MODE_DIRECT@,
        PdfProcessingMode::LocalPreprocess => MODE_LOCAL@,
    }
}

pub open spec fn update_settings_spec(s: SessionSnapshotView, settings: DemoSettings) -> SessionSnapshotView {
    refreshed(
        SessionSnapshotView {
            settings,
            messages: s.messages.push(
                msg(
                    "settings-updated"@,
                    MessageRole::System,
                    MessageIntent::Status,
                    "PDF 处理模式已更新为"@ + mode_name(settings.pdf_mode) + "。"@,
                ),
            ),
            ..s
        },
    )
}

pub open spec fn terminate_spec(s: SessionSnapshotView) -> SessionSnapshotView {
    refreshed(
        SessionSnapshotView {
            stage: SessionStage::Terminated,
            actions: SessionActions {
                can_submit: false,
                can_skip: false,
                can_terminate: false,
                ..s.actions
            },
            messages: s.messages.push(
                msg("terminated"@, MessageRole::System, MessageIntent::Advisory, TERMINATED_NOTE@),
            ),
            ..s
        },
    )
}

pub open spec fn download_spec(doc: DisclosureDocumentView, include_history: bool) -> DownloadResponseView {
    let count = document_issues(doc).len();
    DownloadResponseView {
        status: DownloadStatus::Placeholder,
        file_name: "patentscribe-demo-v"@ + decimal(doc.version as nat) + ".docx"@,
        message: EXPORT_PREFIX@ + (if include_history {
            EXPORT_WITH_HISTORY@
        } else {
            EXPORT_WITHOUT_HISTORY@
        }) + "。"@ + (if count == 0 {
            EXPORT_VALID@
        } else {
            EXPORT_INVALID@
        }),
        included_answer_history: include_history,
        validation_issue_count: count as usize,
    }
}

/// The shape every demo session keeps between steps: two questions in total,
/// a stage that agrees with the offered actions and the question index, and
/// validation issues that belong to the current disclosure.
pub open spec fn mock_session_wf(s: SessionSnapshotView) -> bool {
    &&& s.progress.total_questions == QUESTION_TOTAL
    &&& s.progress.current_question_index <= QUESTION_TOTAL
    &&& s.validation_issues == document_issues(s.disclosure)
    &&& s.stage == SessionStage::AwaitingAnswer ==> s.progress.current_question_index
        < QUESTION_TOTAL && s.actions == active_actions_spec()
    &&& s.stage == SessionStage::AdvisoryComplete ==> s.progress.current_question_index
        == QUESTION_TOTAL && s.actions == advisory_actions_spec()
    &&& s.stage == SessionStage::Terminated ==> !s.actions.can_submit && !s.actions.can_skip
        && !s.actions.can_terminate
    &&& (s.stage == SessionStage::AwaitingAnswer || s.stage == SessionStage::AdvisoryComplete
        || s.stage == SessionStage::Terminated)
}

/// The indices a step may start from without overflowing the counters it derives.
pub open spec fn step_in_range(s: SessionSnapshotView) -> bool {
    &&& s.progress.current_question_index < usize::MAX
    &&& (((s.progress.current_question_index + 1) as usize) as u32) < u32::MAX
}

// ---------------------------------------------------------------------------
// Implementation
// ---------------------------------------------------------------------------

/// Whether a step may be taken from `session` without overflowing its counters.
pub fn step_in_range_exec(session: &SessionSnapshot) -> (b: bool)
    ensures
        b == step_in_range(session@),
{
    let index = session.progress.current_question_index;
    if index == usize::MAX {
        return false;
    }
    let next = index + 1;
    (next as u32) < u32::MAX
}

fn message(id: &str, role: MessageRole, intent: MessageIntent, content: &str) -> (m: ChatMessage)
    ensures
        m@ == msg(id@, role, intent, content@),
{
    ChatMessage {
        id: owned(id),
        role,
        intent,
        content: owned(content),
        timestamp: owned(TIMESTAMP),
    }
}

fn active_actions() -> (a: SessionActions)
    ensures
        a == active_actions_spec(),
{
    SessionActions { can_submit: true, can_skip: true, can_download: true, can_terminate: true }
}

fn advisory_actions() -> (a: SessionActions)
    ensures
        a == advisory_actions_spec(),
{
    SessionActions { can_submit: true, can_skip: false, can_download: true, can_terminate: true }
}

fn question_for_index(index: usize) -> (q: &'static str)
    ensures
        q@ == question_spec(index as int),
{
    match index {
        0 => QUESTION_0,
        1 => QUESTION_1,
        _ => NO_QUESTION,
    }
}

fn section(id: &str, title: &str, content: &str) -> (s: DisclosureSection)
    ensures
        s@ == sec(id@, title@, content@),
{
    DisclosureSection { id: owned(id), title: owned(title), content: owned(content) }
}

fn annotation(id: &str, kind: AnnotationKind, section_id: &str, excerpt: &str, note: &str) -> (a:
    Annotation)
    ensures
        a@ == ann(id@, kind, section_id@, excerpt@, note@),
{
    Annotation {
        id: owned(id),
        kind,
        section_id: owned(section_id),
        excerpt: owned(excerpt),
        note: owned(note),
    }
}

fn annotations_for_index(index: usize) -> (v: Vec<Annotation>)
    ensures
        annotations_view(v@) == annotations_spec(index as int),
{
    let mut v: Vec<Annotation> = Vec::new();
    if index == 0 {
        v.push(
            annotation(
                "a1",
                AnnotationKind::Addition,
                "purpose",
                "降低交底信息整理过程中的往返耗时",
                "基于系统诊断补齐发明目的。",
            ),
        );
        v.push(
            annotation(
                "a2",
                AnnotationKind::Rewrite,
                "technical_solution",
                "多级调度模块协调边缘节点与云端分析链路",
                "将原始口语化描述改写为可写入交底书的工程表述。",
            ),
        );
    } else if index == 1 {
        v.push(
            annotation(
                "a3",
                AnnotationKind::Addition,
                "technical_solution",
                "引入上下文快照与优先级阈值控制",
                "基于工程师回答补充控制逻辑。",
            ),
        );
        v.push(
            annotation(
                "a4",
                AnnotationKind::Rewrite,
                "implementation",
                "系统保留上一轮快照并优先写回新颖性对比信息",
                "将实施步骤重写为更清晰的执行顺序。",
            ),
        );
    } else {
        v.push(
            annotation(
                "a5",
                AnnotationKind::Addition,
                "implementation",
                "以待补充标记保留空位",
                "保留缺失信息提示，避免虚构核心技术事实。",
            ),
        );
        v.push(
            annotation(
                "a6",
                AnnotationKind::Rewrite,
                "benefits",
                "减少工程师与代理人之间的来回沟通",
                "将效果描述改写为可核验的业务收益。",
            ),
        );
    }
    assert(annotations_view(v@) =~= annotations_spec(index as int));
    v
}

/// The demo disclosure document shown at step `index`.
pub fn disclosure_for_index(index: usize) -> (d: DisclosureDocument)
    requires
        (index as u32) < u32::MAX,
    ensures
        d@ == disclosure_spec(index as int),
{
    let technical_solution: &str = match index {
        0 => TECH_0,
        1 => TECH_1,
        _ => TECH_2,
    };
    let implementation: &str = match index {
        0 => IMPL_0,
        1 => IMPL_1,
        _ => IMPL_2,
    };
    let questions: &str = if index == 0 {
        QUESTIONS_0
    } else {
        QUESTIONS_N
    };
    let mut sections: Vec<DisclosureSection> = Vec::new();
    sections.push(section("title", "一、发明名称", TITLE_TEXT));
    sections.push(section("field", "二、技术领域", FIELD_TEXT));
    sections.push(section("background", "三、背景技术及现有缺陷", BACKGROUND_TEXT));
    sections.push(section("purpose", "四、发明目的", PURPOSE_TEXT));
    sections.push(section("technical_solution", "五、技术方案", technical_solution));
    sections.push(section("benefits", "六、有益效果", BENEFITS_TEXT));
    sections.push(section("figures", "七、附图说明", FIGURES_TEXT));
    sections.push(section("implementation", "八、具体实施方式", implementation));
    sections.push(section("layout", "🔍 专利挖掘与布局建议", LAYOUT_TEXT));
    sections.push(section("questions", "🛠️ 需工程师补齐的关键改进建议", questions));
    let annotations = annotations_for_index(index);
    let version: u32 = (index as u32) + 1;
    let d = DisclosureDocument { version, sections, annotations };
    assert(d@.sections =~= disclosure_spec(index as int).sections);
    d
}

fn refresh_validation(session: SessionSnapshot) -> (r: SessionSnapshot)
    ensures
        r@ == refreshed(session@),
{
    let mut session = session;
    session.validation_issues = validate_disclosure_document(&session.disclosure);
    session
}

/// Starts the demo session for the given draft and settings.
pub fn start_session(request: StartDemoSessionRequest) -> (s: SessionSnapshot)
    ensures
        s@ == start_session_spec(request.settings, request.source_draft@),
        s@.validation_issues == document_issues(s@.disclosure),
        mock_session_wf(s@),
{
    let source_draft = trim_str(request.source_draft.as_str());
    let settings = DemoSettings { pdf_mode: request.settings.pdf_mode };
    let mut messages: Vec<ChatMessage> = Vec::new();
    messages.push(message("m1", MessageRole::System, MessageIntent::Status, START_STATUS));
    messages.push(message("m2", MessageRole::Assistant, MessageIntent::Diagnosis, START_DIAGNOSIS));
    messages.push(
        message("m3", MessageRole::Assistant, MessageIntent::FollowUp, question_for_index(0)),
    );
    let snapshot = SessionSnapshot {
        session_id: owned(DEMO_SESSION_ID),
        stage: SessionStage::AwaitingAnswer,
        source_draft,
        messages,
        disclosure: disclosure_for_index(0),
        settings,
        actions: active_actions(),
        progress: SessionProgress { current_question_index: 0, total_questions: QUESTION_TOTAL },
        validation_issues: Vec::new(),
        retry_metadata: RetryMetadata { attempt_count: 0, max_attempts: 3 },
    };
    assert(snapshot@ =~= SessionSnapshotView {
        validation_issues: seq![],
        ..start_session_spec(request.settings, request.source_draft@)
    });
    refresh_validation(snapshot)
}

proof fn lemma_messages_push(v: Seq<ChatMessage>, m: ChatMessage)
    ensures
        messages_view(v.push(m)) == messages_view(v).push(m@),
{
    assert(messages_view(v.push(m)) =~= messages_view(v).push(m@));
}

fn advance_session(session: SessionSnapshot, skipped: bool) -> (r: SessionSnapshot)
    requires
        step_in_range(session@),
    ensures
        r@ == advance_spec(session@, skipped),
{
    let mut session = session;
    let next_index: usize = session.progress.current_question_index + 1;
    session.disclosure = disclosure_for_index(next_index);
    if next_index >= QUESTION_TOTAL {
        session.progress.current_question_index = QUESTION_TOTAL;
        session.stage = SessionStage::AdvisoryComplete;
        session.actions = advisory_actions();
        let note: &str = if skipped {
            ADVISORY_AFTER_SKIP
        } else {
            ADVISORY_COMPLETE
        };
        let m = message("advisory-complete", MessageRole::Assistant, MessageIntent::Advisory, note);
        proof {
            lemma_messages_push(session.messages@, m);
        }
        session.messages.push(m);
    } else {
        session.progress.current_question_index = next_index;
        session.stage = SessionStage::AwaitingAnswer;
        session.actions = active_actions();
        let id = cat2("follow-up-", decimal_string((next_index + 1) as u64).as_str());
        let m = message(
            id.as_str(),
            MessageRole::Assistant,
            MessageIntent::FollowUp,
            question_for_index(next_index),
        );
        proof {
            lemma_messages_push(session.messages@, m);
        }
        session.messages.push(m);
    }
    refresh_validation(session)
}

/// Records the engineer's answer and moves on to the next question.
pub fn submit_answer(session: SessionSnapshot, answer: String) -> (r: SessionSnapshot)
    requires
        step_in_range(session@),
    ensures
        r@ == submit_answer_spec(session@, answer@),
        r@.validation_issues == document_issues(r@.disclosure),
        session@.messages.is_prefix_of(r@.messages),
        mock_session_wf(session@) ==> mock_session_wf(r@),
{
    let mut session = session;
    let current_index = session.progress.current_question_index;
    let n = decimal_string((current_index + 1) as u64);
    let id1 = cat2("answer-", n.as_str());
    let m1 = message(id1.as_str(), MessageRole::Engineer, MessageIntent::Answer, answer.as_str());
    proof {
        lemma_messages_push(session.messages@, m1);
    }
    session.messages.push(m1);
    let id2 = cat2("status-", n.as_str());
    let m2 = message(id2.as_str(), MessageRole::System, MessageIntent::Status, ANSWER_STATUS);
    proof {
        lemma_messages_push(session.messages@, m2);
    }
    session.messages.push(m2);
    let r = advance_session(session, false);
    r
}

/// Records that the current question was skipped and moves on.
pub fn skip_question(session: SessionSnapshot) -> (r: SessionSnapshot)
    requires
        step_in_range(session@),
    ensures
        r@ == skip_question_spec(session@),
        r@.validation_issues == document_issues(r@.disclosure),
        session@.messages.is_prefix_of(r@.messages),
        mock_session_wf(session@) ==> mock_session_wf(r@),
{
    let mut session = session;
    let current_index = session.progress.current_question_index;
    let n = decimal_string((current_index + 1) as u64);
    let id = cat2("skip-", n.as_str());
    let m = message(id.as_str(), MessageRole::System, MessageIntent::Status, SKIP_STATUS);
    proof {
        lemma_messages_push(session.messages@, m);
    }
    session.messages.push(m);
    advance_session(session, true)
}

/// Replaces the session's settings and records the new PDF mode.
pub fn update_settings(request: UpdateSettingsRequest) -> (r: SessionSnapshot)
    ensures
        r@ == update_settings_spec(request.session@, request.settings),
        r@.validation_issues == document_issues(r@.disclosure),
        request.session@.messages.is_prefix_of(r@.messages),
        mock_session_wf(request.session@) ==> mock_session_wf(r@),
{
    let mut request = request;
    request.session.settings = request.settings;
    let mode: &str = match request.session.settings.pdf_mode {
        PdfProcessingMode::DirectToModel => MODE_DIRECT,
        PdfProcessingMode::LocalPreprocess => MODE_LOCAL,
    };
    let content = cat3("PDF 处理模式已更新为", mode, "。");
    let m = message("settings-updated", MessageRole::System, MessageIntent::Status, content.as_str());
    proof {
        lemma_messages_push(request.session.messages@, m);
    }
    request.session.messages.push(m);
    refresh_validation(request.session)
}

/// Ends the session early; the preview and the download stay available.
pub fn terminate_session(request: SessionRequest) -> (r: SessionSnapshot)
    ensures
        r@ == terminate_spec(request.session@),
        r@.validation_issues == document_issues(r@.disclosure),
        request.session@.messages.is_prefix_of(r@.messages),
        r@.stage == SessionStage::Terminated,
        !r@.actions.can_submit && !r@.actions.can_skip && !r@.actions.can_terminate,
        r@.actions.can_download == request.session@.actions.can_download,
        mock_session_wf(request.session@) ==> mock_session_wf(r@),
{
    let mut request = request;
    request.session.stage = SessionStage::Terminated;
    request.session.actions.can_submit = false;
    request.session.actions.can_skip = false;
    request.session.actions.can_terminate = false;
    let m = message("terminated", MessageRole::System, MessageIntent::Advisory, TERMINATED_NOTE);
    proof {
        lemma_messages_push(request.session.messages@, m);
    }
    request.session.messages.push(m);
    refresh_validation(request.session)
}

/// Describes the (placeholder) export of the session's current disclosure.
pub fn download_snapshot(request: DownloadRequest) -> (r: DownloadResponse)
    ensures
        r@ == download_spec(request.session@.disclosure, request.include_answer_history),
{
    let issues = validate_disclosure_document(&request.session.disclosure);
    let validation_issue_count = issues.len();
    let file_name = cat3(
        "patentscribe-demo-v",
        decimal_string(request.session.disclosure.version as u64).as_str(),
        ".docx",
    );
    let mut message = owned(EXPORT_PREFIX);
    if request.include_answer_history {
        message.append(EXPORT_WITH_HISTORY);
    } else {
        message.append(EXPORT_WITHOUT_HISTORY);
    }
    message.append("。");
    if validation_issue_count == 0 {
        message.append(EXPORT_VALID);
    } else {
        message.append(EXPORT_INVALID);
    }
    proof {
        assert(issues@.len() == issues_view(issues@).len());
    }
    DownloadResponse {
        status: DownloadStatus::Placeholder,
        file_name,
        message,
        included_answer_history: request.include_answer_history,
        validation_issue_count,
    }
}

// ---------------------------------------------------------------------------
// Laws
// ---------------------------------------------------------------------------

/// Answering and skipping lead to the same step: the same disclosure, stage,
/// actions, progress and validation issues; only the recorded messages differ.
pub proof fn lemma_answer_and_skip_agree(s: SessionSnapshotView, answer: Seq<char>)
    ensures
        submit_answer_spec(s, answer).disclosure == skip_question_spec(s).disclosure,
        submit_answer_spec(s, answer).stage == skip_question_spec(s).stage,
        submit_answer_spec(s, answer).actions == skip_question_spec(s).actions,
        submit_answer_spec(s, answer).progress == skip_question_spec(s).progress,
        submit_answer_spec(s, answer).validation_issues == skip_question_spec(s).validation_issues,
        submit_answer_spec(s, answer).settings == skip_question_spec(s).settings,
{
}

/// From any draft, two steps (answers or skips) end the demo: the advice is
/// given, both questions are counted, and skipping is no longer offered.
pub proof fn lemma_demo_walk_completes(
    settings: DemoSettings,
    draft: Seq<char>,
    first: Option<Seq<char>>,
    second: Option<Seq<char>>,
)
    ensures
        ({
            let s0 = start_session_spec(settings, draft);
            let s1 = match first {
                Some(a) => submit_answer_spec(s0, a),
                None => skip_question_spec(s0),
            };
            let s2 = match second {
                Some(a) => submit_answer_spec(s1, a),
                None => skip_question_spec(s1),
            };
            &&& s1.stage == SessionStage::AwaitingAnswer
            &&& s1.progress.current_question_index == 1
            &&& s2.stage == SessionStage::AdvisoryComplete
            &&& s2.progress.current_question_index == QUESTION_TOTAL
            &&& !s2.actions.can_skip && s2.actions.can_download
            &&& mock_session_wf(s2)
        }),
{
}

/// Every step of the demo keeps its shape (see `mock_session_wf`).
pub proof fn lemma_mock_steps_keep_shape(s: SessionSnapshotView, answer: Seq<char>, settings: DemoSettings)
    requires
        mock_session_wf(s),
    ensures
        mock_session_wf(submit_answer_spec(s, answer)),
        mock_session_wf(skip_question_spec(s)),
        mock_session_wf(update_settings_spec(s, settings)),
        mock_session_wf(terminate_spec(s)),
{
}

/// The fixed chapter texts of the demo documents are not blank.
proof fn lemma_demo_texts_nonblank()
    ensures
        trim(TITLE_TEXT@).len() > 0,
        trim(FIELD_TEXT@).len() > 0,
        trim(BACKGROUND_TEXT@).len() > 0,
        trim(PURPOSE_TEXT@).len() > 0,
        trim(TECH_0@).len() > 0,
        trim(TECH_1@).len() > 0,
        trim(TECH_2@).len() > 0,
        trim(BENEFITS_TEXT@).len() > 0,
        trim(FIGURES_TEXT@).len() > 0,
        trim(IMPL_0@).len() > 0,
        trim(IMPL_1@).len() > 0,
        trim(IMPL_2@).len() > 0,
        trim(LAYOUT_TEXT@).len() > 0,
        trim(QUESTIONS_0@).len() > 0,
        trim(QUESTIONS_N@).len() > 0,
{
    reveal_strlit("一种用于专利交底信息渐进完善的协同生成方法");
    lemma_trim_nonblank(TITLE_TEXT@);
    reveal_strlit("本发明涉及 AI 辅助专利交底书生成与技术信息整理领域，尤其涉及一种对话式渐进补全方法。");
    lemma_trim_nonblank(FIELD_TEXT@);
    reveal_strlit("现有交底书撰写流程通常依赖工程师先提交不完整初稿，再由代理人多轮追问补足。该流程存在技术对比不充分、实施细节遗漏、沟通周期长等问题。");
    lemma_trim_nonblank(BACKGROUND_TEXT@);
    reveal_strlit("本方案旨在减少交底书从初稿到可交付版本之间的往返轮次，并保持待补充信息可见。");
    lemma_trim_nonblank(PURPOSE_TEXT@);
    reveal_strlit("本方案通过多级调度模块协调边缘节点与云端分析链路，以降低交底信息整理过程中的往返耗时。【待工程师补充】现有技术的典型链路与本方案的差异点。");
    lemma_trim_nonblank(TECH_0@);
    reveal_strlit("本方案通过多级调度模块协调边缘节点与云端分析链路，并在任务切换时引入上下文快照与优先级阈值控制，使交底信息能按创新点、现有技术对比和实施参数三个维度渐进完善。");
    lemma_trim_nonblank(TECH_1@);
    reveal_strlit("本方案通过多级调度模块协调边缘节点与云端分析链路，并在任务切换时引入上下文快照、优先级阈值控制和参数回填机制，以支持交底草稿在多轮补充中持续收敛。建议后续补充实验参数与异常处理策略。");
    lemma_trim_nonblank(TECH_2@);
    reveal_strlit("| 维度 | 技术突破点 | 效果与价值体现 |\n| --- | --- | --- |\n| 沟通效率 | 通过会话驱动的渐进补全 | 缩短工程师与代理人之间的来回沟通 |\n| 信息完整度 | 以待补充标记保留缺口 | 降低遗漏关键实施细节的风险 |");
    lemma_trim_nonblank(BENEFITS_TEXT@);
    reveal_strlit("图 1 为对话驱动的交底完善流程示意图；图 2 为多级调度模块的结构示意图。");
    lemma_trim_nonblank(FIGURES_TEXT@);
    reveal_strlit("实施例一：【待工程师补充】关键阈值、切换条件和输入输出关系。实施例二：【待工程师补充】异常场景下的处理策略。");
    lemma_trim_nonblank(IMPL_0@);
    reveal_strlit("实施例一：当输入任务优先级高于阈值时，系统保留上一轮快照并优先写回新颖性对比信息。实施例二：【待工程师补充】异常场景下的恢复策略与默认参数范围。");
    lemma_trim_nonblank(IMPL_1@);
    reveal_strlit("实施例一：当输入任务优先级高于阈值时，系统保留上一轮快照并优先写回新颖性对比信息。实施例二：当检测到参数缺失时，系统以待补充标记保留空位，并提示工程师补充控制条件与范围值。");
    lemma_trim_nonblank(IMPL_2@);
    reveal_strlit("| 布局方向 | 保护策略 | 建议权利要求架构 |\n| --- | --- | --- |\n| 会话驱动补全 | 覆盖追问触发逻辑与状态迁移 | 独立方法权利要求 + 系统权利要求 |\n| 参数回填机制 | 覆盖待补充标记与参数写回策略 | 方法从属权利要求 |");
    lemma_trim_nonblank(LAYOUT_TEXT@);
    reveal_strlit("请补充异常场景下的恢复策略，并说明关键阈值的来源与范围。");
    lemma_trim_nonblank(QUESTIONS_0@);
    reveal_strlit("Q1：请补充异常场景下的恢复策略，以支撑可实施性判断。\nQ2：请补充关键阈值的来源和范围，以强化技术方案的落地边界。");
    lemma_trim_nonblank(QUESTIONS_N@);
}

/// Every demo document has the required chapters, in order, none of them
/// blank, and two annotations; from step 2 on it is step 2's document with
/// only its version raised.
pub proof fn lemma_demo_disclosure_shape(index: int)
    requires
        0 <= index < u32::MAX,
    ensures
        ({
            let d = disclosure_spec(index);
            &&& d.version == index + 1
            &&& d.sections.len() == SECTION_COUNT
            &&& forall|i: int|
                0 <= i < SECTION_COUNT ==> (#[trigger] d.sections[i]).id == required_id(i)
                    && d.sections[i].title == required_title(i) && trim(d.sections[i].content).len()
                    > 0
            &&& d.annotations.len() == 2
            &&& index >= 2 ==> d == DisclosureDocumentView {
                version: (index + 1) as u32,
                ..disclosure_spec(2)
            }
        }),
{
    lemma_demo_texts_nonblank();
}

/// Whether the step was reached by skipping or by answering changes only the
/// closing advice: the two results differ in the text of their last message,
/// and only when the step ends the walk.
pub proof fn lemma_advance_differs_only_in_advice(s: SessionSnapshotView)
    ensures
        ({
            let a = advance_spec(s, true);
            let b = advance_spec(s, false);
            let next = s.progress.current_question_index + 1;
            &&& a.messages.len() == s.messages.len() + 1
            &&& b.messages.len() == s.messages.len() + 1
            &&& a.messages.drop_last() == b.messages.drop_last()
            &&& a.messages.last() == ChatMessageView {
                content: a.messages.last().content,
                ..b.messages.last()
            }
            &&& a == SessionSnapshotView { messages: a.messages, ..b }
            &&& (a.messages.last().content != b.messages.last().content) <==> next
                >= QUESTION_TOTAL
            &&& next >= QUESTION_TOTAL ==> a.messages.last().content == ADVISORY_AFTER_SKIP@
                && b.messages.last().content == ADVISORY_COMPLETE@
        }),
{
    reveal_strlit("当前交底书已达到演示级完整度。仍有待工程师补充项，但你现在可以终止或下载当前版本。");
    reveal_strlit("当前交底书信息已较为完整，可以继续补充，也可以直接下载当前版本。");
    assert(ADVISORY_AFTER_SKIP@[5] != ADVISORY_COMPLETE@[5]);
    assert(advance_spec(s, true).messages.drop_last() =~= s.messages);
    assert(advance_spec(s, false).messages.drop_last() =~= s.messages);
}

} // verus!
