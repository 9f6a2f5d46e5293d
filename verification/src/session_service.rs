//! How a request is routed: to the live model when a supported provider is
//! configured, otherwise to the offline demo, which then carries a notice.
use vstd::prelude::*;

use crate::mock_session;
use crate::mock_session::{download_spec, start_session_spec, submit_answer_spec, skip_question_spec,
    step_in_range, terminate_spec, update_settings_spec, TIMESTAMP};
use crate::model_config::{
    fallback_notice_spec, has_key, is_supported_provider, load_spec, provider_status_spec, slug,
    supported_slug, ModelProviderConfig, ModelProviderConfigState, ModelProviderConfigView,
    state_config_view,
};
use crate::models::{
    messages_view, ChatMessage, ChatMessageView, DownloadRequest, DownloadResponse, MessageIntent,
    MessageRole, ModelProviderStatusKind, SessionRequest, SessionSnapshot, SessionSnapshotView,
    StartDemoSessionRequest, UpdateSettingsRequest,
};
use crate::text::{owned, str_eq, trim, trim_str};

verus! {

/// Id of the message that tells the user the offline demo is answering.
pub const MOCK_NOTICE_ID: &'static str = "mock-backend-notice";

pub const EMPTY_DRAFT_ERROR: &'static str = "请先输入待分析的交底草稿，再启动会话。";

pub const UNSUPPORTED_RUNTIME_HEAD: &'static str = "模型配置文件中的 PROVIDER=";

pub const UNSUPPORTED_RUNTIME_TAIL: &'static str =
    " 暂不支持。当前仅支持 qwen / dashscope 兼容链路。配置文件：";

/// Where a session request is answered.
pub enum RuntimeTarget {
    /// The live model, reached with this configuration.
    Live(ModelProviderConfig),
    /// The offline demo, which shows this notice.
    Mock(String),
}

pub enum RuntimeView {
    Live(ModelProviderConfigView),
    Mock(Seq<char>),
}

impl View for RuntimeTarget {
    type V = RuntimeView;

    open spec fn view(&self) -> RuntimeView {
        match self {
            RuntimeTarget::Live(c) => RuntimeView::Live(c@),
            RuntimeTarget::Mock(n) => RuntimeView::Mock(n@),
        }
    }
}

/// Where a request goes for a loaded configuration state.
pub open spec fn runtime_spec(
    config: Option<ModelProviderConfigView>,
    path: Seq<char>,
    created_template: bool,
) -> Result<RuntimeView, Seq<char>> {
    match config {
        Some(c) => if supported_slug(slug(c)) {
            Ok(RuntimeView::Live(c))
        } else {
            Err(UNSUPPORTED_RUNTIME_HEAD@ + slug(c) + UNSUPPORTED_RUNTIME_TAIL@ + path)
        },
        None => Ok(RuntimeView::Mock(fallback_notice_spec(path, created_template))),
    }
}

pub open spec fn runtime_result_view(r: Result<RuntimeTarget, String>) -> Result<RuntimeView, Seq<char>> {
    match r {
        Ok(t) => Ok(t@),
        Err(e) => Err(e@),
    }
}

/// Chooses between the live model and the offline demo.
pub fn resolve_runtime(config_state: ModelProviderConfigState) -> (r: Result<RuntimeTarget, String>)
    ensures
        runtime_result_view(r) == runtime_spec(
            state_config_view(config_state),
            config_state.config_path@,
            config_state.created_template,
        ),
{
    let notice = config_state.fallback_notice();
    match config_state.config {
        Some(config) => {
            let provider = config.provider_slug();
            if is_supported_provider(provider.as_str()) {
                Ok(RuntimeTarget::Live(config))
            } else {
                let mut m = owned(UNSUPPORTED_RUNTIME_HEAD);
                m.append(provider.as_str());
                m.append(UNSUPPORTED_RUNTIME_TAIL);
                m.append(config_state.config_path.as_str());
                Err(m)
            }
        },
        None => Ok(RuntimeTarget::Mock(notice)),
    }
}

/// The start request with its draft trimmed; refused when the draft is blank.
pub fn prepare_start_request(request: StartDemoSessionRequest) -> (r: Result<
    StartDemoSessionRequest,
    String,
>)
    ensures
        trim(request.source_draft@).len() == 0 <==> r is Err,
        r matches Err(e) ==> e@ == EMPTY_DRAFT_ERROR@,
        r matches Ok(q) ==> q.source_draft@ == trim(request.source_draft@) && q.settings
            == request.settings,
{
    let mut request = request;
    request.source_draft = trim_str(request.source_draft.as_str());
    if request.source_draft.as_str().is_empty() {
        return Err(owned(EMPTY_DRAFT_ERROR));
    }
    Ok(request)
}

pub open spec fn notice_message(notice: Seq<char>) -> ChatMessageView {
    ChatMessageView {
        id: MOCK_NOTICE_ID@,
        role: MessageRole::System,
        intent: MessageIntent::Status,
        content: notice,
        timestamp: TIMESTAMP@,
    }
}

/// Some message of `msgs` is the offline-demo notice.
pub open spec fn has_notice(msgs: Seq<ChatMessageView>) -> bool {
    exists|i: int| 0 <= i < msgs.len() && msgs[i].id == MOCK_NOTICE_ID@
}

/// `s` with the offline-demo notice put first, unless it already carries one.
pub open spec fn with_notice_spec(s: SessionSnapshotView, notice: Seq<char>) -> SessionSnapshotView {
    if has_notice(s.messages) {
        s
    } else {
        SessionSnapshotView { messages: seq![notice_message(notice)] + s.messages, ..s }
    }
}

/// Puts the offline-demo notice in front of the session's messages, once.
pub fn with_mock_notice(session: SessionSnapshot, notice: &str) -> (r: SessionSnapshot)
    ensures
        r@ == with_notice_spec(session@, notice@),
        has_notice(r@.messages),
{
    let mut session = session;
    let ghost msgs = messages_view(session.messages@);
    let mut i: usize = 0;
    let mut found: bool = false;
    while i < session.messages.len()
        invariant
            i <= session.messages.len(),
            msgs == messages_view(session.messages@),
            found <==> exists|k: int| 0 <= k < i && msgs[k].id == MOCK_NOTICE_ID@,
        decreases session.messages.len() - i,
    {
        assert(msgs[i as int] == session.messages@[i as int]@);
        if str_eq(session.messages[i].id.as_str(), MOCK_NOTICE_ID) {
            found = true;
        }
        i = i + 1;
    }
    if !found {
        let m = ChatMessage {
            id: owned(MOCK_NOTICE_ID),
            role: MessageRole::System,
            intent: MessageIntent::Status,
            content: owned(notice),
            timestamp: owned(TIMESTAMP),
        };
        let ghost old_messages = session.messages@;
        session.messages.insert(0, m);
        proof {
            assert(messages_view(session.messages@) =~= seq![notice_message(notice@)] + msgs);
            assert(messages_view(session.messages@)[0].id == MOCK_NOTICE_ID@);
        }
    }
    session
}

/// Starts the offline demo session, with the notice in front.
pub fn start_with_mock(request: StartDemoSessionRequest, notice: &str) -> (r: SessionSnapshot)
    ensures
        r@ == with_notice_spec(start_session_spec(request.settings, request.source_draft@), notice@),
{
    with_mock_notice(mock_session::start_session(request), notice)
}

/// Answers the current question in the offline demo, with the notice in front.
pub fn submit_with_mock(session: SessionSnapshot, answer: String, notice: &str) -> (r:
    SessionSnapshot)
    requires
        step_in_range(session@),
    ensures
        r@ == with_notice_spec(submit_answer_spec(session@, answer@), notice@),
{
    with_mock_notice(mock_session::submit_answer(session, answer), notice)
}

/// Skips the current question in the offline demo, with the notice in front.
pub fn skip_with_mock(session: SessionSnapshot, notice: &str) -> (r: SessionSnapshot)
    requires
        step_in_range(session@),
    ensures
        r@ == with_notice_spec(skip_question_spec(session@), notice@),
{
    with_mock_notice(mock_session::skip_question(session), notice)
}

pub fn update_settings(request: UpdateSettingsRequest) -> (r: SessionSnapshot)
    ensures
        r@ == update_settings_spec(request.session@, request.settings),
{
    mock_session::update_settings(request)
}

pub fn terminate_session(request: SessionRequest) -> (r: SessionSnapshot)
    ensures
        r@ == terminate_spec(request.session@),
{
    mock_session::terminate_session(request)
}

pub fn download_snapshot(request: DownloadRequest) -> (r: DownloadResponse)
    ensures
        r@ == download_spec(request.session@.disclosure, request.include_answer_history),
{
    mock_session::download_snapshot(request)
}

// ---------------------------------------------------------------------------
// Laws
// ---------------------------------------------------------------------------

/// Adding the offline-demo notice twice (with any notices) is the same as adding it once.
pub proof fn lemma_mock_notice_idempotent(s: SessionSnapshotView, n1: Seq<char>, n2: Seq<char>)
    ensures
        with_notice_spec(with_notice_spec(s, n1), n2) == with_notice_spec(s, n1),
{
    let t = with_notice_spec(s, n1);
    if !has_notice(s.messages) {
        assert(t.messages[0].id == MOCK_NOTICE_ID@);
        assert(has_notice(t.messages));
    }
}

/// The notice never removes or reorders the session's messages: they stay in
/// order after it, and nothing but the messages changes.
pub proof fn lemma_mock_notice_keeps_messages(s: SessionSnapshotView, n: Seq<char>)
    ensures
        s.messages.is_suffix_of(with_notice_spec(s, n).messages),
        with_notice_spec(s, n).messages.len() <= s.messages.len() + 1,
        with_notice_spec(s, n).disclosure == s.disclosure,
        with_notice_spec(s, n).progress == s.progress,
        with_notice_spec(s, n).stage == s.stage,
        with_notice_spec(s, n).validation_issues == s.validation_issues,
{
    if !has_notice(s.messages) {
        let t = with_notice_spec(s, n).messages;
        assert(t.subrange(t.len() - s.messages.len(), t.len() as int) =~= s.messages);
    } else {
        assert(s.messages.subrange(0, s.messages.len() as int) =~= s.messages);
    }
}

/// The settings screen reports a configuration as ready exactly when loading
/// it sends new sessions to the live model.
pub proof fn lemma_ready_iff_live(
    parsed: Result<ModelProviderConfigView, Seq<char>>,
    path: Seq<char>,
    created_template: bool,
)
    ensures
        (provider_status_spec(parsed, path, created_template).status
            == ModelProviderStatusKind::Ready) <==> (match load_spec(parsed, path) {
            Ok(config) => runtime_spec(config, path, created_template) is Ok && runtime_spec(
                config,
                path,
                created_template,
            )->Ok_0 is Live,
            Err(_) => false,
        }),
{
}

/// A configuration file without an API key sends new sessions to the offline
/// demo, and the settings screen never calls it ready.
pub proof fn lemma_no_key_means_offline(
    config: ModelProviderConfigView,
    path: Seq<char>,
    created_template: bool,
)
    requires
        !has_key(config),
    ensures
        load_spec(Ok(config), path) == Ok::<Option<ModelProviderConfigView>, Seq<char>>(None),
        runtime_spec(None, path, created_template) == Ok::<RuntimeView, Seq<char>>(
            RuntimeView::Mock(fallback_notice_spec(path, created_template)),
        ),
        provider_status_spec(Ok(config), path, created_template).status
            != ModelProviderStatusKind::Ready,
{
}

} // verus!
