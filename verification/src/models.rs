//! The data exchanged between the desktop front end and the session logic,
//! with a mathematical view of each type (text as `Seq<char>`).
use vstd::prelude::*;

verus! {

#[derive(Debug, Clone, Copy, PartialEq, Eq, Structural)]
pub enum ModelProviderStatusKind {
    Ready,
    NeedsConfiguration,
    InvalidConfig,
    UnsupportedProvider,
}

#[derive(Debug, Clone, Copy, PartialEq, Eq, Structural)]
pub enum MessageRole {
    System,
    Assistant,
    Engineer,
}

#[derive(Debug, Clone, Copy, PartialEq, Eq, Structural)]
pub enum MessageIntent {
    Status,
    Diagnosis,
    FollowUp,
    Answer,
    Advisory,
    Error,
}

#[derive(Debug, Clone, Copy, PartialEq, Eq, Structural)]
pub enum SessionStage {
    Idle,
    Analyzing,
    AwaitingAnswer,
    UpdatingPreview,
    AdvisoryComplete,
    Terminated,
}

#[derive(Debug, Clone, Copy, PartialEq, Eq, Structural)]
pub enum PdfProcessingMode {
    DirectToModel,
    LocalPreprocess,
}

#[derive(Debug, Clone, Copy, PartialEq, Eq, Structural)]
pub enum AnnotationKind {
    Addition,
    Rewrite,
}

#[derive(Debug, Clone, Copy, PartialEq, Eq, Structural)]
pub enum ValidationLevel {
    Error,
    Warning,
}

#[derive(Debug, Clone, Copy, PartialEq, Eq, Structural)]
pub enum DownloadStatus {
    Ready,
    Placeholder,
}

/// The view of an optional string.
pub open spec fn opt_view(o: Option<String>) -> Option<Seq<char>> {
    match o {
        Some(s) => Some(s@),
        None => None,
    }
}

#[derive(Debug, Clone)]
pub struct ModelProviderStatus {
    pub status: ModelProviderStatusKind,
    pub message: String,
    pub config_path: String,
    pub created_template: bool,
    pub provider: Option<String>,
    pub api_url: Option<String>,
    pub model_name: Option<String>,
    pub has_api_key: bool,
    pub api_key_preview: Option<String>,
}

#[verifier::ext_equal]
pub struct ModelProviderStatusView {
    pub status: ModelProviderStatusKind,
    pub message: Seq<char>,
    pub config_path: Seq<char>,
    pub created_template: bool,
    pub provider: Option<Seq<char>>,
    pub api_url: Option<Seq<char>>,
    pub model_name: Option<Seq<char>>,
    pub has_api_key: bool,
    pub api_key_preview: Option<Seq<char>>,
}

impl View for ModelProviderStatus {
    type V = ModelProviderStatusView;

    open spec fn view(&self) -> ModelProviderStatusView {
        ModelProviderStatusView {
            status: self.status,
            message: self.message@,
            config_path: self.config_path@,
            created_template: self.created_template,
            provider: opt_view(self.provider),
            api_url: opt_view(self.api_url),
            model_name: opt_view(self.model_name),
            has_api_key: self.has_api_key,
            api_key_preview: opt_view(self.api_key_preview),
        }
    }
}

#[derive(Debug, Clone)]
pub struct ChatMessage {
    pub id: String,
    pub role: MessageRole,
    pub intent: MessageIntent,
    pub content: String,
    pub timestamp: String,
}

#[verifier::ext_equal]
pub struct ChatMessageView {
    pub id: Seq<char>,
    pub role: MessageRole,
    pub intent: MessageIntent,
    pub content: Seq<char>,
    pub timestamp: Seq<char>,
}

impl View for ChatMessage {
    type V = ChatMessageView;

    open spec fn view(&self) -> ChatMessageView {
        ChatMessageView {
            id: self.id@,
            role: self.role,
            intent: self.intent,
            content: self.content@,
            timestamp: self.timestamp@,
        }
    }
}

#[derive(Debug, Clone)]
pub struct DisclosureSection {
    pub id: String,
    pub title: String,
    pub content: String,
}

#[verifier::ext_equal]
pub struct DisclosureSectionView {
    pub id: Seq<char>,
    pub title: Seq<char>,
    pub content: Seq<char>,
}

impl View for DisclosureSection {
    type V = DisclosureSectionView;

    open spec fn view(&self) -> DisclosureSectionView {
        DisclosureSectionView { id: self.id@, title: self.title@, content: self.content@ }
    }
}

#[derive(Debug, Clone)]
pub struct Annotation {
    pub id: String,
    pub kind: AnnotationKind,
    pub section_id: String,
    pub excerpt: String,
    pub note: String,
}

#[verifier::ext_equal]
pub struct AnnotationView {
    pub id: Seq<char>,
    pub kind: AnnotationKind,
    pub section_id: Seq<char>,
    pub excerpt: Seq<char>,
    pub note: Seq<char>,
}

impl View for Annotation {
    type V = AnnotationView;

    open spec fn view(&self) -> AnnotationView {
        AnnotationView {
            id: self.id@,
            kind: self.kind,
            section_id: self.section_id@,
            excerpt: self.excerpt@,
            note: self.note@,
        }
    }
}

#[derive(Debug, Clone)]
pub struct DisclosureDocument {
    pub version: u32,
    pub sections: Vec<DisclosureSection>,
    pub annotations: Vec<Annotation>,
}

#[verifier::ext_equal]
pub struct DisclosureDocumentView {
    pub version: u32,
    pub sections: Seq<DisclosureSectionView>,
    pub annotations: Seq<AnnotationView>,
}

pub open spec fn sections_view(v: Seq<DisclosureSection>) -> Seq<DisclosureSectionView> {
    v.map_values(|s: DisclosureSection| s@)
}

pub open spec fn annotations_view(v: Seq<Annotation>) -> Seq<AnnotationView> {
    v.map_values(|a: Annotation| a@)
}

pub open spec fn messages_view(v: Seq<ChatMessage>) -> Seq<ChatMessageView> {
    v.map_values(|m: ChatMessage| m@)
}

impl View for DisclosureDocument {
    type V = DisclosureDocumentView;

    open spec fn view(&self) -> DisclosureDocumentView {
        DisclosureDocumentView {
            version: self.version,
            sections: sections_view(self.sections@),
            annotations: annotations_view(self.annotations@),
        }
    }
}

#[derive(Debug, Clone, Copy, PartialEq, Eq, Structural)]
pub struct DemoSettings {
    pub pdf_mode: PdfProcessingMode,
}

#[derive(Debug, Clone, Copy, PartialEq, Eq, Structural)]
pub struct SessionActions {
    pub can_submit: bool,
    pub can_skip: bool,
    pub can_download: bool,
    pub can_terminate: bool,
}

#[derive(Debug, Clone)]
pub struct ValidationIssue {
    pub code: String,
    pub message: String,
    pub section_id: Option<String>,
    pub level: ValidationLevel,
}

#[verifier::ext_equal]
pub struct ValidationIssueView {
    pub code: Seq<char>,
    pub message: Seq<char>,
    pub section_id: Option<Seq<char>>,
    pub level: ValidationLevel,
}

impl View for ValidationIssue {
    type V = ValidationIssueView;

    open spec fn view(&self) -> ValidationIssueView {
        ValidationIssueView {
            code: self.code@,
            message: self.message@,
            section_id: opt_view(self.section_id),
            level: self.level,
        }
    }
}

pub open spec fn issues_view(v: Seq<ValidationIssue>) -> Seq<ValidationIssueView> {
    v.map_values(|i: ValidationIssue| i@)
}

#[derive(Debug, Clone, Copy, PartialEq, Eq, Structural)]
pub struct RetryMetadata {
    pub attempt_count: u8,
    pub max_attempts: u8,
}

#[derive(Debug, Clone, Copy, PartialEq, Eq, Structural)]
pub struct SessionProgress {
    pub current_question_index: usize,
    pub total_questions: usize,
}

#[derive(Debug, Clone)]
pub struct SessionSnapshot {
    pub session_id: String,
    pub stage: SessionStage,
    pub source_draft: String,
    pub messages: Vec<ChatMessage>,
    pub disclosure: DisclosureDocument,
    pub settings: DemoSettings,
    pub actions: SessionActions,
    pub progress: SessionProgress,
    pub validation_issues: Vec<ValidationIssue>,
    pub retry_metadata: RetryMetadata,
}

#[verifier::ext_equal]
pub struct SessionSnapshotView {
    pub session_id: Seq<char>,
    pub stage: SessionStage,
    pub source_draft: Seq<char>,
    pub messages: Seq<ChatMessageView>,
    pub disclosure: DisclosureDocumentView,
    pub settings: DemoSettings,
    pub actions: SessionActions,
    pub progress: SessionProgress,
    pub validation_issues: Seq<ValidationIssueView>,
    pub retry_metadata: RetryMetadata,
}

impl View for SessionSnapshot {
    type V = SessionSnapshotView;

    open spec fn view(&self) -> SessionSnapshotView {
        SessionSnapshotView {
            session_id: self.session_id@,
            stage: self.stage,
            source_draft: self.source_draft@,
            messages: messages_view(self.messages@),
            disclosure: self.disclosure@,
            settings: self.settings,
            actions: self.actions,
            progress: self.progress,
            validation_issues: issues_view(self.validation_issues@),
            retry_metadata: self.retry_metadata,
        }
    }
}

#[derive(Debug, Clone)]
pub struct StartDemoSessionRequest {
    pub settings: DemoSettings,
    pub source_draft: String,
}

#[derive(Debug, Clone)]
pub struct AnswerRequest {
    pub session: SessionSnapshot,
    pub answer: String,
}

#[derive(Debug, Clone)]
pub struct SessionRequest {
    pub session: SessionSnapshot,
}

#[derive(Debug, Clone)]
pub struct UpdateSettingsRequest {
    pub session: SessionSnapshot,
    pub settings: DemoSettings,
}

#[derive(Debug, Clone)]
pub struct DownloadRequest {
    pub session: SessionSnapshot,
    pub include_answer_history: bool,
}

#[derive(Debug, Clone)]
pub struct DownloadResponse {
    pub status: DownloadStatus,
    pub file_name: String,
    pub message: String,
    pub included_answer_history: bool,
    pub validation_issue_count: usize,
}

#[verifier::ext_equal]
pub struct DownloadResponseView {
    pub status: DownloadStatus,
    pub file_name: Seq<char>,
    pub message: Seq<char>,
    pub included_answer_history: bool,
    pub validation_issue_count: usize,
}

impl View for DownloadResponse {
    type V = DownloadResponseView;

    open spec fn view(&self) -> DownloadResponseView {
        DownloadResponseView {
            status: self.status,
            file_name: self.file_name@,
            message: self.message@,
            included_answer_history: self.included_answer_history,
            validation_issue_count: self.validation_issue_count,
        }
    }
}

} // verus!
