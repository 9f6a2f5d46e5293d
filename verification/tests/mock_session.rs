use patentmate::mock_session::step_in_range_exec;
use patentmate::mock_session::{
    disclosure_for_index, download_snapshot, skip_question, start_session, submit_answer,
    terminate_session, update_settings,
};
use patentmate::models::{
    DemoSettings, DownloadRequest, DownloadStatus, MessageIntent, MessageRole, PdfProcessingMode,
    SessionRequest, SessionStage, StartDemoSessionRequest, UpdateSettingsRequest,
};

fn start() -> patentmate::models::SessionSnapshot {
    start_session(StartDemoSessionRequest {
        settings: DemoSettings {
            pdf_mode: PdfProcessingMode::DirectToModel,
        },
        source_draft: "  一种调度方法 \n".to_string(),
    })
}

#[test]
fn start_session_shows_first_question() {
    let s = start();
    assert_eq!(s.session_id, "demo-session-001");
    assert_eq!(s.source_draft, "一种调度方法");
    assert!(matches!(s.stage, SessionStage::AwaitingAnswer));
    assert_eq!(s.messages.len(), 3);
    let ids: Vec<&str> = s.messages.iter().map(|m| m.id.as_str()).collect();
    assert_eq!(ids, vec!["m1", "m2", "m3"]);
    assert!(matches!(s.messages[2].intent, MessageIntent::FollowUp));
    assert_eq!(
        s.messages[2].content,
        "为了强化新颖性论证，请补充：现有技术通常采用什么结构或流程？你的方案与它的关键差异是什么？"
    );
    assert_eq!(s.messages[0].timestamp, "2026-05-15T09:00:00+08:00");
    assert_eq!(s.disclosure.version, 1);
    assert_eq!(s.disclosure.sections.len(), 10);
    assert_eq!(s.disclosure.annotations.len(), 2);
    assert_eq!(s.progress.current_question_index, 0);
    assert_eq!(s.progress.total_questions, 2);
    assert_eq!(s.retry_metadata.attempt_count, 0);
    assert_eq!(s.retry_metadata.max_attempts, 3);
    assert!(s.actions.can_submit && s.actions.can_skip && s.actions.can_download && s.actions.can_terminate);
    // the first demo version lacks the Q1/Q2 format
    assert_eq!(s.validation_issues.len(), 1);
    assert_eq!(s.validation_issues[0].code, "questions_q_format");
}

#[test]
fn two_answers_complete_the_demo() {
    let s = start();
    let s = submit_answer(s, "现有技术用单节点".to_string());
    assert!(matches!(s.stage, SessionStage::AwaitingAnswer));
    assert_eq!(s.progress.current_question_index, 1);
    let ids: Vec<&str> = s.messages.iter().map(|m| m.id.as_str()).collect();
    assert_eq!(ids, vec!["m1", "m2", "m3", "answer-1", "status-1", "follow-up-2"]);
    assert!(matches!(s.messages[3].role, MessageRole::Engineer));
    assert_eq!(s.messages[3].content, "现有技术用单节点");
    assert_eq!(s.disclosure.version, 2);
    assert!(s.validation_issues.is_empty());

    let s = submit_answer(s, "阈值 0.8".to_string());
    assert!(matches!(s.stage, SessionStage::AdvisoryComplete));
    assert_eq!(s.progress.current_question_index, 2);
    assert!(!s.actions.can_skip);
    assert!(s.actions.can_submit && s.actions.can_download && s.actions.can_terminate);
    let last = s.messages.last().unwrap();
    assert_eq!(last.id, "advisory-complete");
    assert_eq!(
        last.content,
        "当前交底书信息已较为完整，可以继续补充，也可以直接下载当前版本。"
    );
    assert_eq!(s.disclosure.version, 3);
    assert_eq!(s.validation_issues.len(), 1);
    assert_eq!(s.validation_issues[0].code, "missing_marker_implementation");
}

#[test]
fn skipping_reaches_the_same_step_as_answering() {
    let answered = submit_answer(start(), "a".to_string());
    let skipped = skip_question(start());
    assert_eq!(answered.progress.current_question_index, skipped.progress.current_question_index);
    assert_eq!(answered.disclosure.version, skipped.disclosure.version);
    assert_eq!(answered.validation_issues.len(), skipped.validation_issues.len());
    let ids: Vec<&str> = skipped.messages.iter().map(|m| m.id.as_str()).collect();
    assert_eq!(ids, vec!["m1", "m2", "m3", "skip-1", "follow-up-2"]);
    let done = skip_question(skipped);
    assert_eq!(
        done.messages.last().unwrap().content,
        "当前交底书已达到演示级完整度。仍有待工程师补充项，但你现在可以终止或下载当前版本。"
    );
}

#[test]
fn steps_past_the_end_stay_complete() {
    let s = skip_question(skip_question(start()));
    let s = submit_answer(s, "more".to_string());
    assert!(matches!(s.stage, SessionStage::AdvisoryComplete));
    assert_eq!(s.progress.current_question_index, 2);
    assert_eq!(s.disclosure.version, 4);
    let ids: Vec<&str> = s.messages.iter().rev().take(3).map(|m| m.id.as_str()).collect();
    assert_eq!(ids, vec!["advisory-complete", "status-3", "answer-3"]);
}

#[test]
fn update_settings_records_the_mode() {
    let s = update_settings(UpdateSettingsRequest {
        session: start(),
        settings: DemoSettings {
            pdf_mode: PdfProcessingMode::LocalPreprocess,
        },
    });
    assert!(matches!(s.settings.pdf_mode, PdfProcessingMode::LocalPreprocess));
    let last = s.messages.last().unwrap();
    assert_eq!(last.id, "settings-updated");
    assert_eq!(last.content, "PDF 处理模式已更新为本地预处理。");
    let s = update_settings(UpdateSettingsRequest {
        session: s,
        settings: DemoSettings {
            pdf_mode: PdfProcessingMode::DirectToModel,
        },
    });
    assert_eq!(s.messages.last().unwrap().content, "PDF 处理模式已更新为直接提交大模型。");
    assert_eq!(s.messages.len(), 5);
}

#[test]
fn terminate_keeps_download_only() {
    let s = terminate_session(SessionRequest { session: start() });
    assert!(matches!(s.stage, SessionStage::Terminated));
    assert!(!s.actions.can_submit && !s.actions.can_skip && !s.actions.can_terminate);
    assert!(s.actions.can_download);
    let last = s.messages.last().unwrap();
    assert_eq!(last.id, "terminated");
    assert!(matches!(last.intent, MessageIntent::Advisory));
    assert_eq!(s.validation_issues.len(), 1);
}

#[test]
fn download_describes_the_export() {
    let r = download_snapshot(DownloadRequest {
        session: start(),
        include_answer_history: true,
    });
    assert!(matches!(r.status, DownloadStatus::Placeholder));
    assert_eq!(r.file_name, "patentscribe-demo-v1.docx");
    assert_eq!(
        r.message,
        "导出命令链路已接通；当前占位导出将包含 AI 追问记录。当前版本仍存在输出格式提示，正式导出前建议继续修正"
    );
    assert!(r.included_answer_history);
    assert_eq!(r.validation_issue_count, 1);

    let clean = submit_answer(start(), "x".to_string());
    let r = download_snapshot(DownloadRequest {
        session: clean,
        include_answer_history: false,
    });
    assert_eq!(r.file_name, "patentscribe-demo-v2.docx");
    assert_eq!(
        r.message,
        "导出命令链路已接通；当前占位导出默认不包含 AI 追问记录。当前版本已通过 demo 级输出格式校验"
    );
    assert_eq!(r.validation_issue_count, 0);
}

#[test]
fn disclosure_versions_follow_the_step() {
    assert_eq!(disclosure_for_index(0).version, 1);
    assert_eq!(disclosure_for_index(5).version, 6);
    let d = disclosure_for_index(7);
    assert_eq!(d.annotations[0].id, "a5");
    assert_eq!(d.sections[9].id, "questions");
}

#[test]
fn step_range_guards_the_counters() {
    let mut s = start();
    assert!(step_in_range_exec(&s));
    s.progress.current_question_index = usize::MAX;
    assert!(!step_in_range_exec(&s));
    s.progress.current_question_index = (u32::MAX - 1) as usize;
    assert!(!step_in_range_exec(&s));
    s.progress.current_question_index = (u32::MAX - 2) as usize;
    assert!(step_in_range_exec(&s));
}

#[test]
fn later_demo_documents_repeat_step_two() {
    let required = [
        ("title", "一、发明名称"),
        ("field", "二、技术领域"),
        ("background", "三、背景技术及现有缺陷"),
        ("purpose", "四、发明目的"),
        ("technical_solution", "五、技术方案"),
        ("benefits", "六、有益效果"),
        ("figures", "七、附图说明"),
        ("implementation", "八、具体实施方式"),
        ("layout", "🔍 专利挖掘与布局建议"),
        ("questions", "🛠️ 需工程师补齐的关键改进建议"),
    ];
    for index in [0usize, 1, 2, 7] {
        let d = disclosure_for_index(index);
        assert_eq!(d.version as usize, index + 1);
        assert_eq!(d.sections.len(), 10);
        assert_eq!(d.annotations.len(), 2);
        for (s, (id, title)) in d.sections.iter().zip(required.iter()) {
            assert_eq!(s.id, *id);
            assert_eq!(s.title, *title);
            assert!(!s.content.trim().is_empty());
        }
    }
    let two = disclosure_for_index(2);
    let seven = disclosure_for_index(7);
    assert_eq!(seven.version, 8);
    assert_eq!(format!("{:?}", seven.sections), format!("{:?}", two.sections));
    assert_eq!(format!("{:?}", seven.annotations), format!("{:?}", two.annotations));
}

#[test]
fn closing_advice_depends_on_skipping_only_at_the_end() {
    let s0 = start();
    let answered = submit_answer(s0.clone(), "现有技术采用单级调度。".to_string());
    let skipped = skip_question(s0);
    assert_eq!(
        answered.messages.last().unwrap().content,
        skipped.messages.last().unwrap().content
    );
    let last_answered = submit_answer(answered.clone(), "阈值为 0.8。".to_string());
    let last_skipped = skip_question(answered);
    let a = last_answered.messages.last().unwrap();
    let b = last_skipped.messages.last().unwrap();
    assert_eq!(a.id, b.id);
    assert_eq!(
        a.content,
        "当前交底书信息已较为完整，可以继续补充，也可以直接下载当前版本。"
    );
    assert_eq!(
        b.content,
        "当前交底书已达到演示级完整度。仍有待工程师补充项，但你现在可以终止或下载当前版本。"
    );
}
