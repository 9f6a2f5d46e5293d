use patentmate::qwen_session::live_in_range_exec;
use patentmate::ai_payload::{AiDisclosurePayload, AiDisclosureSections, JsonValue};
use patentmate::mock_session::{disclosure_for_index, start_session, submit_answer};
use patentmate::model_config::ModelProviderConfig;
use patentmate::models::{
    AnnotationKind, DemoSettings, DisclosureDocument, DisclosureSection, MessageIntent,
    PdfProcessingMode, SessionStage, StartDemoSessionRequest,
};
use patentmate::qwen_session::{
    api_error_message, assess_generation_attempt, build_live_session, build_prompt,
    build_system_prompt, derive_annotations, disclosure_from_payload,
    extract_conversation_history, first_choice_content, format_disclosure, locate_json_payload,
    payload_parse_error, sanitized_optional, snippet, trim_start_matches_str,
    GeneratedDisclosure, GenerationStep, QwenEndpoint, QwenErrorBody, UserTurn,
};

fn s(x: &str) -> JsonValue {
    JsonValue::String(x.to_string())
}

fn good_sections() -> AiDisclosureSections {
    AiDisclosureSections {
        title: s("一种方法"),
        field: s("领域"),
        background: s("背景"),
        purpose: s("目的"),
        technical_solution: s("方案"),
        benefits: s("| 维度 | 技术突破点 | 效果与价值体现 |\n| a | b | c |"),
        figures: s("图1"),
        implementation: s("实施例"),
        layout: s("| 布局方向 | 保护策略 | 建议权利要求架构 |\n| a | b | c |"),
        questions: s("Q1：问题"),
    }
}

fn payload(sections: AiDisclosureSections, follow_up: Option<&str>) -> AiDisclosurePayload {
    AiDisclosurePayload {
        diagnosis_summary: "诊断".to_string(),
        follow_up_question: follow_up.map(|q| q.to_string()),
        completeness_advisory: Some("  ".to_string()),
        sections,
    }
}

fn demo_session() -> patentmate::models::SessionSnapshot {
    start_session(StartDemoSessionRequest {
        settings: DemoSettings {
            pdf_mode: PdfProcessingMode::DirectToModel,
        },
        source_draft: "草稿".to_string(),
    })
}

#[test]
fn snippet_takes_at_most_42_characters() {
    let long: String = std::iter::repeat('字').take(50).collect();
    assert_eq!(snippet(&long).chars().count(), 42);
    assert_eq!(snippet("  短句  "), "短句");
    assert_eq!(snippet(&format!("  {}{} 尾", "a".repeat(41), " ")), "a".repeat(41));
}

#[test]
fn trim_start_matches_removes_repetitions() {
    assert_eq!(trim_start_matches_str("ababc", "ab"), "c");
    assert_eq!(trim_start_matches_str("abc", ""), "abc");
    assert_eq!(trim_start_matches_str("xab", "ab"), "xab");
}

#[test]
fn first_disclosure_from_payload() {
    let d = disclosure_from_payload(None, &payload(good_sections(), Some("下一问")));
    assert_eq!(d.version, 1);
    assert_eq!(d.sections.len(), 10);
    assert_eq!(d.sections[4].id, "technical_solution");
    assert_eq!(d.sections[4].title, "五、技术方案");
    assert_eq!(d.annotations.len(), 10);
    assert!(d.annotations.iter().all(|a| matches!(a.kind, AnnotationKind::Addition)));
    assert_eq!(d.annotations[0].id, "ann-title-v1");
    assert_eq!(d.annotations[0].excerpt, "一种方法");
    assert_eq!(d.annotations[0].note, "基于 Qwen 分析结果补充了新的工程或专利表达。");
}

#[test]
fn blank_chapters_keep_previous_content() {
    let previous = demo_session();
    let mut secs = good_sections();
    secs.title = JsonValue::Null;
    secs.field = s("   ");
    let d = disclosure_from_payload(Some(&previous), &payload(secs, None));
    assert_eq!(d.version, 2);
    assert_eq!(d.sections[0].content, previous.disclosure.sections[0].content);
    assert_eq!(d.sections[1].content, previous.disclosure.sections[1].content);
    // unchanged chapters carry no annotation
    assert!(d.annotations.iter().all(|a| a.section_id != "title" && a.section_id != "field"));
}

fn doc(sections: Vec<(&str, &str)>, version: u32) -> DisclosureDocument {
    DisclosureDocument {
        version,
        sections: sections
            .into_iter()
            .map(|(id, content)| DisclosureSection {
                id: id.to_string(),
                title: id.to_string(),
                content: content.to_string(),
            })
            .collect(),
        annotations: Vec::new(),
    }
}

#[test]
fn annotations_distinguish_additions_and_rewrites() {
    let prev = doc(vec![("a", "旧的内容"), ("b", "原文"), ("c", "保持"), ("d", "  ")], 3);
    let next = doc(
        vec![("a", "旧的内容又加了一句"), ("b", "改写"), ("c", "保持"), ("d", "新"), ("e", "全新")],
        4,
    );
    let anns = derive_annotations(Some(&prev), &next);
    let summary: Vec<(&str, bool, &str)> = anns
        .iter()
        .map(|a| (a.section_id.as_str(), matches!(a.kind, AnnotationKind::Addition), a.excerpt.as_str()))
        .collect();
    assert_eq!(
        summary,
        vec![
            ("a", true, "又加了一句"),
            ("b", false, "改写"),
            ("d", true, "新"),
            ("e", true, "全新"),
        ]
    );
    assert_eq!(anns[1].id, "ann-b-v4");
    assert_eq!(anns[1].note, "基于 Qwen 分析结果重写了原有描述，使其更适合交底书结构。");
}

#[test]
fn long_growth_counts_as_addition_and_last_duplicate_wins() {
    let prev = doc(vec![("a", "first"), ("a", "abc")], 1);
    let grown = "xyz".repeat(10);
    let next = doc(vec![("a", grown.as_str())], 2);
    let anns = derive_annotations(Some(&prev), &next);
    assert!(matches!(anns[0].kind, AnnotationKind::Addition));
    let next = doc(vec![("a", "abc")], 2);
    assert!(derive_annotations(Some(&prev), &next).is_empty());
    let next = doc(vec![("a", "abcabc")], 2);
    // the new content starts with the previous one repeated: nothing left to quote
    assert!(derive_annotations(Some(&prev), &next).is_empty());
}

#[test]
fn history_and_disclosure_formatting() {
    let s0 = demo_session();
    let s1 = submit_answer(s0, "答案一".to_string());
    let history = extract_conversation_history(&s1);
    assert_eq!(
        history,
        format!(
            "AI 追问：{}\n工程师回答：答案一\nAI 追问：{}",
            "为了强化新颖性论证，请补充：现有技术通常采用什么结构或流程？你的方案与它的关键差异是什么？",
            "为了让具体实施方式可落地，请补充：关键参数范围、触发条件或控制逻辑分别是什么？"
        )
    );
    let mut empty = demo_session();
    empty.messages.clear();
    assert_eq!(extract_conversation_history(&empty), "无历史问答。");
    let d = doc(vec![("t1", "c1"), ("t2", "c2")], 1);
    assert_eq!(format_disclosure(&d), "t1\nc1\n\nt2\nc2");
}

#[test]
fn prompts_for_first_and_retry_attempts() {
    let p = build_prompt("  草稿  ", None, None, 1);
    assert_eq!(
        p,
        "原始工程草稿：\n草稿\n\n当前交底书版本：\n无上一版交底书。\n\n历史问答：\n无历史问答。\n\n这是初次分析，请基于原始草稿生成诊断、交底书和第一条追问。\n\n"
    );
    let session = demo_session();
    let turn = UserTurn::Answer("补充".to_string());
    let p = build_prompt("草稿", Some(&session), Some(&turn), 2);
    assert!(p.contains("（省略上一版全文以节省空间，请基于你已知的上下文重新生成完整 10 个 sections）"));
    assert!(p.contains("本轮工程师补充：补充"));
    assert!(p.contains("⚠️ 这是第 2 次生成尝试。"));
    assert!(p.ends_with("5. 每段内容精练，总输出控制在 3000 tokens 以内"));
    let p = build_prompt("草稿", Some(&session), Some(&UserTurn::Skip), 1);
    assert!(p.contains(&format_disclosure(&session.disclosure)));
    assert!(p.contains("本轮工程师选择跳过当前追问"));
    assert!(build_system_prompt().starts_with("你是一位资深专利工程师"));
}

fn generated(follow_up: Option<&str>, limit: bool) -> GeneratedDisclosure {
    GeneratedDisclosure {
        diagnosis_summary: "诊断结论".to_string(),
        follow_up_question: follow_up.map(|q| q.to_string()),
        completeness_advisory: None,
        disclosure: disclosure_for_index(1),
        attempts: if limit { 3 } else { 1 },
        reached_retry_limit: limit,
    }
}

#[test]
fn first_live_session() {
    let settings = DemoSettings {
        pdf_mode: PdfProcessingMode::LocalPreprocess,
    };
    let s = build_live_session("qwen-live-session", settings, "草稿".to_string(), None, None, generated(Some("问题？"), false));
    let ids: Vec<&str> = s.messages.iter().map(|m| m.id.as_str()).collect();
    assert_eq!(ids, vec!["live-start", "diagnosis-1", "follow-up-1"]);
    assert!(matches!(s.stage, SessionStage::AwaitingAnswer));
    assert_eq!(s.progress.current_question_index, 0);
    assert_eq!(s.progress.total_questions, 1);
    assert_eq!(s.retry_metadata.attempt_count, 1);
    assert!(s.validation_issues.is_empty());
    assert!(s.actions.can_skip);
}

#[test]
fn live_answer_without_follow_up_completes() {
    let settings = DemoSettings {
        pdf_mode: PdfProcessingMode::LocalPreprocess,
    };
    let first = build_live_session("qwen-live-session", settings, "草稿".to_string(), None, None, generated(Some("问题？"), false));
    let s = build_live_session(
        "qwen-live-session",
        settings,
        "草稿".to_string(),
        Some(first),
        Some(UserTurn::Answer("回答".to_string())),
        generated(Some("  "), true),
    );
    let ids: Vec<&str> = s.messages.iter().map(|m| m.id.as_str()).collect();
    assert_eq!(
        ids,
        vec![
            "live-start",
            "diagnosis-1",
            "follow-up-1",
            "answer-1",
            "live-status-1",
            "diagnosis-1",
            "validation-warning-1",
            "advisory-1"
        ]
    );
    assert!(matches!(s.stage, SessionStage::AdvisoryComplete));
    assert!(matches!(s.messages[7].intent, MessageIntent::Advisory));
    assert_eq!(
        s.messages[7].content,
        "当前交底书信息已较为完整，可以继续补充，也可以直接下载当前版本。"
    );
    assert_eq!(s.progress.current_question_index, 1);
    assert_eq!(s.progress.total_questions, 1);
    assert!(!s.actions.can_skip);
    assert_eq!(s.retry_metadata.attempt_count, 3);
}

#[test]
fn assessing_attempts() {
    match assess_generation_attempt(None, payload(good_sections(), Some(" 下一问 ")), 1) {
        GenerationStep::Finished(g) => {
            assert_eq!(g.attempts, 1);
            assert!(!g.reached_retry_limit);
            assert_eq!(g.follow_up_question.as_deref(), Some("下一问"));
            assert_eq!(g.completeness_advisory, None);
            assert_eq!(g.diagnosis_summary, "诊断");
        }
        GenerationStep::Retry(_) => panic!("a clean reply finishes"),
    }
    let mut bad = good_sections();
    bad.questions = s("没有问答格式");
    match assess_generation_attempt(None, payload(bad, None), 2) {
        GenerationStep::Retry(n) => assert_eq!(n, 3),
        GenerationStep::Finished(_) => panic!("an error-level issue is retried"),
    }
    let mut bad = good_sections();
    bad.questions = s("没有问答格式");
    match assess_generation_attempt(None, payload(bad, None), 3) {
        GenerationStep::Finished(g) => {
            assert_eq!(g.attempts, 3);
            assert!(g.reached_retry_limit);
        }
        GenerationStep::Retry(_) => panic!("the last attempt finishes"),
    }
}

#[test]
fn sanitized_values() {
    assert_eq!(sanitized_optional(Some("  x ".to_string())).as_deref(), Some("x"));
    assert_eq!(sanitized_optional(Some(" ".to_string())), None);
    assert_eq!(sanitized_optional(None), None);
}

#[test]
fn endpoint_and_errors() {
    let e = QwenEndpoint::from_config(&ModelProviderConfig {
        provider: "qwen".to_string(),
        api_url: " https://x/v1 ".to_string(),
        model_name: " qwen-plus".to_string(),
        api_key: "sk-1 ".to_string(),
    });
    assert_eq!((e.api_key.as_str(), e.endpoint.as_str(), e.model.as_str()), ("sk-1", "https://x/v1", "qwen-plus"));
    let body = QwenErrorBody {
        message: "bad key".to_string(),
        code: Some("InvalidApiKey".to_string()),
    };
    assert_eq!(
        api_error_message("401 Unauthorized", "{}".to_string(), Some(body)),
        "Qwen 接口返回 401 Unauthorized：bad key (InvalidApiKey)"
    );
    assert_eq!(
        api_error_message("500 Internal Server Error", "oops".to_string(), None),
        "Qwen 接口返回 500 Internal Server Error：oops"
    );
    assert_eq!(first_choice_content(vec!["a".to_string(), "b".to_string()]), Ok("a".to_string()));
    assert_eq!(
        first_choice_content(Vec::new()),
        Err("Qwen 未返回 choices[0].message.content。".to_string())
    );
}

#[test]
fn locating_the_payload() {
    assert_eq!(locate_json_payload("```json\n{\"a\":1}\n```"), Ok("{\"a\":1}".to_string()));
    assert_eq!(
        locate_json_payload("  没有 JSON  "),
        Err("Qwen 返回内容中未找到完整的 JSON 对象：没有 JSON".to_string())
    );
    let long = "字".repeat(300);
    let e = locate_json_payload(&long).err().unwrap();
    assert_eq!(e.chars().count(), "Qwen 返回内容中未找到完整的 JSON 对象：".chars().count() + 200);
    assert_eq!(
        payload_parse_error(" {bad ", "expected value"),
        "Qwen JSON 解析失败：expected value；原始内容前200字符：{bad"
    );
}

#[test]
fn live_range_guards_the_counters() {
    let mut session = demo_session();
    assert!(live_in_range_exec(Some(&session), Some(&UserTurn::Skip), &generated(Some("q"), false)));
    session.progress.current_question_index = usize::MAX;
    assert!(!live_in_range_exec(Some(&session), Some(&UserTurn::Skip), &generated(None, false)));
    assert!(live_in_range_exec(Some(&session), None, &generated(None, false)));
    assert!(!live_in_range_exec(Some(&session), None, &generated(Some("q"), false)));
    assert!(live_in_range_exec(Some(&session), None, &generated(Some("  "), false)));
    assert!(live_in_range_exec(None, None, &generated(Some("q"), false)));
}

#[test]
fn unchanged_document_gets_no_annotations() {
    let d = disclosure_for_index(2);
    assert!(derive_annotations(Some(&d), &d).is_empty());
    let d = doc(vec![("a", "x"), ("b", "y")], 5);
    assert!(derive_annotations(Some(&d), &d).is_empty());
}
