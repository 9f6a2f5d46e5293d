use patentmate::model_config::get_status;
use patentmate::models::ModelProviderStatusKind;
use patentmate::mock_session::start_session;
use patentmate::model_config::{ModelProviderConfig, ModelProviderConfigState};
use patentmate::models::{DemoSettings, PdfProcessingMode, StartDemoSessionRequest};
use patentmate::session_service::{
    prepare_start_request, resolve_runtime, skip_with_mock, start_with_mock, submit_with_mock,
    with_mock_notice, RuntimeTarget,
};

fn request(draft: &str) -> StartDemoSessionRequest {
    StartDemoSessionRequest {
        settings: DemoSettings {
            pdf_mode: PdfProcessingMode::LocalPreprocess,
        },
        source_draft: draft.to_string(),
    }
}

fn state(provider: &str, key: &str) -> ModelProviderConfigState {
    ModelProviderConfigState {
        config: if key.is_empty() {
            None
        } else {
            Some(ModelProviderConfig {
                provider: provider.to_string(),
                api_url: "u".to_string(),
                model_name: "m".to_string(),
                api_key: key.to_string(),
            })
        },
        config_path: "/cfg/model-provider.json".to_string(),
        created_template: false,
    }
}

#[test]
fn blank_draft_is_refused() {
    let e = prepare_start_request(request(" \n ")).err().unwrap();
    assert_eq!(e, "请先输入待分析的交底草稿，再启动会话。");
    let ok = prepare_start_request(request(" 草稿 ")).ok().unwrap();
    assert_eq!(ok.source_draft, "草稿");
}

#[test]
fn runtime_follows_the_configuration() {
    match resolve_runtime(state("  DashScope ", "k")).ok().unwrap() {
        RuntimeTarget::Live(c) => assert_eq!(c.api_key, "k"),
        RuntimeTarget::Mock(_) => panic!("expected the live model"),
    }
    match resolve_runtime(state("qwen", "")).ok().unwrap() {
        RuntimeTarget::Mock(n) => assert!(n.starts_with("未检测到可用的 API_KEY")),
        RuntimeTarget::Live(_) => panic!("expected the offline demo"),
    }
    let e = resolve_runtime(state(" OpenAI", "k")).err().unwrap();
    assert_eq!(
        e,
        "模型配置文件中的 PROVIDER=openai 暂不支持。当前仅支持 qwen / dashscope 兼容链路。配置文件：/cfg/model-provider.json"
    );
}

#[test]
fn notice_is_added_once_in_front() {
    let s = start_with_mock(request("草稿"), "离线");
    assert_eq!(s.messages.len(), 4);
    assert_eq!(s.messages[0].id, "mock-backend-notice");
    assert_eq!(s.messages[0].content, "离线");
    let again = with_mock_notice(s, "另一条");
    assert_eq!(again.messages.len(), 4);
    assert_eq!(again.messages[0].content, "离线");
    let next = submit_with_mock(again, "答".to_string(), "离线");
    assert_eq!(next.messages.len(), 7);
    assert_eq!(next.messages[0].id, "mock-backend-notice");
    let next = skip_with_mock(next, "离线");
    assert_eq!(next.messages.iter().filter(|m| m.id == "mock-backend-notice").count(), 1);
}

#[test]
fn notice_is_added_to_a_session_without_one() {
    let s = start_session(request("x"));
    let s = with_mock_notice(s, "提示");
    assert_eq!(s.messages[0].id, "mock-backend-notice");
    assert_eq!(s.messages[1].id, "m1");
}

#[test]
fn ready_status_goes_with_the_live_runtime() {
    let cfg = ModelProviderConfig {
        provider: "Qwen".to_string(),
        api_url: "https://x".to_string(),
        model_name: "m".to_string(),
        api_key: "sk".to_string(),
    };
    let status = get_status(Ok(cfg.clone()), "/p".to_string(), false);
    assert!(matches!(status.status, ModelProviderStatusKind::Ready));
    let loaded = ModelProviderConfigState::load(Ok(cfg), "/p".to_string(), false).ok().unwrap();
    assert!(matches!(resolve_runtime(loaded), Ok(RuntimeTarget::Live(_))));
}
