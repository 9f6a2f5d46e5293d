use patentmate::model_config::{
    get_status, is_supported_provider, mask_api_key, trimmed_option, ModelProviderConfig,
    ModelProviderConfigState,
};
use patentmate::models::ModelProviderStatusKind;

fn config(provider: &str, url: &str, model: &str, key: &str) -> ModelProviderConfig {
    ModelProviderConfig {
        provider: provider.to_string(),
        api_url: url.to_string(),
        model_name: model.to_string(),
        api_key: key.to_string(),
    }
}

#[test]
fn provider_slug_is_trimmed_and_lower_case() {
    assert_eq!(config(" QWen ", "u", "m", "k").provider_slug(), "qwen");
    assert_eq!(config("Aliyun-DashScope", "u", "m", "k").provider_slug(), "aliyun-dashscope");
    assert_eq!(config("ÄQ", "u", "m", "k").provider_slug(), "Äq");
}

#[test]
fn supported_providers() {
    for p in ["qwen", "dashscope", "aliyun-dashscope", "aliyun_dashscope"] {
        assert!(is_supported_provider(p));
    }
    assert!(!is_supported_provider("openai"));
    assert!(!is_supported_provider("QWEN"));
    assert!(!is_supported_provider(""));
}

#[test]
fn api_key_presence_ignores_whitespace() {
    assert!(config("qwen", "u", "m", " sk-1 ").has_api_key());
    assert!(!config("qwen", "u", "m", " \t").has_api_key());
}

#[test]
fn validate_reports_first_missing_setting() {
    assert!(config("qwen", "u", "m", "").validate().is_ok());
    assert_eq!(config(" ", "", "", "").validate().unwrap_err(), "模型配置缺少 PROVIDER");
    assert_eq!(config("q", " ", "", "").validate().unwrap_err(), "模型配置缺少 API_URL");
    assert_eq!(config("q", "u", "", "").validate().unwrap_err(), "模型配置缺少 MODEL_NAME");
}

#[test]
fn template_has_defaults_and_no_key() {
    let t = ModelProviderConfig::template();
    assert_eq!(t.provider, "qwen");
    assert_eq!(
        t.api_url,
        "https://dashscope.aliyuncs.com/compatible-mode/v1/chat/completions"
    );
    assert_eq!(t.model_name, "qwen-plus");
    assert_eq!(t.api_key, "");
}

#[test]
fn mask_shows_last_four_characters() {
    assert_eq!(mask_api_key(" sk-abcdef123 ").as_deref(), Some("已配置（后 4 位：f123）"));
    assert_eq!(mask_api_key("ab").as_deref(), Some("已配置（后 4 位：ab）"));
    assert_eq!(mask_api_key("密钥一二三四五").as_deref(), Some("已配置（后 4 位：二三四五）"));
    assert_eq!(mask_api_key("  "), None);
}

#[test]
fn trimmed_option_drops_blank_values() {
    assert_eq!(trimmed_option("  x y ").as_deref(), Some("x y"));
    assert_eq!(trimmed_option(" \n"), None);
}

#[test]
fn load_without_key_falls_back() {
    let s = ModelProviderConfigState::load(Ok(config("qwen", "u", "m", "")), "/c/model-provider.json".to_string(), true).unwrap();
    assert!(s.config.is_none());
    assert!(s.created_template);
    assert_eq!(
        s.fallback_notice(),
        "未检测到可用模型配置，已在 /c/model-provider.json 生成 model-provider.json 模板。填写 PROVIDER、API_URL、MODEL_NAME、API_KEY 后，Tauri 桌面端会自动切换到实时分析；当前已回退到本地 mock 会话。"
    );
    let s = ModelProviderConfigState::load(Ok(config("", "", "", " ")), "/p".to_string(), false).unwrap();
    assert_eq!(
        s.fallback_notice(),
        "未检测到可用的 API_KEY，已回退到本地 mock 会话。请在 /p 中通过配置文件填写 PROVIDER、API_URL、MODEL_NAME、API_KEY 后重试。"
    );
}

#[test]
fn load_with_key_validates() {
    let s = ModelProviderConfigState::load(Ok(config("Qwen", "u", "m", "k")), "/p".to_string(), false).unwrap();
    assert_eq!(s.config.unwrap().provider, "Qwen");
    let e = ModelProviderConfigState::load(Ok(config("qwen", "u", " ", "k")), "/p".to_string(), false)
        .err()
        .unwrap();
    assert_eq!(e, "模型配置缺少 MODEL_NAME。配置文件：/p");
    let e = ModelProviderConfigState::load(Err("expected value at line 1".to_string()), "/p".to_string(), false)
        .err()
        .unwrap();
    assert_eq!(e, "模型配置文件解析失败：/p (expected value at line 1)");
}

#[test]
fn status_for_each_kind() {
    let ready = get_status(Ok(config(" qwen ", " https://x ", "qwen-plus", "sk-12345")), "/p".to_string(), false);
    assert!(matches!(ready.status, ModelProviderStatusKind::Ready));
    assert_eq!(ready.message, "模型配置已通过校验，新的桌面会话会直接走实时分析。");
    assert_eq!(ready.provider.as_deref(), Some("qwen"));
    assert_eq!(ready.api_url.as_deref(), Some("https://x"));
    assert!(ready.has_api_key);
    assert_eq!(ready.api_key_preview.as_deref(), Some("已配置（后 4 位：2345）"));
    assert_eq!(ready.config_path, "/p");

    let needs = get_status(Ok(config("qwen", "u", "m", "")), "/p".to_string(), true);
    assert!(matches!(needs.status, ModelProviderStatusKind::NeedsConfiguration));
    assert_eq!(needs.message, "模板已生成，填写 API_KEY 后即可切换到实时分析。");
    assert_eq!(needs.api_key_preview, None);
    let needs = get_status(Ok(config("qwen", "u", "m", "")), "/p".to_string(), false);
    assert_eq!(needs.message, "配置文件已读取，但 API_KEY 仍为空，当前会回退到本地 mock。");

    let unsupported = get_status(Ok(config(" OpenAI ", "u", "m", "k")), "/p".to_string(), false);
    assert!(matches!(unsupported.status, ModelProviderStatusKind::UnsupportedProvider));
    assert_eq!(
        unsupported.message,
        "PROVIDER=OpenAI 暂不支持。当前仅支持 qwen / dashscope 兼容链路。"
    );

    let invalid = get_status(Ok(config("qwen", "", "m", "k")), "/p".to_string(), false);
    assert!(matches!(invalid.status, ModelProviderStatusKind::InvalidConfig));
    assert_eq!(invalid.message, "模型配置缺少 API_URL");
    assert_eq!(invalid.api_url, None);

    let broken = get_status(Err("EOF while parsing".to_string()), "/p".to_string(), true);
    assert!(matches!(broken.status, ModelProviderStatusKind::InvalidConfig));
    assert_eq!(broken.message, "模型配置文件不是合法 JSON：EOF while parsing");
    assert!(broken.created_template);
    assert!(!broken.has_api_key);
    assert_eq!(broken.provider, None);
}
