//! Rules for the model-provider configuration file: what counts as a usable
//! configuration, what the settings screen is told about it, and the notice
//! shown when the demo falls back to the offline session.
use vstd::prelude::*;

use crate::models::{ModelProviderStatus, ModelProviderStatusKind, ModelProviderStatusView};
use crate::text::{
    cat3, chars_of, is_blank, last_chars, lower_ascii, owned, string_of_range, to_ascii_lowercase_str,
    trim, trim_bounds, trim_str,
};

verus! {

pub const DEFAULT_QWEN_ENDPOINT: &'static str =
    "https://dashscope.aliyuncs.com/compatible-mode/v1/chat/completions";

pub const DEFAULT_QWEN_MODEL: &'static str = "qwen-plus";

pub const DEFAULT_PROVIDER: &'static str = "qwen";

pub const CONFIG_FILE_NAME: &'static str = "model-provider.json";

pub const MISSING_PROVIDER: &'static str = "模型配置缺少 PROVIDER";

pub const MISSING_API_URL: &'static str = "模型配置缺少 API_URL";

pub const MISSING_MODEL_NAME: &'static str = "模型配置缺少 MODEL_NAME";

pub const UNSUPPORTED_TAIL: &'static str = " 暂不支持。当前仅支持 qwen / dashscope 兼容链路。";

pub const TEMPLATE_CREATED_NOTE: &'static str = "模板已生成，填写 API_KEY 后即可切换到实时分析。";

pub const KEY_MISSING_NOTE: &'static str = "配置文件已读取，但 API_KEY 仍为空，当前会回退到本地 mock。";

pub const READY_NOTE: &'static str = "模型配置已通过校验，新的桌面会话会直接走实时分析。";

pub const NOTICE_CREATED_HEAD: &'static str = "未检测到可用模型配置，已在 ";

pub const NOTICE_CREATED_TAIL: &'static str =
    " 生成 model-provider.json 模板。填写 PROVIDER、API_URL、MODEL_NAME、API_KEY 后，Tauri 桌面端会自动切换到实时分析；当前已回退到本地 mock 会话。";

pub const NOTICE_KEY_HEAD: &'static str = "未检测到可用的 API_KEY，已回退到本地 mock 会话。请在 ";

pub const NOTICE_KEY_TAIL: &'static str =
    " 中通过配置文件填写 PROVIDER、API_URL、MODEL_NAME、API_KEY 后重试。";

/// The four settings of the model-provider configuration file.
#[derive(Debug, Clone)]
pub struct ModelProviderConfig {
    pub provider: String,
    pub api_url: String,
    pub model_name: String,
    pub api_key: String,
}

#[verifier::ext_equal]
pub struct ModelProviderConfigView {
    pub provider: Seq<char>,
    pub api_url: Seq<char>,
    pub model_name: Seq<char>,
    pub api_key: Seq<char>,
}

impl View for ModelProviderConfig {
    type V = ModelProviderConfigView;

    open spec fn view(&self) -> ModelProviderConfigView {
        ModelProviderConfigView {
            provider: self.provider@,
            api_url: self.api_url@,
            model_name: self.model_name@,
            api_key: self.api_key@,
        }
    }
}

/// An API key is present once surrounding whitespace is ignored.
pub open spec fn has_key(c: ModelProviderConfigView) -> bool {
    trim(c.api_key).len() > 0
}

/// The provider name, trimmed and in ASCII lower case.
pub open spec fn slug(c: ModelProviderConfigView) -> Seq<char> {
    lower_ascii(trim(c.provider))
}

/// The first missing setting among provider, API URL and model name, if any.
pub open spec fn config_error(c: ModelProviderConfigView) -> Option<Seq<char>> {
    if trim(c.provider).len() == 0 {
        Some(MISSING_PROVIDER@)
    } else if trim(c.api_url).len() == 0 {
        Some(MISSING_API_URL@)
    } else if trim(c.model_name).len() == 0 {
        Some(MISSING_MODEL_NAME@)
    } else {
        None
    }
}

/// The provider slugs served by the live analysis path.
pub open spec fn supported_slug(s: Seq<char>) -> bool {
    s == "qwen"@ || s == "dashscope"@ || s == "aliyun-dashscope"@ || s == "aliyun_dashscope"@
}

impl ModelProviderConfig {
    /// The configuration written as a template when no file exists yet.
    pub fn template() -> (c: ModelProviderConfig)
        ensures
            c@ == (ModelProviderConfigView {
                provider: DEFAULT_PROVIDER@,
                api_url: DEFAULT_QWEN_ENDPOINT@,
                model_name: DEFAULT_QWEN_MODEL@,
                api_key: Seq::empty(),
            }),
            !has_key(c@),
    {
        ModelProviderConfig {
            provider: owned(DEFAULT_PROVIDER),
            api_url: owned(DEFAULT_QWEN_ENDPOINT),
            model_name: owned(DEFAULT_QWEN_MODEL),
            api_key: String::new(),
        }
    }

    pub fn has_api_key(&self) -> (b: bool)
        ensures
            b == has_key(self@),
    {
        !is_blank(self.api_key.as_str())
    }

    pub fn provider_slug(&self) -> (s: String)
        ensures
            s@ == slug(self@),
    {
        let t = trim_str(self.provider.as_str());
        to_ascii_lowercase_str(t.as_str())
    }

    /// Succeeds exactly when provider, API URL and model name are all present.
    pub fn validate(&self) -> (r: Result<(), String>)
        ensures
            r is Ok <==> config_error(self@) is None,
            r matches Err(e) ==> config_error(self@) == Some(e@),
    {
        if is_blank(self.provider.as_str()) {
            return Err(owned(MISSING_PROVIDER));
        }
        if is_blank(self.api_url.as_str()) {
            return Err(owned(MISSING_API_URL));
        }
        if is_blank(self.model_name.as_str()) {
            return Err(owned(MISSING_MODEL_NAME));
        }
        Ok(())
    }
}

/// Whether `provider_slug` names a provider that the live path serves.
pub fn is_supported_provider(provider_slug: &str) -> (b: bool)
    ensures
        b == supported_slug(provider_slug@),
{
    crate::text::str_eq(provider_slug, "qwen") || crate::text::str_eq(provider_slug, "dashscope")
        || crate::text::str_eq(provider_slug, "aliyun-dashscope") || crate::text::str_eq(
        provider_slug,
        "aliyun_dashscope",
    )
}

/// The trimmed value, or nothing when it is blank.
pub open spec fn trimmed_opt(value: Seq<char>) -> Option<Seq<char>> {
    if trim(value).len() == 0 {
        None
    } else {
        Some(trim(value))
    }
}

/// What the settings screen shows of an API key: only its last four characters.
pub open spec fn masked_key(key: Seq<char>) -> Option<Seq<char>> {
    if trim(key).len() == 0 {
        None
    } else {
        Some("已配置（后 4 位："@ + last_chars(trim(key), 4) + "）"@)
    }
}

pub fn trimmed_option(value: &str) -> (r: Option<String>)
    ensures
        opt_seq(r) == trimmed_opt(value@),
{
    let t = trim_str(value);
    if t.as_str().is_empty() {
        None
    } else {
        Some(t)
    }
}

/// The view of an optional string.
pub open spec fn opt_seq(o: Option<String>) -> Option<Seq<char>> {
    crate::models::opt_view(o)
}

pub fn mask_api_key(api_key: &str) -> (r: Option<String>)
    ensures
        opt_seq(r) == masked_key(api_key@),
{
    let v = chars_of(api_key);
    let (lo, hi) = trim_bounds(&v);
    if lo == hi {
        return None;
    }
    let start: usize = if hi - lo <= 4 {
        lo
    } else {
        hi - 4
    };
    let suffix = string_of_range(&v, start, hi);
    proof {
        let t = v@.subrange(lo as int, hi as int);
        assert(suffix@ =~= last_chars(t, 4));
    }
    Some(cat3("已配置（后 4 位：", suffix.as_str(), "）"))
}

/// The configuration file as loaded: the usable configuration (if the file
/// holds an API key), the file's location, and whether a template was just written.
pub struct ModelProviderConfigState {
    pub config: Option<ModelProviderConfig>,
    pub config_path: String,
    pub created_template: bool,
}

pub open spec fn fallback_notice_spec(path: Seq<char>, created_template: bool) -> Seq<char> {
    if created_template {
        NOTICE_CREATED_HEAD@ + path + NOTICE_CREATED_TAIL@
    } else {
        NOTICE_KEY_HEAD@ + path + NOTICE_KEY_TAIL@
    }
}

/// What loading yields for a parse outcome (`Err` holds the parser's message).
pub open spec fn load_spec(
    parsed: Result<ModelProviderConfigView, Seq<char>>,
    path: Seq<char>,
) -> Result<Option<ModelProviderConfigView>, Seq<char>> {
    match parsed {
        Err(e) => Err("模型配置文件解析失败："@ + path + " ("@ + e + ")"@),
        Ok(c) => if !has_key(c) {
            Ok(None)
        } else {
            match config_error(c) {
                Some(m) => Err(m + "。配置文件："@ + path),
                None => Ok(Some(c)),
            }
        },
    }
}

pub open spec fn parsed_view(parsed: Result<ModelProviderConfig, String>) -> Result<
    ModelProviderConfigView,
    Seq<char>,
> {
    match parsed {
        Ok(c) => Ok(c@),
        Err(e) => Err(e@),
    }
}

pub open spec fn state_config_view(s: ModelProviderConfigState) -> Option<ModelProviderConfigView> {
    match s.config {
        Some(c) => Some(c@),
        None => None,
    }
}

impl ModelProviderConfigState {
    /// Builds the state from the outcome of parsing the configuration file.
    pub fn load(
        parsed: Result<ModelProviderConfig, String>,
        config_path: String,
        created_template: bool,
    ) -> (r: Result<Self, String>)
        ensures
            match (r, load_spec(parsed_view(parsed), config_path@)) {
                (Ok(s), Ok(c)) => state_config_view(s) == c && s.config_path@ == config_path@
                    && s.created_template == created_template,
                (Err(e), Err(m)) => e@ == m,
                _ => false,
            },
    {
        match parsed {
            Err(error) => {
                let mut m = owned("模型配置文件解析失败：");
                m.append(config_path.as_str());
                m.append(" (");
                m.append(error.as_str());
                m.append(")");
                Err(m)
            },
            Ok(config) => {
                if !config.has_api_key() {
                    return Ok(ModelProviderConfigState { config: None, config_path, created_template });
                }
                match config.validate() {
                    Err(message) => {
                        let mut m = message;
                        m.append("。配置文件：");
                        m.append(config_path.as_str());
                        Err(m)
                    },
                    Ok(()) => Ok(
                        ModelProviderConfigState { config: Some(config), config_path, created_template },
                    ),
                }
            },
        }
    }

    /// The notice shown when the session falls back to the offline demo.
    pub fn fallback_notice(&self) -> (r: String)
        ensures
            r@ == fallback_notice_spec(self.config_path@, self.created_template),
    {
        if self.created_template {
            return cat3(NOTICE_CREATED_HEAD, self.config_path.as_str(), NOTICE_CREATED_TAIL);
        }
        cat3(NOTICE_KEY_HEAD, self.config_path.as_str(), NOTICE_KEY_TAIL)
    }
}

/// Status kind and message for a configuration that parsed.
pub open spec fn status_of(c: ModelProviderConfigView, created_template: bool) -> (
    ModelProviderStatusKind,
    Seq<char>,
) {
    match config_error(c) {
        Some(e) => (ModelProviderStatusKind::InvalidConfig, e),
        None => if !supported_slug(slug(c)) {
            (
                ModelProviderStatusKind::UnsupportedProvider,
                "PROVIDER="@ + (match trimmed_opt(c.provider) {
                    Some(p) => p,
                    None => "unknown"@,
                }) + UNSUPPORTED_TAIL@,
            )
        } else if !has_key(c) {
            (
                ModelProviderStatusKind::NeedsConfiguration,
                if created_template {
                    TEMPLATE_CREATED_NOTE@
                } else {
                    KEY_MISSING_NOTE@
                },
            )
        } else {
            (ModelProviderStatusKind::Ready, READY_NOTE@)
        },
    }
}

/// What the settings screen is told for a parse outcome of the configuration file.
pub open spec fn provider_status_spec(
    parsed: Result<ModelProviderConfigView, Seq<char>>,
    path: Seq<char>,
    created_template: bool,
) -> ModelProviderStatusView {
    match parsed {
        Ok(c) => ModelProviderStatusView {
            status: status_of(c, created_template).0,
            message: status_of(c, created_template).1,
            config_path: path,
            created_template,
            provider: trimmed_opt(c.provider),
            api_url: trimmed_opt(c.api_url),
            model_name: trimmed_opt(c.model_name),
            has_api_key: has_key(c),
            api_key_preview: masked_key(c.api_key),
        },
        Err(e) => ModelProviderStatusView {
            status: ModelProviderStatusKind::InvalidConfig,
            message: "模型配置文件不是合法 JSON："@ + e,
            config_path: path,
            created_template,
            provider: None,
            api_url: None,
            model_name: None,
            has_api_key: false,
            api_key_preview: None,
        },
    }
}

/// The provider status for a parse outcome of the configuration file.
pub fn get_status(
    parsed: Result<ModelProviderConfig, String>,
    config_path: String,
    created_template: bool,
) -> (r: ModelProviderStatus)
    ensures
        r@ == provider_status_spec(parsed_view(parsed), config_path@, created_template),
{
    match parsed {
        Ok(config) => {
            let provider = trimmed_option(config.provider.as_str());
            let api_url = trimmed_option(config.api_url.as_str());
            let model_name = trimmed_option(config.model_name.as_str());
            let has_api_key = config.has_api_key();
            let api_key_preview = mask_api_key(config.api_key.as_str());
            let provider_slug = config.provider_slug();
            let (status, message) = match config.validate() {
                Err(error) => (ModelProviderStatusKind::InvalidConfig, error),
                Ok(()) => {
                    if !is_supported_provider(provider_slug.as_str()) {
                        let name = match &provider {
                            Some(p) => owned(p.as_str()),
                            None => owned("unknown"),
                        };
                        (
                            ModelProviderStatusKind::UnsupportedProvider,
                            cat3("PROVIDER=", name.as_str(), UNSUPPORTED_TAIL),
                        )
                    } else if !has_api_key {
                        (
                            ModelProviderStatusKind::NeedsConfiguration,
                            if created_template {
                                owned(TEMPLATE_CREATED_NOTE)
                            } else {
                                owned(KEY_MISSING_NOTE)
                            },
                        )
                    } else {
                        (ModelProviderStatusKind::Ready, owned(READY_NOTE))
                    }
                },
            };
            ModelProviderStatus {
                status,
                message,
                config_path,
                created_template,
                provider,
                api_url,
                model_name,
                has_api_key,
                api_key_preview,
            }
        },
        Err(error) => {
            let mut message = owned("模型配置文件不是合法 JSON：");
            message.append(error.as_str());
            ModelProviderStatus {
                status: ModelProviderStatusKind::InvalidConfig,
                message,
                config_path,
                created_template,
                provider: None,
                api_url: None,
                model_name: None,
                has_api_key: false,
                api_key_preview: None,
            }
        },
    }
}

// ---------------------------------------------------------------------------
// Laws
// ---------------------------------------------------------------------------

/// The key preview shows at most the last four characters of the trimmed key.
pub proof fn lemma_masked_key_reveals_at_most_four(key: Seq<char>)
    ensures
        masked_key(key) is None <==> trim(key).len() == 0,
        masked_key(key) matches Some(m) ==> m == "已配置（后 4 位："@ + last_chars(trim(key), 4)
            + "）"@ && last_chars(trim(key), 4).len() <= 4 && last_chars(trim(key), 4).is_suffix_of(
            trim(key),
        ),
{
    let t = trim(key);
    if t.len() > 4 {
        assert(t.subrange(t.len() - 4, t.len() as int) =~= last_chars(t, 4));
    } else {
        assert(t.subrange(0, t.len() as int) =~= t);
    }
}

/// A reported setting is never blank and carries no surrounding whitespace.
pub proof fn lemma_trimmed_opt_is_trimmed(value: Seq<char>)
    ensures
        trimmed_opt(value) matches Some(t) ==> t.len() > 0 && trim(t) == t,
{
    crate::text::lemma_trim_result(value);
}

/// The provider slug does not depend on ASCII case or surrounding whitespace
/// of the configured name, so `QWEN`, ` qwen ` and `Qwen` are all supported.
pub proof fn lemma_slug_normal_form(c: ModelProviderConfigView)
    ensures
        lower_ascii(trim(slug(c))) == slug(c),
{
    let t = trim(c.provider);
    crate::text::lemma_trim_result(c.provider);
    let l = lower_ascii(t);
    assert forall|k: int| 0 <= k < l.len() implies crate::text::is_ws(#[trigger] l[k]) == crate::text::is_ws(t[k]) by {
    }
    lemma_trim_lower(t);
    assert(lower_ascii(l) =~= l);
}

proof fn lemma_trim_lower(t: Seq<char>)
    requires
        trim(t) == t,
    ensures
        trim(lower_ascii(t)) == lower_ascii(t),
{
    let l = lower_ascii(t);
    crate::text::lemma_trim_result(t);
    if l.len() > 0 {
        assert(!crate::text::is_ws(l[0]));
        assert(!crate::text::is_ws(l.last()));
        crate::text::lemma_trim_start_skip(l, 0);
        assert(l.subrange(0, l.len() as int) =~= l);
        crate::text::lemma_trim_end_cut(l, l.len() as int);
    }
}

/// A complete configuration naming a provider that is not served is reported
/// as unsupported, whatever its API key: adding or removing a key changes
/// neither the status nor the message.
pub proof fn lemma_unsupported_provider_ignores_key(
    c: ModelProviderConfigView,
    key: Seq<char>,
    path: Seq<char>,
    created_template: bool,
)
    requires
        config_error(c) is None,
        !supported_slug(slug(c)),
    ensures
        ({
            let r = provider_status_spec(Ok(c), path, created_template);
            let other = provider_status_spec(
                Ok(ModelProviderConfigView { api_key: key, ..c }),
                path,
                created_template,
            );
            &&& r.status == ModelProviderStatusKind::UnsupportedProvider
            &&& other.status == ModelProviderStatusKind::UnsupportedProvider
            &&& r.message == other.message
            &&& r.message == "PROVIDER="@ + trim(c.provider) + UNSUPPORTED_TAIL@
        }),
{
}

/// For a complete configuration of a served provider, the API key alone
/// decides: with a key the status is Ready, without one it asks for configuration.
pub proof fn lemma_key_decides_for_supported_provider(
    c: ModelProviderConfigView,
    path: Seq<char>,
    created_template: bool,
)
    requires
        config_error(c) is None,
        supported_slug(slug(c)),
    ensures
        ({
            let r = provider_status_spec(Ok(c), path, created_template);
            &&& has_key(c) ==> r.status == ModelProviderStatusKind::Ready
            &&& !has_key(c) ==> r.status == ModelProviderStatusKind::NeedsConfiguration
        }),
{
}

} // verus!
