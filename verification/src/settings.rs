//! Agent settings: shared model slots, per-context (project / chat)
//! configurations, the command review model, the model library, execution
//! graph options and the theme; how a save normalises them and how a stored
//! row reads back.
use vstd::prelude::*;
use vstd::string::StringExecFns;
use crate::model_config::{
    activate_only, config_views, default_config_view, duplicate_configs, first_active,
    kept_configs, law_normalize_idempotent, law_resolve_after_strip, law_resolve_without_reference, law_stored_list_reads_back, library_views, normalize_model_configs,
    normalized_configs, resolve_model_configs_from_library, resolved_list, resolved_view,
    strip_library_config_credentials, strip_library_credentials, stripped_list, stripped_view,
    view_is_empty, view_trimmed, DispatcherModelConfig, LibraryEntryView, ModelConfigView,
    ModelLibraryEntry, without_model_system_prompts,
};
use crate::json_text::{json_string_list, parse_json_string_list};
use crate::text::{
    copy_strings, is_blank_str, is_ws, lemma_trim_idempotent, lemma_trim_of_solid, str_eq, string_views, trim,
    trim_end, trim_start, trim_str, trimmed,
};

verus! {

broadcast use vstd::string::group_string_axioms;

/// Model configurations of one agent context.
#[derive(Debug, Clone, Default)]
pub struct AhaContextConfig {
    pub chat_model_configs: Vec<DispatcherModelConfig>,
    pub summary_model_configs: Vec<DispatcherModelConfig>,
    pub allowed_tools: Vec<String>,
}

/// Model slots shared by every context.
#[derive(Debug, Clone, Default)]
pub struct AhaSharedModels {
    pub vision_model_configs: Vec<DispatcherModelConfig>,
    pub image_model_configs: Vec<DispatcherModelConfig>,
    pub image_edit_model_configs: Vec<DispatcherModelConfig>,
    pub asr_model_configs: Vec<DispatcherModelConfig>,
    pub tts_model_configs: Vec<DispatcherModelConfig>,
    pub embedding_model_configs: Vec<DispatcherModelConfig>,
}

/// Credentials of the image generation and editing tools.
#[derive(Debug, Clone, Default)]
pub struct ImageModelCredentials {
    pub url: String,
    pub api_key: String,
    pub model: String,
    pub edit_model: String,
}

/// The entry a tool uses from a list: the first active one, or else the first.
pub open spec fn tool_entry(s: Seq<ModelConfigView>) -> Option<ModelConfigView> {
    if exists|i: int| 0 <= i < s.len() && (#[trigger] s[i]).active {
        let i = choose|i: int|
            0 <= i < s.len() && (#[trigger] s[i]).active && forall|j: int|
                0 <= j < i ==> !(#[trigger] s[j]).active;
        Some(s[i])
    } else if s.len() > 0 {
        Some(s[0])
    } else {
        None
    }
}

fn tool_entry_index(configs: &Vec<DispatcherModelConfig>) -> (r: Option<usize>)
    ensures
        r is None <==> tool_entry(config_views(configs@)) is None,
        r matches Some(i) ==> i < configs@.len() && tool_entry(config_views(configs@)) == Some(
            configs@[i as int]@,
        ),
{
    let ghost v = config_views(configs@);
    let mut i: usize = 0;
    while i < configs.len()
        invariant
            i <= configs@.len(),
            v == config_views(configs@),
            forall|j: int| 0 <= j < i ==> !(#[trigger] v[j]).active,
        decreases configs@.len() - i,
    {
        if configs[i].active {
            proof {
                assert(v[i as int].active);
                let k = choose|k: int|
                    0 <= k < v.len() && (#[trigger] v[k]).active && forall|j: int|
                        0 <= j < k ==> !(#[trigger] v[j]).active;
                if k < i {
                    assert(!v[k].active);
                }
                if k > i {
                    assert(!v[i as int].active);
                }
                assert(k == i);
            }
            return Some(i);
        }
        i = i + 1;
    }
    if configs.len() > 0 {
        Some(0)
    } else {
        None
    }
}

impl AhaSharedModels {
    /// The gateway, key and model of the image tool's entry, and the model
    /// name of the image-edit entry, each trimmed; empty where a list is empty.
    pub fn image_model_credentials(&self) -> (r: ImageModelCredentials)
        ensures
            (match tool_entry(config_views(self.image_model_configs@)) {
                Some(c) => r.url@ == trim(c.url) && r.api_key@ == trim(c.api_key) && r.model@
                    == trim(c.model),
                None => r.url@.len() == 0 && r.api_key@.len() == 0 && r.model@.len() == 0,
            }),
            (match tool_entry(config_views(self.image_edit_model_configs@)) {
                Some(c) => r.edit_model@ == trim(c.model),
                None => r.edit_model@.len() == 0,
            }),
    {
        let mut credentials = ImageModelCredentials {
            url: String::new(),
            api_key: String::new(),
            model: String::new(),
            edit_model: String::new(),
        };
        match tool_entry_index(&self.image_model_configs) {
            Some(i) => {
                let config = &self.image_model_configs[i];
                credentials.url = trimmed(config.url.as_str());
                credentials.api_key = trimmed(config.api_key.as_str());
                credentials.model = trimmed(config.model.as_str());
            },
            None => {},
        }
        match tool_entry_index(&self.image_edit_model_configs) {
            Some(i) => {
                credentials.edit_model = trimmed(self.image_edit_model_configs[i].model.as_str());
            },
            None => {},
        }
        credentials
    }
}

/// A library entry is enabled unless it says otherwise.
pub fn default_library_entry_enabled() -> (r: bool)
    ensures
        r,
{
    true
}

/// A stored model configuration is active unless it says otherwise.
pub fn default_model_config_active() -> (r: bool)
    ensures
        r,
{
    true
}

/// Options of execution-graph runs.
#[derive(Debug, Clone, Copy, PartialEq, Eq, Structural)]
pub struct GraphExecutionConfig {
    /// Pause each run before its first coding node, until the user resumes.
    pub pause_before_write: bool,
}

pub fn default_pause_before_write() -> (r: bool)
    ensures
        r,
{
    true
}

impl Default for GraphExecutionConfig {
    fn default() -> (r: Self)
        ensures
            r.pause_before_write,
    {
        GraphExecutionConfig { pause_before_write: default_pause_before_write() }
    }
}

/// The review model's default instructions.
pub const DEFAULT_REVIEW_SYSTEM_PROMPT: &'static str = "你是命令安全审查员。依据用户的任务、当前意图、目标环境信息和待执行命令，判断该命令是否可安全执行。\n\n判定原则：\n- 拒绝：不可逆或高危操作，如删除/覆盖系统文件或关键数据（rm -rf 指向根目录或家目录、mkfs、dd 覆写块设备、清空数据库/表）、关机重启、提权后执行破坏性操作、fork 炸弹/资源耗尽、关闭防火墙或清空路由、向外部批量外传敏感数据。\n- 允许：常规只读巡检、查询状态、在用户明确指定目录内的受控写操作。\n- 必须结合「任务」「意图」和「目标环境」综合判断：同一命令在不同上下文风险不同（如 rm 清理临时目录可允许，针对根目录或用户家目录则拒绝）。无法确认影响范围或意图不明时，倾向拒绝。\n\n输出格式：仅一行。`ALLOW` 表示允许；`DENY: <简短中文原因>` 表示拒绝。不要输出任何多余内容。";

pub fn default_review_system_prompt() -> (r: String)
    ensures
        r@ == DEFAULT_REVIEW_SYSTEM_PROMPT@,
{
    String::from_str(DEFAULT_REVIEW_SYSTEM_PROMPT)
}

/// The command review model and its instructions.
#[derive(Debug, Clone)]
pub struct SshReviewConfig {
    pub model_config: DispatcherModelConfig,
    pub system_prompt: String,
}

impl Default for SshReviewConfig {
    fn default() -> (r: Self)
        ensures
            r.model_config@ == default_config_view(),
            r.system_prompt@ == DEFAULT_REVIEW_SYSTEM_PROMPT@,
    {
        SshReviewConfig {
            model_config: DispatcherModelConfig::default(),
            system_prompt: default_review_system_prompt(),
        }
    }
}

impl SshReviewConfig {
    /// Whether a usable review model is configured: its url, api key and
    /// model are all set (not blank).
    pub fn is_configured(&self) -> (r: bool)
        ensures
            r == (trim(self.model_config.url@).len() > 0 && trim(self.model_config.api_key@).len() > 0
                && trim(self.model_config.model@).len() > 0),
    {
        !is_blank_str(self.model_config.url.as_str()) && !is_blank_str(
            self.model_config.api_key.as_str(),
        ) && !is_blank_str(self.model_config.model.as_str())
    }
}

/// The instructions the review model keeps: trimmed, or the default when blank.
pub open spec fn review_prompt(raw: Seq<char>) -> Seq<char> {
    if trim(raw).len() == 0 {
        DEFAULT_REVIEW_SYSTEM_PROMPT@
    } else {
        trim(raw)
    }
}

pub fn normalize_review_prompt(raw: &str) -> (r: String)
    ensures
        r@ == review_prompt(raw@),
{
    let t = trimmed(raw);
    if t.as_str().unicode_len() == 0 {
        default_review_system_prompt()
    } else {
        t
    }
}

pub fn default_theme_preference() -> (r: String)
    ensures
        r@ == "system"@,
{
    String::from_str("system")
}

/// The theme preference: `system`, `light` or `dark` (trimmed); anything else
/// is `system`.
pub open spec fn theme_of(raw: Seq<char>) -> Seq<char> {
    let t = trim(raw);
    if t == "system"@ || t == "light"@ || t == "dark"@ {
        t
    } else {
        "system"@
    }
}

pub fn normalize_theme_preference(raw: &str) -> (r: String)
    ensures
        r@ == theme_of(raw@),
{
    let t = trim_str(raw);
    if str_eq(t, "system") || str_eq(t, "light") || str_eq(t, "dark") {
        String::from_str(t)
    } else {
        default_theme_preference()
    }
}

/// Every agent setting.
#[derive(Debug, Clone)]
pub struct AhaSettingsV2 {
    pub shared: AhaSharedModels,
    pub project: AhaContextConfig,
    pub chat: AhaContextConfig,
    pub context_debug: bool,
    pub review: SshReviewConfig,
    pub model_library: Vec<ModelLibraryEntry>,
    pub graph: GraphExecutionConfig,
    pub theme: String,
}

impl Default for AhaSettingsV2 {
    fn default() -> (r: Self)
        ensures
            r.shared.vision_model_configs@.len() == 0,
            r.project.chat_model_configs@.len() == 0,
            r.chat.chat_model_configs@.len() == 0,
            !r.context_debug,
            r.review.system_prompt@ == DEFAULT_REVIEW_SYSTEM_PROMPT@,
            r.model_library@.len() == 0,
            r.graph.pause_before_write,
            r.theme@ == "system"@,
    {
        AhaSettingsV2 {
            shared: AhaSharedModels {
                vision_model_configs: Vec::new(),
                image_model_configs: Vec::new(),
                image_edit_model_configs: Vec::new(),
                asr_model_configs: Vec::new(),
                tts_model_configs: Vec::new(),
                embedding_model_configs: Vec::new(),
            },
            project: AhaContextConfig {
                chat_model_configs: Vec::new(),
                summary_model_configs: Vec::new(),
                allowed_tools: Vec::new(),
            },
            chat: AhaContextConfig {
                chat_model_configs: Vec::new(),
                summary_model_configs: Vec::new(),
                allowed_tools: Vec::new(),
            },
            context_debug: false,
            review: SshReviewConfig::default(),
            model_library: Vec::new(),
            graph: GraphExecutionConfig::default(),
            theme: default_theme_preference(),
        }
    }
}

/// The ten configuration lists of the settings, in storage order: the six
/// shared slots, then project chat and summary, then chat-agent chat and
/// summary.
pub open spec fn settings_lists(s: AhaSettingsV2) -> Seq<Seq<ModelConfigView>> {
    seq![
        config_views(s.shared.vision_model_configs@),
        config_views(s.shared.image_model_configs@),
        config_views(s.shared.image_edit_model_configs@),
        config_views(s.shared.asr_model_configs@),
        config_views(s.shared.tts_model_configs@),
        config_views(s.shared.embedding_model_configs@),
        config_views(s.project.chat_model_configs@),
        config_views(s.project.summary_model_configs@),
        config_views(s.chat.chat_model_configs@),
        config_views(s.chat.summary_model_configs@),
    ]
}

pub open spec fn library_of(s: AhaSettingsV2) -> Seq<LibraryEntryView> {
    library_views(s.model_library@)
}

/// A configuration without its system prompt.
pub open spec fn without_prompt(c: ModelConfigView) -> ModelConfigView {
    ModelConfigView { system_prompt: Seq::empty(), ..c }
}

/// What a save keeps of list `k`: every list is normalised; the chat agent's
/// chat models lose their system prompts first.
pub open spec fn saved_list(raw: Seq<ModelConfigView>, k: int) -> Seq<ModelConfigView> {
    if k == 8 {
        normalized_configs(raw.map_values(|c: ModelConfigView| without_prompt(c)))
    } else {
        normalized_configs(raw)
    }
}

/// `out` is what a save of `s` keeps and returns: lists as `saved_list` says,
/// the review model trimmed with its instructions defaulted, the theme
/// normalised, and everything else as given.
pub open spec fn save_normalizes(s: AhaSettingsV2, out: AhaSettingsV2) -> bool {
    &&& settings_lists(out) == Seq::new(10, |k: int| saved_list(settings_lists(s)[k], k))
    &&& string_views(out.project.allowed_tools@) == string_views(s.project.allowed_tools@)
    &&& string_views(out.chat.allowed_tools@) == string_views(s.chat.allowed_tools@)
    &&& out.context_debug == s.context_debug
    &&& out.review.model_config@ == view_trimmed(s.review.model_config@)
    &&& out.review.system_prompt@ == review_prompt(s.review.system_prompt@)
    &&& library_of(out) == library_of(s)
    &&& out.graph == s.graph
    &&& out.theme@ == theme_of(s.theme@)
}

fn duplicate_library(library: &Vec<ModelLibraryEntry>) -> (r: Vec<ModelLibraryEntry>)
    ensures
        library_views(r@) == library_views(library@),
{
    let mut out: Vec<ModelLibraryEntry> = Vec::new();
    let n = library.len();
    for i in 0..n
        invariant
            n == library@.len(),
            library_views(out@) == library_views(library@.take(i as int)),
    {
        let e = &library[i];
        let copy = ModelLibraryEntry {
            id: e.id.clone(),
            category: e.category.clone(),
            url: e.url.clone(),
            api_key: e.api_key.clone(),
            model: e.model.clone(),
            alias: e.alias.clone(),
            enabled: e.enabled,
        };
        let ghost before = out@;
        out.push(copy);
        proof {
            assert(library_views(out@) =~= library_views(before).push(library@[i as int]@));
            assert(library_views(library@.take(i + 1)) =~= library_views(library@.take(i as int)).push(
                library@[i as int]@,
            ));
        }
    }
    proof {
        assert(library@.take(n as int) =~= library@);
    }
    out
}

fn normalized_copy(configs: &Vec<DispatcherModelConfig>) -> (r: Vec<DispatcherModelConfig>)
    ensures
        config_views(r@) == normalized_configs(config_views(configs@)),
{
    normalize_model_configs(duplicate_configs(configs.as_slice()))
}

/// The settings a save writes and returns: every list normalised (the chat
/// agent's chat models without system prompts), the review model trimmed and
/// its instructions defaulted, the theme normalised.
pub fn normalize_settings_for_save(settings: &AhaSettingsV2) -> (r: AhaSettingsV2)
    ensures
        save_normalizes(*settings, r),
{
    let chat_without_prompts = without_model_system_prompts(
        settings.chat.chat_model_configs.as_slice(),
    );
    proof {
        assert(config_views(chat_without_prompts@) =~= config_views(
            settings.chat.chat_model_configs@,
        ).map_values(|c: ModelConfigView| without_prompt(c)));
    }
    let r = AhaSettingsV2 {
        shared: AhaSharedModels {
            vision_model_configs: normalized_copy(&settings.shared.vision_model_configs),
            image_model_configs: normalized_copy(&settings.shared.image_model_configs),
            image_edit_model_configs: normalized_copy(&settings.shared.image_edit_model_configs),
            asr_model_configs: normalized_copy(&settings.shared.asr_model_configs),
            tts_model_configs: normalized_copy(&settings.shared.tts_model_configs),
            embedding_model_configs: normalized_copy(&settings.shared.embedding_model_configs),
        },
        project: AhaContextConfig {
            chat_model_configs: normalized_copy(&settings.project.chat_model_configs),
            summary_model_configs: normalized_copy(&settings.project.summary_model_configs),
            allowed_tools: copy_strings(&settings.project.allowed_tools),
        },
        chat: AhaContextConfig {
            chat_model_configs: normalize_model_configs(chat_without_prompts),
            summary_model_configs: normalized_copy(&settings.chat.summary_model_configs),
            allowed_tools: copy_strings(&settings.chat.allowed_tools),
        },
        context_debug: settings.context_debug,
        review: SshReviewConfig {
            model_config: settings.review.model_config.trimmed(),
            system_prompt: normalize_review_prompt(settings.review.system_prompt.as_str()),
        },
        model_library: duplicate_library(&settings.model_library),
        graph: settings.graph,
        theme: normalize_theme_preference(settings.theme.as_str()),
    };
    proof {
        assert(settings_lists(r) =~= Seq::new(
            10,
            |k: int| saved_list(settings_lists(*settings)[k], k),
        ));
    }
    r
}

/// The tool names a stored list holds: the strings of the stored JSON array,
/// or none when the text is not such an array.
pub open spec fn stored_tools(raw: Seq<char>) -> Seq<Seq<char>> {
    match json_string_list(raw) {
        Some(l) => l,
        None => Seq::empty(),
    }
}

/// Reads a stored tool list; text that is not a JSON array of strings reads
/// as an empty list.
pub fn allowed_tools_from_stored(raw: &str) -> (r: Vec<String>)
    ensures
        match json_string_list(raw@) {
            Some(l) => string_views(r@) == l,
            None => r@.len() == 0,
        },
        string_views(r@) == stored_tools(raw@),
{
    match parse_json_string_list(raw) {
        Some(v) => v,
        None => {
            let r: Vec<String> = Vec::new();
            proof {
                assert(string_views(r@) =~= Seq::<Seq<char>>::empty());
            }
            r
        },
    }
}

/// The settings row as the database hands it back: the model columns
/// already decoded (a column that does not decode reads as its default), the
/// tool lists as their stored JSON text.
#[derive(Debug, Clone)]
pub struct SettingsV2Row {
    pub shared_vision_model_configs: Vec<DispatcherModelConfig>,
    pub shared_image_model_configs: Vec<DispatcherModelConfig>,
    pub shared_image_edit_model_configs: Vec<DispatcherModelConfig>,
    pub shared_asr_model_configs: Vec<DispatcherModelConfig>,
    pub shared_tts_model_configs: Vec<DispatcherModelConfig>,
    pub shared_embedding_model_configs: Vec<DispatcherModelConfig>,
    pub project_chat_model_configs: Vec<DispatcherModelConfig>,
    pub project_summary_model_configs: Vec<DispatcherModelConfig>,
    pub project_allowed_tools_json: String,
    pub chat_agent_chat_model_configs: Vec<DispatcherModelConfig>,
    pub chat_agent_summary_model_configs: Vec<DispatcherModelConfig>,
    pub chat_agent_allowed_tools_json: String,
    pub context_debug: i64,
    pub review_model_config: DispatcherModelConfig,
    pub review_system_prompt: String,
    pub model_library: Vec<ModelLibraryEntry>,
    pub graph: GraphExecutionConfig,
    pub theme: String,
}

/// The row's ten lists in storage order.
pub open spec fn row_lists(row: SettingsV2Row) -> Seq<Seq<ModelConfigView>> {
    seq![
        config_views(row.shared_vision_model_configs@),
        config_views(row.shared_image_model_configs@),
        config_views(row.shared_image_edit_model_configs@),
        config_views(row.shared_asr_model_configs@),
        config_views(row.shared_tts_model_configs@),
        config_views(row.shared_embedding_model_configs@),
        config_views(row.project_chat_model_configs@),
        config_views(row.project_summary_model_configs@),
        config_views(row.chat_agent_chat_model_configs@),
        config_views(row.chat_agent_summary_model_configs@),
    ]
}

/// `out` is what the stored row reads back as: each list normalised and its
/// library references resolved, the review model trimmed and resolved, its
/// instructions defaulted, and the other columns as stored.
pub open spec fn row_reads_as(row: SettingsV2Row, out: AhaSettingsV2) -> bool {
    let lib = library_views(row.model_library@);
    &&& settings_lists(out) == Seq::new(
        10,
        |k: int| resolved_list(normalized_configs(row_lists(row)[k]), lib),
    )
    &&& string_views(out.project.allowed_tools@) == stored_tools(row.project_allowed_tools_json@)
    &&& string_views(out.chat.allowed_tools@) == stored_tools(row.chat_agent_allowed_tools_json@)
    &&& out.context_debug == (row.context_debug != 0)
    &&& out.review.model_config@ == resolved_view(view_trimmed(row.review_model_config@), lib)
    &&& out.review.system_prompt@ == review_prompt(row.review_system_prompt@)
    &&& library_of(out) == lib
    &&& out.graph == row.graph
    &&& out.theme == row.theme
}

fn loaded_list(configs: Vec<DispatcherModelConfig>, library: &Vec<ModelLibraryEntry>) -> (r: Vec<
    DispatcherModelConfig,
>)
    ensures
        config_views(r@) == resolved_list(
            normalized_configs(config_views(configs@)),
            library_views(library@),
        ),
{
    let n = normalize_model_configs(configs);
    let ghost nv = config_views(n@);
    let r = resolve_model_configs_from_library(n, library.as_slice());
    proof {
        assert(config_views(r@) =~= resolved_list(nv, library_views(library@)));
    }
    r
}

/// The settings a stored row stands for.
pub fn settings_from_row(row: SettingsV2Row) -> (r: AhaSettingsV2)
    ensures
        row_reads_as(row, r),
{
    let ghost lib = library_views(row.model_library@);
    let ghost lists = row_lists(row);
    let SettingsV2Row {
        shared_vision_model_configs,
        shared_image_model_configs,
        shared_image_edit_model_configs,
        shared_asr_model_configs,
        shared_tts_model_configs,
        shared_embedding_model_configs,
        project_chat_model_configs,
        project_summary_model_configs,
        project_allowed_tools_json,
        chat_agent_chat_model_configs,
        chat_agent_summary_model_configs,
        chat_agent_allowed_tools_json,
        context_debug,
        review_model_config,
        review_system_prompt,
        model_library,
        graph,
        theme,
    } = row;
    let mut review_model = review_model_config.trimmed();
    review_model.resolve_from_library(model_library.as_slice());
    let r = AhaSettingsV2 {
        shared: AhaSharedModels {
            vision_model_configs: loaded_list(shared_vision_model_configs, &model_library),
            image_model_configs: loaded_list(shared_image_model_configs, &model_library),
            image_edit_model_configs: loaded_list(shared_image_edit_model_configs, &model_library),
            asr_model_configs: loaded_list(shared_asr_model_configs, &model_library),
            tts_model_configs: loaded_list(shared_tts_model_configs, &model_library),
            embedding_model_configs: loaded_list(shared_embedding_model_configs, &model_library),
        },
        project: AhaContextConfig {
            chat_model_configs: loaded_list(project_chat_model_configs, &model_library),
            summary_model_configs: loaded_list(project_summary_model_configs, &model_library),
            allowed_tools: allowed_tools_from_stored(project_allowed_tools_json.as_str()),
        },
        chat: AhaContextConfig {
            chat_model_configs: loaded_list(chat_agent_chat_model_configs, &model_library),
            summary_model_configs: loaded_list(chat_agent_summary_model_configs, &model_library),
            allowed_tools: allowed_tools_from_stored(chat_agent_allowed_tools_json.as_str()),
        },
        context_debug: context_debug != 0,
        review: SshReviewConfig {
            model_config: review_model,
            system_prompt: normalize_review_prompt(review_system_prompt.as_str()),
        },
        model_library,
        graph,
        theme,
    };
    proof {
        assert(settings_lists(r) =~= Seq::new(
            10,
            |k: int| resolved_list(normalized_configs(lists[k]), lib),
        ));
    }
    r
}

fn stripped_copy(configs: &Vec<DispatcherModelConfig>) -> (r: Vec<DispatcherModelConfig>)
    ensures
        config_views(r@) == stripped_list(config_views(configs@)),
{
    let r = strip_library_credentials(duplicate_configs(configs.as_slice()));
    assert(config_views(r@) =~= stripped_list(config_views(configs@)));
    r
}

/// `st` is the stored form of `n`: every list and the review model keep no
/// credentials of library references; everything else as in `n`.
pub open spec fn stored_form_of(n: AhaSettingsV2, st: AhaSettingsV2) -> bool {
    &&& settings_lists(st) == Seq::new(10, |k: int| stripped_list(settings_lists(n)[k]))
    &&& string_views(st.project.allowed_tools@) == string_views(n.project.allowed_tools@)
    &&& string_views(st.chat.allowed_tools@) == string_views(n.chat.allowed_tools@)
    &&& st.context_debug == n.context_debug
    &&& st.review.model_config@ == stripped_view(n.review.model_config@)
    &&& st.review.system_prompt@ == n.review.system_prompt@
    &&& library_of(st) == library_of(n)
    &&& st.graph == n.graph
    &&& st.theme@ == n.theme@
}

/// What a save puts in the settings row for `settings`: library references
/// keep only their reference, not the credentials resolved from the library.
pub fn stored_settings(settings: &AhaSettingsV2) -> (r: AhaSettingsV2)
    ensures
        stored_form_of(*settings, r),
{
    let r = AhaSettingsV2 {
        shared: AhaSharedModels {
            vision_model_configs: stripped_copy(&settings.shared.vision_model_configs),
            image_model_configs: stripped_copy(&settings.shared.image_model_configs),
            image_edit_model_configs: stripped_copy(&settings.shared.image_edit_model_configs),
            asr_model_configs: stripped_copy(&settings.shared.asr_model_configs),
            tts_model_configs: stripped_copy(&settings.shared.tts_model_configs),
            embedding_model_configs: stripped_copy(&settings.shared.embedding_model_configs),
        },
        project: AhaContextConfig {
            chat_model_configs: stripped_copy(&settings.project.chat_model_configs),
            summary_model_configs: stripped_copy(&settings.project.summary_model_configs),
            allowed_tools: copy_strings(&settings.project.allowed_tools),
        },
        chat: AhaContextConfig {
            chat_model_configs: stripped_copy(&settings.chat.chat_model_configs),
            summary_model_configs: stripped_copy(&settings.chat.summary_model_configs),
            allowed_tools: copy_strings(&settings.chat.allowed_tools),
        },
        context_debug: settings.context_debug,
        review: SshReviewConfig {
            model_config: strip_library_config_credentials(settings.review.model_config.duplicate()),
            system_prompt: settings.review.system_prompt.clone(),
        },
        model_library: duplicate_library(&settings.model_library),
        graph: settings.graph,
        theme: settings.theme.clone(),
    };
    proof {
        assert(settings_lists(r) =~= Seq::new(10, |k: int| stripped_list(settings_lists(*settings)[k])));
    }
    r
}

/// `row` holds the settings `st` column for column; each tool-list column
/// holds JSON text that reads back as the corresponding list of `st`.
pub open spec fn row_holds(row: SettingsV2Row, st: AhaSettingsV2) -> bool {
    &&& row_lists(row) == settings_lists(st)
    &&& json_string_list(row.project_allowed_tools_json@) == Some(string_views(st.project.allowed_tools@))
    &&& json_string_list(row.chat_agent_allowed_tools_json@) == Some(string_views(st.chat.allowed_tools@))
    &&& row.context_debug == (if st.context_debug {
        1int
    } else {
        0int
    })
    &&& row.review_model_config@ == st.review.model_config@
    &&& row.review_system_prompt@ == st.review.system_prompt@
    &&& library_views(row.model_library@) == library_of(st)
    &&& row.graph == st.graph
    &&& row.theme@ == st.theme@
}

proof fn lemma_review_prompt_idempotent(raw: Seq<char>)
    ensures
        review_prompt(review_prompt(raw)) == review_prompt(raw),
{
    if trim(raw).len() == 0 {
        let d = DEFAULT_REVIEW_SYSTEM_PROMPT@;
        reveal_strlit("你是命令安全审查员。依据用户的任务、当前意图、目标环境信息和待执行命令，判断该命令是否可安全执行。\n\n判定原则：\n- 拒绝：不可逆或高危操作，如删除/覆盖系统文件或关键数据（rm -rf 指向根目录或家目录、mkfs、dd 覆写块设备、清空数据库/表）、关机重启、提权后执行破坏性操作、fork 炸弹/资源耗尽、关闭防火墙或清空路由、向外部批量外传敏感数据。\n- 允许：常规只读巡检、查询状态、在用户明确指定目录内的受控写操作。\n- 必须结合「任务」「意图」和「目标环境」综合判断：同一命令在不同上下文风险不同（如 rm 清理临时目录可允许，针对根目录或用户家目录则拒绝）。无法确认影响范围或意图不明时，倾向拒绝。\n\n输出格式：仅一行。`ALLOW` 表示允许；`DENY: <简短中文原因>` 表示拒绝。不要输出任何多余内容。");
        assert(!is_ws(d[0]));
        assert(!is_ws(d[d.len() - 1]));
        lemma_trim_of_solid(d);
    } else {
        lemma_trim_idempotent(raw);
    }
}

proof fn lemma_trimmed_stripped(c: ModelConfigView)
    ensures
        view_trimmed(stripped_view(view_trimmed(c))) == stripped_view(view_trimmed(c)),
{
    lemma_trim_idempotent(c.url);
    lemma_trim_idempotent(c.api_key);
    lemma_trim_idempotent(c.model);
    lemma_trim_idempotent(c.system_prompt);
    lemma_trim_idempotent(c.library_id);
    lemma_trim_idempotent(Seq::<char>::empty());
    assert(trim(Seq::<char>::empty()) =~= Seq::<char>::empty()) by {
        let e = Seq::<char>::empty();
        assert(trim_start(e) == e);
        assert(trim_end(e) == e);
    }
}

/// A save followed by a load: the settings read back are the ones the save
/// returned, with library references resolved against the saved library;
/// switches, instructions, tools, graph options and theme come back unchanged.
pub proof fn law_saved_settings_read_back(
    s: AhaSettingsV2,
    saved: AhaSettingsV2,
    st: AhaSettingsV2,
    row: SettingsV2Row,
    loaded: AhaSettingsV2,
)
    requires
        save_normalizes(s, saved),
        stored_form_of(saved, st),
        row_holds(row, st),
        row_reads_as(row, loaded),
    ensures
        settings_lists(loaded) == Seq::new(
            10,
            |k: int| resolved_list(settings_lists(saved)[k], library_of(saved)),
        ),
        loaded.review.model_config@ == resolved_view(saved.review.model_config@, library_of(saved)),
        loaded.review.system_prompt@ == saved.review.system_prompt@,
        loaded.context_debug == saved.context_debug,
        library_of(loaded) == library_of(saved),
        loaded.graph == saved.graph,
        loaded.theme@ == saved.theme@,
        string_views(loaded.project.allowed_tools@) == string_views(saved.project.allowed_tools@),
        string_views(loaded.chat.allowed_tools@) == string_views(saved.chat.allowed_tools@),
{
    let lib = library_of(saved);
    let raw = settings_lists(s);
    assert forall|k: int| 0 <= k < 10 implies #[trigger] settings_lists(loaded)[k] == resolved_list(
        settings_lists(saved)[k],
        lib,
    ) by {
        let x = if k == 8 {
            raw[k].map_values(|c: ModelConfigView| without_prompt(c))
        } else {
            raw[k]
        };
        assert(settings_lists(saved)[k] == normalized_configs(x));
        assert(row_lists(row)[k] == stripped_list(normalized_configs(x)));
        law_stored_list_reads_back(x, lib);
    }
    assert(settings_lists(loaded) =~= Seq::new(
        10,
        |k: int| resolved_list(settings_lists(saved)[k], lib),
    ));
    lemma_trimmed_stripped(s.review.model_config@);
    law_resolve_after_strip(saved.review.model_config@, lib);
    lemma_review_prompt_idempotent(s.review.system_prompt@);
}

/// No configuration of `l` names a library entry.
pub open spec fn no_references(l: Seq<ModelConfigView>) -> bool {
    forall|i: int| 0 <= i < l.len() ==> trim(#[trigger] l[i].library_id).len() == 0
}

proof fn lemma_kept_no_references(s: Seq<ModelConfigView>)
    requires
        no_references(s),
    ensures
        no_references(kept_configs(s)),
    decreases s.len(),
{
    if s.len() > 0 {
        assert(no_references(s.drop_last())) by {
            assert forall|i: int| 0 <= i < s.drop_last().len() implies trim(
                #[trigger] s.drop_last()[i].library_id,
            ).len() == 0 by {
                assert(s.drop_last()[i] == s[i]);
            }
        }
        lemma_kept_no_references(s.drop_last());
        assert(trim(s[s.len() - 1].library_id).len() == 0);
        lemma_trim_idempotent(s.last().library_id);
    }
}

proof fn lemma_normalized_no_references(s: Seq<ModelConfigView>)
    requires
        no_references(s),
    ensures
        no_references(normalized_configs(s)),
{
    lemma_kept_no_references(s);
    let k = kept_configs(s);
    assert forall|a: int, i: int| 0 <= i < k.len() implies trim(
        #[trigger] activate_only(k, a)[i].library_id,
    ).len() == 0 by {
        assert(activate_only(k, a)[i].library_id == k[i].library_id);
    }
    assert(no_references(activate_only(k, first_active(k))));
    assert(no_references(activate_only(k, 0)));
}

/// A save followed by a load gives back exactly the settings the save
/// returned when no configuration names a library entry: nothing drifts
/// between write and read.
pub proof fn law_saved_settings_without_references_read_back(
    s: AhaSettingsV2,
    saved: AhaSettingsV2,
    st: AhaSettingsV2,
    row: SettingsV2Row,
    loaded: AhaSettingsV2,
)
    requires
        forall|k: int| 0 <= k < 10 ==> no_references(#[trigger] settings_lists(s)[k]),
        trim(s.review.model_config@.library_id).len() == 0,
        save_normalizes(s, saved),
        stored_form_of(saved, st),
        row_holds(row, st),
        row_reads_as(row, loaded),
    ensures
        settings_lists(loaded) == settings_lists(saved),
        loaded.review.model_config@ == saved.review.model_config@,
        loaded.review.system_prompt@ == saved.review.system_prompt@,
        loaded.context_debug == saved.context_debug,
        library_of(loaded) == library_of(saved),
        loaded.graph == saved.graph,
        loaded.theme@ == saved.theme@,
        string_views(loaded.project.allowed_tools@) == string_views(saved.project.allowed_tools@),
        string_views(loaded.chat.allowed_tools@) == string_views(saved.chat.allowed_tools@),
{
    law_saved_settings_read_back(s, saved, st, row, loaded);
    let lib = library_of(saved);
    let raw = settings_lists(s);
    assert forall|k: int| 0 <= k < 10 implies #[trigger] settings_lists(loaded)[k] == settings_lists(
        saved,
    )[k] by {
        assert(no_references(raw[k]));
        let x = if k == 8 {
            raw[k].map_values(|c: ModelConfigView| without_prompt(c))
        } else {
            raw[k]
        };
        assert(no_references(x)) by {
            assert forall|i: int| 0 <= i < x.len() implies trim(#[trigger] x[i].library_id).len()
                == 0 by {
                assert(x[i].library_id == raw[k][i].library_id);
            }
        }
        lemma_normalized_no_references(x);
        let l = settings_lists(saved)[k];
        assert(l == normalized_configs(x));
        assert(resolved_list(l, lib) =~= l) by {
            assert forall|i: int| 0 <= i < l.len() implies #[trigger] resolved_list(l, lib)[i]
                == l[i] by {
                law_resolve_without_reference(l[i], lib);
            }
        }
    }
    assert(settings_lists(loaded) =~= settings_lists(saved));
    lemma_trim_idempotent(s.review.model_config@.library_id);
    law_resolve_without_reference(saved.review.model_config@, lib);
}

} // verus!
