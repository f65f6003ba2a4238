//! The flat settings record: its model slots, the columns each slot keeps in
//! the settings table, the defaults each slot applies, and how a saved payload
//! or a stored row becomes a record.
use vstd::prelude::*;
use vstd::string::StringExecFns;
use crate::model_config::{
    active_config, active_view, config_views, default_config_view, fallback_image_edit_model,
    configs_or_single_config, configs_or_single_view, law_normalize_idempotent,
    model_config_or_legacy, new_view,
    normalize_model_configs, normalized_configs, payload_configs_view,
    resolve_slot_configs_from_payload, view_is_empty, view_trimmed, DispatcherModelConfig,
    ModelConfigView,
};
use crate::text::{
    decimal, is_blank_str, join_strs, join_strings, join_with, str_eq, str_views, string_views,
    trim, trim_end, trim_start, trimmed, u64_to_decimal,
};

verus! {

broadcast use vstd::string::group_string_axioms;

pub const DEFAULT_SUMMARY_MODEL: &'static str = "deepseek-v4-flash";

pub const DEFAULT_IMAGE_MODEL_URL: &'static str = "https://dashscope.aliyuncs.com/api/v1";

pub const DEFAULT_IMAGE_MODEL: &'static str = "qwen-image-2.0-pro";

pub const DEFAULT_ASR_MODEL: &'static str = "fun-asr-realtime";

/// Number of flat (pre-slot) columns at the start of the settings select.
pub const SETTINGS_LEGACY_COLUMN_COUNT: usize = 13;

/// Number of model slots.
pub const MODEL_SLOT_COUNT: usize = 8;

/// The summary model name: trimmed, or the default when blank.
pub open spec fn summary_model_name(raw: Seq<char>) -> Seq<char> {
    if trim(raw).len() == 0 {
        DEFAULT_SUMMARY_MODEL@
    } else {
        trim(raw)
    }
}

pub fn normalize_summary_model(summary_model: &str) -> (r: String)
    ensures
        r@ == summary_model_name(summary_model@),
{
    let t = trimmed(summary_model);
    if t.as_str().unicode_len() == 0 {
        String::from_str(DEFAULT_SUMMARY_MODEL)
    } else {
        t
    }
}

/// The kinds of model a setting configures.
#[derive(Debug, Clone, Copy, PartialEq, Eq, Structural, Hash)]
pub enum ModelSlot {
    Chat,
    Summary,
    Vision,
    Image,
    ImageEdit,
    Asr,
    Tts,
    Embedding,
}

/// The slots in their column order.
pub open spec fn all_slots() -> Seq<ModelSlot> {
    seq![
        ModelSlot::Chat,
        ModelSlot::Summary,
        ModelSlot::Vision,
        ModelSlot::Image,
        ModelSlot::ImageEdit,
        ModelSlot::Asr,
        ModelSlot::Tts,
        ModelSlot::Embedding,
    ]
}

pub open spec fn slot_index(s: ModelSlot) -> int {
    match s {
        ModelSlot::Chat => 0,
        ModelSlot::Summary => 1,
        ModelSlot::Vision => 2,
        ModelSlot::Image => 3,
        ModelSlot::ImageEdit => 4,
        ModelSlot::Asr => 5,
        ModelSlot::Tts => 6,
        ModelSlot::Embedding => 7,
    }
}

pub open spec fn slot_label(s: ModelSlot) -> Seq<char> {
    match s {
        ModelSlot::Chat => "chat"@,
        ModelSlot::Summary => "summary"@,
        ModelSlot::Vision => "vision"@,
        ModelSlot::Image => "image"@,
        ModelSlot::ImageEdit => "image edit"@,
        ModelSlot::Asr => "asr"@,
        ModelSlot::Tts => "tts"@,
        ModelSlot::Embedding => "embedding"@,
    }
}

/// The settings columns of one slot.
#[derive(Debug, Clone, Copy)]
pub struct ModelSlotColumns {
    pub url: &'static str,
    pub api_key: &'static str,
    pub model: &'static str,
    pub json: &'static str,
}

pub open spec fn slot_url_column(s: ModelSlot) -> Seq<char> {
    match s {
        ModelSlot::Chat => "chat_model_url"@,
        ModelSlot::Summary => "summary_model_url"@,
        ModelSlot::Vision => "vision_model_url"@,
        ModelSlot::Image => "image_model_config_url"@,
        ModelSlot::ImageEdit => "image_edit_model_url"@,
        ModelSlot::Asr => "asr_model_url"@,
        ModelSlot::Tts => "tts_model_url"@,
        ModelSlot::Embedding => "embedding_model_url"@,
    }
}

pub open spec fn slot_key_column(s: ModelSlot) -> Seq<char> {
    match s {
        ModelSlot::Chat => "chat_model_api_key"@,
        ModelSlot::Summary => "summary_model_api_key"@,
        ModelSlot::Vision => "vision_model_api_key"@,
        ModelSlot::Image => "image_model_config_api_key"@,
        ModelSlot::ImageEdit => "image_edit_model_api_key"@,
        ModelSlot::Asr => "asr_model_api_key"@,
        ModelSlot::Tts => "tts_model_api_key"@,
        ModelSlot::Embedding => "embedding_model_api_key"@,
    }
}

pub open spec fn slot_model_column(s: ModelSlot) -> Seq<char> {
    match s {
        ModelSlot::Chat => "chat_model_name"@,
        ModelSlot::Summary => "summary_model_name"@,
        ModelSlot::Vision => "vision_model_name"@,
        ModelSlot::Image => "image_model_config_name"@,
        ModelSlot::ImageEdit => "image_edit_model_name"@,
        ModelSlot::Asr => "asr_model_name"@,
        ModelSlot::Tts => "tts_model_name"@,
        ModelSlot::Embedding => "embedding_model_name"@,
    }
}

pub open spec fn slot_json_column(s: ModelSlot) -> Seq<char> {
    match s {
        ModelSlot::Chat => "chat_model_configs_json"@,
        ModelSlot::Summary => "summary_model_configs_json"@,
        ModelSlot::Vision => "vision_model_configs_json"@,
        ModelSlot::Image => "image_model_configs_json"@,
        ModelSlot::ImageEdit => "image_edit_model_configs_json"@,
        ModelSlot::Asr => "asr_model_configs_json"@,
        ModelSlot::Tts => "tts_model_configs_json"@,
        ModelSlot::Embedding => "embedding_model_configs_json"@,
    }
}

/// The flat columns that predate the model slots.
pub open spec fn legacy_columns() -> Seq<Seq<char>> {
    seq![
        "api_base"@,
        "api_key"@,
        "model"@,
        "summary_model"@,
        "vision_model"@,
        "asr_api_key"@,
        "asr_websocket_url"@,
        "auto_approve_dispatch"@,
        "context_debug"@,
        "image_model_url"@,
        "image_model_api_key"@,
        "image_model"@,
        "image_edit_model"@,
    ]
}

/// The (url, api key, model) triples of all slots, slot after slot.
pub open spec fn triple_columns() -> Seq<Seq<char>> {
    Seq::new(
        24,
        |k: int|
            if k % 3 == 0 {
                slot_url_column(all_slots()[k / 3])
            } else if k % 3 == 1 {
                slot_key_column(all_slots()[k / 3])
            } else {
                slot_model_column(all_slots()[k / 3])
            },
    )
}

/// The list columns of all slots.
pub open spec fn json_columns() -> Seq<Seq<char>> {
    Seq::new(8, |k: int| slot_json_column(all_slots()[k]))
}

/// Every column the settings select reads, in order.
pub open spec fn select_columns() -> Seq<Seq<char>> {
    legacy_columns() + triple_columns() + json_columns()
}

pub open spec fn config_col_offset_of(s: ModelSlot) -> int {
    13 + 3 * slot_index(s)
}

pub open spec fn json_col_of(s: ModelSlot) -> int {
    13 + 24 + slot_index(s)
}

impl ModelSlot {
    /// Every slot, in column order.
    pub fn all() -> (r: Vec<ModelSlot>)
        ensures
            r@ == all_slots(),
    {
        let r = vec![
            ModelSlot::Chat,
            ModelSlot::Summary,
            ModelSlot::Vision,
            ModelSlot::Image,
            ModelSlot::ImageEdit,
            ModelSlot::Asr,
            ModelSlot::Tts,
            ModelSlot::Embedding,
        ];
        assert(r@ =~= all_slots());
        r
    }

    pub fn label(self) -> (r: &'static str)
        ensures
            r@ == slot_label(self),
    {
        match self {
            ModelSlot::Chat => "chat",
            ModelSlot::Summary => "summary",
            ModelSlot::Vision => "vision",
            ModelSlot::Image => "image",
            ModelSlot::ImageEdit => "image edit",
            ModelSlot::Asr => "asr",
            ModelSlot::Tts => "tts",
            ModelSlot::Embedding => "embedding",
        }
    }

    /// The slot's position in `ModelSlot::all()`.
    pub fn index(self) -> (r: usize)
        ensures
            r == slot_index(self),
            all_slots()[r as int] == self,
    {
        match self {
            ModelSlot::Chat => 0,
            ModelSlot::Summary => 1,
            ModelSlot::Vision => 2,
            ModelSlot::Image => 3,
            ModelSlot::ImageEdit => 4,
            ModelSlot::Asr => 5,
            ModelSlot::Tts => 6,
            ModelSlot::Embedding => 7,
        }
    }

    pub fn columns(self) -> (r: ModelSlotColumns)
        ensures
            r.url@ == slot_url_column(self),
            r.api_key@ == slot_key_column(self),
            r.model@ == slot_model_column(self),
            r.json@ == slot_json_column(self),
    {
        match self {
            ModelSlot::Chat => ModelSlotColumns {
                url: "chat_model_url",
                api_key: "chat_model_api_key",
                model: "chat_model_name",
                json: "chat_model_configs_json",
            },
            ModelSlot::Summary => ModelSlotColumns {
                url: "summary_model_url",
                api_key: "summary_model_api_key",
                model: "summary_model_name",
                json: "summary_model_configs_json",
            },
            ModelSlot::Vision => ModelSlotColumns {
                url: "vision_model_url",
                api_key: "vision_model_api_key",
                model: "vision_model_name",
                json: "vision_model_configs_json",
            },
            ModelSlot::Image => ModelSlotColumns {
                url: "image_model_config_url",
                api_key: "image_model_config_api_key",
                model: "image_model_config_name",
                json: "image_model_configs_json",
            },
            ModelSlot::ImageEdit => ModelSlotColumns {
                url: "image_edit_model_url",
                api_key: "image_edit_model_api_key",
                model: "image_edit_model_name",
                json: "image_edit_model_configs_json",
            },
            ModelSlot::Asr => ModelSlotColumns {
                url: "asr_model_url",
                api_key: "asr_model_api_key",
                model: "asr_model_name",
                json: "asr_model_configs_json",
            },
            ModelSlot::Tts => ModelSlotColumns {
                url: "tts_model_url",
                api_key: "tts_model_api_key",
                model: "tts_model_name",
                json: "tts_model_configs_json",
            },
            ModelSlot::Embedding => ModelSlotColumns {
                url: "embedding_model_url",
                api_key: "embedding_model_api_key",
                model: "embedding_model_name",
                json: "embedding_model_configs_json",
            },
        }
    }

    /// Column index in the settings select where the slot's (url, api key,
    /// model) triple starts.
    pub fn config_col_offset(self) -> (r: usize)
        ensures
            r == config_col_offset_of(self),
    {
        SETTINGS_LEGACY_COLUMN_COUNT + self.index() * 3
    }

    /// Column index in the settings select of the slot's list column.
    pub fn json_col(self) -> (r: usize)
        ensures
            r == json_col_of(self),
    {
        SETTINGS_LEGACY_COLUMN_COUNT + MODEL_SLOT_COUNT * 3 + self.index()
    }
}

/// The slot's triple and list columns stand where its offsets say.
pub proof fn law_slot_offsets_address_slot_columns(s: ModelSlot)
    ensures
        select_columns().len() == 13 + 8 * 4,
        select_columns()[config_col_offset_of(s)] == slot_url_column(s),
        select_columns()[config_col_offset_of(s) + 1] == slot_key_column(s),
        select_columns()[config_col_offset_of(s) + 2] == slot_model_column(s),
        select_columns()[json_col_of(s)] == slot_json_column(s),
{
    let c = select_columns();
    let i = slot_index(s);
    assert(all_slots()[i] == s);
    assert(c[13 + 3 * i] == triple_columns()[3 * i]);
    assert(c[13 + 3 * i + 1] == triple_columns()[3 * i + 1]);
    assert(c[13 + 3 * i + 2] == triple_columns()[3 * i + 2]);
    assert(c[37 + i] == json_columns()[i]);
}

/// The legacy column names, in order.
pub fn settings_legacy_columns() -> (r: Vec<&'static str>)
    ensures
        str_views(r@) == legacy_columns(),
{
    let r = vec![
        "api_base",
        "api_key",
        "model",
        "summary_model",
        "vision_model",
        "asr_api_key",
        "asr_websocket_url",
        "auto_approve_dispatch",
        "context_debug",
        "image_model_url",
        "image_model_api_key",
        "image_model",
        "image_edit_model",
    ];
    assert(str_views(r@) =~= legacy_columns());
    r
}

fn slot_at(i: usize) -> (r: ModelSlot)
    requires
        i < 8,
    ensures
        r == all_slots()[i as int],
        slot_index(r) == i,
{
    if i == 0 {
        ModelSlot::Chat
    } else if i == 1 {
        ModelSlot::Summary
    } else if i == 2 {
        ModelSlot::Vision
    } else if i == 3 {
        ModelSlot::Image
    } else if i == 4 {
        ModelSlot::ImageEdit
    } else if i == 5 {
        ModelSlot::Asr
    } else if i == 6 {
        ModelSlot::Tts
    } else {
        ModelSlot::Embedding
    }
}

/// Every column of the settings select: the legacy columns, then each slot's
/// triple, then each slot's list column.
pub fn settings_select_columns() -> (r: Vec<&'static str>)
    ensures
        str_views(r@) == select_columns(),
{
    let mut columns = settings_legacy_columns();
    for i in 0..8
        invariant
            str_views(columns@) == legacy_columns() + triple_columns().take(3 * i),
    {
        let c = slot_at(i).columns();
        proof {
            let t = triple_columns();
            assert(t[3 * i] == slot_url_column(all_slots()[i as int]));
            assert(t[3 * i + 1] == slot_key_column(all_slots()[i as int]));
            assert(t[3 * i + 2] == slot_model_column(all_slots()[i as int]));
        }
        let ghost before = columns@;
        columns.push(c.url);
        columns.push(c.api_key);
        columns.push(c.model);
        proof {
            let t = triple_columns();
            assert(str_views(columns@) =~= str_views(before).push(c.url@).push(c.api_key@).push(
                c.model@,
            ));
            assert(legacy_columns() + t.take(3 * (i + 1)) =~= (legacy_columns() + t.take(
                3 * i,
            )).push(t[3 * i]).push(t[3 * i + 1]).push(t[3 * i + 2]));
        }
    }
    proof {
        assert(triple_columns().take(24) =~= triple_columns());
    }
    for i in 0..8
        invariant
            str_views(columns@) == legacy_columns() + triple_columns() + json_columns().take(i as int),
    {
        let c = slot_at(i).columns();
        let ghost before = columns@;
        columns.push(c.json);
        proof {
            assert(str_views(columns@) =~= str_views(before).push(c.json@));
            assert(json_columns()[i as int] == slot_json_column(all_slots()[i as int]));
            assert(str_views(columns@) =~= legacy_columns() + triple_columns() + json_columns().take(
                i + 1,
            ));
        }
    }
    proof {
        assert(json_columns().take(8) =~= json_columns());
    }
    columns
}

/// Position of `name` in the settings select.
pub fn settings_column_index(name: &str) -> (r: usize)
    requires
        select_columns().contains(name@),
    ensures
        (r as int) < select_columns().len(),
        select_columns()[r as int] == name@,
        forall|j: int| 0 <= j < r ==> select_columns()[j] != name@,
{
    let columns = settings_select_columns();
    let ghost c = select_columns();
    let mut i: usize = 0;
    while i < columns.len()
        invariant
            str_views(columns@) == c,
            c == select_columns(),
            c.contains(name@),
            i <= columns@.len(),
            forall|j: int| 0 <= j < i ==> c[j] != name@,
        decreases columns@.len() - i,
    {
        assert(c[i as int] == columns@[i as int]@);
        if str_eq(columns[i], name) {
            return i;
        }
        i = i + 1;
    }
    assert(false);
    0
}

pub open spec fn select_sql_text() -> Seq<char> {
    "SELECT "@ + join_with(select_columns(), ", "@) + " FROM dispatcher_settings WHERE id = 'default'"@
}

/// The query that loads the settings row.
pub fn settings_select_sql() -> (r: String)
    ensures
        r@ == select_sql_text(),
{
    let columns = settings_select_columns();
    let mut sql = String::from_str("SELECT ");
    let joined = join_strs(&columns, ", ");
    sql.append(joined.as_str());
    sql.append(" FROM dispatcher_settings WHERE id = 'default'");
    sql
}

pub open spec fn placeholder_text(k: int) -> Seq<char> {
    "?"@ + decimal((k + 1) as nat)
}

pub open spec fn update_text(k: int) -> Seq<char> {
    select_columns()[k] + " = ?"@ + decimal((k + 1) as nat)
}

pub open spec fn upsert_sql_text() -> Seq<char> {
    let n = select_columns().len() as int;
    "INSERT INTO dispatcher_settings (id, "@ + join_with(select_columns(), ", "@)
        + ")\n         VALUES ('default', "@ + join_with(
        Seq::new(n as nat, |k: int| placeholder_text(k)),
        ", "@,
    ) + ")\n         ON CONFLICT(id) DO UPDATE SET "@ + join_with(
        Seq::new(n as nat, |k: int| update_text(k)),
        ", "@,
    )
}

/// The statement that inserts or replaces the settings row: one numbered
/// parameter per select column, in select order.
pub fn settings_upsert_sql() -> (r: String)
    ensures
        r@ == upsert_sql_text(),
{
    let columns = settings_select_columns();
    let ghost c = select_columns();
    let n = columns.len();
    let mut placeholders: Vec<String> = Vec::new();
    let mut updates: Vec<String> = Vec::new();
    for k in 0..n
        invariant
            n == columns@.len(),
            str_views(columns@) == c,
            c == select_columns(),
            n == c.len(),
            string_views(placeholders@) == Seq::new(k as nat, |j: int| placeholder_text(j)),
            string_views(updates@) == Seq::new(k as nat, |j: int| update_text(j)),
    {
        let number = u64_to_decimal(k as u64 + 1);
        let mut p = String::from_str("?");
        p.append(number.as_str());
        let mut u = String::from_str(columns[k]);
        u.append(" = ?");
        u.append(number.as_str());
        proof {
            assert(c[k as int] == columns@[k as int]@);
            assert(p@ == placeholder_text(k as int));
            assert(u@ == update_text(k as int));
        }
        let ghost pb = placeholders@;
        let ghost ub = updates@;
        placeholders.push(p);
        updates.push(u);
        proof {
            assert(string_views(placeholders@) =~= string_views(pb).push(placeholders@[k as int]@));
            assert(string_views(updates@) =~= string_views(ub).push(updates@[k as int]@));
            assert(string_views(placeholders@) =~= Seq::new(
                (k + 1) as nat,
                |j: int| placeholder_text(j),
            ));
            assert(string_views(updates@) =~= Seq::new((k + 1) as nat, |j: int| update_text(j)));
        }
    }
    let mut sql = String::from_str("INSERT INTO dispatcher_settings (id, ");
    let joined = join_strs(&columns, ", ");
    sql.append(joined.as_str());
    sql.append(")\n         VALUES ('default', ");
    let p = join_strings(&placeholders, ", ");
    sql.append(p.as_str());
    sql.append(")\n         ON CONFLICT(id) DO UPDATE SET ");
    let u = join_strings(&updates, ", ");
    sql.append(u.as_str());
    sql
}

/// What a slot fills into its active configuration when that one is not
/// empty: the summary model name is normalised; the image slot gets the
/// default gateway and model; the image-edit slot inherits the image slot's
/// gateway, key and model (or the defaults); the speech slot gets its default
/// model. An empty configuration stays as it is.
pub open spec fn slot_defaults(
    s: ModelSlot,
    c: ModelConfigView,
    image: ModelConfigView,
) -> ModelConfigView {
    if view_is_empty(c) {
        c
    } else {
        match s {
            ModelSlot::Summary => ModelConfigView { model: summary_model_name(c.model), ..c },
            ModelSlot::Image => ModelConfigView {
                url: if c.url.len() == 0 {
                    DEFAULT_IMAGE_MODEL_URL@
                } else {
                    c.url
                },
                model: if c.model.len() == 0 {
                    DEFAULT_IMAGE_MODEL@
                } else {
                    c.model
                },
                ..c
            },
            ModelSlot::ImageEdit => ModelConfigView {
                url: if c.url.len() > 0 {
                    c.url
                } else if image.url.len() == 0 {
                    DEFAULT_IMAGE_MODEL_URL@
                } else {
                    image.url
                },
                api_key: if c.api_key.len() == 0 {
                    image.api_key
                } else {
                    c.api_key
                },
                model: if c.model.len() > 0 {
                    c.model
                } else if image.model.len() == 0 {
                    DEFAULT_IMAGE_MODEL@
                } else {
                    image.model
                },
                ..c
            },
            ModelSlot::Asr => ModelConfigView {
                model: if c.model.len() == 0 {
                    DEFAULT_ASR_MODEL@
                } else {
                    c.model
                },
                ..c
            },
            _ => c,
        }
    }
}

impl ModelSlot {
    /// Fills the slot's defaults into `config`; `image_config` is the image
    /// slot's configuration, which the image-edit slot inherits from.
    pub fn apply_defaults(self, config: &mut DispatcherModelConfig, image_config: &DispatcherModelConfig)
        ensures
            final(config)@ == slot_defaults(self, old(config)@, image_config@),
    {
        if config.is_empty() {
            return;
        }
        match self {
            ModelSlot::Summary => {
                config.model = normalize_summary_model(config.model.as_str());
            },
            ModelSlot::Image => {
                if config.url.as_str().unicode_len() == 0 {
                    config.url = String::from_str(DEFAULT_IMAGE_MODEL_URL);
                }
                if config.model.as_str().unicode_len() == 0 {
                    config.model = String::from_str(DEFAULT_IMAGE_MODEL);
                }
            },
            ModelSlot::ImageEdit => {
                if config.url.as_str().unicode_len() == 0 {
                    config.url = if image_config.url.as_str().unicode_len() == 0 {
                        String::from_str(DEFAULT_IMAGE_MODEL_URL)
                    } else {
                        image_config.url.clone()
                    };
                }
                if config.api_key.as_str().unicode_len() == 0 {
                    config.api_key = image_config.api_key.clone();
                }
                if config.model.as_str().unicode_len() == 0 {
                    config.model = if image_config.model.as_str().unicode_len() == 0 {
                        String::from_str(DEFAULT_IMAGE_MODEL)
                    } else {
                        image_config.model.clone()
                    };
                }
            },
            ModelSlot::Asr => {
                if config.model.as_str().unicode_len() == 0 {
                    config.model = String::from_str(DEFAULT_ASR_MODEL);
                }
            },
            _ => {},
        }
    }
}

/// Per-slot overrides a settings save may carry.
#[derive(Debug, Clone, Default)]
pub struct DispatcherSettingsModelConfigs {
    pub chat_model_config: Option<DispatcherModelConfig>,
    pub summary_model_config: Option<DispatcherModelConfig>,
    pub vision_model_config: Option<DispatcherModelConfig>,
    pub image_model_config: Option<DispatcherModelConfig>,
    pub image_edit_model_config: Option<DispatcherModelConfig>,
    pub asr_model_config: Option<DispatcherModelConfig>,
    pub tts_model_config: Option<DispatcherModelConfig>,
    pub embedding_model_config: Option<DispatcherModelConfig>,
    pub chat_model_configs: Option<Vec<DispatcherModelConfig>>,
    pub summary_model_configs: Option<Vec<DispatcherModelConfig>>,
    pub vision_model_configs: Option<Vec<DispatcherModelConfig>>,
    pub image_model_configs: Option<Vec<DispatcherModelConfig>>,
    pub image_edit_model_configs: Option<Vec<DispatcherModelConfig>>,
    pub asr_model_configs: Option<Vec<DispatcherModelConfig>>,
    pub tts_model_configs: Option<Vec<DispatcherModelConfig>>,
    pub embedding_model_configs: Option<Vec<DispatcherModelConfig>>,
}

/// One configuration list per slot.
pub struct DispatcherSettingsConfigLists {
    pub chat_model_configs: Vec<DispatcherModelConfig>,
    pub summary_model_configs: Vec<DispatcherModelConfig>,
    pub vision_model_configs: Vec<DispatcherModelConfig>,
    pub image_model_configs: Vec<DispatcherModelConfig>,
    pub image_edit_model_configs: Vec<DispatcherModelConfig>,
    pub asr_model_configs: Vec<DispatcherModelConfig>,
    pub tts_model_configs: Vec<DispatcherModelConfig>,
    pub embedding_model_configs: Vec<DispatcherModelConfig>,
}

/// The lists in slot order.
pub open spec fn slot_lists(l: DispatcherSettingsConfigLists) -> Seq<Seq<ModelConfigView>> {
    seq![
        config_views(l.chat_model_configs@),
        config_views(l.summary_model_configs@),
        config_views(l.vision_model_configs@),
        config_views(l.image_model_configs@),
        config_views(l.image_edit_model_configs@),
        config_views(l.asr_model_configs@),
        config_views(l.tts_model_configs@),
        config_views(l.embedding_model_configs@),
    ]
}

#[derive(Debug, Clone)]
pub struct DispatcherSettingsRecord {
    pub api_base: String,
    pub api_key: String,
    pub model: String,
    pub summary_model: String,
    pub vision_model: String,
    pub asr_api_key: String,
    pub asr_websocket_url: String,
    pub auto_approve_dispatch: bool,
    pub context_debug: bool,
    pub image_model_url: String,
    pub image_model_api_key: String,
    pub image_model: String,
    pub image_edit_model: String,
    pub chat_model_config: DispatcherModelConfig,
    pub summary_model_config: DispatcherModelConfig,
    pub vision_model_config: DispatcherModelConfig,
    pub image_model_config: DispatcherModelConfig,
    pub image_edit_model_config: DispatcherModelConfig,
    pub asr_model_config: DispatcherModelConfig,
    pub tts_model_config: DispatcherModelConfig,
    pub embedding_model_config: DispatcherModelConfig,
    pub chat_model_configs: Vec<DispatcherModelConfig>,
    pub summary_model_configs: Vec<DispatcherModelConfig>,
    pub vision_model_configs: Vec<DispatcherModelConfig>,
    pub image_model_configs: Vec<DispatcherModelConfig>,
    pub image_edit_model_configs: Vec<DispatcherModelConfig>,
    pub asr_model_configs: Vec<DispatcherModelConfig>,
    pub tts_model_configs: Vec<DispatcherModelConfig>,
    pub embedding_model_configs: Vec<DispatcherModelConfig>,
}

/// The record's lists in slot order.
pub open spec fn record_lists(r: DispatcherSettingsRecord) -> Seq<Seq<ModelConfigView>> {
    seq![
        config_views(r.chat_model_configs@),
        config_views(r.summary_model_configs@),
        config_views(r.vision_model_configs@),
        config_views(r.image_model_configs@),
        config_views(r.image_edit_model_configs@),
        config_views(r.asr_model_configs@),
        config_views(r.tts_model_configs@),
        config_views(r.embedding_model_configs@),
    ]
}

/// The record's active configurations in slot order.
pub open spec fn record_slots(r: DispatcherSettingsRecord) -> Seq<ModelConfigView> {
    seq![
        r.chat_model_config@,
        r.summary_model_config@,
        r.vision_model_config@,
        r.image_model_config@,
        r.image_edit_model_config@,
        r.asr_model_config@,
        r.tts_model_config@,
        r.embedding_model_config@,
    ]
}

/// The active configuration of a list, or the empty one.
pub open spec fn active_or_default(s: Seq<ModelConfigView>) -> ModelConfigView {
    match active_view(s) {
        Some(c) => c,
        None => default_config_view(),
    }
}

/// A slot's active configuration with the slot's own defaults applied.
pub open spec fn defaulted_slot(lists: Seq<Seq<ModelConfigView>>, k: int) -> ModelConfigView {
    slot_defaults(
        all_slots()[k],
        active_or_default(normalized_configs(lists[k])),
        default_config_view(),
    )
}

/// A slot's configuration in the record; the image-edit slot inherits from the
/// image slot after the image defaults.
pub open spec fn resolved_slot(lists: Seq<Seq<ModelConfigView>>, k: int) -> ModelConfigView {
    if k == 4 {
        slot_defaults(
            ModelSlot::ImageEdit,
            active_or_default(normalized_configs(lists[4])),
            defaulted_slot(lists, 3),
        )
    } else {
        defaulted_slot(lists, k)
    }
}

/// `r` is the settings record built from the slot lists `lists`: each list is
/// normalised, each slot's configuration is the resolved active entry, and the
/// flat fields mirror the chat, summary, vision, speech and image slots.
pub open spec fn record_describes(
    r: DispatcherSettingsRecord,
    lists: Seq<Seq<ModelConfigView>>,
    auto_approve_dispatch: bool,
    context_debug: bool,
) -> bool {
    &&& record_lists(r) == Seq::new(8, |k: int| normalized_configs(lists[k]))
    &&& record_slots(r) == Seq::new(8, |k: int| resolved_slot(lists, k))
    &&& r.api_base@ == r.chat_model_config.url@
    &&& r.api_key@ == r.chat_model_config.api_key@
    &&& r.model@ == r.chat_model_config.model@
    &&& r.summary_model@ == r.summary_model_config.model@
    &&& r.vision_model@ == r.vision_model_config.model@
    &&& r.asr_api_key@ == r.asr_model_config.api_key@
    &&& r.asr_websocket_url@ == r.asr_model_config.url@
    &&& r.image_model_url@ == r.image_model_config.url@
    &&& r.image_model_api_key@ == r.image_model_config.api_key@
    &&& r.image_model@ == r.image_model_config.model@
    &&& r.image_edit_model@ == r.image_edit_model_config.model@
    &&& r.auto_approve_dispatch == auto_approve_dispatch
    &&& r.context_debug == context_debug
}

fn active_or_empty(configs: &Vec<DispatcherModelConfig>) -> (r: DispatcherModelConfig)
    ensures
        r@ == active_or_default(config_views(configs@)),
{
    match active_config(configs.as_slice()) {
        Some(c) => c,
        None => DispatcherModelConfig::default(),
    }
}

/// The settings record of the slot lists: lists normalised, each slot's active
/// entry with its defaults, and the flat fields taken from the slots.
pub fn build_settings_record(
    configs: DispatcherSettingsConfigLists,
    auto_approve_dispatch: bool,
    context_debug: bool,
) -> (r: DispatcherSettingsRecord)
    ensures
        record_describes(r, slot_lists(configs), auto_approve_dispatch, context_debug),
{
    let ghost lists = slot_lists(configs);
    let chat = normalize_model_configs(configs.chat_model_configs);
    let summary = normalize_model_configs(configs.summary_model_configs);
    let vision = normalize_model_configs(configs.vision_model_configs);
    let image = normalize_model_configs(configs.image_model_configs);
    let image_edit = normalize_model_configs(configs.image_edit_model_configs);
    let asr = normalize_model_configs(configs.asr_model_configs);
    let tts = normalize_model_configs(configs.tts_model_configs);
    let embedding = normalize_model_configs(configs.embedding_model_configs);

    let empty = DispatcherModelConfig::default();
    let mut a_chat = active_or_empty(&chat);
    ModelSlot::Chat.apply_defaults(&mut a_chat, &empty);
    let mut a_summary = active_or_empty(&summary);
    ModelSlot::Summary.apply_defaults(&mut a_summary, &empty);
    let mut a_vision = active_or_empty(&vision);
    ModelSlot::Vision.apply_defaults(&mut a_vision, &empty);
    let mut a_image = active_or_empty(&image);
    ModelSlot::Image.apply_defaults(&mut a_image, &empty);
    let mut a_asr = active_or_empty(&asr);
    ModelSlot::Asr.apply_defaults(&mut a_asr, &empty);
    let mut a_tts = active_or_empty(&tts);
    ModelSlot::Tts.apply_defaults(&mut a_tts, &empty);
    let mut a_embedding = active_or_empty(&embedding);
    ModelSlot::Embedding.apply_defaults(&mut a_embedding, &empty);
    // The image-edit slot inherits the image slot once its defaults are in.
    let mut a_image_edit = active_or_empty(&image_edit);
    ModelSlot::ImageEdit.apply_defaults(&mut a_image_edit, &a_image);

    let r = DispatcherSettingsRecord {
        api_base: a_chat.url.clone(),
        api_key: a_chat.api_key.clone(),
        model: a_chat.model.clone(),
        summary_model: a_summary.model.clone(),
        vision_model: a_vision.model.clone(),
        asr_api_key: a_asr.api_key.clone(),
        asr_websocket_url: a_asr.url.clone(),
        auto_approve_dispatch,
        context_debug,
        image_model_url: a_image.url.clone(),
        image_model_api_key: a_image.api_key.clone(),
        image_model: a_image.model.clone(),
        image_edit_model: a_image_edit.model.clone(),
        chat_model_config: a_chat,
        summary_model_config: a_summary,
        vision_model_config: a_vision,
        image_model_config: a_image,
        image_edit_model_config: a_image_edit,
        asr_model_config: a_asr,
        tts_model_config: a_tts,
        embedding_model_config: a_embedding,
        chat_model_configs: chat,
        summary_model_configs: summary,
        vision_model_configs: vision,
        image_model_configs: image,
        image_edit_model_configs: image_edit,
        asr_model_configs: asr,
        tts_model_configs: tts,
        embedding_model_configs: embedding,
    };
    proof {
        assert(record_lists(r) =~= Seq::new(8, |k: int| normalized_configs(lists[k])));
        assert(record_slots(r) =~= Seq::new(8, |k: int| resolved_slot(lists, k)));
    }
    r
}

/// The flat, pre-slot settings fields as a save passes them or a row stores them.
#[derive(Debug, Clone)]
pub struct LegacySettingsFields {
    pub api_base: String,
    pub api_key: String,
    pub model: String,
    pub summary_model: String,
    pub vision_model: String,
    pub asr_api_key: String,
    pub asr_websocket_url: String,
    pub image_model_url: String,
    pub image_model_api_key: String,
    pub image_model: String,
    pub image_edit_model: String,
}

pub open spec fn opt_config_view(o: Option<DispatcherModelConfig>) -> Option<ModelConfigView> {
    match o {
        Some(c) => Some(c@),
        None => None,
    }
}

pub open spec fn opt_list_view(o: Option<Vec<DispatcherModelConfig>>) -> Option<Seq<ModelConfigView>> {
    match o {
        Some(cs) => Some(config_views(cs@)),
        None => None,
    }
}

/// The image-edit model name: the trimmed edit model, or else the trimmed
/// image model.
pub open spec fn edit_model_name(image_model: Seq<char>, image_edit_model: Seq<char>) -> Seq<char> {
    if trim(image_edit_model).len() == 0 {
        trim(image_model)
    } else {
        trim(image_edit_model)
    }
}

/// The image configuration a save settles on before the image-edit slot
/// inherits from it: the non-empty override trimmed, or the flat fields.
pub open spec fn saved_image_config(l: LegacySettingsFields, mc: DispatcherSettingsModelConfigs) -> ModelConfigView {
    match mc.image_model_config {
        Some(c) if !view_is_empty(c@) => view_trimmed(c@),
        _ => new_view(l.image_model_url@, l.image_model_api_key@, l.image_model@),
    }
}

/// The image-edit fallback of a save: the flat image gateway and key (or the
/// resolved image configuration's when blank), and the edit model name (or the
/// resolved image model when that is empty).
pub open spec fn saved_image_edit_fallback(
    l: LegacySettingsFields,
    mc: DispatcherSettingsModelConfigs,
) -> ModelConfigView {
    let ir = saved_image_config(l, mc);
    let url = if trim(l.image_model_url@).len() == 0 {
        ir.url
    } else {
        l.image_model_url@
    };
    let key = if trim(l.image_model_api_key@).len() == 0 {
        ir.api_key
    } else {
        l.image_model_api_key@
    };
    let name = edit_model_name(l.image_model@, l.image_edit_model@);
    let model = if name.len() == 0 {
        ir.model
    } else {
        name
    };
    new_view(url, key, model)
}

/// The fallback configuration of each slot in a save, built from the flat fields.
pub open spec fn saved_fallbacks(l: LegacySettingsFields, mc: DispatcherSettingsModelConfigs) -> Seq<
    ModelConfigView,
> {
    seq![
        new_view(l.api_base@, l.api_key@, l.model@),
        new_view(l.api_base@, l.api_key@, summary_model_name(l.summary_model@)),
        new_view(l.api_base@, l.api_key@, l.vision_model@),
        new_view(l.image_model_url@, l.image_model_api_key@, l.image_model@),
        saved_image_edit_fallback(l, mc),
        new_view(l.asr_websocket_url@, l.asr_api_key@, DEFAULT_ASR_MODEL@),
        default_config_view(),
        default_config_view(),
    ]
}

/// The single override of each slot in slot order.
pub open spec fn saved_singles_raw(mc: DispatcherSettingsModelConfigs) -> Seq<Option<ModelConfigView>> {
    seq![
        opt_config_view(mc.chat_model_config),
        opt_config_view(mc.summary_model_config),
        opt_config_view(mc.vision_model_config),
        opt_config_view(mc.image_model_config),
        opt_config_view(mc.image_edit_model_config),
        opt_config_view(mc.asr_model_config),
        opt_config_view(mc.tts_model_config),
        opt_config_view(mc.embedding_model_config),
    ]
}

/// The list override of each slot in slot order.
pub open spec fn saved_lists_raw(mc: DispatcherSettingsModelConfigs) -> Seq<Option<Seq<ModelConfigView>>> {
    seq![
        opt_list_view(mc.chat_model_configs),
        opt_list_view(mc.summary_model_configs),
        opt_list_view(mc.vision_model_configs),
        opt_list_view(mc.image_model_configs),
        opt_list_view(mc.image_edit_model_configs),
        opt_list_view(mc.asr_model_configs),
        opt_list_view(mc.tts_model_configs),
        opt_list_view(mc.embedding_model_configs),
    ]
}

/// A slot's single configuration in a save: the override (for the image-edit
/// slot only a non-empty one) or else the fallback, trimmed.
pub open spec fn saved_single(l: LegacySettingsFields, mc: DispatcherSettingsModelConfigs, k: int) -> ModelConfigView {
    let fb = saved_fallbacks(l, mc)[k];
    view_trimmed(
        match saved_singles_raw(mc)[k] {
            Some(c) => if k == 4 && view_is_empty(c) {
                fb
            } else {
                c
            },
            None => fb,
        },
    )
}

/// The configuration list each slot stores after a save.
pub open spec fn saved_slot_lists(l: LegacySettingsFields, mc: DispatcherSettingsModelConfigs) -> Seq<
    Seq<ModelConfigView>,
> {
    Seq::new(
        8,
        |k: int|
            payload_configs_view(
                Some(saved_single(l, mc, k)),
                saved_lists_raw(mc)[k],
                saved_fallbacks(l, mc)[k],
            ),
    )
}

fn single_or(o: Option<DispatcherModelConfig>, fallback: &DispatcherModelConfig) -> (r: DispatcherModelConfig)
    ensures
        r@ == view_trimmed(
            match o {
                Some(c) => c@,
                None => fallback@,
            },
        ),
{
    match o {
        Some(c) => c.trimmed(),
        None => fallback.trimmed(),
    }
}

/// The record a settings save writes: each slot's list is the explicit list,
/// or else the single override (or the fallback built from the flat fields)
/// as a one-entry list; the record is then built from those lists.
pub fn resolve_saved_settings(
    legacy: &LegacySettingsFields,
    auto_approve_dispatch: bool,
    context_debug: bool,
    model_configs: DispatcherSettingsModelConfigs,
) -> (r: DispatcherSettingsRecord)
    ensures
        record_describes(
            r,
            saved_slot_lists(*legacy, model_configs),
            auto_approve_dispatch,
            context_debug,
        ),
{
    let ghost mc = model_configs;
    let ghost fbs = saved_fallbacks(*legacy, mc);
    let chat_fb = DispatcherModelConfig::new(
        legacy.api_base.as_str(),
        legacy.api_key.as_str(),
        legacy.model.as_str(),
    );
    let summary_name = normalize_summary_model(legacy.summary_model.as_str());
    let summary_fb = DispatcherModelConfig::new(
        legacy.api_base.as_str(),
        legacy.api_key.as_str(),
        summary_name.as_str(),
    );
    let vision_fb = DispatcherModelConfig::new(
        legacy.api_base.as_str(),
        legacy.api_key.as_str(),
        legacy.vision_model.as_str(),
    );
    let image_fb = DispatcherModelConfig::new(
        legacy.image_model_url.as_str(),
        legacy.image_model_api_key.as_str(),
        legacy.image_model.as_str(),
    );
    let image_resolved = match &model_configs.image_model_config {
        Some(c) => if c.is_empty() {
            image_fb.duplicate()
        } else {
            c.trimmed()
        },
        None => image_fb.duplicate(),
    };
    let fb_url: &str = if is_blank_str(legacy.image_model_url.as_str()) {
        image_resolved.url.as_str()
    } else {
        legacy.image_model_url.as_str()
    };
    let fb_key: &str = if is_blank_str(legacy.image_model_api_key.as_str()) {
        image_resolved.api_key.as_str()
    } else {
        legacy.image_model_api_key.as_str()
    };
    let name = fallback_image_edit_model(legacy.image_model.as_str(), legacy.image_edit_model.as_str());
    let fb_model: &str = if name.unicode_len() == 0 {
        image_resolved.model.as_str()
    } else {
        name
    };
    let image_edit_fb = DispatcherModelConfig::new(fb_url, fb_key, fb_model);
    let asr_fb = DispatcherModelConfig::new(
        legacy.asr_websocket_url.as_str(),
        legacy.asr_api_key.as_str(),
        DEFAULT_ASR_MODEL,
    );
    let tts_fb = DispatcherModelConfig::default();
    let embedding_fb = DispatcherModelConfig::default();
    proof {
        assert(image_edit_fb@ == fbs[4]);
    }

    let DispatcherSettingsModelConfigs {
        chat_model_config,
        summary_model_config,
        vision_model_config,
        image_model_config,
        image_edit_model_config,
        asr_model_config,
        tts_model_config,
        embedding_model_config,
        chat_model_configs,
        summary_model_configs,
        vision_model_configs,
        image_model_configs,
        image_edit_model_configs,
        asr_model_configs,
        tts_model_configs,
        embedding_model_configs,
    } = model_configs;

    let image_edit_single = match image_edit_model_config {
        Some(c) => if c.is_empty() {
            image_edit_fb.trimmed()
        } else {
            c.trimmed()
        },
        None => image_edit_fb.trimmed(),
    };

    let chat_single = single_or(chat_model_config, &chat_fb);
    let summary_single = single_or(summary_model_config, &summary_fb);
    let vision_single = single_or(vision_model_config, &vision_fb);
    let image_single = single_or(image_model_config, &image_fb);
    let asr_single = single_or(asr_model_config, &asr_fb);
    let tts_single = single_or(tts_model_config, &tts_fb);
    let embedding_single = single_or(embedding_model_config, &embedding_fb);

    let lists = DispatcherSettingsConfigLists {
        chat_model_configs: resolve_slot_configs_from_payload(
            Some(chat_single),
            chat_model_configs,
            chat_fb,
        ),
        summary_model_configs: resolve_slot_configs_from_payload(
            Some(summary_single),
            summary_model_configs,
            summary_fb,
        ),
        vision_model_configs: resolve_slot_configs_from_payload(
            Some(vision_single),
            vision_model_configs,
            vision_fb,
        ),
        image_model_configs: resolve_slot_configs_from_payload(
            Some(image_single),
            image_model_configs,
            image_fb,
        ),
        image_edit_model_configs: resolve_slot_configs_from_payload(
            Some(image_edit_single),
            image_edit_model_configs,
            image_edit_fb,
        ),
        asr_model_configs: resolve_slot_configs_from_payload(
            Some(asr_single),
            asr_model_configs,
            asr_fb,
        ),
        tts_model_configs: resolve_slot_configs_from_payload(
            Some(tts_single),
            tts_model_configs,
            tts_fb,
        ),
        embedding_model_configs: resolve_slot_configs_from_payload(
            Some(embedding_single),
            embedding_model_configs,
            embedding_fb,
        ),
    };
    proof {
        assert(slot_lists(lists) =~= saved_slot_lists(*legacy, mc));
    }
    build_settings_record(lists, auto_approve_dispatch, context_debug)
}

/// What the settings row stores for one slot: its (url, api key, model)
/// columns and its parsed configuration list.
#[derive(Debug, Clone)]
pub struct StoredSlot {
    pub url: String,
    pub api_key: String,
    pub model: String,
    pub configs: Vec<DispatcherModelConfig>,
}

/// The settings row as the database hands it back.
#[derive(Debug, Clone)]
pub struct SettingsRow {
    pub legacy: LegacySettingsFields,
    pub auto_approve_dispatch: i64,
    pub context_debug: i64,
    pub chat: StoredSlot,
    pub summary: StoredSlot,
    pub vision: StoredSlot,
    pub image: StoredSlot,
    pub image_edit: StoredSlot,
    pub asr: StoredSlot,
    pub tts: StoredSlot,
    pub embedding: StoredSlot,
}

/// A slot's configuration as the flat columns describe it: chat, summary and
/// vision share the chat gateway, image and image edit the image gateway, the
/// speech slot its own; text-to-speech and embedding have none.
pub open spec fn legacy_fallback_view(s: ModelSlot, l: LegacySettingsFields) -> ModelConfigView {
    match s {
        ModelSlot::Chat => new_view(l.api_base@, l.api_key@, l.model@),
        ModelSlot::Summary => new_view(l.api_base@, l.api_key@, l.summary_model@),
        ModelSlot::Vision => new_view(l.api_base@, l.api_key@, l.vision_model@),
        ModelSlot::Image => new_view(l.image_model_url@, l.image_model_api_key@, l.image_model@),
        ModelSlot::ImageEdit => new_view(
            l.image_model_url@,
            l.image_model_api_key@,
            edit_model_name(l.image_model@, l.image_edit_model@),
        ),
        ModelSlot::Asr => new_view(l.asr_websocket_url@, l.asr_api_key@, DEFAULT_ASR_MODEL@),
        _ => default_config_view(),
    }
}

impl ModelSlot {
    /// The slot's configuration as the flat columns describe it.
    pub fn legacy_fallback(self, legacy: &LegacySettingsFields) -> (r: DispatcherModelConfig)
        ensures
            r@ == legacy_fallback_view(self, *legacy),
    {
        match self {
            ModelSlot::Chat => DispatcherModelConfig::new(
                legacy.api_base.as_str(),
                legacy.api_key.as_str(),
                legacy.model.as_str(),
            ),
            ModelSlot::Summary => DispatcherModelConfig::new(
                legacy.api_base.as_str(),
                legacy.api_key.as_str(),
                legacy.summary_model.as_str(),
            ),
            ModelSlot::Vision => DispatcherModelConfig::new(
                legacy.api_base.as_str(),
                legacy.api_key.as_str(),
                legacy.vision_model.as_str(),
            ),
            ModelSlot::Image => DispatcherModelConfig::new(
                legacy.image_model_url.as_str(),
                legacy.image_model_api_key.as_str(),
                legacy.image_model.as_str(),
            ),
            ModelSlot::ImageEdit => {
                let name = fallback_image_edit_model(
                    legacy.image_model.as_str(),
                    legacy.image_edit_model.as_str(),
                );
                DispatcherModelConfig::new(
                    legacy.image_model_url.as_str(),
                    legacy.image_model_api_key.as_str(),
                    name,
                )
            },
            ModelSlot::Asr => DispatcherModelConfig::new(
                legacy.asr_websocket_url.as_str(),
                legacy.asr_api_key.as_str(),
                DEFAULT_ASR_MODEL,
            ),
            _ => DispatcherModelConfig::default(),
        }
    }
}

/// A slot's configuration from its own columns, or from the flat columns when
/// its own are empty.
pub open spec fn stored_single(s: ModelSlot, st: StoredSlot, l: LegacySettingsFields) -> ModelConfigView {
    let legacy = legacy_fallback_view(s, l);
    if view_is_empty(new_view(st.url@, st.api_key@, st.model@)) {
        new_view(legacy.url, legacy.api_key, legacy.model)
    } else {
        new_view(st.url@, st.api_key@, st.model@)
    }
}

/// The list a slot reads back: its stored list, or its single configuration
/// when the list is empty and the single one is not.
pub open spec fn stored_slot_list(s: ModelSlot, st: StoredSlot, l: LegacySettingsFields) -> Seq<
    ModelConfigView,
> {
    let single = stored_single(s, st, l);
    configs_or_single_view(
        Some(normalized_configs(config_views(st.configs@))),
        Some(single),
        single,
    )
}

/// Read path of one slot.
pub fn resolve_slot_configs_from_row(slot: ModelSlot, stored: StoredSlot, legacy: &LegacySettingsFields) -> (r:
    Vec<DispatcherModelConfig>)
    ensures
        config_views(r@) == stored_slot_list(slot, stored, *legacy),
{
    let ghost st = stored;
    let fallback = slot.legacy_fallback(legacy);
    let merged = model_config_or_legacy(
        stored.url,
        stored.api_key,
        stored.model,
        fallback.url.as_str(),
        fallback.api_key.as_str(),
        fallback.model.as_str(),
    );
    let stored_list = normalize_model_configs(stored.configs);
    let single = merged.duplicate();
    configs_or_single_config(Some(stored_list), Some(single), merged)
}

/// The lists a stored row yields, in slot order.
pub open spec fn row_slot_lists(row: SettingsRow) -> Seq<Seq<ModelConfigView>> {
    seq![
        stored_slot_list(ModelSlot::Chat, row.chat, row.legacy),
        stored_slot_list(ModelSlot::Summary, row.summary, row.legacy),
        stored_slot_list(ModelSlot::Vision, row.vision, row.legacy),
        stored_slot_list(ModelSlot::Image, row.image, row.legacy),
        stored_slot_list(ModelSlot::ImageEdit, row.image_edit, row.legacy),
        stored_slot_list(ModelSlot::Asr, row.asr, row.legacy),
        stored_slot_list(ModelSlot::Tts, row.tts, row.legacy),
        stored_slot_list(ModelSlot::Embedding, row.embedding, row.legacy),
    ]
}

/// The settings record a stored row stands for.
pub fn settings_record_from_row(row: SettingsRow) -> (r: DispatcherSettingsRecord)
    ensures
        record_describes(
            r,
            row_slot_lists(row),
            row.auto_approve_dispatch != 0,
            row.context_debug != 0,
        ),
{
    let ghost lists = row_slot_lists(row);
    let SettingsRow {
        legacy,
        auto_approve_dispatch,
        context_debug,
        chat,
        summary,
        vision,
        image,
        image_edit,
        asr,
        tts,
        embedding,
    } = row;
    let configs = DispatcherSettingsConfigLists {
        chat_model_configs: resolve_slot_configs_from_row(ModelSlot::Chat, chat, &legacy),
        summary_model_configs: resolve_slot_configs_from_row(ModelSlot::Summary, summary, &legacy),
        vision_model_configs: resolve_slot_configs_from_row(ModelSlot::Vision, vision, &legacy),
        image_model_configs: resolve_slot_configs_from_row(ModelSlot::Image, image, &legacy),
        image_edit_model_configs: resolve_slot_configs_from_row(
            ModelSlot::ImageEdit,
            image_edit,
            &legacy,
        ),
        asr_model_configs: resolve_slot_configs_from_row(ModelSlot::Asr, asr, &legacy),
        tts_model_configs: resolve_slot_configs_from_row(ModelSlot::Tts, tts, &legacy),
        embedding_model_configs: resolve_slot_configs_from_row(
            ModelSlot::Embedding,
            embedding,
            &legacy,
        ),
    };
    proof {
        assert(slot_lists(configs) =~= lists);
    }
    build_settings_record(configs, auto_approve_dispatch != 0, context_debug != 0)
}

/// The row a settings save writes for record `r`: the flat fields, each
/// slot's active configuration in its columns and each slot's list.
pub open spec fn stored_row_of(r: DispatcherSettingsRecord) -> SettingsRow {
    SettingsRow {
        legacy: LegacySettingsFields {
            api_base: r.api_base,
            api_key: r.api_key,
            model: r.model,
            summary_model: r.summary_model,
            vision_model: r.vision_model,
            asr_api_key: r.asr_api_key,
            asr_websocket_url: r.asr_websocket_url,
            image_model_url: r.image_model_url,
            image_model_api_key: r.image_model_api_key,
            image_model: r.image_model,
            image_edit_model: r.image_edit_model,
        },
        auto_approve_dispatch: if r.auto_approve_dispatch {
            1
        } else {
            0
        },
        context_debug: if r.context_debug {
            1
        } else {
            0
        },
        chat: stored_slot_of(r.chat_model_config, r.chat_model_configs),
        summary: stored_slot_of(r.summary_model_config, r.summary_model_configs),
        vision: stored_slot_of(r.vision_model_config, r.vision_model_configs),
        image: stored_slot_of(r.image_model_config, r.image_model_configs),
        image_edit: stored_slot_of(r.image_edit_model_config, r.image_edit_model_configs),
        asr: stored_slot_of(r.asr_model_config, r.asr_model_configs),
        tts: stored_slot_of(r.tts_model_config, r.tts_model_configs),
        embedding: stored_slot_of(r.embedding_model_config, r.embedding_model_configs),
    }
}

pub open spec fn stored_slot_of(c: DispatcherModelConfig, list: Vec<DispatcherModelConfig>) -> StoredSlot {
    StoredSlot { url: c.url, api_key: c.api_key, model: c.model, configs: list }
}

proof fn lemma_read_back_slot(s: ModelSlot, st: StoredSlot, l: LegacySettingsFields, saved: Seq<ModelConfigView>)
    requires
        config_views(st.configs@) == normalized_configs(saved),
        normalized_configs(saved).len() > 0,
    ensures
        stored_slot_list(s, st, l) == normalized_configs(saved),
        normalized_configs(stored_slot_list(s, st, l)) == normalized_configs(saved),
{
    law_normalize_idempotent(saved);
}

/// The stored columns of slot `k` of a row.
pub open spec fn row_slot(row: SettingsRow, k: int) -> StoredSlot {
    if k == 0 {
        row.chat
    } else if k == 1 {
        row.summary
    } else if k == 2 {
        row.vision
    } else if k == 3 {
        row.image
    } else if k == 4 {
        row.image_edit
    } else if k == 5 {
        row.asr
    } else if k == 6 {
        row.tts
    } else {
        row.embedding
    }
}

/// Whether slot `k` of a saved record reads back as saved: its saved list is
/// not empty, or the configuration its stored columns (or else the flat
/// columns) describe is empty, so that nothing stands in for the empty list.
pub open spec fn slot_round_trips(r: DispatcherSettingsRecord, k: int) -> bool {
    let row = stored_row_of(r);
    record_lists(r)[k].len() > 0 || view_is_empty(stored_single(all_slots()[k], row_slot(row, k), row.legacy))
}

proof fn lemma_read_back_empty_slot(
    s: ModelSlot,
    st: StoredSlot,
    l: LegacySettingsFields,
    saved: Seq<ModelConfigView>,
)
    requires
        config_views(st.configs@) == normalized_configs(saved),
        normalized_configs(saved).len() == 0,
        view_is_empty(stored_single(s, st, l)),
    ensures
        stored_slot_list(s, st, l) == normalized_configs(saved),
        normalized_configs(stored_slot_list(s, st, l)) == normalized_configs(saved),
{
    law_normalize_idempotent(saved);
    law_normalize_idempotent(normalized_configs(saved));
}

proof fn lemma_slot_list_reads_back(r: DispatcherSettingsRecord, lists: Seq<Seq<ModelConfigView>>, k: int)
    requires
        lists.len() == 8,
        0 <= k < 8,
        record_lists(r) == Seq::new(8, |j: int| normalized_configs(lists[j])),
        slot_round_trips(r, k),
    ensures
        row_slot_lists(stored_row_of(r))[k] == normalized_configs(lists[k]),
        normalized_configs(row_slot_lists(stored_row_of(r))[k]) == normalized_configs(lists[k]),
{
    let row = stored_row_of(r);
    let st = row_slot(row, k);
    assert(record_lists(r)[k] == normalized_configs(lists[k]));
    assert(config_views(st.configs@) == record_lists(r)[k]);
    assert(row_slot_lists(row)[k] == stored_slot_list(all_slots()[k], st, row.legacy));
    if normalized_configs(lists[k]).len() > 0 {
        lemma_read_back_slot(all_slots()[k], st, row.legacy, lists[k]);
    } else {
        lemma_read_back_empty_slot(all_slots()[k], st, row.legacy, lists[k]);
    }
}

/// Reading back the row a save wrote gives slot `k`'s saved list whenever
/// the slot round-trips, and its configuration too when the slot it inherits
/// from (the image slot, for image editing) round-trips as well.
pub proof fn law_saved_slot_reads_back(
    r: DispatcherSettingsRecord,
    lists: Seq<Seq<ModelConfigView>>,
    auto_approve_dispatch: bool,
    context_debug: bool,
    loaded: DispatcherSettingsRecord,
    k: int,
)
    requires
        lists.len() == 8,
        0 <= k < 8,
        record_describes(r, lists, auto_approve_dispatch, context_debug),
        record_describes(
            loaded,
            row_slot_lists(stored_row_of(r)),
            stored_row_of(r).auto_approve_dispatch != 0,
            stored_row_of(r).context_debug != 0,
        ),
        slot_round_trips(r, k),
    ensures
        record_lists(loaded)[k] == record_lists(r)[k],
        (k != 4 || slot_round_trips(r, 3)) ==> record_slots(loaded)[k] == record_slots(r)[k],
        loaded.auto_approve_dispatch == auto_approve_dispatch,
        loaded.context_debug == context_debug,
{
    let rl = row_slot_lists(stored_row_of(r));
    lemma_slot_list_reads_back(r, lists, k);
    assert(record_lists(loaded)[k] == normalized_configs(rl[k]));
    assert(record_lists(r)[k] == normalized_configs(lists[k]));
    if k != 4 || slot_round_trips(r, 3) {
        if k == 4 {
            lemma_slot_list_reads_back(r, lists, 3);
        }
        assert(record_slots(loaded)[k] == resolved_slot(rl, k));
        assert(record_slots(r)[k] == resolved_slot(lists, k));
    }
}

/// The chat, text-to-speech and embedding slots always round-trip: an empty
/// list leaves their stored columns and their flat columns empty.
pub proof fn law_unconditional_slots_round_trip(
    r: DispatcherSettingsRecord,
    lists: Seq<Seq<ModelConfigView>>,
    auto_approve_dispatch: bool,
    context_debug: bool,
    k: int,
)
    requires
        lists.len() == 8,
        k == 0 || k == 6 || k == 7,
        record_describes(r, lists, auto_approve_dispatch, context_debug),
    ensures
        slot_round_trips(r, k),
{
    let row = stored_row_of(r);
    if record_lists(r)[k].len() == 0 {
        assert(record_lists(r)[k] == normalized_configs(lists[k]));
        law_normalize_idempotent(lists[k]);
        assert(active_view(normalized_configs(lists[k])) is None);
        assert(record_slots(r)[k] == resolved_slot(lists, k));
        assert(record_slots(r)[k] == default_config_view());
        let st = row_slot(row, k);
        assert(st.url@ == Seq::<char>::empty());
        assert(trim(Seq::<char>::empty()) =~= Seq::<char>::empty()) by {
            reveal_with_fuel(trim_start, 2);
            reveal_with_fuel(trim_end, 2);
        }
        assert(view_is_empty(stored_single(all_slots()[k], st, row.legacy)));
    }
}

/// Reading back the row a save wrote gives the saved lists, slot
/// configurations and switches, provided every slot round-trips (an empty
/// list whose columns describe a configuration reads back as that one).
pub proof fn law_saved_settings_read_back(
    r: DispatcherSettingsRecord,
    lists: Seq<Seq<ModelConfigView>>,
    auto_approve_dispatch: bool,
    context_debug: bool,
    loaded: DispatcherSettingsRecord,
)
    requires
        lists.len() == 8,
        record_describes(r, lists, auto_approve_dispatch, context_debug),
        forall|k: int| 0 <= k < 8 ==> #[trigger] slot_round_trips(r, k),
        record_describes(
            loaded,
            row_slot_lists(stored_row_of(r)),
            stored_row_of(r).auto_approve_dispatch != 0,
            stored_row_of(r).context_debug != 0,
        ),
    ensures
        record_lists(loaded) == record_lists(r),
        record_slots(loaded) == record_slots(r),
        loaded.auto_approve_dispatch == auto_approve_dispatch,
        loaded.context_debug == context_debug,
{
    assert(record_lists(loaded) =~= record_lists(r)) by {
        assert forall|k: int| 0 <= k < 8 implies record_lists(loaded)[k] == record_lists(r)[k] by {
            law_saved_slot_reads_back(r, lists, auto_approve_dispatch, context_debug, loaded, k);
        }
    }
    assert(record_slots(loaded) =~= record_slots(r)) by {
        assert forall|k: int| 0 <= k < 8 implies record_slots(loaded)[k] == record_slots(r)[k] by {
            assert(slot_round_trips(r, 3));
            law_saved_slot_reads_back(r, lists, auto_approve_dispatch, context_debug, loaded, k);
        }
    }
}

} // verus!
