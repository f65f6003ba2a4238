//! Model provider configurations: trimming, emptiness, normalisation of
//! configuration lists (exactly one active entry) and model-library references.
use vstd::prelude::*;

use crate::text::{is_blank_str, str_eq, trim, trim_end, trim_start, trim_str, trimmed};

verus! {

/// One configured model endpoint.
#[derive(Debug, Clone)]
pub struct DispatcherModelConfig {
    pub url: String,
    pub api_key: String,
    pub model: String,
    pub active: bool,
    pub system_prompt: String,
    /// A reference into the model library; when non-empty the credentials are
    /// filled from the referenced library entry.
    pub library_id: String,
}

/// The mathematical value of a [`DispatcherModelConfig`].
pub struct ModelConfigView {
    pub url: Seq<char>,
    pub api_key: Seq<char>,
    pub model: Seq<char>,
    pub active: bool,
    pub system_prompt: Seq<char>,
    pub library_id: Seq<char>,
}

impl View for DispatcherModelConfig {
    type V = ModelConfigView;

    open spec fn view(&self) -> ModelConfigView {
        ModelConfigView {
            url: self.url@,
            api_key: self.api_key@,
            model: self.model@,
            active: self.active,
            system_prompt: self.system_prompt@,
            library_id: self.library_id@,
        }
    }
}

/// The views of a sequence of configurations.
pub open spec fn config_views(s: Seq<DispatcherModelConfig>) -> Seq<ModelConfigView> {
    s.map_values(|c: DispatcherModelConfig| c@)
}

/// Every text field trimmed; the active flag kept.
pub open spec fn view_trimmed(c: ModelConfigView) -> ModelConfigView {
    ModelConfigView {
        url: trim(c.url),
        api_key: trim(c.api_key),
        model: trim(c.model),
        active: c.active,
        system_prompt: trim(c.system_prompt),
        library_id: trim(c.library_id),
    }
}

/// A configuration is empty when it names neither a library entry nor any of
/// url, api key and model (white space does not count).
pub open spec fn view_is_empty(c: ModelConfigView) -> bool {
    &&& trim(c.library_id).len() == 0
    &&& trim(c.url).len() == 0
    &&& trim(c.api_key).len() == 0
    &&& trim(c.model).len() == 0
}

/// The same configuration with its active flag set to `active`.
pub open spec fn with_active(c: ModelConfigView, active: bool) -> ModelConfigView {
    ModelConfigView { active, ..c }
}

/// Trimmed configurations with the empty ones dropped, in their order.
pub open spec fn kept_configs(s: Seq<ModelConfigView>) -> Seq<ModelConfigView>
    decreases s.len(),
{
    if s.len() == 0 {
        Seq::empty()
    } else {
        let rest = kept_configs(s.drop_last());
        let t = view_trimmed(s.last());
        if view_is_empty(t) {
            rest
        } else {
            rest.push(t)
        }
    }
}

/// Index of the first active configuration, or the length when none is.
pub open spec fn first_active(s: Seq<ModelConfigView>) -> int
    decreases s.len(),
{
    if s.len() == 0 {
        0
    } else if s[0].active {
        0
    } else {
        1 + first_active(s.drop_first())
    }
}

/// `s` with only the entry at `a` active.
pub open spec fn activate_only(s: Seq<ModelConfigView>, a: int) -> Seq<ModelConfigView> {
    Seq::new(s.len(), |i: int| with_active(s[i], i == a))
}

/// The normal form of a configuration list: trimmed, empty entries dropped,
/// the first active entry (or else the first entry) the only active one.
pub open spec fn normalized_configs(s: Seq<ModelConfigView>) -> Seq<ModelConfigView> {
    let k = kept_configs(s);
    let a = first_active(k);
    if k.len() == 0 {
        k
    } else if a < k.len() {
        activate_only(k, a)
    } else {
        activate_only(k, 0)
    }
}

pub proof fn lemma_first_active_bounds(s: Seq<ModelConfigView>)
    ensures
        0 <= first_active(s) <= s.len(),
        forall|k: int| 0 <= k < first_active(s) ==> !(#[trigger] s[k]).active,
        first_active(s) < s.len() ==> s[first_active(s)].active,
    decreases s.len(),
{
    if s.len() > 0 && !s[0].active {
        let t = s.drop_first();
        lemma_first_active_bounds(t);
        assert forall|k: int| 0 <= k < first_active(s) implies !(#[trigger] s[k]).active by {
            if k > 0 {
                assert(s[k] == t[k - 1]);
            }
        }
        if first_active(s) < s.len() {
            assert(s[first_active(s)] == t[first_active(t)]);
        }
    }
}

pub proof fn lemma_first_active_is(s: Seq<ModelConfigView>, i: int)
    requires
        0 <= i <= s.len(),
        forall|k: int| 0 <= k < i ==> !(#[trigger] s[k]).active,
        i < s.len() ==> s[i].active,
    ensures
        first_active(s) == i,
    decreases s.len(),
{
    if s.len() > 0 && i > 0 {
        let t = s.drop_first();
        assert forall|k: int| 0 <= k < i - 1 implies !(#[trigger] t[k]).active by {
            assert(t[k] == s[k + 1]);
        }
        if i - 1 < t.len() {
            assert(t[i - 1] == s[i]);
        }
        lemma_first_active_is(t, i - 1);
    }
}

proof fn lemma_view_trimmed_clean(c: ModelConfigView)
    ensures
        view_trimmed(view_trimmed(c)) == view_trimmed(c),
        view_is_empty(view_trimmed(c)) == view_is_empty(c),
{
    crate::text::lemma_trim_idempotent(c.url);
    crate::text::lemma_trim_idempotent(c.api_key);
    crate::text::lemma_trim_idempotent(c.model);
    crate::text::lemma_trim_idempotent(c.system_prompt);
    crate::text::lemma_trim_idempotent(c.library_id);
}

/// A configuration already in clean shape: trimmed and not empty.
pub open spec fn is_clean(c: ModelConfigView) -> bool {
    view_trimmed(c) == c && !view_is_empty(c)
}

proof fn lemma_kept_clean(s: Seq<ModelConfigView>)
    ensures
        forall|i: int| 0 <= i < kept_configs(s).len() ==> is_clean(#[trigger] kept_configs(s)[i]),
        kept_configs(s).len() <= s.len(),
    decreases s.len(),
{
    if s.len() > 0 {
        lemma_kept_clean(s.drop_last());
        lemma_view_trimmed_clean(s.last());
    }
}

proof fn lemma_kept_of_clean(s: Seq<ModelConfigView>)
    requires
        forall|i: int| 0 <= i < s.len() ==> is_clean(#[trigger] s[i]),
    ensures
        kept_configs(s) == s,
    decreases s.len(),
{
    if s.len() > 0 {
        let t = s.drop_last();
        assert forall|i: int| 0 <= i < t.len() implies is_clean(#[trigger] t[i]) by {
            assert(t[i] == s[i]);
        }
        lemma_kept_of_clean(t);
        assert(is_clean(s[s.len() - 1]));
        assert(t.push(s.last()) =~= s);
    }
}

proof fn lemma_normalized_shape(s: Seq<ModelConfigView>)
    ensures
        ({
            let k = kept_configs(s);
            let n = normalized_configs(s);
            &&& n.len() == k.len()
            &&& forall|i: int| 0 <= i < n.len() ==> is_clean(#[trigger] n[i])
            &&& n.len() > 0 ==> exists|c: int|
                0 <= c < n.len() && n == activate_only(k, c) && first_active(n) == c
        }),
{
    let k = kept_configs(s);
    let n = normalized_configs(s);
    lemma_kept_clean(s);
    lemma_first_active_bounds(k);
    if k.len() > 0 {
        let c = if first_active(k) < k.len() {
            first_active(k)
        } else {
            0
        };
        assert forall|i: int| 0 <= i < n.len() implies is_clean(#[trigger] n[i]) by {
            assert(is_clean(k[i]));
        }
        assert(n[c].active);
        assert forall|j: int| 0 <= j < c implies !(#[trigger] n[j]).active by {}
        lemma_first_active_is(n, c);
    }
}

/// Law: normalising a normalised list changes nothing.
pub proof fn law_normalize_idempotent(s: Seq<ModelConfigView>)
    ensures
        normalized_configs(normalized_configs(s)) == normalized_configs(s),
{
    let k = kept_configs(s);
    let n = normalized_configs(s);
    lemma_normalized_shape(s);
    lemma_kept_of_clean(n);
    if n.len() > 0 {
        let c = choose|c: int| 0 <= c < n.len() && n == activate_only(k, c) && first_active(n) == c;
        assert(normalized_configs(n) =~= activate_only(n, c));
        assert(activate_only(n, c) =~= n);
    }
}

/// Law: a normalised list holds only clean entries, and exactly one active
/// entry when it is not empty.
pub proof fn law_normalize_single_active(s: Seq<ModelConfigView>)
    ensures
        ({
            let n = normalized_configs(s);
            &&& forall|i: int| 0 <= i < n.len() ==> is_clean(#[trigger] n[i])
            &&& forall|i: int, j: int|
                0 <= i < n.len() && 0 <= j < n.len() && (#[trigger] n[i]).active && (
                #[trigger] n[j]).active ==> i == j
            &&& n.len() > 0 ==> exists|i: int| 0 <= i < n.len() && (#[trigger] n[i]).active
        }),
{
    let k = kept_configs(s);
    let n = normalized_configs(s);
    lemma_normalized_shape(s);
    if n.len() > 0 {
        let c = choose|c: int| 0 <= c < n.len() && n == activate_only(k, c) && first_active(n) == c;
        assert(n[c].active);
    }
}

/// Law: when some kept entry is active, the first such entry stays the active
/// one; otherwise the first entry becomes active.
pub proof fn law_normalize_picks_first_active(s: Seq<ModelConfigView>)
    ensures
        ({
            let k = kept_configs(s);
            let n = normalized_configs(s);
            &&& first_active(k) < k.len() ==> n[first_active(k)].active
            &&& (first_active(k) == k.len() && k.len() > 0) ==> n[0].active
            &&& forall|i: int| 0 <= i < n.len() ==> with_active(#[trigger] n[i], k[i].active) == k[i]
        }),
{
    let k = kept_configs(s);
    lemma_first_active_bounds(k);
}

/// The view of an all-empty, inactive configuration.
pub open spec fn default_config_view() -> ModelConfigView {
    ModelConfigView {
        url: Seq::empty(),
        api_key: Seq::empty(),
        model: Seq::empty(),
        active: false,
        system_prompt: Seq::empty(),
        library_id: Seq::empty(),
    }
}

impl Default for DispatcherModelConfig {
    fn default() -> (r: Self)
        ensures
            r@ == default_config_view(),
    {
        DispatcherModelConfig {
            url: String::new(),
            api_key: String::new(),
            model: String::new(),
            active: false,
            system_prompt: String::new(),
            library_id: String::new(),
        }
    }
}

/// Exact copies of the configurations, in order.
pub fn duplicate_configs(configs: &[DispatcherModelConfig]) -> (r: Vec<DispatcherModelConfig>)
    ensures
        config_views(r@) == config_views(configs@),
{
    let mut out: Vec<DispatcherModelConfig> = Vec::new();
    let n = configs.len();
    for i in 0..n
        invariant
            n == configs@.len(),
            config_views(out@) == config_views(configs@.take(i as int)),
    {
        let c = configs[i].duplicate();
        let ghost before = out@;
        out.push(c);
        proof {
            assert(config_views(out@) =~= config_views(before).push(configs@[i as int]@));
            assert(config_views(configs@.take(i + 1)) =~= config_views(configs@.take(i as int)).push(
                configs@[i as int]@,
            ));
        }
    }
    proof {
        assert(configs@.take(n as int) =~= configs@);
    }
    out
}

impl DispatcherModelConfig {
    /// A configuration from url, api key and model, each trimmed; active, with
    /// no system prompt and no library reference.
    pub fn new(url: &str, api_key: &str, model: &str) -> (r: Self)
        ensures
            r@ == (ModelConfigView {
                url: trim(url@),
                api_key: trim(api_key@),
                model: trim(model@),
                active: true,
                system_prompt: Seq::empty(),
                library_id: Seq::empty(),
            }),
    {
        DispatcherModelConfig {
            url: trimmed(url),
            api_key: trimmed(api_key),
            model: trimmed(model),
            active: true,
            system_prompt: String::new(),
            library_id: String::new(),
        }
    }

    /// An exact copy.
    pub fn duplicate(&self) -> (r: Self)
        ensures
            r@ == self@,
    {
        DispatcherModelConfig {
            url: self.url.clone(),
            api_key: self.api_key.clone(),
            model: self.model.clone(),
            active: self.active,
            system_prompt: self.system_prompt.clone(),
            library_id: self.library_id.clone(),
        }
    }

    /// The same configuration with every text field trimmed.
    pub fn trimmed(&self) -> (r: Self)
        ensures
            r@ == view_trimmed(self@),
    {
        DispatcherModelConfig {
            url: trimmed(self.url.as_str()),
            api_key: trimmed(self.api_key.as_str()),
            model: trimmed(self.model.as_str()),
            active: self.active,
            system_prompt: trimmed(self.system_prompt.as_str()),
            library_id: trimmed(self.library_id.as_str()),
        }
    }

    /// Whether neither a library reference nor url, api key or model is set.
    pub fn is_empty(&self) -> (b: bool)
        ensures
            b == view_is_empty(self@),
    {
        is_blank_str(self.library_id.as_str()) && is_blank_str(self.url.as_str())
            && is_blank_str(self.api_key.as_str()) && is_blank_str(self.model.as_str())
    }
}

/// Trims every configuration, drops the empty ones and leaves exactly one
/// active entry: the first active one, or else the first entry.
pub fn normalize_model_configs(configs: Vec<DispatcherModelConfig>) -> (r: Vec<
    DispatcherModelConfig,
>)
    ensures
        config_views(r@) == normalized_configs(config_views(configs@)),
{
    let ghost input = config_views(configs@);
    let mut kept: Vec<DispatcherModelConfig> = Vec::new();
    let mut i: usize = 0;
    while i < configs.len()
        invariant
            i <= configs@.len(),
            input == config_views(configs@),
            config_views(kept@) == kept_configs(input.take(i as int)),
        decreases configs@.len() - i,
    {
        let t = configs[i].trimmed();
        proof {
            assert(input.take(i + 1).drop_last() =~= input.take(i as int));
            assert(input.take(i + 1).last() == configs@[i as int]@);
        }
        if !t.is_empty() {
            kept.push(t);
            proof {
                assert(config_views(kept@) =~= kept_configs(input.take(i as int)).push(t@));
            }
        }
        i = i + 1;
    }
    proof {
        assert(input.take(input.len() as int) =~= input);
    }
    let ghost k = config_views(kept@);
    let n = kept.len();
    let mut a: usize = 0;
    while a < n && !kept[a].active
        invariant
            a <= n,
            n == kept@.len(),
            k == config_views(kept@),
            forall|j: int| 0 <= j < a ==> !(#[trigger] k[j]).active,
        decreases n - a,
    {
        a = a + 1;
    }
    proof {
        lemma_first_active_is(k, a as int);
    }
    let chosen: usize = if a < n { a } else { 0 };
    let mut out: Vec<DispatcherModelConfig> = Vec::new();
    let mut j: usize = 0;
    while j < n
        invariant
            j <= n,
            n == kept@.len(),
            k == config_views(kept@),
            out@.len() == j,
            chosen < n || n == 0,
            config_views(out@) == activate_only(k, chosen as int).take(j as int),
        decreases n - j,
    {
        let mut c = kept[j].duplicate();
        c.active = j == chosen;
        assert(c@ == with_active(k[j as int], j == chosen));
        let ghost before = out@;
        let ghost cv = c@;
        out.push(c);
        proof {
            assert(out@[j as int]@ == cv);
            assert(config_views(out@)[j as int] == cv);
            assert(config_views(out@) =~= activate_only(k, chosen as int).take(j + 1));
        }
        j = j + 1;
    }
    proof {
        assert(activate_only(k, chosen as int).take(n as int) =~= activate_only(k, chosen as int));
        if n == 0 {
            assert(config_views(out@) =~= k);
        }
    }
    out
}


/// The active configuration of a list, if any.
pub open spec fn active_view(s: Seq<ModelConfigView>) -> Option<ModelConfigView> {
    if first_active(s) < s.len() {
        Some(s[first_active(s)])
    } else {
        None
    }
}

/// A copy of the first active configuration of `configs`, if one is active.
pub fn active_config(configs: &[DispatcherModelConfig]) -> (r: Option<DispatcherModelConfig>)
    ensures
        r matches Some(c) ==> active_view(config_views(configs@)) == Some(c@),
        r is None ==> active_view(config_views(configs@)) is None,
{
    let ghost v = config_views(configs@);
    let mut i: usize = 0;
    while i < configs.len()
        invariant
            i <= configs@.len(),
            v == config_views(configs@),
            forall|k: int| 0 <= k < i ==> !(#[trigger] v[k]).active,
        decreases configs@.len() - i,
    {
        if configs[i].active {
            proof {
                lemma_first_active_is(v, i as int);
            }
            return Some(configs[i].duplicate());
        }
        i = i + 1;
    }
    proof {
        lemma_first_active_is(v, i as int);
    }
    None
}

/// The view of `DispatcherModelConfig::new(url, api_key, model)`.
pub open spec fn new_view(url: Seq<char>, api_key: Seq<char>, model: Seq<char>) -> ModelConfigView {
    ModelConfigView {
        url: trim(url),
        api_key: trim(api_key),
        model: trim(model),
        active: true,
        system_prompt: Seq::empty(),
        library_id: Seq::empty(),
    }
}

/// The configuration built from url, key and model, or, when that one is
/// empty, the one built from the legacy url, key and model.
pub fn model_config_or_legacy(
    url: String,
    api_key: String,
    model: String,
    legacy_url: &str,
    legacy_api_key: &str,
    legacy_model: &str,
) -> (r: DispatcherModelConfig)
    ensures
        r@ == (if view_is_empty(new_view(url@, api_key@, model@)) {
            new_view(legacy_url@, legacy_api_key@, legacy_model@)
        } else {
            new_view(url@, api_key@, model@)
        }),
{
    let config = DispatcherModelConfig::new(url.as_str(), api_key.as_str(), model.as_str());
    if config.is_empty() {
        DispatcherModelConfig::new(legacy_url, legacy_api_key, legacy_model)
    } else {
        config
    }
}

/// The list that `configs_or_single_config` settles on.
pub open spec fn configs_or_single_view(
    configs: Option<Seq<ModelConfigView>>,
    single: Option<ModelConfigView>,
    fallback: ModelConfigView,
) -> Seq<ModelConfigView> {
    let single_is_empty = match single {
        Some(c) => view_is_empty(c),
        None => view_is_empty(fallback),
    };
    let chosen = match single {
        Some(c) => c,
        None => fallback,
    };
    match configs {
        Some(cs) if normalized_configs(cs).len() > 0 || single_is_empty => normalized_configs(cs),
        _ => normalized_configs(seq![chosen]),
    }
}

/// Prefers the normalised list; falls back to the single configuration (or
/// else `fallback`) when the list normalises to nothing and the single one is
/// not empty.
pub fn configs_or_single_config(
    configs: Option<Vec<DispatcherModelConfig>>,
    single_config: Option<DispatcherModelConfig>,
    fallback: DispatcherModelConfig,
) -> (r: Vec<DispatcherModelConfig>)
    ensures
        config_views(r@) == configs_or_single_view(
            match configs {
                Some(cs) => Some(config_views(cs@)),
                None => None,
            },
            match single_config {
                Some(c) => Some(c@),
                None => None,
            },
            fallback@,
        ),
{
    if let Some(list) = configs {
        let normalized = normalize_model_configs(list);
        let single_is_empty = match &single_config {
            Some(c) => c.is_empty(),
            None => fallback.is_empty(),
        };
        if normalized.len() > 0 || single_is_empty {
            return normalized;
        }
    }
    let single = match single_config {
        Some(c) => c,
        None => fallback,
    };
    let ghost sv = single@;
    let v = vec![single];
    proof {
        assert(config_views(v@) =~= seq![sv]);
    }
    normalize_model_configs(v)
}

/// The list that `resolve_slot_configs_from_payload` settles on.
pub open spec fn payload_configs_view(
    single: Option<ModelConfigView>,
    list: Option<Seq<ModelConfigView>>,
    fallback: ModelConfigView,
) -> Seq<ModelConfigView> {
    match list {
        Some(cs) => normalized_configs(cs),
        None => {
            let chosen = match single {
                Some(c) if !view_is_empty(c) => c,
                _ => fallback,
            };
            normalized_configs(seq![chosen])
        },
    }
}

/// Write path of one model slot: an explicit list wins; otherwise the single
/// override when it is not empty, else `fallback`, as a one-entry list.
pub fn resolve_slot_configs_from_payload(
    single_override: Option<DispatcherModelConfig>,
    list_override: Option<Vec<DispatcherModelConfig>>,
    fallback: DispatcherModelConfig,
) -> (r: Vec<DispatcherModelConfig>)
    ensures
        config_views(r@) == payload_configs_view(
            match single_override {
                Some(c) => Some(c@),
                None => None,
            },
            match list_override {
                Some(cs) => Some(config_views(cs@)),
                None => None,
            },
            fallback@,
        ),
{
    if let Some(list) = list_override {
        return normalize_model_configs(list);
    }
    let single = match single_override {
        Some(c) => if c.is_empty() {
            fallback
        } else {
            c
        },
        None => fallback,
    };
    let ghost sv = single@;
    let v = vec![single];
    proof {
        assert(config_views(v@) =~= seq![sv]);
    }
    normalize_model_configs(v)
}

/// The image-edit model name: the trimmed edit model, or the trimmed image
/// model when the former is blank.
pub fn fallback_image_edit_model<'a>(image_model: &'a str, image_edit_model: &'a str) -> (r:
    &'a str)
    ensures
        r@ == (if trim(image_edit_model@).len() == 0 {
            trim(image_model@)
        } else {
            trim(image_edit_model@)
        }),
{
    let t = trim_str(image_edit_model);
    if t.unicode_len() == 0 {
        trim_str(image_model)
    } else {
        t
    }
}

/// One entry of the model library.
#[derive(Debug, Clone)]
pub struct ModelLibraryEntry {
    pub id: String,
    pub category: String,
    pub url: String,
    pub api_key: String,
    pub model: String,
    pub alias: String,
    pub enabled: bool,
}

/// The mathematical value of a [`ModelLibraryEntry`].
pub struct LibraryEntryView {
    pub id: Seq<char>,
    pub category: Seq<char>,
    pub url: Seq<char>,
    pub api_key: Seq<char>,
    pub model: Seq<char>,
    pub alias: Seq<char>,
    pub enabled: bool,
}

impl View for ModelLibraryEntry {
    type V = LibraryEntryView;

    open spec fn view(&self) -> LibraryEntryView {
        LibraryEntryView {
            id: self.id@,
            category: self.category@,
            url: self.url@,
            api_key: self.api_key@,
            model: self.model@,
            alias: self.alias@,
            enabled: self.enabled,
        }
    }
}

pub open spec fn library_views(s: Seq<ModelLibraryEntry>) -> Seq<LibraryEntryView> {
    s.map_values(|e: ModelLibraryEntry| e@)
}

/// Index of the first enabled library entry whose id is `id`, or the length
/// of the library when there is none.
pub open spec fn library_match(lib: Seq<LibraryEntryView>, id: Seq<char>) -> int
    decreases lib.len(),
{
    if lib.len() == 0 {
        0
    } else if lib[0].id == id && lib[0].enabled {
        0
    } else {
        1 + library_match(lib.drop_first(), id)
    }
}

proof fn lemma_library_match_is(lib: Seq<LibraryEntryView>, id: Seq<char>, i: int)
    requires
        0 <= i <= lib.len(),
        forall|k: int| 0 <= k < i ==> !((#[trigger] lib[k]).id == id && lib[k].enabled),
        i < lib.len() ==> lib[i].id == id && lib[i].enabled,
    ensures
        library_match(lib, id) == i,
    decreases lib.len(),
{
    if lib.len() > 0 && i > 0 {
        let t = lib.drop_first();
        assert forall|k: int| 0 <= k < i - 1 implies !((#[trigger] t[k]).id == id
            && t[k].enabled) by {
            assert(t[k] == lib[k + 1]);
        }
        if i - 1 < t.len() {
            assert(t[i - 1] == lib[i]);
        }
        lemma_library_match_is(t, id, i - 1);
    }
}

/// A configuration after its library reference has been resolved: a
/// reference to an enabled entry takes that entry's trimmed credentials, a
/// dangling reference loses its credentials, and no reference changes nothing.
pub open spec fn resolved_view(c: ModelConfigView, lib: Seq<LibraryEntryView>) -> ModelConfigView {
    if trim(c.library_id).len() == 0 {
        c
    } else {
        let m = library_match(lib, c.library_id);
        if m < lib.len() {
            ModelConfigView {
                url: trim(lib[m].url),
                api_key: trim(lib[m].api_key),
                model: trim(lib[m].model),
                ..c
            }
        } else {
            ModelConfigView {
                url: Seq::empty(),
                api_key: Seq::empty(),
                model: Seq::empty(),
                ..c
            }
        }
    }
}

/// A configuration as stored: a library reference keeps no credentials.
pub open spec fn stripped_view(c: ModelConfigView) -> ModelConfigView {
    if trim(c.library_id).len() == 0 {
        c
    } else {
        ModelConfigView { url: Seq::empty(), api_key: Seq::empty(), model: Seq::empty(), ..c }
    }
}

impl DispatcherModelConfig {
    /// Fills the credentials of a library reference from the library.
    pub fn resolve_from_library(&mut self, library: &[ModelLibraryEntry])
        ensures
            final(self)@ == resolved_view(old(self)@, library_views(library@)),
    {
        if is_blank_str(self.library_id.as_str()) {
            return ;
        }
        let ghost lib = library_views(library@);
        let mut i: usize = 0;
        while i < library.len()
            invariant
                i <= library@.len(),
                lib == library_views(library@),
                self@ == old(self)@,
                trim(self.library_id@).len() != 0,
                forall|k: int|
                    0 <= k < i ==> !((#[trigger] lib[k]).id == self.library_id@ && lib[k].enabled),
            decreases library@.len() - i,
        {
            let entry = &library[i];
            assert(lib[i as int] == entry@);
            if entry.enabled && str_eq(entry.id.as_str(), self.library_id.as_str()) {
                proof {
                    lemma_library_match_is(lib, self.library_id@, i as int);
                }
                self.url = trimmed(entry.url.as_str());
                self.api_key = trimmed(entry.api_key.as_str());
                self.model = trimmed(entry.model.as_str());
                return ;
            }
            i = i + 1;
        }
        proof {
            lemma_library_match_is(lib, self.library_id@, i as int);
        }
        self.url = String::new();
        self.api_key = String::new();
        self.model = String::new();
    }
}

/// A stored copy of a configuration: a library reference drops its credentials.
pub fn strip_library_config_credentials(config: DispatcherModelConfig) -> (r:
    DispatcherModelConfig)
    ensures
        r@ == stripped_view(config@),
{
    let mut config = config;
    if !is_blank_str(config.library_id.as_str()) {
        config.url = String::new();
        config.api_key = String::new();
        config.model = String::new();
    }
    config
}

/// `strip_library_config_credentials` applied to every entry.
pub fn strip_library_credentials(configs: Vec<DispatcherModelConfig>) -> (r: Vec<
    DispatcherModelConfig,
>)
    ensures
        r@.len() == configs@.len(),
        forall|i: int| 0 <= i < r@.len() ==> (#[trigger] r@[i])@ == stripped_view(configs@[i]@),
{
    let mut out: Vec<DispatcherModelConfig> = Vec::new();
    let mut i: usize = 0;
    while i < configs.len()
        invariant
            i <= configs@.len(),
            out@.len() == i,
            forall|k: int| 0 <= k < i ==> (#[trigger] out@[k])@ == stripped_view(configs@[k]@),
        decreases configs@.len() - i,
    {
        out.push(strip_library_config_credentials(configs[i].duplicate()));
        i = i + 1;
    }
    out
}

/// `resolve_from_library` applied to every entry.
pub fn resolve_model_configs_from_library(
    configs: Vec<DispatcherModelConfig>,
    library: &[ModelLibraryEntry],
) -> (r: Vec<DispatcherModelConfig>)
    ensures
        r@.len() == configs@.len(),
        forall|i: int|
            0 <= i < r@.len() ==> (#[trigger] r@[i])@ == resolved_view(
                configs@[i]@,
                library_views(library@),
            ),
{
    let mut out: Vec<DispatcherModelConfig> = Vec::new();
    let mut i: usize = 0;
    while i < configs.len()
        invariant
            i <= configs@.len(),
            out@.len() == i,
            forall|k: int|
                0 <= k < i ==> (#[trigger] out@[k])@ == resolved_view(
                    configs@[k]@,
                    library_views(library@),
                ),
        decreases configs@.len() - i,
    {
        let mut c = configs[i].duplicate();
        c.resolve_from_library(library);
        out.push(c);
        i = i + 1;
    }
    out
}

/// Copies of the configurations with their system prompts cleared.
pub fn without_model_system_prompts(configs: &[DispatcherModelConfig]) -> (r: Vec<
    DispatcherModelConfig,
>)
    ensures
        r@.len() == configs@.len(),
        forall|i: int|
            0 <= i < r@.len() ==> (#[trigger] r@[i])@ == (ModelConfigView {
                system_prompt: Seq::empty(),
                ..configs@[i]@
            }),
{
    let mut out: Vec<DispatcherModelConfig> = Vec::new();
    let mut i: usize = 0;
    while i < configs.len()
        invariant
            i <= configs@.len(),
            out@.len() == i,
            forall|k: int|
                0 <= k < i ==> (#[trigger] out@[k])@ == (ModelConfigView {
                    system_prompt: Seq::empty(),
                    ..configs@[k]@
                }),
        decreases configs@.len() - i,
    {
        let mut c = configs[i].duplicate();
        c.system_prompt = String::new();
        out.push(c);
        i = i + 1;
    }
    out
}

/// Law: the credentials stored for a library reference do not matter;
/// resolving a stored copy gives what resolving the original gives.
pub proof fn law_resolve_after_strip(c: ModelConfigView, lib: Seq<LibraryEntryView>)
    ensures
        resolved_view(stripped_view(c), lib) == resolved_view(c, lib),
{
}

/// Law: resolving a configuration without a library reference changes nothing.
pub proof fn law_resolve_without_reference(c: ModelConfigView, lib: Seq<LibraryEntryView>)
    requires
        trim(c.library_id).len() == 0,
    ensures
        resolved_view(c, lib) == c,
        stripped_view(c) == c,
{
}

/// The stored form of each configuration.
pub open spec fn stripped_list(s: Seq<ModelConfigView>) -> Seq<ModelConfigView> {
    s.map_values(|c: ModelConfigView| stripped_view(c))
}

/// Each configuration with its library reference resolved.
pub open spec fn resolved_list(s: Seq<ModelConfigView>, lib: Seq<LibraryEntryView>) -> Seq<
    ModelConfigView,
> {
    s.map_values(|c: ModelConfigView| resolved_view(c, lib))
}

proof fn lemma_stripped_clean(c: ModelConfigView)
    requires
        is_clean(c),
    ensures
        is_clean(stripped_view(c)),
        stripped_view(c).active == c.active,
{
    let e = Seq::<char>::empty();
    assert(trim_start(e) == e);
    assert(trim_end(e) == e);
    assert(trim(e) == e);
}

/// Law: the stored form of a normalised list is normalised already, so storing
/// it and normalising it on the way back changes nothing.
pub proof fn law_stripped_normalized_is_normal(s: Seq<ModelConfigView>)
    ensures
        normalized_configs(stripped_list(normalized_configs(s))) == stripped_list(
            normalized_configs(s),
        ),
{
    let k = kept_configs(s);
    let n = normalized_configs(s);
    let t = stripped_list(n);
    lemma_normalized_shape(s);
    assert forall|i: int| 0 <= i < t.len() implies is_clean(#[trigger] t[i]) && t[i].active
        == n[i].active by {
        lemma_stripped_clean(n[i]);
    }
    lemma_kept_of_clean(t);
    if n.len() > 0 {
        let c = choose|c: int| 0 <= c < n.len() && n == activate_only(k, c) && first_active(n) == c;
        assert(n[c].active);
        assert forall|j: int| 0 <= j < c implies !(#[trigger] t[j]).active by {
            assert(t[j].active == n[j].active);
        }
        lemma_first_active_is(t, c);
        assert(normalized_configs(t) =~= activate_only(t, c));
        assert forall|i: int| 0 <= i < t.len() implies #[trigger] activate_only(t, c)[i] == t[i] by {
            assert(t[i].active == n[i].active);
            assert(n[i].active == (i == c));
        }
        assert(activate_only(t, c) =~= t);
    } else {
        assert(t =~= Seq::<ModelConfigView>::empty());
    }
}

/// Law: a list that is stored (library credentials stripped), read back and
/// resolved against the library equals the saved list resolved against it.
pub proof fn law_stored_list_reads_back(s: Seq<ModelConfigView>, lib: Seq<LibraryEntryView>)
    ensures
        resolved_list(normalized_configs(stripped_list(normalized_configs(s))), lib)
            == resolved_list(normalized_configs(s), lib),
{
    law_stripped_normalized_is_normal(s);
    let n = normalized_configs(s);
    assert forall|i: int| 0 <= i < n.len() implies #[trigger] resolved_list(stripped_list(n), lib)[i]
        == resolved_list(n, lib)[i] by {
        law_resolve_after_strip(n[i], lib);
    }
    assert(resolved_list(stripped_list(n), lib) =~= resolved_list(n, lib));
}

} // verus!
