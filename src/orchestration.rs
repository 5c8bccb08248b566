//! Orchestration and LLM-routing records shared with the collaborators
//! around the network manager, and the edits of the router configuration.

use vstd::prelude::*;
use vstd::string::*;
use crate::error::HoResult;
use crate::identity::NodeIdentity;
use crate::text::str_eq;
use crate::wire::NetworkConfig;

verus! {

/// Kind of orchestration task.
#[derive(Clone, Copy, Debug, PartialEq, Eq, Hash, Structural)]
pub enum OrchestrateTask {
    Unspecified,
    Bootstrap,
    Recursive,
}

/// The stable wire name of each value.
pub open spec fn orchestrate_task_name(v: OrchestrateTask) -> Seq<char> {
    match v {
        OrchestrateTask::Unspecified => "ORCHESTRATE_TASK_UNSPECIFIED"@,
        OrchestrateTask::Bootstrap => "ORCHESTRATE_TASK_BOOTSTRAP"@,
        OrchestrateTask::Recursive => "ORCHESTRATE_TASK_RECURSIVE"@,
    }
}

/// The value whose wire name is `s`, if any.
pub open spec fn orchestrate_task_of_name(s: Seq<char>) -> Option<OrchestrateTask> {
    if s == orchestrate_task_name(OrchestrateTask::Unspecified) {
        Some(OrchestrateTask::Unspecified)
    } else if s == orchestrate_task_name(OrchestrateTask::Bootstrap) {
        Some(OrchestrateTask::Bootstrap)
    } else if s == orchestrate_task_name(OrchestrateTask::Recursive) {
        Some(OrchestrateTask::Recursive)
    } else {
        None
    }
}

impl OrchestrateTask {
    /// The wire name of this value.
    pub fn as_str_name(&self) -> (r: &'static str)
        ensures
            r@ == orchestrate_task_name(*self),
    {
        match self {
            OrchestrateTask::Unspecified => "ORCHESTRATE_TASK_UNSPECIFIED",
            OrchestrateTask::Bootstrap => "ORCHESTRATE_TASK_BOOTSTRAP",
            OrchestrateTask::Recursive => "ORCHESTRATE_TASK_RECURSIVE",
        }
    }

    /// The value named `value`, or `None` for an unknown name.
    pub fn from_str_name(value: &str) -> (r: Option<OrchestrateTask>)
        ensures
            r == orchestrate_task_of_name(value@),
    {
        if str_eq(value, "ORCHESTRATE_TASK_UNSPECIFIED") {
            Some(OrchestrateTask::Unspecified)
        } else if str_eq(value, "ORCHESTRATE_TASK_BOOTSTRAP") {
            Some(OrchestrateTask::Bootstrap)
        } else if str_eq(value, "ORCHESTRATE_TASK_RECURSIVE") {
            Some(OrchestrateTask::Recursive)
        } else {
            None
        }
    }
}

/// Status of an orchestration task.
#[derive(Clone, Copy, Debug, PartialEq, Eq, Hash, Structural)]
pub enum CosmicTaskStatus {
    Unspecified,
    Pending,
    Running,
    Completed,
    Failed,
    FractalExpansion,
    GeometricValidation,
}

/// The stable wire name of each value.
pub open spec fn cosmic_task_status_name(v: CosmicTaskStatus) -> Seq<char> {
    match v {
        CosmicTaskStatus::Unspecified => "COSMIC_TASK_STATUS_UNSPECIFIED"@,
        CosmicTaskStatus::Pending => "COSMIC_TASK_STATUS_PENDING"@,
        CosmicTaskStatus::Running => "COSMIC_TASK_STATUS_RUNNING"@,
        CosmicTaskStatus::Completed => "COSMIC_TASK_STATUS_COMPLETED"@,
        CosmicTaskStatus::Failed => "COSMIC_TASK_STATUS_FAILED"@,
        CosmicTaskStatus::FractalExpansion => "COSMIC_TASK_STATUS_FRACTAL_EXPANSION"@,
        CosmicTaskStatus::GeometricValidation => "COSMIC_TASK_STATUS_GEOMETRIC_VALIDATION"@,
    }
}

/// The value whose wire name is `s`, if any.
pub open spec fn cosmic_task_status_of_name(s: Seq<char>) -> Option<CosmicTaskStatus> {
    if s == cosmic_task_status_name(CosmicTaskStatus::Unspecified) {
        Some(CosmicTaskStatus::Unspecified)
    } else if s == cosmic_task_status_name(CosmicTaskStatus::Pending) {
        Some(CosmicTaskStatus::Pending)
    } else if s == cosmic_task_status_name(CosmicTaskStatus::Running) {
        Some(CosmicTaskStatus::Running)
    } else if s == cosmic_task_status_name(CosmicTaskStatus::Completed) {
        Some(CosmicTaskStatus::Completed)
    } else if s == cosmic_task_status_name(CosmicTaskStatus::Failed) {
        Some(CosmicTaskStatus::Failed)
    } else if s == cosmic_task_status_name(CosmicTaskStatus::FractalExpansion) {
        Some(CosmicTaskStatus::FractalExpansion)
    } else if s == cosmic_task_status_name(CosmicTaskStatus::GeometricValidation) {
        Some(CosmicTaskStatus::GeometricValidation)
    } else {
        None
    }
}

impl CosmicTaskStatus {
    /// The wire name of this value.
    pub fn as_str_name(&self) -> (r: &'static str)
        ensures
            r@ == cosmic_task_status_name(*self),
    {
        match self {
            CosmicTaskStatus::Unspecified => "COSMIC_TASK_STATUS_UNSPECIFIED",
            CosmicTaskStatus::Pending => "COSMIC_TASK_STATUS_PENDING",
            CosmicTaskStatus::Running => "COSMIC_TASK_STATUS_RUNNING",
            CosmicTaskStatus::Completed => "COSMIC_TASK_STATUS_COMPLETED",
            CosmicTaskStatus::Failed => "COSMIC_TASK_STATUS_FAILED",
            CosmicTaskStatus::FractalExpansion => "COSMIC_TASK_STATUS_FRACTAL_EXPANSION",
            CosmicTaskStatus::GeometricValidation => "COSMIC_TASK_STATUS_GEOMETRIC_VALIDATION",
        }
    }

    /// The value named `value`, or `None` for an unknown name.
    pub fn from_str_name(value: &str) -> (r: Option<CosmicTaskStatus>)
        ensures
            r == cosmic_task_status_of_name(value@),
    {
        if str_eq(value, "COSMIC_TASK_STATUS_UNSPECIFIED") {
            Some(CosmicTaskStatus::Unspecified)
        } else if str_eq(value, "COSMIC_TASK_STATUS_PENDING") {
            Some(CosmicTaskStatus::Pending)
        } else if str_eq(value, "COSMIC_TASK_STATUS_RUNNING") {
            Some(CosmicTaskStatus::Running)
        } else if str_eq(value, "COSMIC_TASK_STATUS_COMPLETED") {
            Some(CosmicTaskStatus::Completed)
        } else if str_eq(value, "COSMIC_TASK_STATUS_FAILED") {
            Some(CosmicTaskStatus::Failed)
        } else if str_eq(value, "COSMIC_TASK_STATUS_FRACTAL_EXPANSION") {
            Some(CosmicTaskStatus::FractalExpansion)
        } else if str_eq(value, "COSMIC_TASK_STATUS_GEOMETRIC_VALIDATION") {
            Some(CosmicTaskStatus::GeometricValidation)
        } else {
            None
        }
    }
}

/// A model provider.
#[derive(Clone, Copy, Debug, PartialEq, Eq, Hash, Structural)]
pub enum LlmModel {
    AkashChat,
    OllamaLocal,
    KimiResearch,
    Grok,
    OpenAi,
    Anthropic,
    Custom,
}

/// The stable wire name of each value.
pub open spec fn llm_model_name(v: LlmModel) -> Seq<char> {
    match v {
        LlmModel::AkashChat => "AkashChat"@,
        LlmModel::OllamaLocal => "OllamaLocal"@,
        LlmModel::KimiResearch => "KimiResearch"@,
        LlmModel::Grok => "Grok"@,
        LlmModel::OpenAi => "OpenAI"@,
        LlmModel::Anthropic => "Anthropic"@,
        LlmModel::Custom => "Custom"@,
    }
}

/// The value whose wire name is `s`, if any.
pub open spec fn llm_model_of_name(s: Seq<char>) -> Option<LlmModel> {
    if s == llm_model_name(LlmModel::AkashChat) {
        Some(LlmModel::AkashChat)
    } else if s == llm_model_name(LlmModel::OllamaLocal) {
        Some(LlmModel::OllamaLocal)
    } else if s == llm_model_name(LlmModel::KimiResearch) {
        Some(LlmModel::KimiResearch)
    } else if s == llm_model_name(LlmModel::Grok) {
        Some(LlmModel::Grok)
    } else if s == llm_model_name(LlmModel::OpenAi) {
        Some(LlmModel::OpenAi)
    } else if s == llm_model_name(LlmModel::Anthropic) {
        Some(LlmModel::Anthropic)
    } else if s == llm_model_name(LlmModel::Custom) {
        Some(LlmModel::Custom)
    } else {
        None
    }
}

impl LlmModel {
    /// The wire name of this value.
    pub fn as_str_name(&self) -> (r: &'static str)
        ensures
            r@ == llm_model_name(*self),
    {
        match self {
            LlmModel::AkashChat => "AkashChat",
            LlmModel::OllamaLocal => "OllamaLocal",
            LlmModel::KimiResearch => "KimiResearch",
            LlmModel::Grok => "Grok",
            LlmModel::OpenAi => "OpenAI",
            LlmModel::Anthropic => "Anthropic",
            LlmModel::Custom => "Custom",
        }
    }

    /// The value named `value`, or `None` for an unknown name.
    pub fn from_str_name(value: &str) -> (r: Option<LlmModel>)
        ensures
            r == llm_model_of_name(value@),
    {
        if str_eq(value, "AkashChat") {
            Some(LlmModel::AkashChat)
        } else if str_eq(value, "OllamaLocal") {
            Some(LlmModel::OllamaLocal)
        } else if str_eq(value, "KimiResearch") {
            Some(LlmModel::KimiResearch)
        } else if str_eq(value, "Grok") {
            Some(LlmModel::Grok)
        } else if str_eq(value, "OpenAI") {
            Some(LlmModel::OpenAi)
        } else if str_eq(value, "Anthropic") {
            Some(LlmModel::Anthropic)
        } else if str_eq(value, "Custom") {
            Some(LlmModel::Custom)
        } else {
            None
        }
    }
}

/// How a provider is picked.
#[derive(Clone, Copy, Debug, PartialEq, Eq, Hash, Structural)]
pub enum ModelSelectionStrategy {
    Unspecified,
    Priority,
    RoundRobin,
    GoldenRatio,
    LoadBalanced,
}

/// The stable wire name of each value.
pub open spec fn model_selection_strategy_name(v: ModelSelectionStrategy) -> Seq<char> {
    match v {
        ModelSelectionStrategy::Unspecified => "MODEL_SELECTION_STRATEGY_UNSPECIFIED"@,
        ModelSelectionStrategy::Priority => "MODEL_SELECTION_STRATEGY_PRIORITY"@,
        ModelSelectionStrategy::RoundRobin => "MODEL_SELECTION_STRATEGY_ROUND_ROBIN"@,
        ModelSelectionStrategy::GoldenRatio => "MODEL_SELECTION_STRATEGY_GOLDEN_RATIO"@,
        ModelSelectionStrategy::LoadBalanced => "MODEL_SELECTION_STRATEGY_LOAD_BALANCED"@,
    }
}

/// The value whose wire name is `s`, if any.
pub open spec fn model_selection_strategy_of_name(s: Seq<char>) -> Option<ModelSelectionStrategy> {
    if s == model_selection_strategy_name(ModelSelectionStrategy::Unspecified) {
        Some(ModelSelectionStrategy::Unspecified)
    } else if s == model_selection_strategy_name(ModelSelectionStrategy::Priority) {
        Some(ModelSelectionStrategy::Priority)
    } else if s == model_selection_strategy_name(ModelSelectionStrategy::RoundRobin) {
        Some(ModelSelectionStrategy::RoundRobin)
    } else if s == model_selection_strategy_name(ModelSelectionStrategy::GoldenRatio) {
        Some(ModelSelectionStrategy::GoldenRatio)
    } else if s == model_selection_strategy_name(ModelSelectionStrategy::LoadBalanced) {
        Some(ModelSelectionStrategy::LoadBalanced)
    } else {
        None
    }
}

impl ModelSelectionStrategy {
    /// The wire name of this value.
    pub fn as_str_name(&self) -> (r: &'static str)
        ensures
            r@ == model_selection_strategy_name(*self),
    {
        match self {
            ModelSelectionStrategy::Unspecified => "MODEL_SELECTION_STRATEGY_UNSPECIFIED",
            ModelSelectionStrategy::Priority => "MODEL_SELECTION_STRATEGY_PRIORITY",
            ModelSelectionStrategy::RoundRobin => "MODEL_SELECTION_STRATEGY_ROUND_ROBIN",
            ModelSelectionStrategy::GoldenRatio => "MODEL_SELECTION_STRATEGY_GOLDEN_RATIO",
            ModelSelectionStrategy::LoadBalanced => "MODEL_SELECTION_STRATEGY_LOAD_BALANCED",
        }
    }

    /// The value named `value`, or `None` for an unknown name.
    pub fn from_str_name(value: &str) -> (r: Option<ModelSelectionStrategy>)
        ensures
            r == model_selection_strategy_of_name(value@),
    {
        if str_eq(value, "MODEL_SELECTION_STRATEGY_UNSPECIFIED") {
            Some(ModelSelectionStrategy::Unspecified)
        } else if str_eq(value, "MODEL_SELECTION_STRATEGY_PRIORITY") {
            Some(ModelSelectionStrategy::Priority)
        } else if str_eq(value, "MODEL_SELECTION_STRATEGY_ROUND_ROBIN") {
            Some(ModelSelectionStrategy::RoundRobin)
        } else if str_eq(value, "MODEL_SELECTION_STRATEGY_GOLDEN_RATIO") {
            Some(ModelSelectionStrategy::GoldenRatio)
        } else if str_eq(value, "MODEL_SELECTION_STRATEGY_LOAD_BALANCED") {
            Some(ModelSelectionStrategy::LoadBalanced)
        } else {
            None
        }
    }
}

/// The numeric wire code of a model provider.
pub open spec fn llm_model_code(m: LlmModel) -> u32 {
    match m {
        LlmModel::AkashChat => 0,
        LlmModel::OllamaLocal => 1,
        LlmModel::KimiResearch => 2,
        LlmModel::Grok => 3,
        LlmModel::OpenAi => 4,
        LlmModel::Anthropic => 5,
        LlmModel::Custom => 6,
    }
}

impl LlmModel {
    /// The numeric wire code of this provider.
    pub fn code(&self) -> (r: u32)
        ensures
            r == llm_model_code(*self),
    {
        match self {
            LlmModel::AkashChat => 0,
            LlmModel::OllamaLocal => 1,
            LlmModel::KimiResearch => 2,
            LlmModel::Grok => 3,
            LlmModel::OpenAi => 4,
            LlmModel::Anthropic => 5,
            LlmModel::Custom => 6,
        }
    }
}

/// The numeric wire code of a selection strategy.
pub open spec fn strategy_code(s: ModelSelectionStrategy) -> i32 {
    match s {
        ModelSelectionStrategy::Unspecified => 0,
        ModelSelectionStrategy::Priority => 1,
        ModelSelectionStrategy::RoundRobin => 2,
        ModelSelectionStrategy::GoldenRatio => 3,
        ModelSelectionStrategy::LoadBalanced => 4,
    }
}

impl ModelSelectionStrategy {
    /// The numeric wire code of this strategy.
    pub fn code(&self) -> (r: i32)
        ensures
            r == strategy_code(*self),
    {
        match self {
            ModelSelectionStrategy::Unspecified => 0,
            ModelSelectionStrategy::Priority => 1,
            ModelSelectionStrategy::RoundRobin => 2,
            ModelSelectionStrategy::GoldenRatio => 3,
            ModelSelectionStrategy::LoadBalanced => 4,
        }
    }
}

/// One chat message.
#[derive(Clone, Debug, PartialEq, Eq, Default)]
pub struct PromptMessage {
    pub role: String,
    pub content: String,
}

/// Session tracking of a prompt.
#[derive(Clone, Debug, PartialEq, Eq, Default)]
pub struct PromptContext {
    pub session_id: Option<String>,
    pub user_id: Option<String>,
    pub thread_id: Option<String>,
}

/// Token counts of one exchange.
#[derive(Clone, Copy, Debug, PartialEq, Eq, Default)]
pub struct TokenUsage {
    pub prompt: u32,
    pub completion: u32,
    pub total: u32,
}

/// A model provider endpoint.
#[derive(Clone, Debug, PartialEq, Eq, Default)]
pub struct LlmProvider {
    pub name: String,
    pub base_url: String,
    pub supported_models: Vec<String>,
    pub provider_type: i32,
}

/// Local router settings.
#[derive(Clone, Debug, PartialEq, Eq, Default)]
pub struct LocalLlmConfig {
    pub timeout_seconds: u64,
    pub api_keys_file: String,
}

/// Where prompts are stored.
#[derive(Clone, Debug, PartialEq, Eq, Default)]
pub struct StorageConfig {
    pub data_dir: String,
    pub max_size_mb: u32,
    pub enable_compression: bool,
}

/// One message of a chat-completion request.
#[derive(Clone, Debug, PartialEq, Eq, Default)]
pub struct OpenAiMessage {
    pub role: String,
    pub content: String,
}

/// A chat-completion request.
#[derive(Clone, Debug, PartialEq, Eq, Default)]
pub struct OpenAiRequest {
    pub model: String,
    pub messages: Vec<OpenAiMessage>,
    pub temperature: Option<u32>,
    pub max_tokens: Option<u32>,
}

/// Token counts of a chat completion.
#[derive(Clone, Copy, Debug, PartialEq, Eq, Default)]
pub struct OpenAiUsage {
    pub prompt_tokens: u32,
    pub completion_tokens: u32,
    pub total_tokens: u32,
}

/// One choice of a chat completion.
#[derive(Clone, Debug, PartialEq, Eq, Default)]
pub struct OpenAiChoice {
    pub message: Option<OpenAiMessage>,
}

/// A chat-completion response.
#[derive(Clone, Debug, PartialEq, Eq, Default)]
pub struct OpenAiResponse {
    pub choices: Vec<OpenAiChoice>,
    pub usage: Option<OpenAiUsage>,
}

/// Log settings.
#[derive(Clone, Debug, PartialEq, Eq, Default)]
pub struct LoggingConfig {
    pub level: String,
    pub file: Option<String>,
}

/// A single model provider entry of the router.
#[derive(Clone, Debug, PartialEq, Eq, Default)]
pub struct LlmEntity {
    pub name: String,
    pub base_url: String,
    pub models: Vec<String>,
    pub default_model: String,
    pub priority: u32,
    pub enabled: bool,
    pub default_strategy: i32,
    pub timeout_seconds: u64,
    pub max_retries: u32,
}

/// Two entries hold the same values.
pub open spec fn same_entity(a: LlmEntity, b: LlmEntity) -> bool {
    &&& a.name@ == b.name@
    &&& a.base_url@ == b.base_url@
    &&& a.models@.map_values(|s: String| s@) == b.models@.map_values(|s: String| s@)
    &&& a.default_model@ == b.default_model@
    &&& a.priority == b.priority
    &&& a.enabled == b.enabled
    &&& a.default_strategy == b.default_strategy
    &&& a.timeout_seconds == b.timeout_seconds
    &&& a.max_retries == b.max_retries
}

/// Whether two string lists hold the same strings in the same order.
fn strings_eq(a: &Vec<String>, b: &Vec<String>) -> (r: bool)
    ensures
        r == (a@.map_values(|s: String| s@) == b@.map_values(|s: String| s@)),
{
    if a.len() != b.len() {
        assert(a@.map_values(|s: String| s@).len() != b@.map_values(|s: String| s@).len());
        return false;
    }
    let mut i: usize = 0;
    while i < a.len()
        invariant
            i <= a@.len(),
            a@.len() == b@.len(),
            forall|j: int| 0 <= j < i ==> a@[j]@ == b@[j]@,
        decreases a@.len() - i,
    {
        if a[i] != b[i] {
            assert(a@.map_values(|s: String| s@)[i as int] != b@.map_values(|s: String| s@)[i as int]);
            return false;
        }
        i = i + 1;
    }
    assert(a@.map_values(|s: String| s@) =~= b@.map_values(|s: String| s@));
    true
}

/// Whether two entries hold the same values.
fn entity_eq(a: &LlmEntity, b: &LlmEntity) -> (r: bool)
    ensures
        r == same_entity(*a, *b),
{
    a.name == b.name && a.base_url == b.base_url && strings_eq(&a.models, &b.models)
        && a.default_model == b.default_model && a.priority == b.priority && a.enabled == b.enabled
        && a.default_strategy == b.default_strategy && a.timeout_seconds == b.timeout_seconds
        && a.max_retries == b.max_retries
}

/// The router configuration: provider entries and defaults.
#[derive(Clone, Debug, PartialEq, Eq, Default)]
pub struct LlmRouterConfig {
    pub api_keys_file: String,
    pub entities: Vec<LlmEntity>,
    pub default_strategy: i32,
    pub timeout_seconds: u64,
    pub max_retries: u32,
    pub default_entity: u32,
}

impl LlmRouterConfig {
    /// Make `model` the default provider.
    pub fn update_default_entity(&mut self, model: LlmModel)
        ensures
            final(self).default_entity == llm_model_code(model),
            final(self).entities == old(self).entities,
            final(self).default_strategy == old(self).default_strategy,
            final(self).api_keys_file == old(self).api_keys_file,
            final(self).timeout_seconds == old(self).timeout_seconds,
            final(self).max_retries == old(self).max_retries,
    {
        self.default_entity = model.code();
    }

    /// Make `strategy` the default selection strategy.
    pub fn update_default_strategy(&mut self, strategy: ModelSelectionStrategy)
        ensures
            final(self).default_strategy == strategy_code(strategy),
            final(self).entities == old(self).entities,
            final(self).default_entity == old(self).default_entity,
            final(self).api_keys_file == old(self).api_keys_file,
            final(self).timeout_seconds == old(self).timeout_seconds,
            final(self).max_retries == old(self).max_retries,
    {
        self.default_strategy = strategy.code();
    }

    /// Add `entity` unless an equal entry is already there.
    pub fn add_entity(&mut self, entity: LlmEntity)
        ensures
            (exists|i: int| 0 <= i < old(self).entities@.len() && same_entity(old(self).entities@[i], entity))
                ==> final(self).entities@ == old(self).entities@,
            !(exists|i: int| 0 <= i < old(self).entities@.len() && same_entity(old(self).entities@[i], entity))
                ==> final(self).entities@ == old(self).entities@.push(entity),
            final(self).default_entity == old(self).default_entity,
            final(self).default_strategy == old(self).default_strategy,
            final(self).api_keys_file == old(self).api_keys_file,
            final(self).timeout_seconds == old(self).timeout_seconds,
            final(self).max_retries == old(self).max_retries,
    {
        let mut i: usize = 0;
        while i < self.entities.len()
            invariant
                self == old(self),
                i <= self.entities@.len(),
                forall|j: int| 0 <= j < i ==> !same_entity(self.entities@[j], entity),
            decreases self.entities@.len() - i,
        {
            if entity_eq(&self.entities[i], &entity) {
                return;
            }
            i = i + 1;
        }
        self.entities.push(entity);
    }

    /// Remove the first entry named `e_name`, if any.
    pub fn remove_entity(&mut self, e_name: String) -> (r: HoResult<()>)
        ensures
            r is Ok,
            (forall|i: int| 0 <= i < old(self).entities@.len() ==> old(self).entities@[i].name@ != e_name@)
                ==> final(self).entities@ == old(self).entities@,
            forall|i: int| 0 <= i < old(self).entities@.len() && old(self).entities@[i].name@ == e_name@
                && (forall|j: int| 0 <= j < i ==> old(self).entities@[j].name@ != e_name@)
                ==> final(self).entities@ == old(self).entities@.remove(i),
            final(self).default_entity == old(self).default_entity,
            final(self).default_strategy == old(self).default_strategy,
            final(self).api_keys_file == old(self).api_keys_file,
            final(self).timeout_seconds == old(self).timeout_seconds,
            final(self).max_retries == old(self).max_retries,
    {
        let mut i: usize = 0;
        while i < self.entities.len()
            invariant
                self == old(self),
                i <= self.entities@.len(),
                forall|j: int| 0 <= j < i ==> self.entities@[j].name@ != e_name@,
            decreases self.entities@.len() - i,
        {
            if self.entities[i].name == e_name {
                self.entities.remove(i);
                return Ok(());
            }
            i = i + 1;
        }
        Ok(())
    }
}

/// A node's whole configuration.
#[derive(Clone, Debug, PartialEq, Eq, Default)]
pub struct HoConfig {
    pub network: Option<NetworkConfig>,
    pub identity: Option<NodeIdentity>,
    pub storage: Option<StorageConfig>,
    pub llm: Option<LlmRouterConfig>,
}

} // verus!
