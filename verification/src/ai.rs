//! Tasks, routing policies and the built-in model providers.

use vstd::prelude::*;
use crate::base::{is_random_id, ProviderKind, Timestamp};
use crate::outside::{hyphenated_text, random_uuid_bits, uuid_text};

verus! {

#[derive(Debug, Clone, Copy, PartialEq, Eq, Structural)]
pub enum TaskKind {
    Text,
    Image,
    Video,
    Tts,
    Stt,
    Embedding,
    Vision,
    Music,
}

#[derive(Debug, Clone, Copy, PartialEq, Eq, Structural)]
pub enum PolicyMode {
    LocalFirst,
    FreeFirst,
    Cheapest,
    Fastest,
    QualityFirst,
    Balanced,
    UserSelected,
}

/// A request to run a model.
#[derive(Debug, Clone)]
pub struct ModelRequest {
    pub task: TaskKind,
    pub preferred_provider: Option<ProviderKind>,
    pub policy: PolicyMode,
    pub prompt: String,
    pub created_at: Timestamp,
}

#[derive(Debug, Clone)]
pub struct ModelResponse {
    pub job_id: String,
    pub provider: ProviderKind,
    pub task: TaskKind,
    pub status: String,
}

/// A model provider: what it is, which tasks it takes, and how it answers a request.
pub trait Provider {
    fn provider_kind(&self) -> ProviderKind;

    fn supports(&self, task: TaskKind) -> bool;

    fn run(&self, request: ModelRequest) -> ModelResponse;
}

/// The tasks that the built-in provider of kind `kind` takes. Only `Local`, `OpenRouter`,
/// `HuggingFace` and `ComfyUi` have a built-in provider; other kinds take nothing.
pub open spec fn supports_spec(kind: ProviderKind, task: TaskKind) -> bool {
    match kind {
        ProviderKind::Local => task is Text || task is Image || task is Video || task is Music,
        ProviderKind::OpenRouter => task is Text || task is Vision || task is Embedding
            || task is Tts || task is Stt,
        ProviderKind::HuggingFace => task is Text || task is Image || task is Vision
            || task is Embedding,
        ProviderKind::ComfyUi => task is Image || task is Video,
        _ => false,
    }
}

/// The job-id prefix of the built-in provider of kind `kind`.
pub open spec fn job_prefix_spec(kind: ProviderKind) -> Seq<char> {
    match kind {
        ProviderKind::Local => "local-"@,
        ProviderKind::OpenRouter => "openrouter-"@,
        ProviderKind::HuggingFace => "hf-"@,
        _ => "comfy-"@,
    }
}

/// What a built-in provider of kind `kind` answers to `request`: a queued job of that
/// provider for the request's task, whose id is the provider's prefix and a fresh
/// random (version 4) UUID.
pub open spec fn queued_response(kind: ProviderKind, request: ModelRequest, r: ModelResponse) -> bool {
    &&& r.provider == kind
    &&& r.task == request.task
    &&& r.status@ == "queued"@
    &&& exists|bits: u128| is_random_id(bits)
        && r.job_id@ == job_prefix_spec(kind) + #[trigger] hyphenated_text(bits)
}

/// A queued response of the built-in provider `kind`.
fn queued(kind: ProviderKind, prefix: &str, request: ModelRequest) -> (r: ModelResponse)
    requires
        prefix@ == job_prefix_spec(kind),
    ensures
        queued_response(kind, request, r),
{
    let bits = random_uuid_bits();
    let mut job_id = prefix.to_string();
    job_id.append(uuid_text(bits).as_str());
    let r = ModelResponse { job_id, provider: kind, task: request.task, status: "queued".to_string() };
    assert(r.job_id@ == job_prefix_spec(kind) + hyphenated_text(bits));
    r
}

#[derive(Debug, Default, Clone, Copy)]
pub struct LocalProvider;

impl Provider for LocalProvider {
    fn provider_kind(&self) -> (k: ProviderKind)
        ensures
            k == ProviderKind::Local,
    {
        ProviderKind::Local
    }

    fn supports(&self, task: TaskKind) -> (b: bool)
        ensures
            b == supports_spec(ProviderKind::Local, task),
    {
        match task {
            TaskKind::Text | TaskKind::Image | TaskKind::Video | TaskKind::Music => true,
            _ => false,
        }
    }

    fn run(&self, request: ModelRequest) -> (r: ModelResponse)
        ensures
            queued_response(ProviderKind::Local, request, r),
    {
        proof { reveal_strlit("local-"); }
        queued(ProviderKind::Local, "local-", request)
    }
}

#[derive(Debug, Default, Clone, Copy)]
pub struct OpenRouterProvider;

impl Provider for OpenRouterProvider {
    fn provider_kind(&self) -> (k: ProviderKind)
        ensures
            k == ProviderKind::OpenRouter,
    {
        ProviderKind::OpenRouter
    }

    fn supports(&self, task: TaskKind) -> (b: bool)
        ensures
            b == supports_spec(ProviderKind::OpenRouter, task),
    {
        match task {
            TaskKind::Text | TaskKind::Vision | TaskKind::Embedding | TaskKind::Tts
            | TaskKind::Stt => true,
            _ => false,
        }
    }

    fn run(&self, request: ModelRequest) -> (r: ModelResponse)
        ensures
            queued_response(ProviderKind::OpenRouter, request, r),
    {
        queued(ProviderKind::OpenRouter, "openrouter-", request)
    }
}

#[derive(Debug, Default, Clone, Copy)]
pub struct HuggingFaceProvider;

impl Provider for HuggingFaceProvider {
    fn provider_kind(&self) -> (k: ProviderKind)
        ensures
            k == ProviderKind::HuggingFace,
    {
        ProviderKind::HuggingFace
    }

    fn supports(&self, task: TaskKind) -> (b: bool)
        ensures
            b == supports_spec(ProviderKind::HuggingFace, task),
    {
        match task {
            TaskKind::Text | TaskKind::Image | TaskKind::Vision | TaskKind::Embedding => true,
            _ => false,
        }
    }

    fn run(&self, request: ModelRequest) -> (r: ModelResponse)
        ensures
            queued_response(ProviderKind::HuggingFace, request, r),
    {
        queued(ProviderKind::HuggingFace, "hf-", request)
    }
}

#[derive(Debug, Default, Clone, Copy)]
pub struct ComfyUiProvider;

impl Provider for ComfyUiProvider {
    fn provider_kind(&self) -> (k: ProviderKind)
        ensures
            k == ProviderKind::ComfyUi,
    {
        ProviderKind::ComfyUi
    }

    fn supports(&self, task: TaskKind) -> (b: bool)
        ensures
            b == supports_spec(ProviderKind::ComfyUi, task),
    {
        match task {
            TaskKind::Image | TaskKind::Video => true,
            _ => false,
        }
    }

    fn run(&self, request: ModelRequest) -> (r: ModelResponse)
        ensures
            queued_response(ProviderKind::ComfyUi, request, r),
    {
        queued(ProviderKind::ComfyUi, "comfy-", request)
    }
}

/// One of the built-in providers, as `ProviderRegistry::resolve` hands it out.
#[derive(Debug, Clone, Copy)]
pub enum AnyProvider {
    Local(LocalProvider),
    OpenRouter(OpenRouterProvider),
    HuggingFace(HuggingFaceProvider),
    ComfyUi(ComfyUiProvider),
}

impl AnyProvider {
    /// The kind of the built-in provider held.
    pub open spec fn kind_spec(self) -> ProviderKind {
        match self {
            AnyProvider::Local(_) => ProviderKind::Local,
            AnyProvider::OpenRouter(_) => ProviderKind::OpenRouter,
            AnyProvider::HuggingFace(_) => ProviderKind::HuggingFace,
            AnyProvider::ComfyUi(_) => ProviderKind::ComfyUi,
        }
    }
}

impl Provider for AnyProvider {
    fn provider_kind(&self) -> (k: ProviderKind)
        ensures
            k == self.kind_spec(),
    {
        match self {
            AnyProvider::Local(p) => p.provider_kind(),
            AnyProvider::OpenRouter(p) => p.provider_kind(),
            AnyProvider::HuggingFace(p) => p.provider_kind(),
            AnyProvider::ComfyUi(p) => p.provider_kind(),
        }
    }

    fn supports(&self, task: TaskKind) -> (b: bool)
        ensures
            b == supports_spec(self.kind_spec(), task),
    {
        match self {
            AnyProvider::Local(p) => p.supports(task),
            AnyProvider::OpenRouter(p) => p.supports(task),
            AnyProvider::HuggingFace(p) => p.supports(task),
            AnyProvider::ComfyUi(p) => p.supports(task),
        }
    }

    fn run(&self, request: ModelRequest) -> (r: ModelResponse)
        ensures
            queued_response(self.kind_spec(), request, r),
    {
        match self {
            AnyProvider::Local(p) => p.run(request),
            AnyProvider::OpenRouter(p) => p.run(request),
            AnyProvider::HuggingFace(p) => p.run(request),
            AnyProvider::ComfyUi(p) => p.run(request),
        }
    }
}

/// The kind of the built-in provider that stands for `preferred`: several kinds without a
/// provider of their own are served by one of the four built-in ones.
pub open spec fn resolve_spec(preferred: Option<ProviderKind>) -> ProviderKind {
    match preferred {
        Some(ProviderKind::Local) => ProviderKind::Local,
        Some(ProviderKind::HuggingFace) => ProviderKind::HuggingFace,
        Some(ProviderKind::ComfyUi) => ProviderKind::ComfyUi,
        Some(ProviderKind::Groq) => ProviderKind::OpenRouter,
        Some(ProviderKind::Cerebras) => ProviderKind::OpenRouter,
        Some(ProviderKind::Together) => ProviderKind::HuggingFace,
        Some(ProviderKind::Fireworks) => ProviderKind::OpenRouter,
        Some(ProviderKind::DeepInfra) => ProviderKind::HuggingFace,
        Some(ProviderKind::Fal) => ProviderKind::OpenRouter,
        Some(ProviderKind::Replicate) => ProviderKind::ComfyUi,
        Some(ProviderKind::OpenRouter) => ProviderKind::OpenRouter,
        Some(ProviderKind::Custom) => ProviderKind::Local,
        None => ProviderKind::Local,
    }
}

/// The four built-in providers.
#[derive(Debug, Clone, Copy)]
pub struct ProviderRegistry {
    local: LocalProvider,
    openrouter: OpenRouterProvider,
    huggingface: HuggingFaceProvider,
    comfyui: ComfyUiProvider,
}

impl Default for ProviderRegistry {
    fn default() -> Self {
        ProviderRegistry {
            local: LocalProvider,
            openrouter: OpenRouterProvider,
            huggingface: HuggingFaceProvider,
            comfyui: ComfyUiProvider,
        }
    }
}

impl ProviderRegistry {
    /// The built-in provider that serves `preferred` (`Local` when there is no preference).
    pub fn resolve(&self, preferred: Option<ProviderKind>) -> (p: AnyProvider)
        ensures
            p.kind_spec() == resolve_spec(preferred),
    {
        match preferred {
            Some(ProviderKind::Local) => AnyProvider::Local(self.local),
            Some(ProviderKind::HuggingFace) => AnyProvider::HuggingFace(self.huggingface),
            Some(ProviderKind::ComfyUi) => AnyProvider::ComfyUi(self.comfyui),
            Some(ProviderKind::Groq) => AnyProvider::OpenRouter(self.openrouter),
            Some(ProviderKind::Cerebras) => AnyProvider::OpenRouter(self.openrouter),
            Some(ProviderKind::Together) => AnyProvider::HuggingFace(self.huggingface),
            Some(ProviderKind::Fireworks) => AnyProvider::OpenRouter(self.openrouter),
            Some(ProviderKind::DeepInfra) => AnyProvider::HuggingFace(self.huggingface),
            Some(ProviderKind::Fal) => AnyProvider::OpenRouter(self.openrouter),
            Some(ProviderKind::Replicate) => AnyProvider::ComfyUi(self.comfyui),
            Some(ProviderKind::OpenRouter) => AnyProvider::OpenRouter(self.openrouter),
            Some(ProviderKind::Custom) => AnyProvider::Local(self.local),
            None => AnyProvider::Local(self.local),
        }
    }
}

} // verus!
