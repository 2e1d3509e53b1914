//! The vocabulary shared with the agent engine: approval modes, reasoning effort, providers and credentials.
use vstd::prelude::*;
use crate::text::{clone_strings, views, wipe};

verus! {

/// How tool calls are gated.
#[derive(Debug, Clone, Copy, PartialEq, Eq, Structural)]
pub enum ApprovalMode {
    /// Each mutating call asks first.
    Default,
    /// Calls run unattended.
    Auto,
    /// Only planning; nothing is executed.
    Plan,
}

impl Default for ApprovalMode {
    fn default() -> (r: ApprovalMode)
        ensures
            r == ApprovalMode::Default,
    {
        ApprovalMode::Default
    }
}

impl ApprovalMode {
    pub open spec fn following(self) -> ApprovalMode {
        match self {
            ApprovalMode::Default => ApprovalMode::Auto,
            ApprovalMode::Auto => ApprovalMode::Plan,
            ApprovalMode::Plan => ApprovalMode::Default,
        }
    }

    /// The mode that Shift+Tab cycles to.
    pub fn next(self) -> (r: ApprovalMode)
        ensures
            r == self.following(),
    {
        match self {
            ApprovalMode::Default => ApprovalMode::Auto,
            ApprovalMode::Auto => ApprovalMode::Plan,
            ApprovalMode::Plan => ApprovalMode::Default,
        }
    }
}

/// The reasoning effort asked of the model.
#[derive(Debug, Clone, Copy, PartialEq, Eq, Structural)]
pub enum Effort {
    Off,
    Low,
    Medium,
    High,
    Max,
}

impl Default for Effort {
    fn default() -> (r: Effort)
        ensures
            r == Effort::Medium,
    {
        Effort::Medium
    }
}

impl Effort {
    /// Every effort, in display order.
    pub const ALL: [Effort; 5] = [
        Effort::Off,
        Effort::Low,
        Effort::Medium,
        Effort::High,
        Effort::Max,
    ];

    pub open spec fn name(self) -> Seq<char> {
        match self {
            Effort::Off => "off"@,
            Effort::Low => "low"@,
            Effort::Medium => "medium"@,
            Effort::High => "high"@,
            Effort::Max => "max"@,
        }
    }

    pub fn label(self) -> (r: &'static str)
        ensures
            r@ == self.name(),
    {
        match self {
            Effort::Off => "off",
            Effort::Low => "low",
            Effort::Medium => "medium",
            Effort::High => "high",
            Effort::Max => "max",
        }
    }

    pub open spec fn rank(self) -> int {
        match self {
            Effort::Off => 0,
            Effort::Low => 1,
            Effort::Medium => 2,
            Effort::High => 3,
            Effort::Max => 4,
        }
    }

    /// The position of this effort in [`Effort::ALL`].
    pub fn position(self) -> (r: usize)
        ensures
            r as int == self.rank(),
            Effort::ALL[r as int] == self,
    {
        match self {
            Effort::Off => 0,
            Effort::Low => 1,
            Effort::Medium => 2,
            Effort::High => 3,
            Effort::Max => 4,
        }
    }
}


/// The kind of a provider: a vendor API, or a generic endpoint.
#[derive(Debug, Clone, Copy, PartialEq, Eq, Structural)]
pub enum ProviderKind {
    Nvidia,
    Openai,
    Anthropic,
    OpenAiCompatible,
    Custom,
}

impl ProviderKind {
    /// A vendor kind: it has a canonical id, a default endpoint, and needs an API key.
    pub open spec fn is_vendor(self) -> bool {
        self == ProviderKind::Nvidia || self == ProviderKind::Openai || self
            == ProviderKind::Anthropic
    }

    /// Whether the kind requires an API key (vendor) or may be keyless (compatible / custom).
    pub fn requires_api_key(self) -> (r: bool)
        ensures
            r == self.is_vendor(),
    {
        matches!(self, ProviderKind::Nvidia | ProviderKind::Openai | ProviderKind::Anthropic)
    }

    pub open spec fn endpoint(self) -> Seq<char> {
        match self {
            ProviderKind::Nvidia => "https://integrate.api.nvidia.com/v1"@,
            ProviderKind::Openai => "https://api.openai.com/v1"@,
            ProviderKind::Anthropic => "https://api.anthropic.com/v1"@,
            ProviderKind::OpenAiCompatible => ""@,
            ProviderKind::Custom => ""@,
        }
    }

    /// The vendor's endpoint; blank for the generic kinds, which have none.
    pub fn default_base_url(self) -> (r: &'static str)
        ensures
            r@ == self.endpoint(),
    {
        match self {
            ProviderKind::Nvidia => "https://integrate.api.nvidia.com/v1",
            ProviderKind::Openai => "https://api.openai.com/v1",
            ProviderKind::Anthropic => "https://api.anthropic.com/v1",
            ProviderKind::OpenAiCompatible => "",
            ProviderKind::Custom => "",
        }
    }

    pub open spec fn token(self) -> Seq<char> {
        match self {
            ProviderKind::Nvidia => "nvidia"@,
            ProviderKind::Openai => "openai"@,
            ProviderKind::Anthropic => "anthropic"@,
            ProviderKind::OpenAiCompatible => "openai-compatible"@,
            ProviderKind::Custom => "custom"@,
        }
    }

    /// The kind's canonical provider id.
    pub fn canonical_id(self) -> (r: &'static str)
        ensures
            r@ == self.token(),
    {
        match self {
            ProviderKind::Nvidia => "nvidia",
            ProviderKind::Openai => "openai",
            ProviderKind::Anthropic => "anthropic",
            ProviderKind::OpenAiCompatible => "openai-compatible",
            ProviderKind::Custom => "custom",
        }
    }

    pub open spec fn variant_name(self) -> Seq<char> {
        match self {
            ProviderKind::Nvidia => "Nvidia"@,
            ProviderKind::Openai => "Openai"@,
            ProviderKind::Anthropic => "Anthropic"@,
            ProviderKind::OpenAiCompatible => "OpenAiCompatible"@,
            ProviderKind::Custom => "Custom"@,
        }
    }

    /// The name of the variant.
    pub fn name(self) -> (r: &'static str)
        ensures
            r@ == self.variant_name(),
    {
        match self {
            ProviderKind::Nvidia => "Nvidia",
            ProviderKind::Openai => "Openai",
            ProviderKind::Anthropic => "Anthropic",
            ProviderKind::OpenAiCompatible => "OpenAiCompatible",
            ProviderKind::Custom => "Custom",
        }
    }

    /// Whether extended thinking starts out enabled.
    pub open spec fn thinks_by_default(self) -> bool {
        match self {
            ProviderKind::Nvidia | ProviderKind::Openai | ProviderKind::Anthropic => false,
            ProviderKind::OpenAiCompatible | ProviderKind::Custom => false,
        }
    }

    /// Whether extended thinking starts out enabled.
    pub fn thinking_default(self) -> (r: bool)
        ensures
            r == self.thinks_by_default(),
    {
        match self {
            ProviderKind::Nvidia | ProviderKind::Openai | ProviderKind::Anthropic => false,
            ProviderKind::OpenAiCompatible | ProviderKind::Custom => false,
        }
    }
}

/// How a provider authenticates.
#[derive(Debug, Clone, Copy, PartialEq, Eq, Structural)]
pub enum AuthMethod {
    ApiKey,
    OAuth,
    Keyless,
}

impl AuthMethod {
    pub open spec fn wire(self) -> Seq<char> {
        match self {
            AuthMethod::ApiKey => "api_key"@,
            AuthMethod::OAuth => "oauth"@,
            AuthMethod::Keyless => "none"@,
        }
    }

    /// The token written to the configuration.
    pub fn as_wire(self) -> (r: &'static str)
        ensures
            r@ == self.wire(),
    {
        match self {
            AuthMethod::ApiKey => "api_key",
            AuthMethod::OAuth => "oauth",
            AuthMethod::Keyless => "none",
        }
    }
}

/// A configured provider.
#[derive(Debug, Clone, PartialEq, Eq)]
pub struct ProviderProfile {
    pub id: String,
    pub kind: ProviderKind,
    pub base_url: String,
    pub model: String,
    pub models: Vec<String>,
    pub auth: AuthMethod,
    pub thinking: Option<bool>,
}

/// A provider profile's contents.
pub struct ProfileView {
    pub id: Seq<char>,
    pub kind: ProviderKind,
    pub base_url: Seq<char>,
    pub model: Seq<char>,
    pub models: Seq<Seq<char>>,
    pub auth: AuthMethod,
    pub thinking: Option<bool>,
}

impl View for ProviderProfile {
    type V = ProfileView;

    open spec fn view(&self) -> ProfileView {
        ProfileView {
            id: self.id@,
            kind: self.kind,
            base_url: self.base_url@,
            model: self.model@,
            models: views(self.models@),
            auth: self.auth,
            thinking: self.thinking,
        }
    }
}

/// The contents of each profile of a list.
pub open spec fn profile_views(v: Seq<ProviderProfile>) -> Seq<ProfileView> {
    Seq::new(v.len(), |i: int| v[i]@)
}

impl ProviderProfile {
    /// A copy of the profile.
    pub fn duplicate(&self) -> (r: ProviderProfile)
        ensures
            r@ == self@,
    {
        ProviderProfile {
            id: self.id.clone(),
            kind: self.kind,
            base_url: self.base_url.clone(),
            model: self.model.clone(),
            models: clone_strings(&self.models),
            auth: self.auth,
            thinking: self.thinking,
        }
    }
}

/// A credential value. It has no textual form: whoever needs the key asks for it with `expose`.
pub struct Secret {
    value: String,
}

impl View for Secret {
    type V = Seq<char>;

    closed spec fn view(&self) -> Seq<char> {
        self.value@
    }
}

impl Secret {
    pub fn new(value: String) -> (r: Secret)
        ensures
            r@ == value@,
    {
        Secret { value }
    }

    /// The key itself.
    pub fn expose(&self) -> (r: &str)
        ensures
            r@ == self@,
    {
        self.value.as_str()
    }
}

impl Drop for Secret {
    /// The key is overwritten with zeros, so that it does not linger in freed memory.
    fn drop(&mut self)
        opens_invariants none
        no_unwind
    {
        wipe(&mut self.value);
    }
}

/// The user's answer to a confirmation.
#[derive(Debug, Clone, Copy, PartialEq, Eq, Structural)]
pub enum Approval {
    Approved,
    /// Approve, and run the rest of the turn unattended.
    ApprovedAuto,
    Declined,
    Aborted,
}

} // verus!
