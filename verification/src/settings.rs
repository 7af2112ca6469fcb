//! Which provider serves agent conversations.
use vstd::prelude::*;

verus! {

/// Provider mode for agent conversations.
#[derive(Copy, Clone, Debug, PartialEq, Eq, Structural)]
pub enum AgentProviderMode {
    /// Use Warp Cloud (default behavior).
    WarpCloud,
    /// Use a local OpenAI-compatible endpoint.
    Local,
}

impl Default for AgentProviderMode {
    fn default() -> (r: Self)
        ensures
            r == AgentProviderMode::WarpCloud,
    {
        AgentProviderMode::WarpCloud
    }
}

/// The settings of the local provider.
#[derive(Clone, Debug)]
pub struct LocalAgentSettings {
    pub agent_provider_mode: AgentProviderMode,
    pub local_endpoint_url: String,
    pub local_model_name: String,
    pub local_api_key: String,
}

impl Default for LocalAgentSettings {
    fn default() -> (r: Self)
        ensures
            r.agent_provider_mode == AgentProviderMode::WarpCloud,
            r.local_endpoint_url@ == "http://localhost:11434/v1"@,
            r.local_model_name@ == "qwen2.5-coder"@,
            r.local_api_key@ == Seq::<char>::empty(),
    {
        LocalAgentSettings {
            agent_provider_mode: AgentProviderMode::WarpCloud,
            local_endpoint_url: "http://localhost:11434/v1".to_string(),
            local_model_name: "qwen2.5-coder".to_string(),
            local_api_key: String::new(),
        }
    }
}

/// Whether the local provider serves conversations.
pub open spec fn serves_locally(mode: AgentProviderMode, feature_enabled: bool) -> bool {
    feature_enabled && mode == AgentProviderMode::Local
}

impl LocalAgentSettings {
    /// Whether the user chose the local provider.
    pub fn is_local_mode_selected(&self) -> (r: bool)
        ensures
            r == (self.agent_provider_mode == AgentProviderMode::Local),
    {
        self.agent_provider_mode == AgentProviderMode::Local
    }

    /// Whether the local provider serves conversations: it is chosen, and the feature
    /// that offers it is on.
    pub fn is_local_mode_enabled(&self, feature_enabled: bool) -> (r: bool)
        ensures
            r == serves_locally(self.agent_provider_mode, feature_enabled),
    {
        feature_enabled && self.is_local_mode_selected()
    }
}

/// The local provider is opt-in: while the feature is off, or the mode is another one, it
/// serves nothing. Where it is chosen and the feature is on, it serves.
pub proof fn law_opt_in(mode: AgentProviderMode, feature_enabled: bool)
    ensures
        !serves_locally(mode, false),
        mode != AgentProviderMode::Local ==> !serves_locally(mode, feature_enabled),
        serves_locally(AgentProviderMode::Local, true),
{
}

} // verus!
