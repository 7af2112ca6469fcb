use local_agent::settings::{AgentProviderMode, LocalAgentSettings};

#[test]
fn default_settings() {
    let settings = LocalAgentSettings::default();
    assert_eq!(AgentProviderMode::default(), AgentProviderMode::WarpCloud);
    assert_eq!(settings.agent_provider_mode, AgentProviderMode::WarpCloud);
    assert_eq!(settings.local_endpoint_url, "http://localhost:11434/v1");
    assert_eq!(settings.local_model_name, "qwen2.5-coder");
    assert_eq!(settings.local_api_key, "");
    assert!(!settings.is_local_mode_selected());
    assert!(!settings.is_local_mode_enabled(true));
}

#[test]
fn local_mode_is_opt_in() {
    let settings = LocalAgentSettings {
        agent_provider_mode: AgentProviderMode::Local,
        ..LocalAgentSettings::default()
    };
    assert!(settings.is_local_mode_selected());
    assert!(settings.is_local_mode_enabled(true));
    assert!(!settings.is_local_mode_enabled(false));
}
