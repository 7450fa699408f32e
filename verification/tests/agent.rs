use std::sync::Arc;

use grok_agent::agent::{apply_runtime_policies, readonly_mode_overlay, rendered_or_empty, Agent};
use grok_agent::compaction::CompactionPolicy;
use grok_agent::config::{AgentDefinition, CompletionRequirement, PermissionMode, PromptMode};
use grok_agent::prompt::{AgentsMdFile, PromptAudience, PromptContext};
use grok_agent::system_reminder::ReminderPolicy;

#[test]
fn apply_runtime_policies_copies_completion_and_permission() {
    let mut home = AgentDefinition::default_grok_build();
    home.completion_requirement = Some(CompletionRequirement {
        tool: "complete_task".into(),
        reminder: "Call complete_task before ending.".into(),
        recovery: None,
    });
    home.permission_mode = PermissionMode::BypassPermissions;

    let overlay = readonly_mode_overlay(&home);
    assert_eq!(overlay.permission_mode, PermissionMode::Plan);
    assert!(overlay.completion_requirement.is_none());
    assert_eq!(overlay.name, home.name);

    let mut live = home.clone();
    apply_runtime_policies(&mut live, &overlay);
    assert!(live.completion_requirement.is_none());
    assert_eq!(live.permission_mode, PermissionMode::Plan);

    apply_runtime_policies(&mut live, &home);
    assert_eq!(
        live.completion_requirement.as_ref().map(|c| c.tool.as_str()),
        Some("complete_task")
    );
    assert_eq!(live.permission_mode, PermissionMode::BypassPermissions);
}

#[test]
fn named_agent_switch_replaces_completion_requirement() {
    let mut src = AgentDefinition::browser_use();
    src.completion_requirement = Some(CompletionRequirement {
        tool: "browser_done".into(),
        reminder: "Mark the browse complete.".into(),
        recovery: None,
    });
    let mut dst = AgentDefinition::default_grok_build();
    dst.completion_requirement = Some(CompletionRequirement {
        tool: "complete_task".into(),
        reminder: "stale".into(),
        recovery: None,
    });
    apply_runtime_policies(&mut dst, &src);
    assert_eq!(
        dst.completion_requirement.as_ref().map(|c| c.tool.as_str()),
        Some("browser_done")
    );
    assert_eq!(dst.name, src.name);
    assert_eq!(dst.permission_mode, src.permission_mode);
    assert_ne!(dst.permission_mode, PermissionMode::Plan);
}

fn context() -> PromptContext {
    PromptContext {
        prompt_mode: PromptMode::Default,
        prompt_body: None,
        system_prompt: None,
        include_browser_verification: false,
        agents_md_files: vec![AgentsMdFile {
            path: "/repo/AGENTS.md".into(),
            content: "Run the tests.".into(),
        }],
        build_timestamp_utc: String::new(),
        audience: PromptAudience::Primary,
    }
}

fn home_with_gate() -> AgentDefinition {
    let mut home = AgentDefinition::default_grok_build();
    home.completion_requirement = Some(CompletionRequirement {
        tool: "complete_task".into(),
        reminder: "Call complete_task before ending.".into(),
        recovery: Some("List what is left.".into()),
    });
    home.permission_mode = PermissionMode::AcceptEdits;
    home.mcp_servers = vec!["github".into()];
    home
}

fn agent() -> Agent<String, u32> {
    Agent::new(
        home_with_gate(),
        context(),
        "You are a coding agent.".into(),
        Arc::new("bridge".to_string()),
        ReminderPolicy::default(),
        CompactionPolicy::default(),
        vec![7, 9],
        true,
    )
}

#[test]
fn new_agent_exposes_its_parts() {
    let a = agent();
    assert_eq!(a.name(), "grok-build");
    assert_eq!(a.description(), a.definition().description.as_str());
    assert_eq!(a.base_definition().name, "grok-build");
    assert_eq!(*a.permission_mode(), PermissionMode::AcceptEdits);
    assert_eq!(a.completion_requirement().map(|c| c.tool.as_str()), Some("complete_task"));
    assert_eq!(a.system_prompt(), "You are a coding agent.");
    assert_eq!(a.tool_bridge().as_str(), "bridge");
    assert_eq!(*a.compaction_policy(), CompactionPolicy::default());
    assert_eq!(*a.reminder_policy(), ReminderPolicy::default());
    assert_eq!(a.prompt_context().agents_md_files.len(), 1);
    assert_eq!(a.prompt_audience(), PromptAudience::Primary);
    assert_eq!(a.hosted_tools(), &[7, 9]);
    assert!(a.backend_search_enabled());
}

#[test]
fn plan_overlay_then_agent_mode_restores_home() {
    let mut a = agent();
    a.apply_session_mode_overlay(false);
    assert_eq!(*a.permission_mode(), PermissionMode::Plan);
    assert!(a.completion_requirement().is_none());
    assert_eq!(a.base_definition().permission_mode, PermissionMode::AcceptEdits);
    assert!(a.base_definition().completion_requirement.is_some());

    // Toggling plan twice keeps the home intact.
    a.apply_session_mode_overlay(false);
    assert!(a.base_definition().completion_requirement.is_some());

    a.apply_session_mode_overlay(true);
    assert_eq!(*a.permission_mode(), PermissionMode::AcceptEdits);
    assert_eq!(a.completion_requirement().map(|c| c.tool.as_str()), Some("complete_task"));
    assert_eq!(a.definition().mcp_servers, vec!["github".to_string()]);
    assert_eq!(a.prompt_context().agents_md_files.len(), 1);
}

#[test]
fn named_switch_becomes_the_new_home() {
    let mut a = agent();
    let mut browser = AgentDefinition::browser_use();
    browser.agents_md = false;
    browser.prompt_mode = PromptMode::Append;
    browser.prompt_body = Some("Use the browser.".into());
    a.update_policies_from_definition(&browser);
    assert_eq!(a.name(), "browser_use");
    assert_eq!(a.base_definition().name, "browser_use");
    assert!(a.completion_requirement().is_none());
    // Chat identity stays with the session.
    assert_eq!(a.definition().mcp_servers, vec!["github".to_string()]);
    assert!(!a.definition().browser_verification);
    // The prompt context follows the new definition.
    assert_eq!(a.prompt_context().prompt_mode, PromptMode::Append);
    assert_eq!(a.prompt_context().prompt_body.as_deref(), Some("Use the browser."));
    assert!(a.prompt_context().include_browser_verification);
    assert!(a.prompt_context().agents_md_files.is_empty());

    // Restoring the home now restores the browser agent.
    a.apply_session_mode_overlay(false);
    assert_eq!(*a.permission_mode(), PermissionMode::Plan);
    a.apply_session_mode_overlay(true);
    assert_eq!(a.name(), "browser_use");
    assert_eq!(*a.permission_mode(), PermissionMode::Default);
}

#[test]
fn agent_should_auto_compact_uses_policy_threshold() {
    let a = agent();
    assert!(!a.should_auto_compact(84_999, 100_000));
    assert!(a.should_auto_compact(85_000, 100_000));

    let mut policy = CompactionPolicy::default();
    // The threshold is taken as a byte: 356 behaves as 100.
    policy.auto_compact_threshold_percent = 356;
    let b: Agent<String, u32> = Agent::new(
        home_with_gate(),
        context(),
        String::new(),
        Arc::new(String::new()),
        ReminderPolicy::default(),
        policy,
        Vec::new(),
        false,
    );
    assert!(!b.should_auto_compact(99_999, 100_000));
    assert!(b.should_auto_compact(100_000, 100_000));
}

#[test]
fn rendered_prompt_is_installed_or_emptied() {
    let mut a = agent();
    a.install_rendered_prompt(Some("fresh prompt".into()));
    assert_eq!(a.system_prompt(), "fresh prompt");
    a.install_rendered_prompt(None);
    assert_eq!(a.system_prompt(), "");
}

#[test]
fn build_timestamp_is_utc_rfc3339() {
    let mut a = agent();
    a.refresh_build_timestamp();
    let ts = &a.prompt_context().build_timestamp_utc;
    assert!(ts.ends_with("+00:00"), "{ts}");
    assert!(ts.contains('T'));
    assert!(chrono::DateTime::parse_from_rfc3339(ts).is_ok(), "{ts}");
    assert_eq!(a.prompt_context().agents_md_files.len(), 1);
}

#[test]
fn context_for_definition_follows_definition() {
    let a = agent();
    let mut def = AgentDefinition::browser_use();
    def.agents_md = false;
    def.system_prompt = Some("Custom.".into());
    def.prompt_mode = PromptMode::Replace;
    let ctx = a.prompt_context_for_definition(&def);
    assert_eq!(ctx.prompt_mode, PromptMode::Replace);
    assert_eq!(ctx.system_prompt.as_deref(), Some("Custom."));
    assert!(ctx.include_browser_verification);
    assert!(ctx.agents_md_files.is_empty());
    assert!(ctx.build_timestamp_utc.ends_with("+00:00"));
    // The agent itself is untouched.
    assert_eq!(a.prompt_context().agents_md_files.len(), 1);
    assert_eq!(a.prompt_context().prompt_mode, PromptMode::Default);

    let keep = a.prompt_context_for_definition(&AgentDefinition::default_grok_build());
    assert_eq!(keep.agents_md_files.len(), 1);
}

#[test]
fn overlay_keeps_everything_but_permission_and_gate() {
    let home = home_with_gate();
    let overlay = readonly_mode_overlay(&home);
    assert_eq!(overlay.name, home.name);
    assert_eq!(overlay.description, home.description);
    assert_eq!(overlay.mcp_servers, home.mcp_servers);
    assert_eq!(overlay.agents_md, home.agents_md);
    let twice = readonly_mode_overlay(&overlay);
    assert_eq!(twice.permission_mode, PermissionMode::Plan);
    assert!(twice.completion_requirement.is_none());
}

#[test]
fn switch_keeps_chat_identity_of_destination() {
    let src = home_with_gate();
    let mut dst = AgentDefinition::browser_use();
    dst.allowed_subagent_types = vec!["explore".into()];
    apply_runtime_policies(&mut dst, &src);
    assert_eq!(dst.allowed_subagent_types, vec!["explore".to_string()]);
    assert!(dst.mcp_servers.is_empty());
    assert!(dst.browser_verification);
    assert_eq!(dst.name, "grok-build");
    assert_eq!(dst.permission_mode, PermissionMode::AcceptEdits);
    assert_eq!(
        dst.completion_requirement.as_ref().and_then(|c| c.recovery.as_deref()),
        Some("List what is left.")
    );
}

#[test]
fn definition_clone_is_equal_field_by_field() {
    let d = home_with_gate();
    let c = d.clone();
    assert_eq!(c.name, d.name);
    assert_eq!(c.mcp_servers, d.mcp_servers);
    assert_eq!(
        c.completion_requirement.as_ref().map(|r| r.reminder.clone()),
        d.completion_requirement.as_ref().map(|r| r.reminder.clone())
    );
    assert!(d.include_browser_verification() == d.browser_verification);
}

#[test]
fn set_build_timestamp_and_context_at() {
    let mut a = agent();
    a.set_build_timestamp("2024-05-01T12:00:00+00:00".into());
    assert_eq!(a.prompt_context().build_timestamp_utc, "2024-05-01T12:00:00+00:00");
    assert_eq!(a.system_prompt(), "You are a coding agent.");

    let def = AgentDefinition::browser_use();
    let ctx = a.prompt_context_for_definition_at(&def, "2025-01-01T00:00:00+00:00".into());
    assert_eq!(ctx.build_timestamp_utc, "2025-01-01T00:00:00+00:00");
    assert!(ctx.include_browser_verification);

    // Switching to the definition and stamping gives the same context.
    let mut b = agent();
    b.update_policies_from_definition(&def);
    b.set_build_timestamp("2025-01-01T00:00:00+00:00".into());
    assert_eq!(b.prompt_context().build_timestamp_utc, ctx.build_timestamp_utc);
    assert_eq!(b.prompt_context().prompt_mode, ctx.prompt_mode);
    assert_eq!(b.prompt_context().include_browser_verification, ctx.include_browser_verification);
    assert_eq!(b.prompt_context().agents_md_files.len(), ctx.agents_md_files.len());
}

#[test]
fn rendered_or_empty_falls_back_to_empty() {
    assert_eq!(rendered_or_empty(Some("p".into())), "p");
    assert_eq!(rendered_or_empty(None), "");
}
