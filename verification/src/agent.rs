//! Agent: a fully built agent, that is a definition bound to a session.
//!
//! Chat state lives on the host. The agent holds the tool bridge and a
//! definition that mid-session mode switches may overlay without
//! rebuilding the tool registry; the home definition that the session was
//! built from (or last switched to by name) is kept apart, so that leaving
//! a plan/ask overlay restores it.
use std::sync::Arc;
use vstd::prelude::*;

use crate::clock::{is_rfc3339_utc, utc_now_rfc3339};
use crate::compaction::{exceeds_threshold, usage_reaches, CompactionPolicy};
use crate::config::{
    clone_opt_requirement, clone_opt_string, clone_overrides, AgentDefinition,
    AgentDefinitionView, CompletionRequirement, PermissionMode,
};
use crate::prompt::{PromptAudience, PromptContext, PromptContextView};
use crate::system_reminder::ReminderPolicy;

verus! {

/// A definition with the runtime policies of `src` copied over those of
/// `dst`; the chat identity (MCP servers, allowed subagent types, browser
/// verification) stays that of `dst`.
pub open spec fn runtime_policies_applied(
    dst: AgentDefinitionView,
    src: AgentDefinitionView,
) -> AgentDefinitionView {
    AgentDefinitionView {
        completion_requirement: src.completion_requirement,
        permission_mode: src.permission_mode,
        prompt_mode: src.prompt_mode,
        tool_overrides: src.tool_overrides,
        prompt_body: src.prompt_body,
        system_prompt: src.system_prompt,
        agents_md: src.agents_md,
        name: src.name,
        description: src.description,
        ..dst
    }
}

/// The plan/ask overlay of a home definition: read-only permission and no
/// completion gate, everything else as at home.
pub open spec fn readonly_overlay(home: AgentDefinitionView) -> AgentDefinitionView {
    AgentDefinitionView {
        permission_mode: PermissionMode::Plan,
        completion_requirement: None,
        ..home
    }
}

/// A prompt context following the prompt settings of `def`: its AGENTS.md
/// files are dropped when `def` does not want them.
pub open spec fn context_synced(ctx: PromptContextView, def: AgentDefinitionView) -> PromptContextView {
    PromptContextView {
        prompt_mode: def.prompt_mode,
        prompt_body: def.prompt_body,
        system_prompt: def.system_prompt,
        include_browser_verification: def.browser_verification,
        agents_md_files: if def.agents_md {
            ctx.agents_md_files
        } else {
            Seq::empty()
        },
        ..ctx
    }
}

/// Copy the fields a mid-session switch is allowed to change without
/// rebuilding the registry. Chat identity (MCP servers, allowed subagent
/// types) stays on `dst`.
pub fn apply_runtime_policies(dst: &mut AgentDefinition, src: &AgentDefinition)
    ensures
        final(dst)@ == runtime_policies_applied(old(dst)@, src@),
{
    dst.completion_requirement = clone_opt_requirement(&src.completion_requirement);
    dst.permission_mode = src.permission_mode;
    dst.prompt_mode = src.prompt_mode;
    dst.tool_overrides = clone_overrides(&src.tool_overrides);
    dst.prompt_body = clone_opt_string(&src.prompt_body);
    dst.system_prompt = clone_opt_string(&src.system_prompt);
    dst.agents_md = src.agents_md;
    dst.name = src.name.clone();
    dst.description = src.description.clone();
}

/// Plan/ask overlay: read-only permission and no completion gate, cloned
/// from the session's home definition so that leaving the overlay can
/// restore the home requirement.
pub fn readonly_mode_overlay(home: &AgentDefinition) -> (overlay: AgentDefinition)
    ensures
        overlay@ == readonly_overlay(home@),
{
    let mut overlay = home.clone();
    overlay.permission_mode = PermissionMode::Plan;
    overlay.completion_requirement = None;
    overlay
}

/// The system prompt a render outcome gives: the rendered text, or the
/// empty string when rendering failed.
pub open spec fn rendered_text(rendered: Option<String>) -> Seq<char> {
    match rendered {
        Some(s) => s@,
        None => Seq::empty(),
    }
}

/// The system prompt a render outcome gives: the rendered text, or the
/// empty string when rendering failed.
pub fn rendered_or_empty(rendered: Option<String>) -> (r: String)
    ensures
        r@ == rendered_text(rendered),
        rendered is Some ==> r == rendered->0,
{
    match rendered {
        Some(s) => s,
        None => String::new(),
    }
}

/// A fully built agent: a definition plus its session context.
///
/// `B` is the session's tool bridge, `T` the type of the backend-hosted
/// tools sent with API requests.
pub struct Agent<B, T> {
    /// The definition currently in effect (may be a session-mode overlay).
    definition: AgentDefinition,
    /// Definition the session was built from (or last named-agent switch).
    base_definition: AgentDefinition,
    /// The context that produced the current system prompt.
    prompt_context: PromptContext,
    /// The rendered system prompt.
    system_prompt: String,
    /// The tool bridge of the session.
    tool_bridge: Arc<B>,
    reminder_policy: ReminderPolicy,
    compaction_policy: CompactionPolicy,
    /// Backend-hosted tools to include in API requests.
    hosted_tools: Vec<T>,
    /// Build-time toggle for server-side search tools.
    backend_search_enabled: bool,
}

/// The mathematical value of an [`Agent`].
#[verifier::ext_equal]
pub struct AgentView<B, T> {
    pub definition: AgentDefinitionView,
    pub base_definition: AgentDefinitionView,
    pub prompt_context: PromptContextView,
    pub system_prompt: String,
    pub tool_bridge: Arc<B>,
    pub reminder_policy: ReminderPolicy,
    pub compaction_policy: CompactionPolicy,
    pub hosted_tools: Seq<T>,
    pub backend_search_enabled: bool,
}

impl<B, T> View for Agent<B, T> {
    type V = AgentView<B, T>;

    closed spec fn view(&self) -> AgentView<B, T> {
        AgentView {
            definition: self.definition@,
            base_definition: self.base_definition@,
            prompt_context: self.prompt_context@,
            system_prompt: self.system_prompt,
            tool_bridge: self.tool_bridge,
            reminder_policy: self.reminder_policy,
            compaction_policy: self.compaction_policy,
            hosted_tools: self.hosted_tools@,
            backend_search_enabled: self.backend_search_enabled,
        }
    }
}

/// The agent after a session-mode toggle: the home definition itself when
/// `restore_home`, else its read-only overlay, applied as runtime policies
/// and to the prompt context. The home definition does not change.
pub open spec fn session_mode_overlaid<B, T>(a: AgentView<B, T>, restore_home: bool) -> AgentView<B, T> {
    let overlay = if restore_home {
        a.base_definition
    } else {
        readonly_overlay(a.base_definition)
    };
    AgentView {
        definition: runtime_policies_applied(a.definition, overlay),
        prompt_context: context_synced(a.prompt_context, overlay),
        ..a
    }
}

/// The agent after a switch to the named definition `def`, which becomes
/// the new home.
pub open spec fn policies_updated<B, T>(a: AgentView<B, T>, def: AgentDefinitionView) -> AgentView<B, T> {
    AgentView {
        definition: runtime_policies_applied(a.definition, def),
        base_definition: def,
        prompt_context: context_synced(a.prompt_context, def),
        ..a
    }
}

impl<B, T> Agent<B, T> {
    /// Create a new agent; the definition is also its home definition.
    pub fn new(
        definition: AgentDefinition,
        prompt_context: PromptContext,
        system_prompt: String,
        tool_bridge: Arc<B>,
        reminder_policy: ReminderPolicy,
        compaction_policy: CompactionPolicy,
        hosted_tools: Vec<T>,
        backend_search_enabled: bool,
    ) -> (r: Self)
        ensures
            r@ == (AgentView {
                definition: definition@,
                base_definition: definition@,
                prompt_context: prompt_context@,
                system_prompt,
                tool_bridge,
                reminder_policy,
                compaction_policy,
                hosted_tools: hosted_tools@,
                backend_search_enabled,
            }),
    {
        Agent {
            base_definition: definition.clone(),
            definition,
            prompt_context,
            system_prompt,
            tool_bridge,
            reminder_policy,
            compaction_policy,
            hosted_tools,
            backend_search_enabled,
        }
    }

    /// Agent name (unique identifier).
    pub fn name(&self) -> (r: &str)
        ensures
            r@ == self@.definition.name@,
    {
        self.definition.name.as_str()
    }

    /// Agent description.
    pub fn description(&self) -> (r: &str)
        ensures
            r@ == self@.definition.description@,
    {
        self.definition.description.as_str()
    }

    /// The full agent definition currently in effect.
    pub fn definition(&self) -> (r: &AgentDefinition)
        ensures
            r@ == self@.definition,
    {
        &self.definition
    }

    /// Home definition this session was built from (or last named-agent
    /// switch). Session-mode overlays restore from this.
    pub fn base_definition(&self) -> (r: &AgentDefinition)
        ensures
            r@ == self@.base_definition,
    {
        &self.base_definition
    }

    /// Permission mode for this agent.
    pub fn permission_mode(&self) -> (r: &PermissionMode)
        ensures
            *r == self@.definition.permission_mode,
    {
        &self.definition.permission_mode
    }

    /// Completion requirement, if any.
    pub fn completion_requirement(&self) -> (r: Option<&CompletionRequirement>)
        ensures
            match r {
                Some(c) => self@.definition.completion_requirement == Some(*c),
                None => self@.definition.completion_requirement is None,
            },
    {
        self.definition.completion_requirement.as_ref()
    }

    /// The rendered system prompt.
    pub fn system_prompt(&self) -> (r: &str)
        ensures
            r@ == self@.system_prompt@,
    {
        self.system_prompt.as_str()
    }

    /// The tool bridge for this agent.
    pub fn tool_bridge(&self) -> (r: &Arc<B>)
        ensures
            *r == self@.tool_bridge,
    {
        &self.tool_bridge
    }

    /// Compaction policy.
    pub fn compaction_policy(&self) -> (r: &CompactionPolicy)
        ensures
            *r == self@.compaction_policy,
    {
        &self.compaction_policy
    }

    /// Reminder policy.
    pub fn reminder_policy(&self) -> (r: &ReminderPolicy)
        ensures
            *r == self@.reminder_policy,
    {
        &self.reminder_policy
    }

    /// The structured prompt context for inspection and re-rendering.
    pub fn prompt_context(&self) -> (r: &PromptContext)
        ensures
            r@ == self@.prompt_context,
    {
        &self.prompt_context
    }

    /// Audience this agent's prompt was rendered for (primary or subagent).
    pub fn prompt_audience(&self) -> (r: PromptAudience)
        ensures
            r == self@.prompt_context.audience,
    {
        self.prompt_context.audience
    }

    /// Backend-hosted tools that should be included in API requests.
    pub fn hosted_tools(&self) -> (r: &[T])
        ensures
            r@ == self@.hosted_tools,
    {
        self.hosted_tools.as_slice()
    }

    /// Build-time toggle for server-side search tools; callers AND it with
    /// the per-model support flag.
    pub fn backend_search_enabled(&self) -> (r: bool)
        ensures
            r == self@.backend_search_enabled,
    {
        self.backend_search_enabled
    }

    /// Whether auto-compact should trigger given current token usage: the
    /// usage percentage `total_tokens * 100 / context_window`, rounded down,
    /// reaches the policy's threshold, taken as a byte.
    pub fn should_auto_compact(&self, total_tokens: u64, context_window: u64) -> (r: bool)
        requires
            context_window > 0,
        ensures
            r == usage_reaches(
                total_tokens as int,
                context_window as int,
                (self@.compaction_policy.auto_compact_threshold_percent as u8) as int,
            ),
    {
        exceeds_threshold(
            total_tokens,
            context_window,
            self.compaction_policy.auto_compact_threshold_percent as u8,
        )
    }

    /// Apply a named-agent definition's runtime policies and make it the
    /// new home. Does not rebuild the tool registry or re-render the prompt.
    pub fn update_policies_from_definition(&mut self, def: &AgentDefinition)
        ensures
            final(self)@ == policies_updated(old(self)@, def@),
    {
        apply_runtime_policies(&mut self.definition, def);
        self.sync_prompt_context_from_definition(def);
        self.base_definition = def.clone();
    }

    /// Overlay plan/ask (read-only, no completion gate) or restore the home
    /// definition for agent mode. Chat state and the tool registry stay put.
    pub fn apply_session_mode_overlay(&mut self, restore_home: bool)
        ensures
            final(self)@ == session_mode_overlaid(old(self)@, restore_home),
    {
        let overlay = if restore_home {
            self.base_definition.clone()
        } else {
            readonly_mode_overlay(&self.base_definition)
        };
        apply_runtime_policies(&mut self.definition, &overlay);
        self.sync_prompt_context_from_definition(&overlay);
    }

    fn sync_prompt_context_from_definition(&mut self, def: &AgentDefinition)
        ensures
            final(self)@ == (AgentView {
                prompt_context: context_synced(old(self)@.prompt_context, def@),
                ..old(self)@
            }),
    {
        self.prompt_context.prompt_mode = def.prompt_mode;
        self.prompt_context.prompt_body = clone_opt_string(&def.prompt_body);
        self.prompt_context.system_prompt = clone_opt_string(&def.system_prompt);
        self.prompt_context.include_browser_verification = def.include_browser_verification();
        if !def.agents_md {
            self.prompt_context.agents_md_files.clear();
        }
    }

    /// Stamp the prompt context with the build time `now`.
    pub fn set_build_timestamp(&mut self, now: String)
        ensures
            final(self)@ == (AgentView {
                prompt_context: PromptContextView { build_timestamp_utc: now, ..old(self)@.prompt_context },
                ..old(self)@
            }),
    {
        self.prompt_context.build_timestamp_utc = now;
    }

    /// Stamp the prompt context with the current UTC time, as done before
    /// every re-render of the system prompt.
    pub fn refresh_build_timestamp(&mut self)
        ensures
            final(self)@ == (AgentView {
                prompt_context: PromptContextView {
                    build_timestamp_utc: final(self)@.prompt_context.build_timestamp_utc,
                    ..old(self)@.prompt_context
                },
                ..old(self)@
            }),
            is_rfc3339_utc(final(self)@.prompt_context.build_timestamp_utc@),
    {
        self.set_build_timestamp(utc_now_rfc3339());
    }

    /// Install the outcome of a render as the system prompt: the rendered
    /// text, or the empty prompt when rendering failed.
    pub fn install_rendered_prompt(&mut self, rendered: Option<String>)
        ensures
            final(self)@ == (AgentView { system_prompt: final(self)@.system_prompt, ..old(self)@ }),
            final(self)@.system_prompt@ == rendered_text(rendered),
            rendered is Some ==> final(self)@.system_prompt == rendered->0,
    {
        self.system_prompt = rendered_or_empty(rendered);
    }

    /// The prompt context to render for a different definition at build
    /// time `now`, reusing the agent's own: the definition's prompt
    /// settings, and no AGENTS.md files when the definition does not want them.
    pub fn prompt_context_for_definition_at(&self, definition: &AgentDefinition, now: String) -> (ctx:
        PromptContext)
        ensures
            ctx@ == (PromptContextView {
                build_timestamp_utc: now,
                ..context_synced(self@.prompt_context, definition@)
            }),
    {
        let mut ctx = self.prompt_context.clone();
        ctx.prompt_mode = definition.prompt_mode;
        ctx.prompt_body = clone_opt_string(&definition.prompt_body);
        ctx.system_prompt = clone_opt_string(&definition.system_prompt);
        ctx.include_browser_verification = definition.include_browser_verification();
        ctx.build_timestamp_utc = now;
        if !definition.agents_md {
            ctx.agents_md_files.clear();
        }
        ctx
    }

    /// The prompt context to render for a different definition, stamped
    /// with the current UTC time.
    pub fn prompt_context_for_definition(&self, definition: &AgentDefinition) -> (ctx: PromptContext)
        ensures
            ctx@ == (PromptContextView {
                build_timestamp_utc: ctx@.build_timestamp_utc,
                ..context_synced(self@.prompt_context, definition@)
            }),
            is_rfc3339_utc(ctx@.build_timestamp_utc@),
    {
        self.prompt_context_for_definition_at(definition, utc_now_rfc3339())
    }
}

/// A switch copies exactly the runtime policies of its source and keeps the
/// chat identity (MCP servers, allowed subagent types, browser verification)
/// of the definition it is applied to.
pub proof fn law_switch_keeps_chat_identity(dst: AgentDefinitionView, src: AgentDefinitionView)
    ensures
        ({
            let r = runtime_policies_applied(dst, src);
            &&& r.completion_requirement == src.completion_requirement
            &&& r.permission_mode == src.permission_mode
            &&& r.prompt_mode == src.prompt_mode
            &&& r.tool_overrides == src.tool_overrides
            &&& r.prompt_body == src.prompt_body
            &&& r.system_prompt == src.system_prompt
            &&& r.agents_md == src.agents_md
            &&& r.name == src.name
            &&& r.description == src.description
            &&& r.mcp_servers == dst.mcp_servers
            &&& r.allowed_subagent_types == dst.allowed_subagent_types
            &&& r.browser_verification == dst.browser_verification
        }),
{
}

/// Applying the same runtime policies twice is the same as applying them once.
pub proof fn law_switch_idempotent(dst: AgentDefinitionView, src: AgentDefinitionView)
    ensures
        runtime_policies_applied(runtime_policies_applied(dst, src), src)
            == runtime_policies_applied(dst, src),
{
}

/// Of two switches in a row only the last counts.
pub proof fn law_last_switch_wins(
    dst: AgentDefinitionView,
    first: AgentDefinitionView,
    second: AgentDefinitionView,
)
    ensures
        runtime_policies_applied(runtime_policies_applied(dst, first), second)
            == runtime_policies_applied(dst, second),
{
}

/// The plan/ask overlay is read-only and has no completion gate; overlaying
/// an overlay changes nothing more.
pub proof fn law_overlay_read_only(home: AgentDefinitionView)
    ensures
        readonly_overlay(home).permission_mode == PermissionMode::Plan,
        readonly_overlay(home).completion_requirement is None,
        readonly_overlay(home).name == home.name,
        readonly_overlay(readonly_overlay(home)) == readonly_overlay(home),
{
}

/// Leaving the overlay restores the home: the home's completion requirement
/// and permission mode come back as if the overlay had never been applied.
pub proof fn law_leaving_overlay_restores_home(dst: AgentDefinitionView, home: AgentDefinitionView)
    ensures
        runtime_policies_applied(runtime_policies_applied(dst, readonly_overlay(home)), home)
            == runtime_policies_applied(dst, home),
{
}

/// Following the same definition twice leaves the prompt context as
/// following it once.
pub proof fn law_context_sync_idempotent(ctx: PromptContextView, def: AgentDefinitionView)
    ensures
        context_synced(context_synced(ctx, def), def) == context_synced(ctx, def),
{
    assert(context_synced(context_synced(ctx, def), def).agents_md_files
        =~= context_synced(ctx, def).agents_md_files);
}

/// Session-mode toggles never change the home definition, and a plan/ask
/// overlay leaves the agent read-only without a completion gate.
pub proof fn law_mode_toggle_keeps_home<B, T>(a: AgentView<B, T>, restore_home: bool)
    ensures
        session_mode_overlaid(a, restore_home).base_definition == a.base_definition,
        !restore_home ==> session_mode_overlaid(a, restore_home).definition.permission_mode
            == PermissionMode::Plan,
        !restore_home ==> session_mode_overlaid(a, restore_home).definition.completion_requirement is None,
        restore_home ==> session_mode_overlaid(a, restore_home).definition.completion_requirement
            == a.base_definition.completion_requirement,
        restore_home ==> session_mode_overlaid(a, restore_home).definition.permission_mode
            == a.base_definition.permission_mode,
{
}

/// Entering plan/ask and going back to agent mode leaves the agent as going
/// back to agent mode directly: a mode toggle cannot drop the home
/// completion requirement or permission mode.
pub proof fn law_mode_round_trip<B, T>(a: AgentView<B, T>)
    ensures
        session_mode_overlaid(session_mode_overlaid(a, false), true) == session_mode_overlaid(a, true),
        session_mode_overlaid(session_mode_overlaid(a, true), true) == session_mode_overlaid(a, true),
        session_mode_overlaid(session_mode_overlaid(a, false), false) == session_mode_overlaid(a, false),
{
    let h = a.base_definition;
    law_context_sync_idempotent(a.prompt_context, h);
    law_context_sync_idempotent(a.prompt_context, readonly_overlay(h));
    assert(context_synced(context_synced(a.prompt_context, readonly_overlay(h)), h).agents_md_files
        =~= context_synced(a.prompt_context, h).agents_md_files);
}

/// After a switch to a named agent, restoring the home changes nothing: the
/// switched-to definition is the new home.
pub proof fn law_restore_after_switch_is_noop<B, T>(a: AgentView<B, T>, def: AgentDefinitionView)
    ensures
        session_mode_overlaid(policies_updated(a, def), true) == policies_updated(a, def),
{
    law_context_sync_idempotent(a.prompt_context, def);
}

/// Rendering for a definition at build time `now` renders the context that
/// switching to that definition and stamping it with `now` installs.
pub proof fn law_render_for_definition_matches_switch<B, T>(
    a: AgentView<B, T>,
    def: AgentDefinitionView,
    now: String,
)
    ensures
        (PromptContextView { build_timestamp_utc: now, ..context_synced(a.prompt_context, def) })
            == (PromptContextView {
            build_timestamp_utc: now,
            ..policies_updated(a, def).prompt_context
        }),
{
}

/// The plan/ask overlay keeps every field of the home definition but the
/// permission mode, which becomes `Plan`, and the completion requirement,
/// which is dropped: tool overrides, prompt settings, AGENTS.md use, name,
/// description and chat identity stay as at home.
pub proof fn law_overlay_keeps_home_fields(home: AgentDefinitionView)
    ensures
        ({
            let o = readonly_overlay(home);
            &&& o.permission_mode == PermissionMode::Plan
            &&& o.completion_requirement is None
            &&& o.prompt_mode == home.prompt_mode
            &&& o.tool_overrides == home.tool_overrides
            &&& o.prompt_body == home.prompt_body
            &&& o.system_prompt == home.system_prompt
            &&& o.agents_md == home.agents_md
            &&& o.name == home.name
            &&& o.description == home.description
            &&& o.browser_verification == home.browser_verification
            &&& o.mcp_servers == home.mcp_servers
            &&& o.allowed_subagent_types == home.allowed_subagent_types
        }),
{
}

/// The prompt context after following a definition takes the definition's
/// prompt mode, prompt body, system prompt and browser-verification flag;
/// it keeps its AGENTS.md files exactly when the definition wants them, and
/// its timestamp and audience in any case.
pub proof fn law_context_follows_definition(ctx: PromptContextView, def: AgentDefinitionView)
    ensures
        ({
            let c = context_synced(ctx, def);
            &&& c.prompt_mode == def.prompt_mode
            &&& c.prompt_body == def.prompt_body
            &&& c.system_prompt == def.system_prompt
            &&& c.include_browser_verification == def.browser_verification
            &&& def.agents_md ==> c.agents_md_files == ctx.agents_md_files
            &&& !def.agents_md ==> c.agents_md_files.len() == 0
            &&& c.build_timestamp_utc == ctx.build_timestamp_utc
            &&& c.audience == ctx.audience
        }),
{
}

/// After a switch to the named definition `def`, the definition in effect
/// carries every runtime policy of `def` (tool overrides included) and the
/// agent's chat identity, `def` is the new home, the prompt context follows
/// `def`, and nothing else of the agent changes.
pub proof fn law_named_switch_applies_definition<B, T>(a: AgentView<B, T>, def: AgentDefinitionView)
    ensures
        ({
            let b = policies_updated(a, def);
            &&& b.base_definition == def
            &&& b.definition.completion_requirement == def.completion_requirement
            &&& b.definition.permission_mode == def.permission_mode
            &&& b.definition.prompt_mode == def.prompt_mode
            &&& b.definition.tool_overrides == def.tool_overrides
            &&& b.definition.prompt_body == def.prompt_body
            &&& b.definition.system_prompt == def.system_prompt
            &&& b.definition.agents_md == def.agents_md
            &&& b.definition.name == def.name
            &&& b.definition.description == def.description
            &&& b.definition.browser_verification == a.definition.browser_verification
            &&& b.definition.mcp_servers == a.definition.mcp_servers
            &&& b.definition.allowed_subagent_types == a.definition.allowed_subagent_types
            &&& b.prompt_context.prompt_mode == def.prompt_mode
            &&& b.prompt_context.prompt_body == def.prompt_body
            &&& b.prompt_context.system_prompt == def.system_prompt
            &&& b.prompt_context.include_browser_verification == def.browser_verification
            &&& b.system_prompt == a.system_prompt
            &&& b.tool_bridge == a.tool_bridge
            &&& b.reminder_policy == a.reminder_policy
            &&& b.compaction_policy == a.compaction_policy
            &&& b.hosted_tools == a.hosted_tools
            &&& b.backend_search_enabled == a.backend_search_enabled
        }),
{
}

/// A session-mode toggle applies the home's tool overrides and prompt
/// settings in either mode; only plan/ask replaces the permission mode and
/// drops the completion requirement.
pub proof fn law_mode_toggle_applies_home_policies<B, T>(a: AgentView<B, T>, restore_home: bool)
    ensures
        ({
            let b = session_mode_overlaid(a, restore_home);
            let h = a.base_definition;
            &&& b.definition.tool_overrides == h.tool_overrides
            &&& b.definition.prompt_mode == h.prompt_mode
            &&& b.definition.prompt_body == h.prompt_body
            &&& b.definition.system_prompt == h.system_prompt
            &&& b.definition.agents_md == h.agents_md
            &&& b.definition.name == h.name
            &&& b.definition.description == h.description
            &&& b.definition.mcp_servers == a.definition.mcp_servers
            &&& b.prompt_context.prompt_mode == h.prompt_mode
            &&& b.system_prompt == a.system_prompt
        }),
{
}

} // verus!
