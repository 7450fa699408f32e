//! Agent definitions: the portable description of an agent (name, prompt,
//! permission mode, completion gate, tool overrides) that a session is built
//! from and that mid-session switches overlay.
use vstd::prelude::*;

verus! {

/// How much the agent may do without asking.
#[derive(Debug, Clone, Copy, PartialEq, Eq, Structural)]
pub enum PermissionMode {
    /// Ask before side effects.
    Default,
    /// Apply edits without asking.
    AcceptEdits,
    /// Read-only planning: no edits, no side effects.
    Plan,
    /// Never ask.
    BypassPermissions,
}

/// How the definition's prompt body combines with the built-in system prompt.
#[derive(Debug, Clone, Copy, PartialEq, Eq, Structural)]
pub enum PromptMode {
    /// The built-in prompt alone.
    Default,
    /// The built-in prompt followed by the definition's prompt body.
    Append,
    /// The definition's system prompt in place of the built-in one.
    Replace,
}

/// A tool the agent must call before a turn may end.
#[derive(Debug)]
pub struct CompletionRequirement {
    /// Name of the tool that marks the work complete.
    pub tool: String,
    /// Reminder injected when the model tries to stop without calling it.
    pub reminder: String,
    /// Optional recovery instruction after repeated misses.
    pub recovery: Option<String>,
}

/// A per-tool override: a new name for the tool, or the tool disabled.
#[derive(Debug)]
pub struct ToolOverride {
    /// The tool being overridden.
    pub tool: String,
    /// The name the model sees instead, if any.
    pub rename: Option<String>,
    /// Whether the tool is withheld from the model.
    pub disabled: bool,
}

/// The definition of an agent.
///
/// The fields up to `description` are the runtime policies that a
/// mid-session switch copies; `browser_verification`, `mcp_servers` and
/// `allowed_subagent_types` are the chat identity that stays with the session.
#[derive(Debug)]
pub struct AgentDefinition {
    pub completion_requirement: Option<CompletionRequirement>,
    pub permission_mode: PermissionMode,
    pub prompt_mode: PromptMode,
    pub tool_overrides: Vec<ToolOverride>,
    pub prompt_body: Option<String>,
    pub system_prompt: Option<String>,
    /// Whether AGENTS.md files are injected into the prompt.
    pub agents_md: bool,
    /// Unique identifier of the agent.
    pub name: String,
    pub description: String,
    /// Whether the prompt carries the browser-verification section.
    pub browser_verification: bool,
    /// MCP servers registered for the session.
    pub mcp_servers: Vec<String>,
    /// Subagent types this agent may spawn.
    pub allowed_subagent_types: Vec<String>,
}

/// The mathematical value of an [`AgentDefinition`]: its lists as sequences.
pub struct AgentDefinitionView {
    pub completion_requirement: Option<CompletionRequirement>,
    pub permission_mode: PermissionMode,
    pub prompt_mode: PromptMode,
    pub tool_overrides: Seq<ToolOverride>,
    pub prompt_body: Option<String>,
    pub system_prompt: Option<String>,
    pub agents_md: bool,
    pub name: String,
    pub description: String,
    pub browser_verification: bool,
    pub mcp_servers: Seq<String>,
    pub allowed_subagent_types: Seq<String>,
}

impl View for AgentDefinition {
    type V = AgentDefinitionView;

    open spec fn view(&self) -> AgentDefinitionView {
        AgentDefinitionView {
            completion_requirement: self.completion_requirement,
            permission_mode: self.permission_mode,
            prompt_mode: self.prompt_mode,
            tool_overrides: self.tool_overrides@,
            prompt_body: self.prompt_body,
            system_prompt: self.system_prompt,
            agents_md: self.agents_md,
            name: self.name,
            description: self.description,
            browser_verification: self.browser_verification,
            mcp_servers: self.mcp_servers@,
            allowed_subagent_types: self.allowed_subagent_types@,
        }
    }
}

/// A copy of an optional string.
pub(crate) fn clone_opt_string(s: &Option<String>) -> (r: Option<String>)
    ensures
        r == *s,
{
    match s {
        Some(v) => Some(v.clone()),
        None => None,
    }
}

/// A copy of a list of strings.
pub(crate) fn clone_strings(v: &Vec<String>) -> (r: Vec<String>)
    ensures
        r@ == v@,
{
    let mut r: Vec<String> = Vec::new();
    let mut i: usize = 0;
    while i < v.len()
        invariant
            i <= v.len(),
            r@ == v@.subrange(0, i as int),
        decreases v.len() - i,
    {
        r.push(v[i].clone());
        i = i + 1;
    }
    assert(v@.subrange(0, v.len() as int) =~= v@);
    r
}

impl Clone for CompletionRequirement {
    fn clone(&self) -> (r: Self)
        ensures
            r == *self,
    {
        CompletionRequirement {
            tool: self.tool.clone(),
            reminder: self.reminder.clone(),
            recovery: clone_opt_string(&self.recovery),
        }
    }
}

impl Clone for ToolOverride {
    fn clone(&self) -> (r: Self)
        ensures
            r == *self,
    {
        ToolOverride {
            tool: self.tool.clone(),
            rename: clone_opt_string(&self.rename),
            disabled: self.disabled,
        }
    }
}

/// A copy of an optional completion requirement.
pub(crate) fn clone_opt_requirement(c: &Option<CompletionRequirement>) -> (r: Option<CompletionRequirement>)
    ensures
        r == *c,
{
    match c {
        Some(v) => Some(v.clone()),
        None => None,
    }
}

/// A copy of a list of tool overrides.
pub(crate) fn clone_overrides(v: &Vec<ToolOverride>) -> (r: Vec<ToolOverride>)
    ensures
        r@ == v@,
{
    let mut r: Vec<ToolOverride> = Vec::new();
    let mut i: usize = 0;
    while i < v.len()
        invariant
            i <= v.len(),
            r@ == v@.subrange(0, i as int),
        decreases v.len() - i,
    {
        r.push(v[i].clone());
        i = i + 1;
    }
    assert(v@.subrange(0, v.len() as int) =~= v@);
    r
}

impl Clone for AgentDefinition {
    fn clone(&self) -> (r: Self)
        ensures
            r@ == self@,
    {
        AgentDefinition {
            completion_requirement: clone_opt_requirement(&self.completion_requirement),
            permission_mode: self.permission_mode,
            prompt_mode: self.prompt_mode,
            tool_overrides: clone_overrides(&self.tool_overrides),
            prompt_body: clone_opt_string(&self.prompt_body),
            system_prompt: clone_opt_string(&self.system_prompt),
            agents_md: self.agents_md,
            name: self.name.clone(),
            description: self.description.clone(),
            browser_verification: self.browser_verification,
            mcp_servers: clone_strings(&self.mcp_servers),
            allowed_subagent_types: clone_strings(&self.allowed_subagent_types),
        }
    }
}

impl AgentDefinition {
    /// Whether prompts rendered for this definition carry the
    /// browser-verification section.
    pub fn include_browser_verification(&self) -> (r: bool)
        ensures
            r == self.browser_verification,
    {
        self.browser_verification
    }

    /// The home coding agent of a session.
    pub fn default_grok_build() -> (r: Self)
        ensures
            r.name@ == "grok-build"@,
            r.description@ == "General-purpose coding agent."@,
            r.permission_mode == PermissionMode::Default,
            r.completion_requirement.is_none(),
            r.prompt_mode == PromptMode::Default,
            r.tool_overrides@.len() == 0,
            r.prompt_body.is_none(),
            r.system_prompt.is_none(),
            r.agents_md,
            !r.browser_verification,
            r.mcp_servers@.len() == 0,
            r.allowed_subagent_types@.len() == 0,
    {
        AgentDefinition {
            completion_requirement: None,
            permission_mode: PermissionMode::Default,
            prompt_mode: PromptMode::Default,
            tool_overrides: Vec::new(),
            prompt_body: None,
            system_prompt: None,
            agents_md: true,
            name: "grok-build".to_owned(),
            description: "General-purpose coding agent.".to_owned(),
            browser_verification: false,
            mcp_servers: Vec::new(),
            allowed_subagent_types: Vec::new(),
        }
    }

    /// The browser agent that a session may switch to mid-session.
    pub fn browser_use() -> (r: Self)
        ensures
            r.name@ == "browser_use"@,
            r.description@ == "Drives a browser to complete web tasks."@,
            r.permission_mode == PermissionMode::Default,
            r.completion_requirement.is_none(),
            r.prompt_mode == PromptMode::Default,
            r.tool_overrides@.len() == 0,
            r.prompt_body.is_none(),
            r.system_prompt.is_none(),
            r.agents_md,
            r.browser_verification,
            r.mcp_servers@.len() == 0,
            r.allowed_subagent_types@.len() == 0,
    {
        AgentDefinition {
            completion_requirement: None,
            permission_mode: PermissionMode::Default,
            prompt_mode: PromptMode::Default,
            tool_overrides: Vec::new(),
            prompt_body: None,
            system_prompt: None,
            agents_md: true,
            name: "browser_use".to_owned(),
            description: "Drives a browser to complete web tasks.".to_owned(),
            browser_verification: true,
            mcp_servers: Vec::new(),
            allowed_subagent_types: Vec::new(),
        }
    }
}

} // verus!
