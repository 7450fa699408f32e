//! The structured context that a system prompt is rendered from.
use vstd::prelude::*;

verus! {

/// Who a prompt is rendered for.
#[derive(Debug, Clone, Copy, PartialEq, Eq, Structural)]
pub enum PromptAudience {
    /// The agent the user talks to.
    Primary,
    /// An agent spawned by another agent.
    Subagent,
}

/// An AGENTS.md file found for the session, with its contents.
#[derive(Debug)]
pub struct AgentsMdFile {
    pub path: String,
    pub content: String,
}

impl Clone for AgentsMdFile {
    fn clone(&self) -> (r: Self)
        ensures
            r == *self,
    {
        AgentsMdFile { path: self.path.clone(), content: self.content.clone() }
    }
}

/// Everything the system prompt is rendered from.
#[derive(Debug)]
pub struct PromptContext {
    pub prompt_mode: crate::config::PromptMode,
    pub prompt_body: Option<String>,
    pub system_prompt: Option<String>,
    pub include_browser_verification: bool,
    pub agents_md_files: Vec<AgentsMdFile>,
    /// RFC 3339 time at which the prompt was last rendered.
    pub build_timestamp_utc: String,
    pub audience: PromptAudience,
}

/// The mathematical value of a [`PromptContext`].
pub struct PromptContextView {
    pub prompt_mode: crate::config::PromptMode,
    pub prompt_body: Option<String>,
    pub system_prompt: Option<String>,
    pub include_browser_verification: bool,
    pub agents_md_files: Seq<AgentsMdFile>,
    pub build_timestamp_utc: String,
    pub audience: PromptAudience,
}

impl View for PromptContext {
    type V = PromptContextView;

    open spec fn view(&self) -> PromptContextView {
        PromptContextView {
            prompt_mode: self.prompt_mode,
            prompt_body: self.prompt_body,
            system_prompt: self.system_prompt,
            include_browser_verification: self.include_browser_verification,
            agents_md_files: self.agents_md_files@,
            build_timestamp_utc: self.build_timestamp_utc,
            audience: self.audience,
        }
    }
}

/// A copy of a list of AGENTS.md files.
fn clone_agents_md_files(v: &Vec<AgentsMdFile>) -> (r: Vec<AgentsMdFile>)
    ensures
        r@ == v@,
{
    let mut r: Vec<AgentsMdFile> = Vec::new();
    let mut i: usize = 0;
    while i < v.len()
        invariant
            i <= v.len(),
            r@ == v@.subrange(0, i as int),
        decreases v.len() - i,
    {
        r.push(v[i].clone());
        i = i + 1;
    }
    assert(v@.subrange(0, v.len() as int) =~= v@);
    r
}

impl Clone for PromptContext {
    fn clone(&self) -> (r: Self)
        ensures
            r@ == self@,
    {
        PromptContext {
            prompt_mode: self.prompt_mode,
            prompt_body: crate::config::clone_opt_string(&self.prompt_body),
            system_prompt: crate::config::clone_opt_string(&self.system_prompt),
            include_browser_verification: self.include_browser_verification,
            agents_md_files: clone_agents_md_files(&self.agents_md_files),
            build_timestamp_utc: self.build_timestamp_utc.clone(),
            audience: self.audience,
        }
    }
}

} // verus!
