//! Reminder policy: whether system reminders run, and how the periodic
//! todo nudge and the turn-end todo gate are configured.
use vstd::prelude::*;

verus! {

/// Default per-prompt fire cap of the turn-end todo gate. It is only the
/// default of [`TodoGateConfig`]; the runtime reads the live value from
/// `ReminderPolicy.todo_gate.max_fires_per_prompt`.
pub const DEFAULT_TODO_GATE_MAX_FIRES: u32 = 8;

/// Configuration of the turn-end todo gate.
///
/// TodoGate inspects the todo state after every content-only assistant
/// message and forces another turn while pending or unbacked in-progress
/// todos remain. It is enabled by default.
#[derive(Debug, Clone, Copy, PartialEq, Eq, Structural)]
pub struct TodoGateConfig {
    /// Whether TodoGate runs at all.
    pub enabled: bool,
    /// Hard cap on how many times TodoGate may fire per user prompt.
    pub max_fires_per_prompt: u32,
}

impl Default for TodoGateConfig {
    fn default() -> (r: Self)
        ensures
            r.enabled,
            r.max_fires_per_prompt == DEFAULT_TODO_GATE_MAX_FIRES,
    {
        TodoGateConfig { enabled: true, max_fires_per_prompt: DEFAULT_TODO_GATE_MAX_FIRES }
    }
}

/// Configuration of the periodic todo-write nudge: the model is reminded to
/// use `todo_write` when it has not done so for a number of turns.
#[derive(Debug, Clone, Copy, PartialEq, Eq, Structural)]
pub struct TodoNudgeConfig {
    /// Whether the nudge is enabled.
    pub enabled: bool,
    /// Number of turns since the last `todo_write` call before nudging.
    pub turns_since_todo_write: u32,
    /// Minimum number of turns between two nudges.
    pub turns_between_reminders: u32,
}

impl Default for TodoNudgeConfig {
    fn default() -> (r: Self)
        ensures
            r.enabled,
            r.turns_since_todo_write == 3,
            r.turns_between_reminders == 5,
    {
        TodoNudgeConfig { enabled: true, turns_since_todo_write: 3, turns_between_reminders: 5 }
    }
}

/// Session-level system reminder policy: whether reminders run at all, and
/// the configuration of the todo nudge and the todo gate, which are
/// independent of each other.
#[derive(Debug, Clone, Copy, PartialEq, Eq, Structural)]
pub struct ReminderPolicy {
    /// Whether system reminders are enabled at all.
    pub enabled: bool,
    /// Configuration of the periodic todo-write nudge.
    pub todo_nudge: TodoNudgeConfig,
    /// Configuration of the turn-end todo gate.
    pub todo_gate: TodoGateConfig,
}

impl Default for ReminderPolicy {
    fn default() -> (r: Self)
        ensures
            r.enabled,
            r.todo_nudge.enabled,
            r.todo_nudge.turns_since_todo_write == 3,
            r.todo_nudge.turns_between_reminders == 5,
            r.todo_gate.enabled,
            r.todo_gate.max_fires_per_prompt == DEFAULT_TODO_GATE_MAX_FIRES,
    {
        ReminderPolicy {
            enabled: true,
            todo_nudge: TodoNudgeConfig::default(),
            todo_gate: TodoGateConfig::default(),
        }
    }
}

} // verus!
