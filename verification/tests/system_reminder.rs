use grok_agent::system_reminder::{
    ReminderPolicy, TodoGateConfig, TodoNudgeConfig, DEFAULT_TODO_GATE_MAX_FIRES,
};

#[test]
fn default_todo_gate_is_enabled_with_const_cap() {
    let cfg = TodoGateConfig::default();
    assert!(cfg.enabled, "TodoGate must run by default");
    assert_eq!(cfg.max_fires_per_prompt, DEFAULT_TODO_GATE_MAX_FIRES);
    assert_eq!(DEFAULT_TODO_GATE_MAX_FIRES, 8);
}

#[test]
fn reminder_policy_default_enables_gate_and_keeps_nudge_and_global_enabled() {
    let policy = ReminderPolicy::default();
    assert!(
        policy.enabled,
        "global system reminders stay enabled by default"
    );
    assert!(
        policy.todo_gate.enabled,
        "TodoGate ships enabled so content-only turns cannot drop open todos"
    );
    assert_eq!(policy.todo_gate.max_fires_per_prompt, 8);
    assert!(policy.todo_nudge.enabled);
}

#[test]
fn todo_gate_disable_does_not_disturb_nudge() {
    let mut policy = ReminderPolicy::default();
    policy.todo_gate.enabled = false;
    assert!(!policy.todo_gate.enabled);
    assert!(policy.todo_nudge.enabled, "TodoNudge must stay enabled");
    assert!(policy.enabled, "global enable must stay true");
}

#[test]
fn todo_nudge_default_turn_counts() {
    let nudge = TodoNudgeConfig::default();
    assert!(nudge.enabled);
    assert_eq!(nudge.turns_since_todo_write, 3);
    assert_eq!(nudge.turns_between_reminders, 5);
    let policy = ReminderPolicy::default();
    assert_eq!(policy.todo_nudge, nudge);
    assert_eq!(policy.todo_gate, TodoGateConfig::default());
}

#[test]
fn nudge_disable_does_not_disturb_gate() {
    let mut policy = ReminderPolicy::default();
    policy.todo_nudge.enabled = false;
    assert!(policy.todo_gate.enabled);
    assert_eq!(policy.todo_gate.max_fires_per_prompt, DEFAULT_TODO_GATE_MAX_FIRES);
    assert!(policy.enabled);
}
