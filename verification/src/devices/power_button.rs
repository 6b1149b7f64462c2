//! Power-button press classification (short / long / multi-press).
//!
//! Given how long a press was held and how many presses landed within the
//! configured multi-press window, `classify` decides which configured
//! action applies.

use crate::config::PowerButtonConfig;
use crate::text::text_eq;
use vstd::prelude::*;

verus! {

#[derive(Debug, Clone, Copy, PartialEq, Eq, Structural)]
pub enum ButtonAction {
    Ignore,
    Lock,
    Suspend,
    Hibernate,
    Shutdown,
    Reboot,
}

/// The action a config value names; anything unrecognised is `Ignore`.
pub open spec fn action_named(s: Seq<char>) -> ButtonAction {
    if s == "lock"@ {
        ButtonAction::Lock
    } else if s == "suspend"@ {
        ButtonAction::Suspend
    } else if s == "hibernate"@ {
        ButtonAction::Hibernate
    } else if s == "shutdown"@ {
        ButtonAction::Shutdown
    } else if s == "reboot"@ {
        ButtonAction::Reboot
    } else {
        ButtonAction::Ignore
    }
}

impl ButtonAction {
    fn from_config_str(s: &str) -> (r: ButtonAction)
        ensures
            r == action_named(s@),
    {
        if text_eq(s, "lock") {
            ButtonAction::Lock
        } else if text_eq(s, "suspend") {
            ButtonAction::Suspend
        } else if text_eq(s, "hibernate") {
            ButtonAction::Hibernate
        } else if text_eq(s, "shutdown") {
            ButtonAction::Shutdown
        } else if text_eq(s, "reboot") {
            ButtonAction::Reboot
        } else {
            ButtonAction::Ignore
        }
    }
}

/// The configured action for a press: the multi-press action for two or
/// more presses in the window, else the long-press action for a press held
/// at least the threshold, else the short-press action.
pub open spec fn press_action(held_for_ms: u64, recent_press_count: u32, config: PowerButtonConfig) -> ButtonAction {
    if recent_press_count >= 2 {
        action_named(config.multi_press@)
    } else if held_for_ms >= config.long_press_threshold_ms {
        action_named(config.long_press@)
    } else {
        action_named(config.short_press@)
    }
}

/// The configured action for a press held `held_for_ms` milliseconds with
/// `recent_press_count` presses in the multi-press window. Multi-press takes
/// priority over the short/long distinction, as on most laptops (a rapid
/// double-press is its own gesture); a press held at least the threshold is
/// a long press.
pub fn classify(held_for_ms: u64, recent_press_count: u32, config: &PowerButtonConfig) -> (r:
    ButtonAction)
    ensures
        r == press_action(held_for_ms, recent_press_count, *config),
{
    if recent_press_count >= 2 {
        return ButtonAction::from_config_str(config.multi_press.as_str());
    }
    if held_for_ms >= config.long_press_threshold_ms {
        ButtonAction::from_config_str(config.long_press.as_str())
    } else {
        ButtonAction::from_config_str(config.short_press.as_str())
    }
}

/// A system power operation that a button press asks the power manager for.
#[derive(Debug, Clone, Copy, PartialEq, Eq, Structural)]
pub enum PowerOperation {
    Suspend,
    Hibernate,
    Shutdown,
    Reboot,
}

/// What the power manager is asked to do for a press: the operation, the
/// reason it is recorded under, and whether inhibitors may be overridden.
#[derive(Debug, Clone)]
pub struct PowerRequest {
    pub operation: PowerOperation,
    pub reason: String,
    pub force: bool,
}

/// The operation a button action asks for. `Ignore` asks for none, and so
/// does `Lock`: locking is left to the session.
pub open spec fn button_operation(a: ButtonAction) -> Option<PowerOperation> {
    match a {
        ButtonAction::Ignore => None,
        ButtonAction::Lock => None,
        ButtonAction::Suspend => Some(PowerOperation::Suspend),
        ButtonAction::Hibernate => Some(PowerOperation::Hibernate),
        ButtonAction::Shutdown => Some(PowerOperation::Shutdown),
        ButtonAction::Reboot => Some(PowerOperation::Reboot),
    }
}

/// The request that carrying out `action` makes of the power manager, if
/// any. Every request from the button gives the reason `"power-button"` and
/// never forces past inhibitors.
pub fn button_request(action: ButtonAction) -> (r: Option<PowerRequest>)
    ensures
        match r {
            None => button_operation(action) is None,
            Some(q) => {
                &&& button_operation(action) == Some(q.operation)
                &&& q.reason@ == "power-button"@
                &&& !q.force
            },
        },
{
    let operation = match action {
        ButtonAction::Ignore => {
            return None;
        },
        ButtonAction::Lock => {
            return None;
        },
        ButtonAction::Suspend => PowerOperation::Suspend,
        ButtonAction::Hibernate => PowerOperation::Hibernate,
        ButtonAction::Shutdown => PowerOperation::Shutdown,
        ButtonAction::Reboot => PowerOperation::Reboot,
    };
    Some(PowerRequest { operation, reason: String::from_str("power-button"), force: false })
}

/// Each action word of the config names its own action: `lock`, `suspend`,
/// `hibernate`, `shutdown` and `reboot` give Lock, Suspend, Hibernate,
/// Shutdown and Reboot; every other text is Ignore.
pub proof fn lemma_action_words(s: Seq<char>)
    ensures
        s == "lock"@ ==> action_named(s) == ButtonAction::Lock,
        s == "suspend"@ ==> action_named(s) == ButtonAction::Suspend,
        s == "hibernate"@ ==> action_named(s) == ButtonAction::Hibernate,
        s == "shutdown"@ ==> action_named(s) == ButtonAction::Shutdown,
        s == "reboot"@ ==> action_named(s) == ButtonAction::Reboot,
        s != "lock"@ && s != "suspend"@ && s != "hibernate"@ && s != "shutdown"@ && s
            != "reboot"@ ==> action_named(s) == ButtonAction::Ignore,
{
    reveal_strlit("lock");
    reveal_strlit("suspend");
    reveal_strlit("hibernate");
    reveal_strlit("shutdown");
    reveal_strlit("reboot");
    assert("lock"@.len() == 4 && "suspend"@.len() == 7 && "hibernate"@.len() == 9);
    assert("shutdown"@.len() == 8 && "reboot"@.len() == 6);
}

/// Multi-press takes priority: any press that is the second or later in
/// the window takes the multi-press action however long it was held; a
/// single press held at least the threshold (exactly the threshold too)
/// takes the long-press action, and a shorter one the short-press action.
pub proof fn lemma_press_kinds(held_for_ms: u64, recent_press_count: u32, config: PowerButtonConfig)
    ensures
        recent_press_count >= 2 ==> press_action(held_for_ms, recent_press_count, config)
            == action_named(config.multi_press@),
        recent_press_count <= 1 && held_for_ms >= config.long_press_threshold_ms ==> press_action(
            held_for_ms,
            recent_press_count,
            config,
        ) == action_named(config.long_press@),
        recent_press_count <= 1 && held_for_ms < config.long_press_threshold_ms ==> press_action(
            held_for_ms,
            recent_press_count,
            config,
        ) == action_named(config.short_press@),
{
}

/// Each power action asks the power manager for the operation of the same
/// name; ignoring and locking ask for none.
pub proof fn lemma_button_operations(a: ButtonAction)
    ensures
        a == ButtonAction::Suspend <==> button_operation(a) == Some(PowerOperation::Suspend),
        a == ButtonAction::Hibernate <==> button_operation(a) == Some(PowerOperation::Hibernate),
        a == ButtonAction::Shutdown <==> button_operation(a) == Some(PowerOperation::Shutdown),
        a == ButtonAction::Reboot <==> button_operation(a) == Some(PowerOperation::Reboot),
        a == ButtonAction::Ignore || a == ButtonAction::Lock <==> button_operation(a) is None,
{
}

} // verus!
