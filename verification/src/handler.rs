//! The interaction command handler: a linear state machine that turns one
//! command invocation into at most one terminal user-visible outcome.
//!
//! The handler never talks to the network itself. It decides, step by step,
//! which platform calls the surrounding binary must make — guild check,
//! command resolution, deferral, the pin or unpin action, exactly one
//! follow-up — and the [`protocol`] spec function states the full sequence
//! of calls for every invocation and every outcome of the deferral and the
//! action.

use vstd::prelude::*;
use crate::text::{
    audit_reason, build_audit_reason, build_failure_content, build_link_url,
    build_success_content, failure_content, link_url, success_content,
};

verus! {

/// One user-triggered command invocation, reduced to the plain values the
/// decision logic reads. Fields the platform may fail to supply are options;
/// the handler's contract says which of them are required and what happens
/// when a required one is missing.
#[derive(Debug, Clone, PartialEq, Eq)]
pub struct Invocation {
    /// Name of the invoked command.
    pub command_name: String,
    /// Guild the invocation came from; absent for a direct-message context.
    pub guild_id: Option<u64>,
    /// Channel the invocation came from.
    pub channel_id: Option<u64>,
    /// Name of that channel, if known; an empty label is used otherwise.
    pub channel_name: Option<String>,
    /// Display name of the invoking user, if supplied.
    pub user_name: Option<String>,
    /// The target message resolved from the payload.
    pub target_message_id: Option<u64>,
}

/// The command name that requests pinning.
pub open spec fn is_pin_name(name: Seq<char>) -> bool {
    name == "Pin Message"@
}

/// The command name that requests unpinning.
pub open spec fn is_unpin_name(name: Seq<char>) -> bool {
    name == "Unpin Message"@
}

/// Exactly two command names are recognized; everything else is ignored.
pub open spec fn recognized(name: Seq<char>) -> bool {
    is_pin_name(name) || is_unpin_name(name)
}

/// The channel label used in the audit reason: the channel's name when
/// known, empty otherwise. Its absence never blocks the action.
pub open spec fn channel_label(inv: Invocation) -> Seq<char> {
    match inv.channel_name {
        Some(n) => n@,
        None => Seq::empty(),
    }
}

/// The first decision taken on an invocation, before any platform call.
#[derive(Debug, PartialEq, Eq)]
pub enum Plan {
    /// The payload lacks a field the command's own schema guarantees
    /// (the channel, or the resolved target message): a contract violation,
    /// to be failed loudly — no user-visible response of any kind.
    Violation,
    /// The invocation came from outside a guild: send the fixed guild-only
    /// reply, non-deferred, and stop.
    GuildOnly,
    /// Unrecognized command name: ignore the invocation entirely.
    Ignore,
    /// Recognized command in a guild: defer at once, then act.
    Proceed { pin: bool },
}

/// What [`plan`] decides, as a function of the invocation alone.
pub open spec fn plan_spec(inv: Invocation) -> Plan {
    if inv.channel_id is None {
        Plan::Violation
    } else if inv.guild_id is None {
        Plan::GuildOnly
    } else if !recognized(inv.command_name@) {
        Plan::Ignore
    } else if inv.target_message_id is None {
        Plan::Violation
    } else {
        Plan::Proceed { pin: is_pin_name(inv.command_name@) }
    }
}

/// Takes the first decision on an invocation: reject a malformed payload,
/// reply guild-only, ignore an unrecognized name, or proceed to defer and
/// act with the resolved pin flag.
pub fn plan(inv: &Invocation) -> (p: Plan)
    ensures
        p == plan_spec(*inv),
{
    if inv.channel_id.is_none() {
        return Plan::Violation;
    }
    if inv.guild_id.is_none() {
        return Plan::GuildOnly;
    }
    let pin: bool = if inv.command_name == String::from_str("Pin Message") {
        true
    } else if inv.command_name == String::from_str("Unpin Message") {
        false
    } else {
        return Plan::Ignore;
    };
    if inv.target_message_id.is_none() {
        return Plan::Violation;
    }
    Plan::Proceed { pin }
}

/// Everything one pin or unpin action needs: which way to act, where, and
/// the audit reason recorded beside it.
#[derive(Debug, Clone, PartialEq, Eq)]
pub struct ActionRequest {
    /// True for pin, false for unpin.
    pub pin: bool,
    /// Channel holding the target message.
    pub channel_id: u64,
    /// The target message.
    pub message_id: u64,
    /// Audit-log reason naming the invoking user and the channel.
    pub reason: String,
}

/// Builds the action request once the deferral has been acknowledged.
/// Returns `None` exactly when the payload names no invoking user — a
/// contract violation discovered only at this stage, after the deferral,
/// which aborts the invocation with no follow-up.
pub fn action_request(inv: &Invocation, pin: bool) -> (r: Option<ActionRequest>)
    requires
        plan_spec(*inv) == (Plan::Proceed { pin }),
    ensures
        r is Some <==> inv.user_name is Some,
        r is Some ==> {
            &&& r.unwrap().pin == pin
            &&& r.unwrap().channel_id == inv.channel_id.unwrap()
            &&& r.unwrap().message_id == inv.target_message_id.unwrap()
            &&& r.unwrap().reason@ == audit_reason(pin, inv.user_name.unwrap()@, channel_label(*inv))
        },
{
    let user: &String = match &inv.user_name {
        Some(u) => u,
        None => {
            return None;
        },
    };
    let reason: String = match &inv.channel_name {
        Some(n) => build_audit_reason(pin, user.as_str(), n.as_str()),
        None => {
            let r = build_audit_reason(pin, user.as_str(), "");
            proof {
                reveal_strlit("");
                assert(""@ =~= Seq::<char>::empty());
            }
            r
        },
    };
    let channel_id: u64 = match inv.channel_id {
        Some(c) => c,
        None => unreached(),
    };
    let message_id: u64 = match inv.target_message_id {
        Some(m) => m,
        None => unreached(),
    };
    Some(ActionRequest { pin, channel_id, message_id, reason })
}

/// The terminal follow-up message: its content and, on success, a button
/// linking to the acted-upon message.
#[derive(Debug, Clone, PartialEq, Eq)]
pub struct Followup {
    /// The user-visible text.
    pub content: String,
    /// URL of the link button, present exactly on the success path.
    pub button_url: Option<String>,
}

/// Builds the one terminal follow-up: on success the fixed success text
/// with a link button to the message, on failure the fixed failure text
/// with no button — the failure text never depends on the pin flag.
pub fn followup(
    pin: bool,
    user: &str,
    guild_id: u64,
    channel_id: u64,
    message_id: u64,
    action_ok: bool,
) -> (f: Followup)
    ensures
        action_ok ==> {
            &&& f.content@ == success_content(pin, user@)
            &&& f.button_url is Some
            &&& f.button_url.unwrap()@ == link_url(guild_id, channel_id, message_id)
        },
        !action_ok ==> {
            &&& f.content@ == failure_content()
            &&& f.button_url is None
        },
{
    if action_ok {
        Followup {
            content: build_success_content(pin, user),
            button_url: Some(build_link_url(guild_id, channel_id, message_id)),
        }
    } else {
        Followup { content: build_failure_content(), button_url: None }
    }
}

/// One platform call the handler asks for, in specification terms.
pub enum Call {
    /// The fixed, non-deferred guild-only reply.
    GuildOnly,
    /// The deferred acknowledgment, sent before any side-effecting work.
    Defer,
    /// The pin or unpin request with its audit reason.
    Action { pin: bool, channel_id: u64, message_id: u64, reason: Seq<char> },
    /// The terminal follow-up message.
    Followup { content: Seq<char>, button_url: Option<Seq<char>> },
}

/// The one pin or unpin call an invocation asks for, with its audit reason.
pub open spec fn action_call(inv: Invocation, pin: bool) -> Call {
    Call::Action {
        pin,
        channel_id: inv.channel_id.unwrap(),
        message_id: inv.target_message_id.unwrap(),
        reason: audit_reason(pin, inv.user_name.unwrap()@, channel_label(inv)),
    }
}

/// The one terminal follow-up an invocation asks for: the success text with
/// a link button when the action succeeded, the fixed failure text with no
/// button otherwise.
pub open spec fn followup_call(inv: Invocation, pin: bool, action_ok: bool) -> Call {
    Call::Followup {
        content: if action_ok {
            success_content(pin, inv.user_name.unwrap()@)
        } else {
            failure_content()
        },
        button_url: if action_ok {
            Some(
                link_url(
                    inv.guild_id.unwrap(),
                    inv.channel_id.unwrap(),
                    inv.target_message_id.unwrap(),
                ),
            )
        } else {
            None
        },
    }
}

/// The full sequence of platform calls one invocation gives rise to, as a
/// function of the invocation and of the outcomes of the deferral and the
/// action. A failed deferral abandons the invocation; a missing invoking
/// user aborts it after the deferral; otherwise exactly one action and then
/// exactly one follow-up are made.
pub open spec fn protocol(inv: Invocation, defer_ok: bool, action_ok: bool) -> Seq<Call> {
    match plan_spec(inv) {
        Plan::Violation => seq![],
        Plan::GuildOnly => seq![Call::GuildOnly],
        Plan::Ignore => seq![],
        Plan::Proceed { pin } => seq![Call::Defer] + if !defer_ok {
            seq![]
        } else if inv.user_name is None {
            seq![]
        } else {
            seq![action_call(inv, pin), followup_call(inv, pin, action_ok)]
        },
    }
}

/// An invocation inside a guild whose command name is not one of the two
/// recognized names is ignored entirely: no platform call of any kind is
/// made, whatever the would-be outcomes.
pub proof fn lemma_unrecognized_ignored(inv: Invocation, defer_ok: bool, action_ok: bool)
    requires
        inv.guild_id is Some,
        !recognized(inv.command_name@),
    ensures
        protocol(inv, defer_ok, action_ok) == Seq::<Call>::empty(),
{
    assert(protocol(inv, defer_ok, action_ok) =~= Seq::<Call>::empty());
}

/// An invocation from outside a guild gets exactly the fixed, non-deferred
/// guild-only reply: no deferral, no action, and no follow-up, whatever the
/// command name and the would-be outcomes.
pub proof fn lemma_outside_guild_reply_only(inv: Invocation, defer_ok: bool, action_ok: bool)
    requires
        inv.channel_id is Some,
        inv.guild_id is None,
    ensures
        protocol(inv, defer_ok, action_ok) == seq![Call::GuildOnly],
{
    assert(protocol(inv, defer_ok, action_ok) =~= seq![Call::GuildOnly]);
}

/// A recognized command inside a guild with a resolvable target is always
/// deferred first, before any action; and whenever the deferral succeeds
/// and the payload names the invoking user, exactly one action and then
/// exactly one follow-up are made — never zero, never more than one.
pub proof fn lemma_defer_then_exactly_one_followup(
    inv: Invocation,
    defer_ok: bool,
    action_ok: bool,
)
    requires
        inv.channel_id is Some,
        inv.guild_id is Some,
        recognized(inv.command_name@),
        inv.target_message_id is Some,
    ensures
        protocol(inv, defer_ok, action_ok).len() >= 1,
        protocol(inv, defer_ok, action_ok)[0] == Call::Defer,
        !defer_ok ==> protocol(inv, defer_ok, action_ok) == seq![Call::Defer],
        defer_ok && inv.user_name is Some ==> protocol(inv, defer_ok, action_ok) == seq![
            Call::Defer,
            action_call(inv, is_pin_name(inv.command_name@)),
            followup_call(inv, is_pin_name(inv.command_name@), action_ok),
        ],
{
    if !defer_ok {
        assert(protocol(inv, defer_ok, action_ok) =~= seq![Call::Defer]);
    } else if inv.user_name is Some {
        let pin = is_pin_name(inv.command_name@);
        assert(protocol(inv, defer_ok, action_ok) =~= seq![
            Call::Defer,
            action_call(inv, pin),
            followup_call(inv, pin, action_ok),
        ]);
    }
}

} // verus!
