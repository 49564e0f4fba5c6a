//! The event dispatch loop's decision core: classifies each inbound gateway
//! event, maintains the one piece of state that survives across events (the
//! service's own identity), suppresses the platform's automatic pin notice
//! when this service caused it, and applies the reconnection policy.
//!
//! The loop's body is pure: [`dispatch`] maps the current state and one
//! event to a [`Directive`] the surrounding binary carries out. [`run`]
//! states what an entire event sequence gives rise to, and [`drive`] is a
//! verified loop implementing it.

use vstd::prelude::*;
use crate::handler::Invocation;

verus! {

/// Message kind the platform gives its automatic "message pinned" system
/// notice.
pub const PIN_NOTICE_KIND: u8 = 6;

/// State the dispatch loop carries across events: the service's own account
/// identifier, absent until the first ready event and overwritten by each
/// later one.
#[derive(Debug, Clone, PartialEq, Eq)]
pub struct Core {
    /// The service's own account identifier, once known.
    pub self_id: Option<u64>,
}

/// One inbound event, reduced to the plain values the loop reads.
#[derive(Debug, Clone, PartialEq, Eq)]
pub enum InboundEvent {
    /// The connection is ready; carries the service's own identity.
    Ready {
        /// The service's own account identifier.
        user_id: u64,
    },
    /// A user invoked a command.
    Invoked {
        /// The invocation payload.
        inv: Invocation,
    },
    /// The platform announced a newly created message.
    Announced {
        /// Author of the announced message.
        author_id: u64,
        /// Numeric message kind as the platform encodes it.
        kind: u8,
        /// Channel holding the announced message.
        channel_id: u64,
        /// The announced message itself.
        message_id: u64,
    },
    /// A transport-level error, classified by the transport as fatal or not.
    Transport {
        /// True when the connection is unusable and the loop must exit.
        fatal: bool,
    },
    /// Any other event kind: a deliberate no-op.
    Other,
}

/// What the loop asks the surrounding binary to do for one event.
#[derive(Debug, Clone, PartialEq, Eq)]
pub enum Directive {
    /// Nothing: the event needs no action.
    Nothing,
    /// Forward the invocation to the interaction command handler.
    Forward {
        /// The invocation to handle.
        inv: Invocation,
    },
    /// Delete the platform's automatic pin notice this service caused.
    Delete {
        /// Channel holding the notice.
        channel_id: u64,
        /// The notice message to delete.
        message_id: u64,
    },
    /// A fatal transport error: stop consuming events and end the process.
    Exit,
}

/// An announced message is suppressed exactly when it was authored by this
/// service's own identity and is the platform's automatic pin notice.
pub open spec fn suppresses(self_id: Option<u64>, author_id: u64, kind: u8) -> bool {
    self_id == Some(author_id) && kind == PIN_NOTICE_KIND
}

/// The identity after one event: a ready event stores its identity (later
/// ready events overwrite, which is expected after a reconnect); every
/// other event leaves it unchanged.
pub open spec fn next_id(self_id: Option<u64>, ev: InboundEvent) -> Option<u64> {
    match ev {
        InboundEvent::Ready { user_id } => Some(user_id),
        _ => self_id,
    }
}

/// The directive one event gives rise to, given the identity known when it
/// arrives.
pub open spec fn directive_of(self_id: Option<u64>, ev: InboundEvent) -> Directive {
    match ev {
        InboundEvent::Ready { .. } => Directive::Nothing,
        InboundEvent::Invoked { inv } => Directive::Forward { inv },
        InboundEvent::Announced { author_id, kind, channel_id, message_id } => if suppresses(
            self_id,
            author_id,
            kind,
        ) {
            Directive::Delete { channel_id, message_id }
        } else {
            Directive::Nothing
        },
        InboundEvent::Transport { fatal } => if fatal {
            Directive::Exit
        } else {
            Directive::Nothing
        },
        InboundEvent::Other => Directive::Nothing,
    }
}

/// Classifies one event: updates the stored identity and returns the
/// directive to carry out. A non-fatal transport error yields `Nothing`:
/// the transport reconnects on its own and the loop keeps consuming.
pub fn dispatch(core: &mut Core, ev: InboundEvent) -> (d: Directive)
    ensures
        final(core).self_id == next_id(old(core).self_id, ev),
        d == directive_of(old(core).self_id, ev),
{
    match ev {
        InboundEvent::Ready { user_id } => {
            core.self_id = Some(user_id);
            Directive::Nothing
        },
        InboundEvent::Invoked { inv } => Directive::Forward { inv },
        InboundEvent::Announced { author_id, kind, channel_id, message_id } => {
            let suppress: bool = match core.self_id {
                Some(own) => own == author_id && kind == PIN_NOTICE_KIND,
                None => false,
            };
            if suppress {
                Directive::Delete { channel_id, message_id }
            } else {
                Directive::Nothing
            }
        },
        InboundEvent::Transport { fatal } => {
            if fatal {
                Directive::Exit
            } else {
                Directive::Nothing
            }
        },
        InboundEvent::Other => Directive::Nothing,
    }
}

/// The identity known after consuming a whole event sequence.
pub open spec fn id_after(self_id: Option<u64>, evs: Seq<InboundEvent>) -> Option<u64>
    decreases evs.len(),
{
    if evs.len() == 0 {
        self_id
    } else {
        id_after(next_id(self_id, evs[0]), evs.drop_first())
    }
}

/// True when no event of the sequence stops the loop, that is, none is a
/// fatal transport error.
pub open spec fn no_exit(evs: Seq<InboundEvent>) -> bool {
    forall|i: int|
        0 <= i < evs.len() ==> !((#[trigger] evs[i]) matches InboundEvent::Transport {
            fatal: true,
        })
}

/// The directives a whole event sequence gives rise to, in arrival order.
/// The loop stops at the first fatal transport error: its `Exit` directive
/// is the last one, and later events are never processed.
pub open spec fn run(self_id: Option<u64>, evs: Seq<InboundEvent>) -> Seq<Directive>
    decreases evs.len(),
{
    if evs.len() == 0 {
        seq![]
    } else {
        let d = directive_of(self_id, evs[0]);
        if d is Exit {
            seq![d]
        } else {
            seq![d] + run(next_id(self_id, evs[0]), evs.drop_first())
        }
    }
}

/// Storing an identity commutes with consuming one more event at the end
/// of a sequence.
proof fn lemma_id_after_push(self_id: Option<u64>, evs: Seq<InboundEvent>, ev: InboundEvent)
    ensures
        id_after(self_id, evs.push(ev)) == next_id(id_after(self_id, evs), ev),
    decreases evs.len(),
{
    if evs.len() == 0 {
        assert(evs.push(ev)[0] == ev);
        assert(evs.push(ev).drop_first() =~= Seq::<InboundEvent>::empty());
        assert(id_after(self_id, evs) == self_id);
        assert(id_after(self_id, evs.push(ev)) == id_after(
            next_id(self_id, ev),
            Seq::<InboundEvent>::empty(),
        ));
    } else {
        assert(evs.push(ev)[0] == evs[0]);
        assert(evs.push(ev).drop_first() =~= evs.drop_first().push(ev));
        lemma_id_after_push(next_id(self_id, evs[0]), evs.drop_first(), ev);
        assert(id_after(self_id, evs.push(ev)) == id_after(
            next_id(self_id, evs[0]),
            evs.drop_first().push(ev),
        ));
        assert(id_after(self_id, evs) == id_after(next_id(self_id, evs[0]), evs.drop_first()));
    }
}

/// Consumes a sequence of events exactly as the live loop does, returning
/// the directives in order: processing stops at the first fatal transport
/// error, one directive per event consumed, and the stored identity tracks
/// every ready event seen up to that point.
#[verifier::loop_isolation(false)]
pub fn drive(core: &mut Core, events: Vec<InboundEvent>) -> (log: Vec<Directive>)
    ensures
        log@ == run(old(core).self_id, events@),
        final(core).self_id == id_after(old(core).self_id, events@.take(log@.len() as int)),
{
    let ghost initial: Option<u64> = core.self_id;
    let ghost full: Seq<InboundEvent> = events@;
    let mut rest = events;
    let mut log: Vec<Directive> = Vec::new();
    while rest.len() > 0
        invariant
            run(initial, full) == log@ + run(core.self_id, rest@),
            rest@ == full.skip(log@.len() as int),
            log@.len() <= full.len(),
            core.self_id == id_after(initial, full.take(log@.len() as int)),
        decreases rest@.len(),
    {
        let ghost before: Seq<InboundEvent> = rest@;
        let ghost k: int = log@.len() as int;
        let ev = rest.remove(0);
        proof {
            assert(rest@ =~= before.drop_first());
            assert(rest@ =~= full.skip(k + 1));
            assert(before[0] == full[k]);
            assert(full.take(k + 1) =~= full.take(k).push(full[k]));
            lemma_id_after_push(initial, full.take(k), full[k]);
        }
        let d = dispatch(core, ev);
        let exit: bool = matches!(d, Directive::Exit);
        log.push(d);
        if exit {
            proof {
                assert(run(initial, full) =~= log@);
            }
            return log;
        }
        proof {
            assert(log@ + run(core.self_id, rest@) =~= run(initial, full));
        }
    }
    proof {
        assert(log@ =~= run(initial, full));
        assert(full.take(log@.len() as int) =~= full);
    }
    log
}

/// Each directive of a run, up to the first fatal transport error, is the
/// one its event gives rise to under the identity known when it arrives.
pub proof fn lemma_run_index(self_id: Option<u64>, evs: Seq<InboundEvent>, i: int)
    requires
        0 <= i < evs.len(),
        no_exit(evs.take(i)),
    ensures
        run(self_id, evs).len() > i,
        run(self_id, evs)[i] == directive_of(id_after(self_id, evs.take(i)), evs[i]),
    decreases i,
{
    if i == 0 {
        assert(evs.take(0) =~= Seq::<InboundEvent>::empty());
    } else {
        assert(evs.take(i)[0] == evs[0]);
        assert(!(evs[0] matches InboundEvent::Transport { fatal: true }));
        assert(!(directive_of(self_id, evs[0]) is Exit));
        let next = next_id(self_id, evs[0]);
        let tail = evs.drop_first();
        assert(tail.take(i - 1) =~= evs.take(i).drop_first());
        assert forall|j: int| 0 <= j < i - 1 implies !((#[trigger] tail.take(i - 1)[j])
            matches InboundEvent::Transport { fatal: true }) by {
            assert(tail.take(i - 1)[j] == evs.take(i)[j + 1]);
        }
        assert(no_exit(tail.take(i - 1)));
        lemma_run_index(next, tail, i - 1);
        assert(evs.take(i).len() > 0);
        assert(id_after(self_id, evs.take(i)) == id_after(next, evs.take(i).drop_first()));
        assert(run(self_id, evs)[i] == run(next, tail)[i - 1]);
        assert(tail[i - 1] == evs[i]);
    }
}

/// Idempotent suppression over whole runs: wherever in the event sequence
/// an announcement arrives, and whatever command invocations or other
/// events surround it, its directive is a delete exactly when the identity
/// known at that point is the author and the kind is the pin notice.
pub proof fn lemma_announcement_suppression(
    self_id: Option<u64>,
    evs: Seq<InboundEvent>,
    i: int,
    author_id: u64,
    kind: u8,
    channel_id: u64,
    message_id: u64,
)
    requires
        0 <= i < evs.len(),
        no_exit(evs.take(i)),
        evs[i] == (InboundEvent::Announced { author_id, kind, channel_id, message_id }),
    ensures
        run(self_id, evs).len() > i,
        run(self_id, evs)[i] == if suppresses(id_after(self_id, evs.take(i)), author_id, kind) {
            Directive::Delete { channel_id, message_id }
        } else {
            Directive::Nothing
        },
{
    lemma_run_index(self_id, evs, i);
}

/// A non-fatal transport error never stops the loop: every event after it
/// is still processed, exactly as it would have been without the error.
pub proof fn lemma_nonfatal_transport_continues(self_id: Option<u64>, rest: Seq<InboundEvent>)
    ensures
        run(self_id, seq![InboundEvent::Transport { fatal: false }] + rest) == seq![
            Directive::Nothing,
        ] + run(self_id, rest),
{
    let evs = seq![InboundEvent::Transport { fatal: false }] + rest;
    assert(evs[0] == (InboundEvent::Transport { fatal: false }));
    assert(evs.drop_first() =~= rest);
}

/// A fatal transport error stops the loop at once: its exit directive is
/// the last, and no later event is processed, however many are queued.
pub proof fn lemma_fatal_transport_stops(self_id: Option<u64>, rest: Seq<InboundEvent>)
    ensures
        run(self_id, seq![InboundEvent::Transport { fatal: true }] + rest) == seq![Directive::Exit],
{
    let evs = seq![InboundEvent::Transport { fatal: true }] + rest;
    assert(evs[0] == (InboundEvent::Transport { fatal: true }));
}

} // verus!
