use vstd::prelude::*;
use crate::ids::UniverseId;
use crate::relationship::Relationship;
use crate::supervisor::{collapse_ok, paired_roll, Directive, SupervisorHandle};
use crate::universe::{apply_command, apply_event, event_intent, UniverseView};
use crate::universe_command::UniverseCommand;
use crate::universe_event::UniverseEvent;

verus! {

/// The state after a whole sequence of events, applied oldest first.
pub open spec fn apply_events(v: UniverseView, events: Seq<UniverseEvent>) -> UniverseView
    decreases events.len(),
{
    if events.len() == 0 {
        v
    } else {
        apply_events(apply_event(v, events[0]), events.skip(1))
    }
}

/// How many `Dead` intents a sequence of events makes the universe emit.
pub open spec fn dead_intents(v: UniverseView, events: Seq<UniverseEvent>) -> int
    decreases events.len(),
{
    if events.len() == 0 {
        0
    } else {
        (if event_intent(v, events[0]) is Some {
            1int
        } else {
            0int
        }) + dead_intents(apply_event(v, events[0]), events.skip(1))
    }
}

/// The state after a whole sequence of commands, applied in FIFO order.
pub open spec fn apply_commands(v: UniverseView, commands: Seq<UniverseCommand>) -> UniverseView
    decreases commands.len(),
{
    if commands.len() == 0 {
        v
    } else {
        apply_commands(apply_command(v, commands[0]), commands.skip(1))
    }
}

/// Hit points stay within 0..=100 and the other universe invariants hold
/// after every event, at every observable instant.
pub proof fn lemma_event_preserves_inv(v: UniverseView, event: UniverseEvent)
    requires
        v.inv(),
    ensures
        apply_event(v, event).inv(),
        0 <= apply_event(v, event).hp <= 100,
{
    let w = apply_event(v, event);
    match event {
        UniverseEvent::PeerCollapsed(peer) => {
            assert(w.enemies.disjoint(w.brothers)) by {
                assert forall|x: UniverseId| w.enemies.contains(x) implies !w.brothers.contains(
                    x,
                ) by {
                    assert(v.enemies.contains(x));
                }
            }
        },
        _ => {},
    }
}

/// The same, for every command.
pub proof fn lemma_command_preserves_inv(v: UniverseView, command: UniverseCommand)
    requires
        v.inv(),
    ensures
        apply_command(v, command).inv(),
        0 <= apply_command(v, command).hp <= 100,
{
    let w = apply_command(v, command);
    match command {
        UniverseCommand::InjectEvent(event) => {
            lemma_event_preserves_inv(v, event);
        },
        UniverseCommand::SetRelationship(peer, kind) => {
            match kind {
                Relationship::Enemy => {
                    assert(w.enemies.disjoint(w.brothers)) by {
                        assert forall|x: UniverseId| w.enemies.contains(x) implies !w
                            .brothers.contains(x) by {}
                    }
                },
                Relationship::Brother => {
                    assert(w.enemies.disjoint(w.brothers)) by {
                        assert forall|x: UniverseId| w.enemies.contains(x) implies !w
                            .brothers.contains(x) by {}
                    }
                },
            }
        },
        _ => {},
    }
}

/// The universe invariants hold after every event trace: at no observable
/// instant do hit points leave 0..=100.
pub proof fn lemma_events_preserve_inv(v: UniverseView, events: Seq<UniverseEvent>)
    requires
        v.inv(),
    ensures
        apply_events(v, events).inv(),
        0 <= apply_events(v, events).hp <= 100,
    decreases events.len(),
{
    if events.len() > 0 {
        lemma_event_preserves_inv(v, events[0]);
        lemma_events_preserve_inv(apply_event(v, events[0]), events.skip(1));
    }
}

/// A collapsed universe is terminal: no later event — a heal included —
/// raises its hit points above zero, and it emits no further intent.
pub proof fn lemma_collapse_is_terminal(v: UniverseView, events: Seq<UniverseEvent>)
    requires
        v.hp == 0,
    ensures
        apply_events(v, events).hp == 0,
        dead_intents(v, events) == 0,
    decreases events.len(),
{
    if events.len() > 0 {
        lemma_collapse_is_terminal(apply_event(v, events[0]), events.skip(1));
    }
}

/// Exactly one `Dead` intent is ever emitted: an event trace produces one
/// precisely when it carries the universe from alive to collapsed, and
/// never a second.
pub proof fn lemma_exactly_one_dead(v: UniverseView, events: Seq<UniverseEvent>)
    requires
        v.inv(),
    ensures
        dead_intents(v, events) == if v.hp > 0 && apply_events(v, events).hp == 0 {
            1int
        } else {
            0int
        },
    decreases events.len(),
{
    if v.hp == 0 {
        lemma_collapse_is_terminal(v, events);
    } else if events.len() > 0 {
        let w = apply_event(v, events[0]);
        lemma_event_preserves_inv(v, events[0]);
        if w.hp == 0 {
            lemma_collapse_is_terminal(w, events.skip(1));
        } else {
            lemma_exactly_one_dead(w, events.skip(1));
        }
    }
}

/// A `Stop; Start; Stop` command burst leaves the target paused, whatever
/// its state was: the last command decides.
pub proof fn lemma_command_fifo_stop_wins(v: UniverseView)
    ensures
        apply_commands(
            v,
            seq![UniverseCommand::Stop, UniverseCommand::Start, UniverseCommand::Stop],
        ).executes == false,
{
    let cs = seq![UniverseCommand::Stop, UniverseCommand::Start, UniverseCommand::Stop];
    let v1 = apply_command(v, UniverseCommand::Stop);
    let v2 = apply_command(v1, UniverseCommand::Start);
    let v3 = apply_command(v2, UniverseCommand::Stop);
    assert(cs[0] == UniverseCommand::Stop);
    assert(cs.skip(1).len() == 2 && cs.skip(1)[0] == UniverseCommand::Start);
    assert(cs.skip(1).skip(1).len() == 1 && cs.skip(1).skip(1)[0] == UniverseCommand::Stop);
    assert(cs.skip(1).skip(1).skip(1).len() == 0);
    assert(apply_commands(v, cs) == apply_commands(v1, cs.skip(1)));
    assert(apply_commands(v1, cs.skip(1)) == apply_commands(v2, cs.skip(1).skip(1)));
    assert(apply_commands(v2, cs.skip(1).skip(1)) == apply_commands(
        v3,
        cs.skip(1).skip(1).skip(1),
    ));
    assert(apply_commands(v3, cs.skip(1).skip(1).skip(1)) == v3);
}

/// One rolled pair agrees: when the newborn and the peer each apply their
/// half of a `paired_roll`, each sees the other exactly as the other sees
/// it, and the relationship is actually recorded on both sides.
pub proof fn lemma_symmetric_relationship(
    new_id: UniverseId,
    peer: UniverseId,
    to_new: Directive,
    to_peer: Directive,
    a: UniverseView,
    b: UniverseView,
)
    requires
        paired_roll(new_id, peer, to_new, to_peer),
        new_id != peer,
        a.id == new_id,
        b.id == peer,
        a.relation_of(peer) is None,
        b.relation_of(new_id) is None,
    ensures
        apply_command(a, to_new.command).relation_of(peer) == apply_command(
            b,
            to_peer.command,
        ).relation_of(new_id),
        apply_command(a, to_new.command).relation_of(peer) is Some,
{
    let kind = choose|kind: Relationship|
        to_new == (Directive {
            target: new_id,
            command: UniverseCommand::SetRelationship(peer, kind),
        }) && to_peer == (Directive {
            target: peer,
            command: UniverseCommand::SetRelationship(new_id, kind),
        });
}

/// The registry's two directions agree: every registered name resolves to
/// an id the registry knows, whose name is that very name; and every
/// registered id resolves to a name the registry knows, which resolves back
/// to that id.
pub proof fn lemma_registry_consistent(s: SupervisorHandle)
    requires
        s.wf(),
    ensures
        forall|n: Seq<char>| #[trigger]
            s.contains_name(n) ==> s.contains_id(s.id_of_name(n)) && s.name_of_id(s.id_of_name(n))
                == n,
        forall|id: UniverseId| #[trigger]
            s.contains_id(id) ==> s.contains_name(s.name_of_id(id)) && s.id_of_name(
                s.name_of_id(id),
            ) == id,
{
    assert forall|n: Seq<char>| #[trigger] s.contains_name(n) implies s.contains_id(
        s.id_of_name(n),
    ) && s.name_of_id(s.id_of_name(n)) == n by {
        let k = s.index_of_name(n);
        let id = s.handles()[k].handle_id;
        assert(s.contains_id(id));
        let l = s.index_of_id(id);
        if l != k {
            if l < k {
                assert(s.handles()[l].handle_id != s.handles()[k].handle_id);
            } else {
                assert(s.handles()[k].handle_id != s.handles()[l].handle_id);
            }
        }
    }
    assert forall|id: UniverseId| #[trigger] s.contains_id(id) implies s.contains_name(
        s.name_of_id(id),
    ) && s.id_of_name(s.name_of_id(id)) == id by {
        let k = s.index_of_id(id);
        let n = s.handles()[k].own_name@;
        assert(s.contains_name(n));
        let l = s.index_of_name(n);
        if l != k {
            if l < k {
                assert(s.handles()[l].own_name@ != s.handles()[k].own_name@);
            } else {
                assert(s.handles()[k].own_name@ != s.handles()[l].own_name@);
            }
        }
    }
}

/// Ids are allocated monotonically: in a well-formed registry the counter
/// is strictly above every id ever registered, so the universe a creation
/// registers — its contract gives it the counter's value — gets an id
/// strictly greater than that of every universe created before it, and the
/// fresh id collides with nothing.
pub proof fn lemma_fresh_id_greatest(s: SupervisorHandle)
    requires
        s.wf(),
    ensures
        forall|k: int|
            0 <= k < s.count() ==> (#[trigger] s.handles()[k]).handle_id < s.next_id,
        !s.contains_id(s.next_id),
{
    if s.contains_id(s.next_id) {
        let k = s.index_of_id(s.next_id);
        assert(s.handles()[k].handle_id < s.next_id);
    }
}

/// After a universe collapses, every survivor is told `PeerCollapsed`
/// exactly once, and a survivor that applies it no longer holds the dead
/// universe in either relationship set.
pub proof fn lemma_broadcast_coverage(
    before: SupervisorHandle,
    after: SupervisorHandle,
    dead: UniverseId,
    directives: Seq<Directive>,
    j: int,
    v: UniverseView,
)
    requires
        before.wf(),
        before.contains_id(dead),
        collapse_ok(before, after, dead, directives),
        0 <= j < after.count(),
        v.id == after.handles()[j].handle_id,
    ensures
        directives[j] == (Directive {
            target: v.id,
            command: UniverseCommand::InjectEvent(UniverseEvent::PeerCollapsed(dead)),
        }),
        forall|t: int| 0 <= t < directives.len() && #[trigger] directives[t].target == v.id ==> t
            == j,
        !apply_event(v, UniverseEvent::PeerCollapsed(dead)).enemies.contains(dead),
        !apply_event(v, UniverseEvent::PeerCollapsed(dead)).brothers.contains(dead),
{
    let k = before.index_of_id(dead);
    before.handles().remove_ensures(k);
    assert forall|t: int|
        0 <= t < directives.len() && #[trigger] directives[t].target == v.id implies t == j by {
        if t < after.count() && t != j {
            let t0: int = if t < k {
                t
            } else {
                t + 1
            };
            let j0: int = if j < k {
                j
            } else {
                j + 1
            };
            assert(after.handles()[t] == before.handles()[t0]);
            assert(after.handles()[j] == before.handles()[j0]);
            if t0 < j0 {
                assert(before.handles()[t0].handle_id != before.handles()[j0].handle_id);
            } else {
                assert(before.handles()[j0].handle_id != before.handles()[t0].handle_id);
            }
        }
        if t == after.count() {
            // the final directive shuts the dead universe down; a survivor
            // cannot carry the dead id
            let j0: int = if j < k {
                j
            } else {
                j + 1
            };
            assert(after.handles()[j] == before.handles()[j0]);
            assert(before.handles()[k].handle_id == dead);
            if j0 < k {
                assert(before.handles()[j0].handle_id != before.handles()[k].handle_id);
            } else {
                assert(before.handles()[k].handle_id != before.handles()[j0].handle_id);
            }
        }
    }
}

/// Shutdown is clean: the command terminates the actor without provoking
/// any intent, and once `shut_down_all` has emptied the registry nothing
/// routes anywhere any more.
pub proof fn lemma_shutdown_clean(v: UniverseView, s: SupervisorHandle)
    requires
        s.count() == 0,
    ensures
        crate::universe::command_terminates(UniverseCommand::Shutdown),
        crate::universe::command_intent(v, UniverseCommand::Shutdown) is None,
        apply_command(v, UniverseCommand::Shutdown).executes == false,
        forall|target: UniverseId, command: UniverseCommand|
            #[trigger] s.route(target, command).len() == 0,
{
    assert forall|target: UniverseId, command: UniverseCommand|
        #[trigger] s.route(target, command).len() == 0 by {
        if s.contains_id(target) {
            let k = s.index_of_id(target);
        }
    }
}

} // verus!
