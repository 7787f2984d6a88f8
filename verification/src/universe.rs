use vstd::prelude::*;
use crate::ids::UniverseId;
use crate::intent::UniverseIntent;
use crate::relationship::Relationship;
use crate::rng::{sample_range, sample_ratio};
use crate::universe_command::UniverseCommand;
use crate::universe_event::UniverseEvent;

verus! {

/// The mathematical state of one universe: what the contracts and laws
/// speak of. Relationship sets are plain sets of peer ids.
#[verifier::ext_equal]
pub struct UniverseView {
    pub id: UniverseId,
    pub executes: bool,
    pub tick: int,
    pub hp: int,
    pub enemies: Set<UniverseId>,
    pub brothers: Set<UniverseId>,
}

/// The set of ids a relationship vector holds.
pub open spec fn id_set(s: Seq<UniverseId>) -> Set<UniverseId> {
    Set::new(|x: UniverseId| s.contains(x))
}

impl UniverseView {
    /// The state a universe is born with.
    pub open spec fn initial(id: UniverseId) -> UniverseView {
        UniverseView {
            id,
            executes: true,
            tick: 0,
            hp: 100,
            enemies: Set::empty(),
            brothers: Set::empty(),
        }
    }

    /// The invariants every universe satisfies at every observable instant.
    pub open spec fn inv(self) -> bool {
        &&& 0 <= self.hp <= 100
        &&& (self.hp == 0 ==> !self.executes)
        &&& self.enemies.disjoint(self.brothers)
        &&& !self.enemies.contains(self.id)
        &&& !self.brothers.contains(self.id)
    }

    /// How this universe sees a peer, if it sees it at all.
    pub open spec fn relation_of(self, peer: UniverseId) -> Option<Relationship> {
        if self.enemies.contains(peer) {
            Some(Relationship::Enemy)
        } else if self.brothers.contains(peer) {
            Some(Relationship::Brother)
        } else {
            None
        }
    }
}

/// Damage clamps hit points at zero; a non-positive strength does nothing.
pub open spec fn shatter_hp(hp: int, strength: int) -> int {
    let d = if strength > 0 {
        strength
    } else {
        0
    };
    if hp - d < 0 {
        0
    } else {
        hp - d
    }
}

/// Healing clamps hit points at 100; a non-positive strength does nothing.
pub open spec fn heal_hp(hp: int, strength: int) -> int {
    let a = if strength > 0 {
        strength
    } else {
        0
    };
    if hp + a > 100 {
        100
    } else {
        hp + a
    }
}

/// The state after one event. Events reach a universe whether or not it is
/// paused; a collapsed universe (`hp == 0`) is only affected by
/// `PeerCollapsed`.
pub open spec fn apply_event(v: UniverseView, event: UniverseEvent) -> UniverseView {
    match event {
        UniverseEvent::Shatter(strength) => {
            if v.hp == 0 {
                v
            } else {
                let hp = shatter_hp(v.hp, strength as int);
                UniverseView { hp, executes: v.executes && hp > 0, ..v }
            }
        },
        UniverseEvent::Heal(strength) => {
            if v.hp == 0 {
                v
            } else {
                UniverseView { hp: heal_hp(v.hp, strength as int), ..v }
            }
        },
        UniverseEvent::Crash => {
            if v.hp == 0 {
                v
            } else {
                UniverseView { hp: 0, executes: false, ..v }
            }
        },
        UniverseEvent::PeerCollapsed(peer) => {
            UniverseView {
                enemies: v.enemies.remove(peer),
                brothers: v.brothers.remove(peer),
                ..v
            }
        },
    }
}

/// The intent one event makes the universe emit: exactly one `Dead` on the
/// transition from alive to collapsed, and nothing otherwise.
pub open spec fn event_intent(v: UniverseView, event: UniverseEvent) -> Option<UniverseIntent> {
    if v.hp > 0 && apply_event(v, event).hp == 0 {
        Some(UniverseIntent::Dead { self_id: v.id })
    } else {
        None
    }
}

/// The state after one command.
pub open spec fn apply_command(v: UniverseView, command: UniverseCommand) -> UniverseView {
    match command {
        UniverseCommand::Start => {
            if v.hp > 0 {
                UniverseView { executes: true, ..v }
            } else {
                v
            }
        },
        UniverseCommand::Stop => UniverseView { executes: false, ..v },
        UniverseCommand::InjectEvent(event) => apply_event(v, event),
        UniverseCommand::Shutdown => UniverseView { executes: false, ..v },
        UniverseCommand::SetRelationship(peer, kind) => {
            if peer != v.id && !v.enemies.contains(peer) && !v.brothers.contains(peer) {
                match kind {
                    Relationship::Enemy => UniverseView { enemies: v.enemies.insert(peer), ..v },
                    Relationship::Brother => UniverseView {
                        brothers: v.brothers.insert(peer),
                        ..v
                    },
                }
            } else {
                v
            }
        },
    }
}

/// The intent one command makes the universe emit.
pub open spec fn command_intent(v: UniverseView, command: UniverseCommand) -> Option<
    UniverseIntent,
> {
    match command {
        UniverseCommand::InjectEvent(event) => event_intent(v, event),
        _ => None,
    }
}

/// Whether a command makes the actor leave its loop.
pub open spec fn command_terminates(command: UniverseCommand) -> bool {
    command is Shutdown
}

/// What applying one command yields besides the state change: at most one
/// intent to forward to the supervisor, and whether the actor's task should
/// return.
#[derive(Clone, Copy, Debug, PartialEq, Eq, Structural)]
pub struct CommandOutcome {
    pub intent: Option<UniverseIntent>,
    pub terminate: bool,
}

/// An intent that `step` may emit: an attack on a current enemy or a heal of
/// a current brother, with strength drawn from 7..=20.
pub open spec fn step_intent_ok(v: UniverseView, intent: UniverseIntent) -> bool {
    match intent {
        UniverseIntent::Attack { target, damage } => v.enemies.contains(target) && 7 <= damage
            <= 20,
        UniverseIntent::Heal { target, amount } => v.brothers.contains(target) && 7 <= amount
            <= 20,
        UniverseIntent::Dead { .. } => false,
    }
}

/// The strength an autonomous intent carries.
pub open spec fn intent_strength(intent: UniverseIntent) -> int {
    match intent {
        UniverseIntent::Attack { damage, .. } => damage as int,
        UniverseIntent::Heal { amount, .. } => amount as int,
        UniverseIntent::Dead { .. } => 0,
    }
}

/// One universe's private state. It is owned exclusively by its own actor
/// task; everything else observes and mutates it through messages.
pub struct Universe {
    pub id: UniverseId,
    pub executes: bool,
    pub tick: u64,
    pub hp: i32,
    pub enemies: Vec<UniverseId>,
    pub brothers: Vec<UniverseId>,
}

impl View for Universe {
    type V = UniverseView;

    open spec fn view(&self) -> UniverseView {
        UniverseView {
            id: self.id,
            executes: self.executes,
            tick: self.tick as int,
            hp: self.hp as int,
            enemies: id_set(self.enemies@),
            brothers: id_set(self.brothers@),
        }
    }
}

/// Removes an id from a relationship vector, if present.
fn remove_id(v: &mut Vec<UniverseId>, target: UniverseId)
    requires
        old(v)@.no_duplicates(),
    ensures
        final(v)@.no_duplicates(),
        forall|x: UniverseId| final(v)@.contains(x) <==> (old(v)@.contains(x) && x != target),
{
    let mut i: usize = 0;
    while i < v.len()
        invariant
            v@ == old(v)@,
            i <= v@.len(),
            old(v)@.no_duplicates(),
            forall|j: int| 0 <= j < i ==> old(v)@[j] != target,
        decreases v@.len() - i,
    {
        if v[i] == target {
            v.remove(i);
            proof {
                old(v)@.remove_ensures(i as int);
                assert forall|p: int, q: int|
                    0 <= p < v@.len() && 0 <= q < v@.len() && p != q implies v@[p] != v@[q] by {
                    let p0: int = if p < i {
                        p
                    } else {
                        p + 1
                    };
                    let q0: int = if q < i {
                        q
                    } else {
                        q + 1
                    };
                    assert(v@[p] == old(v)@[p0]);
                    assert(v@[q] == old(v)@[q0]);
                }
                assert forall|x: UniverseId| v@.contains(x) implies (old(v)@.contains(x) && x
                    != target) by {
                    let j = choose|j: int| 0 <= j < v@.len() && v@[j] == x;
                    let j0: int = if j < i {
                        j
                    } else {
                        j + 1
                    };
                    assert(old(v)@[j0] == x);
                    assert(j0 != i);
                    assert(old(v)@[i as int] == target);
                    assert(x != target);
                }
                assert forall|x: UniverseId| old(v)@.contains(x) && x != target implies
                    v@.contains(x) by {
                    let j = choose|j: int| 0 <= j < old(v)@.len() && old(v)@[j] == x;
                    assert(j != i);
                    if j < i {
                        assert(v@[j] == x);
                    } else {
                        assert(v@[j - 1] == x);
                    }
                }
            }
            return ;
        }
        i = i + 1;
    }
    proof {
        assert forall|x: UniverseId| v@.contains(x) implies (old(v)@.contains(x) && x != target)
            by {
            let j = choose|j: int| 0 <= j < v@.len() && v@[j] == x;
        }
    }
}

/// Appends a fresh id to a relationship vector.
fn insert_id(v: &mut Vec<UniverseId>, fresh: UniverseId)
    requires
        old(v)@.no_duplicates(),
        !old(v)@.contains(fresh),
    ensures
        final(v)@.no_duplicates(),
        forall|x: UniverseId| final(v)@.contains(x) <==> (old(v)@.contains(x) || x == fresh),
{
    let ghost s = v@;
    v.push(fresh);
    proof {
        let t = v@;
        assert forall|x: UniverseId| t.contains(x) implies (s.contains(x) || x == fresh) by {
            let j = choose|j: int| 0 <= j < t.len() && t[j] == x;
            if j < s.len() {
                assert(s[j] == x);
            }
        }
        assert forall|x: UniverseId| s.contains(x) || x == fresh implies t.contains(x) by {
            if s.contains(x) {
                let j = choose|j: int| 0 <= j < s.len() && s[j] == x;
                assert(t[j] == x);
            } else {
                assert(t[s.len() as int] == x);
            }
        }
        assert forall|p: int, q: int|
            0 <= p < t.len() && 0 <= q < t.len() && p != q implies t[p] != t[q] by {
            if p < s.len() && q < s.len() {
            } else if p < s.len() {
                assert(s.contains(s[p]));
            } else if q < s.len() {
                assert(s.contains(s[q]));
            }
        }
    }
}

/// Whether a relationship vector holds an id.
fn contains_id(v: &Vec<UniverseId>, target: UniverseId) -> (r: bool)
    ensures
        r == v@.contains(target),
{
    let mut i: usize = 0;
    while i < v.len()
        invariant
            i <= v@.len(),
            forall|j: int| 0 <= j < i ==> v@[j] != target,
        decreases v@.len() - i,
    {
        if v[i] == target {
            return true;
        }
        i = i + 1;
    }
    false
}

impl Universe {
    /// The representation invariant behind `UniverseView::inv`: hit points
    /// stay within bounds, a collapsed universe never executes, and the
    /// relationship vectors are disjoint sets that exclude the universe
    /// itself.
    pub open spec fn wf(self) -> bool {
        &&& 0 <= self.hp <= 100
        &&& (self.hp == 0 ==> !self.executes)
        &&& self.enemies@.no_duplicates()
        &&& self.brothers@.no_duplicates()
        &&& (forall|x: UniverseId| #[trigger]
            self.enemies@.contains(x) ==> !self.brothers@.contains(x))
        &&& !self.enemies@.contains(self.id)
        &&& !self.brothers@.contains(self.id)
    }

    /// A universe is born executing, with full hit points and no
    /// relationships.
    pub fn new(id: UniverseId) -> (u: Universe)
        ensures
            u.wf(),
            u@ =~= UniverseView::initial(id),
    {
        Universe {
            id,
            executes: true,
            tick: 0,
            hp: 100,
            enemies: Vec::new(),
            brothers: Vec::new(),
        }
    }

    pub fn is_enemy(&self, peer: UniverseId) -> (r: bool)
        ensures
            r == self@.enemies.contains(peer),
    {
        contains_id(&self.enemies, peer)
    }

    pub fn is_brother(&self, peer: UniverseId) -> (r: bool)
        ensures
            r == self@.brothers.contains(peer),
    {
        contains_id(&self.brothers, peer)
    }

    /// Collapse is the terminal state: `hp == 0`.
    pub fn is_collapsed(&self) -> (r: bool)
        ensures
            r == (self@.hp == 0),
    {
        self.hp == 0
    }

    /// Applies damage: hit points drop, clamped at zero, and on the
    /// transition to zero the universe collapses and emits its one `Dead`
    /// intent. Damaging an already collapsed universe is a no-op.
    pub fn take_damage(&mut self, amount: i32) -> (dead: Option<UniverseIntent>)
        requires
            old(self).wf(),
        ensures
            final(self).wf(),
            final(self)@ =~= apply_event(old(self)@, UniverseEvent::Shatter(amount)),
            dead == event_intent(old(self)@, UniverseEvent::Shatter(amount)),
    {
        if self.hp == 0 || amount <= 0 {
            return None;
        }
        if amount >= self.hp {
            self.hp = 0;
            self.executes = false;
            Some(UniverseIntent::Dead { self_id: self.id })
        } else {
            self.hp = self.hp - amount;
            None
        }
    }

    /// Applies healing: hit points rise, clamped at 100. A collapsed
    /// universe stays collapsed: healing it is a no-op.
    pub fn heal(&mut self, amount: i32)
        requires
            old(self).wf(),
        ensures
            final(self).wf(),
            final(self)@ =~= apply_event(old(self)@, UniverseEvent::Heal(amount)),
    {
        if self.hp == 0 || amount <= 0 {
            return ;
        }
        if amount >= 100 - self.hp {
            self.hp = 100;
        } else {
            self.hp = self.hp + amount;
        }
    }

    /// Applies one event, returning the intent it provokes, if any.
    pub fn handle_given_event(&mut self, event: &UniverseEvent) -> (intent: Option<
        UniverseIntent,
    >)
        requires
            old(self).wf(),
        ensures
            final(self).wf(),
            final(self)@ =~= apply_event(old(self)@, *event),
            intent == event_intent(old(self)@, *event),
    {
        match event {
            UniverseEvent::Shatter(strength) => self.take_damage(*strength),
            UniverseEvent::Heal(strength) => {
                self.heal(*strength);
                None
            },
            UniverseEvent::Crash => {
                // damage so large no universe survives it
                self.take_damage(999)
            },
            UniverseEvent::PeerCollapsed(peer) => {
                remove_id(&mut self.enemies, *peer);
                remove_id(&mut self.brothers, *peer);
                None
            },
        }
    }

    /// Applies one command, returning the intent it provokes and whether
    /// the actor should leave its loop.
    pub fn handle_given_command(&mut self, command: &UniverseCommand) -> (outcome: CommandOutcome)
        requires
            old(self).wf(),
        ensures
            final(self).wf(),
            final(self)@ =~= apply_command(old(self)@, *command),
            outcome.intent == command_intent(old(self)@, *command),
            outcome.terminate == command_terminates(*command),
    {
        match command {
            UniverseCommand::Start => {
                if self.hp > 0 {
                    self.executes = true;
                }
                CommandOutcome { intent: None, terminate: false }
            },
            UniverseCommand::Stop => {
                self.executes = false;
                CommandOutcome { intent: None, terminate: false }
            },
            UniverseCommand::InjectEvent(event) => {
                let intent = self.handle_given_event(event);
                CommandOutcome { intent, terminate: false }
            },
            UniverseCommand::Shutdown => {
                self.executes = false;
                CommandOutcome { intent: None, terminate: true }
            },
            UniverseCommand::SetRelationship(peer, kind) => {
                if *peer != self.id && !self.is_enemy(*peer) && !self.is_brother(*peer) {
                    match kind {
                        Relationship::Enemy => insert_id(&mut self.enemies, *peer),
                        Relationship::Brother => insert_id(&mut self.brothers, *peer),
                    }
                }
                CommandOutcome { intent: None, terminate: false }
            },
        }
    }

    /// One autonomous tick. A paused universe does nothing, not even age.
    /// Every 4th tick the universe may attack one enemy (7 chances in 10)
    /// and may heal one brother (3 chances in 10), both with the same
    /// strength drawn from 7..=20; an empty set skips its branch. The state
    /// only advances its tick: attacks and heals go out as intents for the
    /// supervisor to route.
    pub fn step(&mut self) -> (intents: Vec<UniverseIntent>)
        requires
            old(self).wf(),
            old(self).tick < u64::MAX,
        ensures
            final(self).wf(),
            !old(self).executes ==> final(self)@ =~= old(self)@ && intents@.len() == 0,
            old(self).executes ==> final(self)@ =~= (UniverseView {
                tick: old(self)@.tick + 1,
                ..old(self)@
            }),
            old(self).tick as int % 4 != 0 ==> intents@.len() == 0,
            intents@.len() <= 2,
            forall|k: int|
                0 <= k < intents@.len() ==> step_intent_ok(old(self)@, #[trigger] intents@[k]),
            intents@.len() == 2 ==> intents@[0] is Attack && intents@[1] is Heal
                && intent_strength(intents@[0]) == intent_strength(intents@[1]),
    {
        if !self.executes {
            return Vec::new();
        }
        let intents: Vec<UniverseIntent> = if self.tick % 4 == 0 {
            self.attack_or_heal_random()
        } else {
            Vec::new()
        };
        self.tick = self.tick + 1;
        intents
    }

    /// Rolls this tick's autonomous actions: an attack on one enemy with 7
    /// chances in 10, and independently a heal of one brother with 3
    /// chances in 10, both with one strength drawn from 7..=20. An empty
    /// set skips its branch.
    fn attack_or_heal_random(&self) -> (intents: Vec<UniverseIntent>)
        ensures
            intents@.len() <= 2,
            forall|k: int|
                0 <= k < intents@.len() ==> step_intent_ok(self@, #[trigger] intents@[k]),
            intents@.len() == 2 ==> intents@[0] is Attack && intents@[1] is Heal
                && intent_strength(intents@[0]) == intent_strength(intents@[1]),
    {
        let mut intents: Vec<UniverseIntent> = Vec::new();
        let strength = sample_range(7, 20);
        if self.enemies.len() > 0 && sample_ratio(7, 10) {
            let target = self.enemies[0];
            assert(self.enemies@.contains(self.enemies@[0]));
            intents.push(UniverseIntent::Attack { target, damage: strength });
        }
        if self.brothers.len() > 0 && sample_ratio(3, 10) {
            let target = self.brothers[0];
            assert(self.brothers@.contains(self.brothers@[0]));
            intents.push(UniverseIntent::Heal { target, amount: strength });
        }
        intents
    }
}

} // verus!
