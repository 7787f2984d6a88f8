use vstd::prelude::*;
use vstd::string::*;
use crate::color::{random_color, Rgb};
use crate::error::{UniverseCreateError, UniverseLookupError};
use crate::ids::{new_universe_id, UniverseId};
use crate::logging::{log, LogEntry};
use crate::log_messages::Log;
use crate::numfmt::{dec_seq, usize_to_dec};
use crate::relationship::Relationship;
use crate::rng::fair_coin;
use crate::universe::{Universe, UniverseView};
use crate::universe_command::UniverseCommand;
use crate::universe_event::UniverseEvent;

verus! {

/// The supervisor's view of one live actor: its identity and how to display
/// it. The actor's channels and task token live with whatever runtime hosts
/// the actor; the registry itself stays plain data.
pub struct UniverseHandle {
    pub handle_id: UniverseId,
    pub own_name: String,
    pub color: Rgb,
}

/// One command the supervisor has decided to deliver to one actor. The
/// caller that owns the command channels performs the sends, in order; a
/// full or closed channel drops the command without failing the system.
#[derive(Clone, Debug)]
pub struct Directive {
    pub target: UniverseId,
    pub command: UniverseCommand,
}

/// Everything `add_new_universe` decides: the newborn actor's initial
/// state, and the symmetric relationship commands for it and its peers.
pub struct NewUniverse {
    pub universe: Universe,
    pub directives: Vec<Directive>,
}

/// One matched pair of relationship commands: the newborn and one peer are
/// told the same kind, so the pair agrees.
pub open spec fn paired_roll(
    new_id: UniverseId,
    peer: UniverseId,
    to_new: Directive,
    to_peer: Directive,
) -> bool {
    exists|kind: Relationship|
        to_new == (Directive {
            target: new_id,
            command: UniverseCommand::SetRelationship(peer, kind),
        }) && to_peer == (Directive {
            target: peer,
            command: UniverseCommand::SetRelationship(new_id, kind),
        })
}

/// The registry and id allocator: the singleton that owns every handle and
/// brokers every inter-universe message.
pub struct SupervisorHandle {
    pub existing_universes: Vec<UniverseHandle>,
    pub next_id: UniverseId,
}

impl SupervisorHandle {
    pub open spec fn handles(self) -> Seq<UniverseHandle> {
        self.existing_universes@
    }

    pub open spec fn count(self) -> int {
        self.handles().len() as int
    }

    pub open spec fn contains_id(self, id: UniverseId) -> bool {
        exists|k: int|
            0 <= k < self.handles().len() && (#[trigger] self.handles()[k]).handle_id == id
    }

    pub open spec fn contains_name(self, name: Seq<char>) -> bool {
        exists|k: int|
            0 <= k < self.handles().len() && (#[trigger] self.handles()[k]).own_name@ == name
    }

    pub open spec fn index_of_id(self, id: UniverseId) -> int {
        choose|k: int|
            0 <= k < self.handles().len() && (#[trigger] self.handles()[k]).handle_id == id
    }

    pub open spec fn index_of_name(self, name: Seq<char>) -> int {
        choose|k: int|
            0 <= k < self.handles().len() && (#[trigger] self.handles()[k]).own_name@ == name
    }

    pub open spec fn id_of_name(self, name: Seq<char>) -> UniverseId {
        self.handles()[self.index_of_name(name)].handle_id
    }

    pub open spec fn name_of_id(self, id: UniverseId) -> Seq<char> {
        self.handles()[self.index_of_id(id)].own_name@
    }

    pub open spec fn color_of_id(self, id: UniverseId) -> Rgb {
        self.handles()[self.index_of_id(id)].color
    }

    /// The registry invariant: every id was allocated below the counter,
    /// and no id or name occurs twice.
    pub open spec fn wf(self) -> bool {
        &&& forall|k: int|
            0 <= k < self.handles().len() ==> (#[trigger] self.handles()[k]).handle_id
                < self.next_id
        &&& forall|k: int, l: int|
            0 <= k < l < self.handles().len() ==> (#[trigger] self.handles()[k]).handle_id != (
            #[trigger] self.handles()[l]).handle_id
        &&& forall|k: int, l: int|
            0 <= k < l < self.handles().len() ==> (#[trigger] self.handles()[k]).own_name@ != (
            #[trigger] self.handles()[l]).own_name@
    }

    pub fn new() -> (s: SupervisorHandle)
        ensures
            s.wf(),
            s.count() == 0,
            s.next_id == 1,
    {
        SupervisorHandle { existing_universes: Vec::new(), next_id: 1 }
    }

    /// The index of the handle with the given id, if any.
    fn find_index_by_id(&self, id: UniverseId) -> (r: Option<usize>)
        requires
            self.wf(),
        ensures
            match r {
                Some(k) => {
                    &&& 0 <= k < self.handles().len()
                    &&& self.handles()[k as int].handle_id == id
                    &&& self.contains_id(id)
                    &&& k as int == self.index_of_id(id)
                },
                None => !self.contains_id(id),
            },
    {
        let n = self.existing_universes.len();
        let mut k: usize = 0;
        while k < n
            invariant
                self.wf(),
                n == self.handles().len(),
                k <= n,
                forall|j: int| 0 <= j < k ==> (#[trigger] self.handles()[j]).handle_id != id,
            decreases n - k,
        {
            if self.existing_universes[k].handle_id == id {
                proof {
                    let l = self.index_of_id(id);
                    assert(self.handles()[k as int].handle_id == id);
                    assert(0 <= l < self.handles().len() && self.handles()[l].handle_id == id);
                    if l != k as int {
                        if l < k as int {
                            assert(self.handles()[l].handle_id != self.handles()[k as int].handle_id);
                        } else {
                            assert(self.handles()[k as int].handle_id != self.handles()[l].handle_id);
                        }
                    }
                }
                return Some(k);
            }
            k = k + 1;
        }
        None
    }

    /// The index of the handle with the given name, if any.
    fn find_index_by_name(&self, name: &String) -> (r: Option<usize>)
        requires
            self.wf(),
        ensures
            match r {
                Some(k) => {
                    &&& 0 <= k < self.handles().len()
                    &&& self.handles()[k as int].own_name@ == name@
                    &&& self.contains_name(name@)
                    &&& k as int == self.index_of_name(name@)
                },
                None => !self.contains_name(name@),
            },
    {
        let n = self.existing_universes.len();
        let mut k: usize = 0;
        while k < n
            invariant
                self.wf(),
                n == self.handles().len(),
                k <= n,
                forall|j: int| 0 <= j < k ==> (#[trigger] self.handles()[j]).own_name@ != name@,
            decreases n - k,
        {
            if self.existing_universes[k].own_name == *name {
                proof {
                    let l = self.index_of_name(name@);
                    assert(self.handles()[k as int].own_name@ == name@);
                    assert(0 <= l < self.handles().len() && self.handles()[l].own_name@ == name@);
                    if l != k as int {
                        if l < k as int {
                            assert(self.handles()[l].own_name@ != self.handles()[k as int].own_name@);
                        } else {
                            assert(self.handles()[k as int].own_name@ != self.handles()[l].own_name@);
                        }
                    }
                }
                return Some(k);
            }
            k = k + 1;
        }
        None
    }

    /// The handle registered under a name, or the lookup error naming it.
    pub fn get_universe_handle_by_name(&self, name: &str) -> (r: Result<
        &UniverseHandle,
        UniverseLookupError,
    >)
        requires
            self.wf(),
        ensures
            match r {
                Ok(h) => {
                    &&& self.contains_name(name@)
                    &&& h.own_name@ == name@
                    &&& h.handle_id == self.id_of_name(name@)
                },
                Err(e) => {
                    &&& !self.contains_name(name@)
                    &&& e matches UniverseLookupError::IdNotFoundForName(missing) && missing@
                        == name@
                },
            },
    {
        match self.find_index_by_name(&name.to_owned()) {
            Some(k) => Ok(&self.existing_universes[k]),
            None => Err(UniverseLookupError::IdNotFoundForName(name.to_owned())),
        }
    }

    /// The name registered under an id; an unknown id falls back to its
    /// decimal digits, so intents from just-collapsed universes still log.
    pub fn get_universe_name_by_id(&self, source_id: UniverseId) -> (r: String)
        requires
            self.wf(),
        ensures
            self.contains_id(source_id) ==> r@ == self.name_of_id(source_id),
            !self.contains_id(source_id) ==> r@ == dec_seq(source_id as nat),
    {
        match self.find_index_by_id(source_id) {
            Some(k) => self.existing_universes[k].own_name.clone(),
            None => usize_to_dec(source_id),
        }
    }

    /// The color registered under an id; unknown universes display white.
    pub fn get_color_by_id(&self, id: UniverseId) -> (c: Rgb)
        requires
            self.wf(),
        ensures
            self.contains_id(id) ==> c == self.color_of_id(id),
            !self.contains_id(id) ==> c == (Rgb { r: 255u8, g: 255u8, b: 255u8 }),
    {
        match self.find_index_by_id(id) {
            Some(k) => self.existing_universes[k].color,
            None => Rgb::white(),
        }
    }

    /// The names of all live universes, in registry order.
    pub fn get_all_existing_universes(&self) -> (names: Vec<String>)
        ensures
            names@.len() == self.count(),
            forall|k: int|
                0 <= k < names@.len() ==> (#[trigger] names@[k])@ == self.handles()[k].own_name@,
    {
        let n = self.existing_universes.len();
        let mut names: Vec<String> = Vec::new();
        let mut k: usize = 0;
        while k < n
            invariant
                n == self.handles().len(),
                k <= n,
                names@.len() == k,
                forall|j: int|
                    0 <= j < k ==> (#[trigger] names@[j])@ == self.handles()[j].own_name@,
            decreases n - k,
        {
            names.push(self.existing_universes[k].own_name.clone());
            k = k + 1;
        }
        names
    }

    /// Creates a universe: rejects a taken name, allocates the next id and
    /// a random color, rolls one symmetric relationship with every existing
    /// peer, registers the newborn, and publishes the birth and each roll.
    /// The returned state and directives are the caller's to hand to the
    /// newborn's actor task and the peers' command channels.
    pub fn add_new_universe(&mut self, name: String, bus: &tokio::sync::broadcast::Sender<
        LogEntry,
    >) -> (r: Result<NewUniverse, UniverseCreateError>)
        requires
            old(self).wf(),
            old(self).next_id < usize::MAX,
        ensures
            final(self).wf(),
            old(self).contains_name(name@) ==> {
                &&& *final(self) == *old(self)
                &&& r matches Err(UniverseCreateError::NameAlreadyExists(taken)) && taken@
                    == name@
            },
            !old(self).contains_name(name@) ==> (r matches Ok(nu) && {
                &&& nu.universe.wf()
                &&& nu.universe@ =~= UniverseView::initial(old(self).next_id)
                &&& final(self).next_id == old(self).next_id + 1
                &&& final(self).handles().len() == old(self).count() + 1
                &&& final(self).handles().subrange(0, old(self).count()) == old(self).handles()
                &&& final(self).handles().last().handle_id == old(self).next_id
                &&& final(self).handles().last().own_name@ == name@
                &&& nu.directives@.len() == 2 * old(self).count()
                &&& forall|j: int|
                    0 <= j < old(self).count() ==> paired_roll(
                        old(self).next_id,
                        old(self).handles()[j].handle_id,
                        #[trigger] nu.directives@[2 * j],
                        nu.directives@[2 * j + 1],
                    )
            }),
    {
        if self.find_index_by_name(&name).is_some() {
            return Err(UniverseCreateError::NameAlreadyExists(name));
        }
        let id = new_universe_id(&mut self.next_id);
        proof {
            assert forall|k: int|
                0 <= k < self.handles().len() implies (#[trigger] self.handles()[k]).handle_id
                < self.next_id by {
                assert(old(self).handles()[k].handle_id < old(self).next_id);
            }
            assert(self.wf());
        }
        let color = random_color();
        let universe = Universe::new(id);

        log(bus, Log::created(name.as_str(), color));

        // declare brothers or enemies with every universe that already exists
        let directives = self.roll_brothers_enemies_on_new_universe(id, &name, color, bus);

        // add to the universe registry
        let handle = UniverseHandle { handle_id: id, own_name: name, color };
        let ghost before = self.handles();
        self.existing_universes.push(handle);
        proof {
            assert forall|k: int, l: int|
                0 <= k < l < self.handles().len() implies (#[trigger] self.handles()[k]).handle_id
                != (#[trigger] self.handles()[l]).handle_id && self.handles()[k].own_name@
                != self.handles()[l].own_name@ by {
                if l == before.len() {
                    assert(self.handles()[k] == before[k]);
                }
            }
        }
        Ok(NewUniverse { universe, directives })
    }

    /// Tosses a fair coin for every existing peer and pairs the newborn
    /// with it: the same kind is commanded to both sides, and each roll is
    /// announced on the bus.
    fn roll_brothers_enemies_on_new_universe(
        &self,
        new_id: UniverseId,
        new_name: &String,
        new_color: Rgb,
        bus: &tokio::sync::broadcast::Sender<LogEntry>,
    ) -> (directives: Vec<Directive>)
        requires
            self.wf(),
        ensures
            directives@.len() == 2 * self.count(),
            forall|j: int|
                0 <= j < self.count() ==> paired_roll(
                    new_id,
                    self.handles()[j].handle_id,
                    #[trigger] directives@[2 * j],
                    directives@[2 * j + 1],
                ),
    {
        let mut directives: Vec<Directive> = Vec::new();
        let n = self.existing_universes.len();
        let mut j: usize = 0;
        while j < n
            invariant
                self.wf(),
                n == self.handles().len(),
                j <= n,
                directives@.len() == 2 * j,
                forall|t: int|
                    0 <= t < j ==> paired_roll(
                        new_id,
                        self.handles()[t].handle_id,
                        #[trigger] directives@[2 * t],
                        directives@[2 * t + 1],
                    ),
            decreases n - j,
        {
            let peer = self.existing_universes[j].handle_id;
            // a fair coin decides: enemy or brother
            let kind = if fair_coin() {
                Relationship::Enemy
            } else {
                Relationship::Brother
            };
            directives.push(Directive { target: new_id, command: UniverseCommand::SetRelationship(peer, kind) });
            directives.push(Directive { target: peer, command: UniverseCommand::SetRelationship(new_id, kind) });

            self.log_relationship(j, new_name, new_color, kind, bus);
            j = j + 1;
        }
        directives
    }

    /// Announces one rolled relationship on the bus.
    fn log_relationship(
        &self,
        peer_index: usize,
        new_name: &String,
        new_color: Rgb,
        kind: Relationship,
        bus: &tokio::sync::broadcast::Sender<LogEntry>,
    )
        requires
            peer_index < self.handles().len(),
    {
        let target_name = self.existing_universes[peer_index].own_name.clone();
        let target_color = self.existing_universes[peer_index].color;
        match kind {
            Relationship::Enemy => {
                log(
                    bus,
                    Log::relationship_announcement(
                        target_name.as_str(),
                        target_color,
                        new_name.as_str(),
                        new_color,
                        "ENEMIES",
                        "⚔️ War has been declared",
                    ),
                );
            },
            Relationship::Brother => {
                log(
                    bus,
                    Log::relationship_announcement(
                        target_name.as_str(),
                        target_color,
                        new_name.as_str(),
                        new_color,
                        "BROTHERS",
                        "An alliance forged in the void",
                    ),
                );
            },
        }
    }

    /// Resolves a name to a delivery directive. A missing name is not an
    /// error — the universe may have collapsed concurrently — so it only
    /// leaves an `Info` entry on the bus.
    pub fn send_universe_command(
        &self,
        universe_name: String,
        command: UniverseCommand,
        bus: &tokio::sync::broadcast::Sender<LogEntry>,
    ) -> (r: Option<Directive>)
        requires
            self.wf(),
        ensures
            self.contains_name(universe_name@) ==> (r matches Some(d) && d.target
                == self.id_of_name(universe_name@) && d.command == command),
            !self.contains_name(universe_name@) ==> r is None,
    {
        match self.find_index_by_name(&universe_name) {
            Some(k) => Some(
                Directive { target: self.existing_universes[k].handle_id, command },
            ),
            None => {
                let mut msg = "No universe named ".to_owned();
                msg.append(universe_name.as_str());
                log(bus, Log::info(msg.as_str()));
                None
            },
        }
    }

    /// Routes one drained intent. Attacks and heals become a shatter or
    /// heal event for the target if it still lives, and are dropped
    /// otherwise; a `Dead` intent removes the dying universe from the
    /// registry and yields one `PeerCollapsed` for every survivor plus the
    /// dying actor's `Shutdown`.
    pub fn process_intent(
        &mut self,
        source_id: UniverseId,
        intent: crate::intent::UniverseIntent,
        bus: &tokio::sync::broadcast::Sender<LogEntry>,
    ) -> (directives: Vec<Directive>)
        requires
            old(self).wf(),
        ensures
            final(self).wf(),
            intent matches crate::intent::UniverseIntent::Attack { target, damage } ==> *final(self)
                == *old(self) && directives@ == old(self).route(
                target,
                UniverseCommand::InjectEvent(UniverseEvent::Shatter(damage)),
            ),
            intent matches crate::intent::UniverseIntent::Heal { target, amount } ==> *final(self)
                == *old(self) && directives@ == old(self).route(
                target,
                UniverseCommand::InjectEvent(UniverseEvent::Heal(amount)),
            ),
            intent matches crate::intent::UniverseIntent::Dead { self_id } ==> collapse_ok(
                *old(self),
                *final(self),
                self_id,
                directives@,
            ),
    {
        match intent {
            crate::intent::UniverseIntent::Attack { target, damage } => {
                self.attack_intent(source_id, target, damage, bus)
            },
            crate::intent::UniverseIntent::Heal { target, amount } => {
                self.heal_intent(source_id, target, amount, bus)
            },
            crate::intent::UniverseIntent::Dead { self_id } => {
                self.collapsed_intent(self_id, bus)
            },
        }
    }

    /// The directive an attack or heal routes to: one event for the target
    /// if it is registered, nothing otherwise.
    pub open spec fn route(self, target: UniverseId, command: UniverseCommand) -> Seq<Directive> {
        if self.contains_id(target) {
            seq![Directive { target, command }]
        } else {
            Seq::<Directive>::empty()
        }
    }

    /// Logs and routes one attack: the target is told to shatter by the
    /// given damage, unless it is gone already.
    pub fn attack_intent(
        &mut self,
        source_id: UniverseId,
        target_id: UniverseId,
        damage: i32,
        bus: &tokio::sync::broadcast::Sender<LogEntry>,
    ) -> (directives: Vec<Directive>)
        requires
            old(self).wf(),
        ensures
            *final(self) == *old(self),
            directives@ == old(self).route(
                target_id,
                UniverseCommand::InjectEvent(UniverseEvent::Shatter(damage)),
            ),
    {
        match self.find_index_by_id(target_id) {
            Some(k) => {
                let source_name = self.get_universe_name_by_id(source_id);
                let source_color = self.get_color_by_id(source_id);
                let target_name = self.existing_universes[k].own_name.clone();
                let target_color = self.existing_universes[k].color;
                log(
                    bus,
                    Log::attack(
                        source_name.as_str(),
                        source_color,
                        target_name.as_str(),
                        target_color,
                        damage,
                    ),
                );
                let mut directives: Vec<Directive> = Vec::new();
                directives.push(
                    Directive {
                        target: target_id,
                        command: UniverseCommand::InjectEvent(UniverseEvent::Shatter(damage)),
                    },
                );
                directives
            },
            None => Vec::new(),
        }
    }

    /// Logs and routes one heal, symmetric with `attack_intent`.
    pub fn heal_intent(
        &mut self,
        source_id: UniverseId,
        target_id: UniverseId,
        amount: i32,
        bus: &tokio::sync::broadcast::Sender<LogEntry>,
    ) -> (directives: Vec<Directive>)
        requires
            old(self).wf(),
        ensures
            *final(self) == *old(self),
            directives@ == old(self).route(
                target_id,
                UniverseCommand::InjectEvent(UniverseEvent::Heal(amount)),
            ),
    {
        match self.find_index_by_id(target_id) {
            Some(k) => {
                let source_name = self.get_universe_name_by_id(source_id);
                let source_color = self.get_color_by_id(source_id);
                let target_name = self.existing_universes[k].own_name.clone();
                let target_color = self.existing_universes[k].color;
                log(
                    bus,
                    Log::heal(
                        source_name.as_str(),
                        source_color,
                        target_name.as_str(),
                        target_color,
                        amount,
                    ),
                );
                let mut directives: Vec<Directive> = Vec::new();
                directives.push(
                    Directive {
                        target: target_id,
                        command: UniverseCommand::InjectEvent(UniverseEvent::Heal(amount)),
                    },
                );
                directives
            },
            None => Vec::new(),
        }
    }

    /// Handles one `Dead` intent: logs the collapse, removes the dying
    /// universe from the registry, and yields exactly one `PeerCollapsed`
    /// for every survivor followed by the dying actor's `Shutdown`. An
    /// unknown id is dropped.
    pub fn collapsed_intent(
        &mut self,
        target_id: UniverseId,
        bus: &tokio::sync::broadcast::Sender<LogEntry>,
    ) -> (directives: Vec<Directive>)
        requires
            old(self).wf(),
        ensures
            final(self).wf(),
            collapse_ok(*old(self), *final(self), target_id, directives@),
    {
        match self.find_index_by_id(target_id) {
            None => Vec::new(),
            Some(k) => {
                let target_name = self.existing_universes[k].own_name.clone();
                let target_color = self.existing_universes[k].color;
                log(bus, Log::collapsed(target_name.as_str(), target_color));

                // remove from the registry before addressing the survivors
                let ghost before = self.handles();
                self.existing_universes.remove(k);
                proof {
                    before.remove_ensures(k as int);
                    assert forall|p: int, q: int|
                        0 <= p < q < self.handles().len() implies (#[trigger] self.handles()[p]).handle_id
                        != (#[trigger] self.handles()[q]).handle_id && self.handles()[p].own_name@
                        != self.handles()[q].own_name@ by {
                        let p0: int = if p < k {
                            p
                        } else {
                            p + 1
                        };
                        let q0: int = if q < k {
                            q
                        } else {
                            q + 1
                        };
                        assert(self.handles()[p] == before[p0]);
                        assert(self.handles()[q] == before[q0]);
                    }
                    assert forall|j: int|
                        0 <= j < self.handles().len() implies (#[trigger] self.handles()[j]).handle_id
                        != target_id by {
                        let j0: int = if j < k {
                            j
                        } else {
                            j + 1
                        };
                        assert(self.handles()[j] == before[j0]);
                        assert(before[k as int].handle_id == target_id);
                    }
                }

                // broadcast to every survivor, then shut the dying actor down
                let mut directives = self.broadcast_collapsed_universe(target_id);
                directives.push(Directive { target: target_id, command: UniverseCommand::Shutdown });
                directives
            },
        }
    }

    /// One `PeerCollapsed` directive per surviving universe, in registry
    /// order.
    fn broadcast_collapsed_universe(&self, collapsed_id: UniverseId) -> (directives: Vec<
        Directive,
    >)
        requires
            !self.contains_id(collapsed_id),
        ensures
            directives@.len() == self.count(),
            forall|j: int|
                0 <= j < self.count() ==> #[trigger] directives@[j] == (Directive {
                    target: self.handles()[j].handle_id,
                    command: UniverseCommand::InjectEvent(UniverseEvent::PeerCollapsed(collapsed_id)),
                }),
    {
        let mut directives: Vec<Directive> = Vec::new();
        let n = self.existing_universes.len();
        let mut j: usize = 0;
        while j < n
            invariant
                !self.contains_id(collapsed_id),
                n == self.handles().len(),
                j <= n,
                directives@.len() == j,
                forall|t: int|
                    0 <= t < j ==> #[trigger] directives@[t] == (Directive {
                        target: self.handles()[t].handle_id,
                        command: UniverseCommand::InjectEvent(
                            UniverseEvent::PeerCollapsed(collapsed_id),
                        ),
                    }),
            decreases n - j,
        {
            let survivor = self.existing_universes[j].handle_id;
            if survivor != collapsed_id {
                directives.push(
                    Directive {
                        target: survivor,
                        command: UniverseCommand::InjectEvent(
                            UniverseEvent::PeerCollapsed(collapsed_id),
                        ),
                    },
                );
            } else {
                proof {
                    assert(self.handles()[j as int].handle_id == collapsed_id);
                }
            }
            j = j + 1;
        }
        directives
    }

    /// Empties the registry for shutdown, yielding one `Shutdown` directive
    /// per universe, in registry order. Afterwards no intent routes
    /// anywhere: the registry resolves nothing.
    pub fn wait_for_all_tasks_to_finish(&mut self) -> (directives: Vec<Directive>)
        requires
            old(self).wf(),
        ensures
            final(self).wf(),
            final(self).count() == 0,
            final(self).next_id == old(self).next_id,
            directives@.len() == old(self).count(),
            forall|j: int|
                0 <= j < old(self).count() ==> #[trigger] directives@[j] == (Directive {
                    target: old(self).handles()[j].handle_id,
                    command: UniverseCommand::Shutdown,
                }),
    {
        let mut directives: Vec<Directive> = Vec::new();
        let n = self.existing_universes.len();
        let mut j: usize = 0;
        while j < n
            invariant
                n == self.handles().len(),
                j <= n,
                directives@.len() == j,
                forall|t: int|
                    0 <= t < j ==> #[trigger] directives@[t] == (Directive {
                        target: self.handles()[t].handle_id,
                        command: UniverseCommand::Shutdown,
                    }),
            decreases n - j,
        {
            directives.push(
                Directive {
                    target: self.existing_universes[j].handle_id,
                    command: UniverseCommand::Shutdown,
                },
            );
            j = j + 1;
        }
        self.existing_universes.clear();
        directives
    }
}

/// What handling a `Dead` intent leaves behind: the dying universe's
/// registry entry is gone (and nothing else changed), every survivor is
/// told `PeerCollapsed` exactly once, and the dying actor is shut down. An
/// id the registry does not know changes nothing.
pub open spec fn collapse_ok(
    before: SupervisorHandle,
    after: SupervisorHandle,
    dead: UniverseId,
    directives: Seq<Directive>,
) -> bool {
    if before.contains_id(dead) {
        &&& after.handles() == before.handles().remove(before.index_of_id(dead))
        &&& after.next_id == before.next_id
        &&& directives.len() == after.count() + 1
        &&& forall|j: int|
            0 <= j < after.count() ==> #[trigger] directives[j] == (Directive {
                target: after.handles()[j].handle_id,
                command: UniverseCommand::InjectEvent(UniverseEvent::PeerCollapsed(dead)),
            })
        &&& directives[after.count()] == (Directive {
            target: dead,
            command: UniverseCommand::Shutdown,
        })
    } else {
        after == before && directives.len() == 0
    }
}

} // verus!
