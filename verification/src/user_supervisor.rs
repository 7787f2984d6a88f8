use vstd::prelude::*;
use crate::error::UniverseCreateError;
use crate::logging::LogEntry;
use crate::supervisor::{Directive, NewUniverse, SupervisorHandle};
use crate::universe_command::UniverseCommand;

verus! {

/// The façade a front end drives: a thin, synchronous-looking surface over
/// the supervisor, meant to be called from a single driver task.
pub struct UserSupervisor {
    pub supervisor: SupervisorHandle,
}

impl UserSupervisor {
    pub fn new() -> (s: UserSupervisor)
        ensures
            s.supervisor.wf(),
            s.supervisor.count() == 0,
            s.supervisor.next_id == 1,
    {
        UserSupervisor { supervisor: SupervisorHandle::new() }
    }

    /// The greeting for an hour of the day (0..=23).
    pub fn greeting_for_hour(hour: u32) -> (msg: &'static str)
        ensures
            5 <= hour <= 12 ==> msg@ == "Good Morning"@,
            13 <= hour <= 17 ==> msg@ == "Good Afternoon"@,
            18 <= hour <= 21 ==> msg@ == "Good Evening"@,
            (hour < 5 || hour > 21) ==> msg@ == "Good Night"@,
    {
        if 5 <= hour && hour <= 12 {
            "Good Morning"
        } else if 13 <= hour && hour <= 17 {
            "Good Afternoon"
        } else if 18 <= hour && hour <= 21 {
            "Good Evening"
        } else {
            "Good Night"
        }
    }

    /// Creates a universe under the given name; see
    /// `SupervisorHandle::add_new_universe` for the full contract.
    pub fn new_universe(&mut self, name: String, bus: &tokio::sync::broadcast::Sender<
        LogEntry,
    >) -> (r: Result<NewUniverse, UniverseCreateError>)
        requires
            old(self).supervisor.wf(),
            old(self).supervisor.next_id < usize::MAX,
        ensures
            final(self).supervisor.wf(),
            old(self).supervisor.contains_name(name@) ==> final(self).supervisor == old(
                self,
            ).supervisor && r is Err,
            !old(self).supervisor.contains_name(name@) ==> (r matches Ok(nu) && {
                &&& nu.universe.wf()
                &&& nu.universe@.id == old(self).supervisor.next_id
                &&& final(self).supervisor.next_id == old(self).supervisor.next_id + 1
                &&& final(self).supervisor.count() == old(self).supervisor.count() + 1
                &&& final(self).supervisor.contains_name(name@)
            }),
    {
        self.supervisor.add_new_universe(name, bus)
    }

    /// The names of all live universes.
    pub fn get_list_universes(&self) -> (names: Vec<String>)
        ensures
            names@.len() == self.supervisor.count(),
            forall|k: int|
                0 <= k < names@.len() ==> (#[trigger] names@[k])@
                    == self.supervisor.handles()[k].own_name@,
    {
        self.supervisor.get_all_existing_universes()
    }

    /// Shuts the whole fleet down: one `Shutdown` directive per universe,
    /// in registry order, and an empty registry afterwards, so no intent
    /// routes anywhere any more.
    pub fn shut_down_all(&mut self) -> (directives: Vec<Directive>)
        requires
            old(self).supervisor.wf(),
        ensures
            final(self).supervisor.wf(),
            final(self).supervisor.count() == 0,
            directives@.len() == old(self).supervisor.count(),
            forall|j: int|
                0 <= j < old(self).supervisor.count() ==> #[trigger] directives@[j] == (Directive {
                    target: old(self).supervisor.handles()[j].handle_id,
                    command: UniverseCommand::Shutdown,
                }),
    {
        self.supervisor.wait_for_all_tasks_to_finish()
    }
}

} // verus!
