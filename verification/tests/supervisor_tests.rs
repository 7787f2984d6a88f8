use universe_sim::error::UniverseCreateError;
use universe_sim::intent::UniverseIntent;
use universe_sim::logging::LogEntry;
use universe_sim::logging::LogLevel;
use universe_sim::relationship::Relationship;
use universe_sim::supervisor::Directive;
use universe_sim::supervisor::NewUniverse;
use universe_sim::supervisor::SupervisorHandle;
use universe_sim::universe::Universe;
use universe_sim::universe_command::UniverseCommand;
use universe_sim::universe_event::UniverseEvent;
use universe_sim::user_supervisor::UserSupervisor;

fn test_bus() -> tokio::sync::broadcast::Sender<LogEntry> {
    tokio::sync::broadcast::channel(500).0
}

fn drain(rx: &mut tokio::sync::broadcast::Receiver<LogEntry>) -> Vec<LogEntry> {
    let mut out = Vec::new();
    while let Ok(e) = rx.try_recv() {
        out.push(e);
    }
    out
}

#[test]
fn created_ids_are_strictly_monotonic() {
    let bus = test_bus();
    let mut s = SupervisorHandle::new();
    let a = s.add_new_universe("A".to_string(), &bus).unwrap();
    let b = s.add_new_universe("B".to_string(), &bus).unwrap();
    let c = s.add_new_universe("C".to_string(), &bus).unwrap();
    assert!(a.universe.id < b.universe.id);
    assert!(b.universe.id < c.universe.id);
}

#[test]
fn ids_stay_monotonic_across_collapses() {
    let bus = test_bus();
    let mut s = SupervisorHandle::new();
    let a = s.add_new_universe("A".to_string(), &bus).unwrap();
    s.process_intent(a.universe.id, UniverseIntent::Dead { self_id: a.universe.id }, &bus);
    let b = s.add_new_universe("B".to_string(), &bus).unwrap();
    assert!(b.universe.id > a.universe.id, "ids are never reused");
}

#[test]
fn duplicate_name_is_rejected() {
    let bus = test_bus();
    let mut s = SupervisorHandle::new();
    s.add_new_universe("Alpha".to_string(), &bus).unwrap();
    let r = s.add_new_universe("Alpha".to_string(), &bus);
    match r {
        Err(UniverseCreateError::NameAlreadyExists(n)) => assert_eq!(n, "Alpha"),
        _ => panic!("creating a taken name must fail"),
    }
    assert_eq!(s.get_all_existing_universes().len(), 1);
}

#[test]
fn registry_resolves_both_ways() {
    let bus = test_bus();
    let mut s = SupervisorHandle::new();
    let a = s.add_new_universe("A".to_string(), &bus).unwrap();
    let b = s.add_new_universe("B".to_string(), &bus).unwrap();
    let ha = s.get_universe_handle_by_name("A").unwrap();
    assert_eq!(ha.handle_id, a.universe.id);
    assert_eq!(ha.own_name, "A");
    assert_eq!(s.get_universe_name_by_id(b.universe.id), "B");
    let names = s.get_all_existing_universes();
    assert_eq!(names, vec!["A".to_string(), "B".to_string()]);
}

#[test]
fn unknown_lookups_fall_back() {
    let bus = test_bus();
    let mut s = SupervisorHandle::new();
    s.add_new_universe("A".to_string(), &bus).unwrap();
    assert!(s.get_universe_handle_by_name("ghost").is_err());
    // an unknown id logs as its digits, in white
    assert_eq!(s.get_universe_name_by_id(424242), "424242");
    let white = s.get_color_by_id(424242);
    assert_eq!((white.r, white.g, white.b), (255, 255, 255));
}

#[test]
fn created_color_channels_stay_bright() {
    let bus = test_bus();
    let mut s = SupervisorHandle::new();
    for i in 0..20 {
        s.add_new_universe(format!("U{}", i), &bus).unwrap();
    }
    for name in s.get_all_existing_universes() {
        let h = s.get_universe_handle_by_name(&name).unwrap();
        let c = h.color;
        assert!(c.r >= 50 && c.g >= 50 && c.b >= 50);
    }
}

fn roll_kind(d: &Directive) -> (usize, Relationship) {
    match d.command {
        UniverseCommand::SetRelationship(peer, kind) => (peer, kind),
        _ => panic!("expected a relationship command, got {:?}", d.command),
    }
}

#[test]
fn relationship_roll_is_symmetric_for_every_pair() {
    let bus = test_bus();
    let mut s = SupervisorHandle::new();
    let a = s.add_new_universe("A".to_string(), &bus).unwrap();
    assert!(a.directives.is_empty(), "the first universe has no peers");
    let b = s.add_new_universe("B".to_string(), &bus).unwrap();
    let c = s.add_new_universe("C".to_string(), &bus).unwrap();
    assert_eq!(b.directives.len(), 2);
    assert_eq!(c.directives.len(), 4);

    // every consecutive pair tells both sides the same kind
    for (new_u, pair) in [(&b, &b.directives[0..2]), (&c, &c.directives[0..2]), (&c, &c.directives[2..4])] {
        let to_new = &pair[0];
        let to_peer = &pair[1];
        assert_eq!(to_new.target, new_u.universe.id);
        let (peer_of_new, kind_new) = roll_kind(to_new);
        let (peer_of_peer, kind_peer) = roll_kind(to_peer);
        assert_eq!(to_peer.target, peer_of_new);
        assert_eq!(peer_of_peer, new_u.universe.id);
        assert_eq!(kind_new, kind_peer, "both sides of the pair agree");
    }
}

#[test]
fn applied_roll_gives_matching_views() {
    // pair born in either order sees the other the same way
    let bus = test_bus();
    let mut s = SupervisorHandle::new();
    let a = s.add_new_universe("A".to_string(), &bus).unwrap();
    let b = s.add_new_universe("B".to_string(), &bus).unwrap();
    let mut ua: Universe = a.universe;
    let mut ub: Universe = b.universe;
    for d in b.directives.iter() {
        if d.target == ua.id {
            ua.handle_given_command(&d.command);
        } else if d.target == ub.id {
            ub.handle_given_command(&d.command);
        }
    }
    assert_eq!(ua.is_enemy(ub.id), ub.is_enemy(ua.id));
    assert_eq!(ua.is_brother(ub.id), ub.is_brother(ua.id));
    assert!(ua.is_enemy(ub.id) || ua.is_brother(ub.id));
}

#[test]
fn attack_intent_routes_a_shatter_to_a_live_target() {
    let bus = test_bus();
    let mut s = SupervisorHandle::new();
    let a = s.add_new_universe("A".to_string(), &bus).unwrap();
    let b = s.add_new_universe("B".to_string(), &bus).unwrap();
    let ds = s.process_intent(
        a.universe.id,
        UniverseIntent::Attack { target: b.universe.id, damage: 12 },
        &bus,
    );
    assert_eq!(ds.len(), 1);
    assert_eq!(ds[0].target, b.universe.id);
    assert_eq!(
        ds[0].command,
        UniverseCommand::InjectEvent(UniverseEvent::Shatter(12))
    );
    // a vanished target is dropped
    let ds = s.process_intent(
        a.universe.id,
        UniverseIntent::Attack { target: 999, damage: 12 },
        &bus,
    );
    assert!(ds.is_empty());
}

#[test]
fn heal_intent_routes_a_heal_to_a_live_target() {
    let bus = test_bus();
    let mut s = SupervisorHandle::new();
    let a = s.add_new_universe("A".to_string(), &bus).unwrap();
    let b = s.add_new_universe("B".to_string(), &bus).unwrap();
    let ds = s.process_intent(
        b.universe.id,
        UniverseIntent::Heal { target: a.universe.id, amount: 9 },
        &bus,
    );
    assert_eq!(ds.len(), 1);
    assert_eq!(ds[0].target, a.universe.id);
    assert_eq!(ds[0].command, UniverseCommand::InjectEvent(UniverseEvent::Heal(9)));
}

#[test]
fn hostile_pair_wears_each_other_down() {
    // two enemies, driven without external input, land attacks both ways
    let bus = test_bus();
    let mut s = SupervisorHandle::new();
    let a = s.add_new_universe("A".to_string(), &bus).unwrap();
    let b = s.add_new_universe("B".to_string(), &bus).unwrap();
    let mut ua = a.universe;
    let mut ub = b.universe;
    // make the rolled relationship hostility, on both sides
    ua.handle_given_command(&UniverseCommand::SetRelationship(ub.id, Relationship::Enemy));
    ub.handle_given_command(&UniverseCommand::SetRelationship(ua.id, Relationship::Enemy));

    let mut rounds = 0;
    while (ua.hp == 100 || ub.hp == 100) && rounds < 4000 {
        rounds += 1;
        let mut pending: Vec<(usize, UniverseIntent)> = Vec::new();
        for u in [&mut ua, &mut ub] {
            let id = u.id;
            for i in u.step() {
                pending.push((id, i));
            }
        }
        for (source, intent) in pending {
            for d in s.process_intent(source, intent, &bus) {
                let target = if d.target == ua.id { &mut ua } else { &mut ub };
                target.handle_given_command(&d.command);
            }
        }
    }
    assert!(ua.hp < 100, "A was never hit");
    assert!(ub.hp < 100, "B was never hit");
}

#[test]
fn collapse_fans_out_to_every_survivor() {
    // fan-out scenario: A, B, C; B dies; A and C each forget B exactly once
    let bus = test_bus();
    let mut s = SupervisorHandle::new();
    let a = s.add_new_universe("A".to_string(), &bus).unwrap();
    let b = s.add_new_universe("B".to_string(), &bus).unwrap();
    let c = s.add_new_universe("C".to_string(), &bus).unwrap();
    let mut ua = a.universe;
    let mut uc = c.universe;
    ua.handle_given_command(&UniverseCommand::SetRelationship(b.universe.id, Relationship::Enemy));
    uc.handle_given_command(&UniverseCommand::SetRelationship(b.universe.id, Relationship::Brother));

    let ds = s.process_intent(b.universe.id, UniverseIntent::Dead { self_id: b.universe.id }, &bus);
    // one PeerCollapsed per survivor, then the dying actor's Shutdown
    assert_eq!(ds.len(), 3);
    let expected = UniverseCommand::InjectEvent(UniverseEvent::PeerCollapsed(b.universe.id));
    assert_eq!(ds[0].target, ua.id);
    assert_eq!(ds[0].command, expected);
    assert_eq!(ds[1].target, uc.id);
    assert_eq!(ds[1].command, expected);
    assert_eq!(ds[2].target, b.universe.id);
    assert_eq!(ds[2].command, UniverseCommand::Shutdown);
    // B is gone from the registry
    assert_eq!(s.get_all_existing_universes(), vec!["A".to_string(), "C".to_string()]);
    // survivors apply the broadcast and forget B
    ua.handle_given_command(&ds[0].command);
    uc.handle_given_command(&ds[1].command);
    assert!(!ua.is_enemy(b.universe.id) && !ua.is_brother(b.universe.id));
    assert!(!uc.is_enemy(b.universe.id) && !uc.is_brother(b.universe.id));
    // a second Dead for the same id changes nothing
    let ds = s.process_intent(b.universe.id, UniverseIntent::Dead { self_id: b.universe.id }, &bus);
    assert!(ds.is_empty());
}

#[test]
fn solo_lifecycle_logs_collapse_and_leaves_the_list() {
    // solo scenario: create "A", shatter it for 100, see the collapse log
    // and an empty list
    let bus = test_bus();
    let mut rx = bus.subscribe();
    let mut s = SupervisorHandle::new();
    let a: NewUniverse = s.add_new_universe("A".to_string(), &bus).unwrap();
    let mut ua = a.universe;
    let ds = s.process_intent(
        ua.id,
        UniverseIntent::Attack { target: ua.id, damage: 100 },
        &bus,
    );
    let mut dead = None;
    for d in ds {
        if d.target == ua.id {
            let out = ua.handle_given_command(&d.command);
            if out.intent.is_some() {
                dead = out.intent;
            }
        }
    }
    let dead = dead.expect("a fatal shatter must produce a Dead intent");
    assert_eq!(dead, UniverseIntent::Dead { self_id: ua.id });
    s.process_intent(ua.id, dead, &bus);
    assert!(s.get_all_existing_universes().is_empty());
    let entries = drain(&mut rx);
    let collapses: Vec<&LogEntry> = entries
        .iter()
        .filter(|e| e.level == LogLevel::Universe && e.message.contains("COLLAPSED"))
        .collect();
    assert_eq!(collapses.len(), 1, "exactly one collapse log");
    assert!(collapses[0].message.contains("A["));
}

#[test]
fn unknown_target_command_is_silent_but_logged() {
    // ghost scenario: a command to a missing name only leaves an Info log
    let bus = test_bus();
    let mut rx = bus.subscribe();
    let s = SupervisorHandle::new();
    let r = s.send_universe_command("ghost".to_string(), UniverseCommand::Stop, &bus);
    assert!(r.is_none());
    let entries = drain(&mut rx);
    assert_eq!(entries.len(), 1);
    assert_eq!(entries[0].level, LogLevel::Info);
    assert!(entries[0].message.contains("ghost"));
}

#[test]
fn send_command_resolves_names_to_directives() {
    let bus = test_bus();
    let mut s = SupervisorHandle::new();
    let a = s.add_new_universe("A".to_string(), &bus).unwrap();
    let d = s
        .send_universe_command("A".to_string(), UniverseCommand::Start, &bus)
        .expect("a live name resolves");
    assert_eq!(d.target, a.universe.id);
    assert_eq!(d.command, UniverseCommand::Start);
}

#[test]
fn shutdown_covers_everyone_and_silences_the_registry() {
    let bus = test_bus();
    let mut us = UserSupervisor::new();
    let a = us.new_universe("A".to_string(), &bus).unwrap();
    let b = us.new_universe("B".to_string(), &bus).unwrap();
    let ds = us.shut_down_all();
    assert_eq!(ds.len(), 2);
    assert_eq!(ds[0].target, a.universe.id);
    assert_eq!(ds[0].command, UniverseCommand::Shutdown);
    assert_eq!(ds[1].target, b.universe.id);
    assert_eq!(ds[1].command, UniverseCommand::Shutdown);
    assert!(us.get_list_universes().is_empty());
    // no intent is processed afterwards: nothing routes anywhere
    let ds = us.supervisor.process_intent(
        a.universe.id,
        UniverseIntent::Attack { target: b.universe.id, damage: 10 },
        &bus,
    );
    assert!(ds.is_empty());
}

#[test]
fn lookup_error_messages_are_exact() {
    let s = SupervisorHandle::new();
    match s.get_universe_handle_by_name("ghost") {
        Err(e) => assert_eq!(e.message(), "Universe name 'ghost' not found"),
        Ok(_) => panic!("an empty registry resolves nothing"),
    }
    let e = universe_sim::error::UniverseLookupError::UniverseNotFoundForId(42);
    assert_eq!(e.message(), "Universe with ID '42' not found");
}

#[test]
fn greetings_follow_the_clock() {
    assert_eq!(UserSupervisor::greeting_for_hour(5), "Good Morning");
    assert_eq!(UserSupervisor::greeting_for_hour(12), "Good Morning");
    assert_eq!(UserSupervisor::greeting_for_hour(13), "Good Afternoon");
    assert_eq!(UserSupervisor::greeting_for_hour(17), "Good Afternoon");
    assert_eq!(UserSupervisor::greeting_for_hour(18), "Good Evening");
    assert_eq!(UserSupervisor::greeting_for_hour(21), "Good Evening");
    assert_eq!(UserSupervisor::greeting_for_hour(22), "Good Night");
    assert_eq!(UserSupervisor::greeting_for_hour(3), "Good Night");
}
