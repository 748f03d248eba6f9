use doukutsu_core::npc::list::{NPCList, SpawnError, NPC_LIST_MAX_CAP};
use doukutsu_core::npc::NPC;

fn test_tick(npc: &mut NPC) {
    npc.action_counter += 1;
}

#[test]
fn test_npc_list() -> Result<(), SpawnError> {
    let mut npc = NPC::empty();
    npc.cond.set_alive(true);

    {
        let (mut map, mut token) = NPCList::new();
        let mut ctr = 20;

        map.spawn(0, npc.clone())?;
        map.spawn(2, npc.clone())?;
        map.spawn(256, npc.clone())?;

        assert_eq!(map.iter_alive(&token).count(), 3);

        let n = map.iter().len();
        for i in 0..n {
            let mut npc_ref = *map.get_npc(i).unwrap().borrow(&token);

            if ctr > 0 {
                ctr -= 1;
                map.spawn(100, npc.clone())?;
                map.spawn(400, npc.clone())?;
            }

            if npc_ref.cond.alive() {
                test_tick(&mut npc_ref);
            }
            map.set_npc(i, npc_ref);
        }

        assert_eq!(map.iter_alive(&token).count(), 43);

        for i in 256..map.iter().len() {
            let mut npc_ref = *map.get_npc(i).unwrap().borrow(&token);

            if npc_ref.cond.alive() {
                npc_ref.cond.set_alive(false);
            }
            map.set_npc(i, npc_ref);
        }

        assert_eq!(map.iter_alive(&token).count(), 22);

        assert!(map.spawn((NPC_LIST_MAX_CAP + 1) as u16, npc.clone()).is_err());

        map.clear(&mut token);
        assert_eq!(map.iter_alive(&token).count(), 0);

        for i in 0..map.max_capacity() {
            map.spawn(i, npc.clone())?;
        }

        assert!(map.spawn(0, npc.clone()).is_err());
    }

    Ok(())
}

#[test]
fn spawn_takes_first_free_slot_and_seeds_it() {
    let (mut map, _token) = NPCList::new();
    map.set_rng_seed(1234);
    let mut npc = NPC::empty();
    npc.cond.set_alive(true);
    npc.direction = doukutsu_core::common::Direction::Right;
    map.spawn(5, npc).unwrap();
    map.spawn(5, npc).unwrap();
    let a = *map.get_npc(5).unwrap().borrow_unmanaged();
    let b = *map.get_npc(6).unwrap().borrow_unmanaged();
    assert_eq!(a.id, 5);
    assert_eq!(b.id, 6);
    assert_eq!(a.tsc_direction, 2);
    assert_ne!(a.rng, b.rng);
    assert_eq!(map.current_capacity(), 7);
    assert!(!map.get_npc(4).unwrap().0.cond.alive());
}

#[test]
fn spawn_errors() {
    let (mut map, _token) = NPCList::new();
    let mut npc = NPC::empty();
    npc.cond.set_alive(true);
    assert_eq!(map.spawn(512, npc), Err(SpawnError::IdOutOfBounds));
    assert_eq!(map.spawn_at_slot(600, npc), Err(SpawnError::IdOutOfBounds));
    map.spawn_at_slot(511, npc).unwrap();
    assert_eq!(map.spawn(511, npc), Err(SpawnError::NoFreeSlot));
    assert_eq!(map.current_capacity(), 512);
}

#[test]
fn alive_walk_yields_live_entities_in_order() {
    let (mut map, token) = NPCList::new();
    let mut npc = NPC::empty();
    npc.cond.set_alive(true);
    map.spawn_at_slot(3, npc).unwrap();
    map.spawn_at_slot(9, npc).unwrap();
    let mut it = map.iter_alive(&token);
    assert_eq!(it.next().map(|n| n.id), Some(3));
    assert_eq!(it.next().map(|n| n.id), Some(9));
    assert!(it.next().is_none());
}

#[test]
fn for_each_alive_touches_only_live_entities() {
    let mut npc = NPC::empty();
    npc.cond.set_alive(true);
    let (mut map, mut token) = NPCList::new();
    map.spawn(0, npc).unwrap();
    map.spawn(5, npc).unwrap();
    map.spawn_at_slot(3, NPC::empty()).unwrap();
    map.for_each_alive_mut(&mut token, |mut n: NPC| {
        n.action_counter += 7;
        n
    });
    let counters: Vec<u16> =
        (0..6).map(|i| map.get_npc(i).unwrap().borrow(&token).action_counter).collect();
    assert_eq!(counters, vec![7, 0, 0, 0, 0, 7]);
}

#[test]
fn try_for_each_alive_stops_where_asked() {
    let mut npc = NPC::empty();
    npc.cond.set_alive(true);
    let (mut map, mut token) = NPCList::new();
    for _ in 0..4 {
        map.spawn(0, npc).unwrap();
    }
    let r = map.try_for_each_alive_mut(&mut token, |mut n: NPC| {
        n.action_counter = 1;
        let stop = if n.id == 2 { Some(n.id) } else { None };
        (n, stop)
    });
    assert!(matches!(r, Err(2)));
    let counters: Vec<u16> =
        (0..4).map(|i| map.get_npc(i).unwrap().borrow(&token).action_counter).collect();
    assert_eq!(counters, vec![1, 1, 1, 0]);
    let all: Result<(), u16> = map.try_for_each_alive_mut(&mut token, |n: NPC| (n, None));
    assert!(all.is_ok());
}
