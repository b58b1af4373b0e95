use openjill_game::saves::{check_slot, resolve_root, slot_file_names, RuntimeDir, SaveStoreError};
use openjill_game::session::{
    cached_level_for, restart_state, restore_target, runtime_state_from, save_halves, RestoreTarget, SaveError,
};
use openjill_game::transitions::{RestoredGame, ScreenTransition, SessionCache, TransitionAction};
use openjill_game::world::{InventoryObject, RuntimeState};

fn seeded_level(file: &str, number: i32) -> SessionCache {
    let mut cache = SessionCache::new();
    cache.enter_level(Some(vec![0u8; 32]), String::from(file), number);
    cache
}

fn state(health: i32, score: i32, inventory: Vec<InventoryObject>) -> RuntimeState {
    RuntimeState { level: 1, health, score, lives: 3, inventory }
}

#[test]
fn level_transition_cache_match_is_case_insensitive() {
    let mut cache = seeded_level("JN1L01.JN1", 1);
    let action = cache.apply_transition(None, None, ScreenTransition::Level { file: String::from("jn1l01.jn1"), number: 1 });
    assert_eq!(
        action,
        TransitionAction::LevelFromMemory { bytes: vec![0u8; 32], file: String::from("jn1l01.jn1"), number: 1 },
        "case-insensitive cache match must reuse seeded bytes without touching disk"
    );
    let bytes = Some(vec![7u8; 16]);
    assert_eq!(cached_level_for(&bytes, &Some(String::from("JN1L01.JN1")), "jn1l01.jn1"), bytes);
}

#[test]
fn level_transition_reuses_preserved_bytes_without_disk_read() {
    let mut cache = seeded_level("JN1L01.JN1", 1);
    let action = cache.apply_transition(None, None, ScreenTransition::Level { file: String::from("JN1L01.JN1"), number: 1 });
    assert_eq!(action, TransitionAction::LevelFromMemory { bytes: vec![0u8; 32], file: String::from("JN1L01.JN1"), number: 1 });
    let other = cache.apply_transition(None, None, ScreenTransition::Level { file: String::from("JN1L02.JN1"), number: 2 });
    assert_eq!(other, TransitionAction::LevelFromDisk { file: String::from("JN1L02.JN1"), number: 2 }, "another level is read afresh");
}

#[test]
fn tick_swaps_handler_on_screen_transition() {
    let mut cache = SessionCache::new();
    assert_eq!(cache.apply_transition(None, None, ScreenTransition::StartMenu), TransitionAction::StartMenu);
    assert!(!cache.quitting);
    assert_eq!(cache.apply_transition(None, None, ScreenTransition::Credits), TransitionAction::Credits);
}

#[test]
fn tick_sets_quitting_on_quit_transition() {
    let mut cache = SessionCache::new();
    assert_eq!(cache.apply_transition(None, None, ScreenTransition::Quit), TransitionAction::Stay);
    assert!(cache.quitting);
}

#[test]
fn map_transition_reuses_preserved_bytes_without_disk_read() {
    let mut cache = SessionCache::new();
    assert_eq!(cache.apply_transition(None, None, ScreenTransition::WorldMap), TransitionAction::MapFromDisk);
    cache.map_bytes = Some(vec![0u8; 32]);
    assert_eq!(
        cache.apply_transition(None, None, ScreenTransition::WorldMap),
        TransitionAction::MapFromMemory(vec![0u8; 32]),
        "the map must be built from preserved bytes, not the disk"
    );
}

#[test]
fn transition_does_not_drop_preserved_bytes_for_jn_less_handlers() {
    let mut cache = SessionCache::new();
    cache.map_bytes = Some(vec![0u8; 32]);
    cache.apply_transition(None, None, ScreenTransition::StartMenu);
    assert_eq!(cache.map_bytes, Some(vec![0u8; 32]));
    cache.apply_transition(Some(vec![5u8; 4]), None, ScreenTransition::StartMenu);
    assert_eq!(cache.map_bytes, Some(vec![5u8; 4]), "the outgoing map's bytes are taken in");
}

#[test]
fn dispatcher_change_level_transitions_after_message_ticks() {
    let mut cache = seeded_level("JN1L01.JN1", 1);
    cache.enter_level(Some(vec![2u8; 32]), String::from("JN1L02.JN1"), 2);
    let action = cache.apply_transition(None, None, ScreenTransition::Level { file: String::from("JN1L02.JN1"), number: 2 });
    assert_eq!(action, TransitionAction::LevelFromMemory { bytes: vec![2u8; 32], file: String::from("JN1L02.JN1"), number: 2 });
    assert_eq!(cache.level_number, Some(2));
}

#[test]
fn dispatcher_previous_returns_to_map_screen() {
    let mut cache = seeded_level("JN1L01.JN1", 1);
    cache.map_bytes = Some(vec![0u8; 32]);
    let action = cache.apply_transition(None, Some(vec![1u8; 32]), ScreenTransition::WorldMap);
    assert_eq!(action, TransitionAction::MapFromMemory(vec![0u8; 32]));
    assert_eq!(cache.level_bytes, Some(vec![1u8; 32]), "the level left behind is kept");
}

#[test]
fn save_and_load_requests_pass_through() {
    let mut cache = SessionCache::new();
    assert_eq!(
        cache.apply_transition(None, None, ScreenTransition::PerformSave { slot: 2, name: String::from("HERO") }),
        TransitionAction::Save { slot: 2, name: String::from("HERO") }
    );
    assert_eq!(cache.apply_transition(None, None, ScreenTransition::PerformLoad { slot: 4 }), TransitionAction::Load { slot: 4 });
    assert_eq!(cache.apply_transition(None, None, ScreenTransition::RestartLevel), TransitionAction::RestartUnavailable);
}

#[test]
fn save_then_restore_round_trips_runtime_state() {
    let live = state(4, 1234, vec![InventoryObject::Jill, InventoryObject::Gem]);
    let halves = save_halves(false, Some(vec![2u8; 8]), &Some(vec![1u8; 8]), &None).expect("save succeeds");
    assert_eq!(halves, (vec![1u8; 8], vec![2u8; 8]));
    let codes: Vec<u16> = live.inventory.iter().map(|i| i.index()).collect();

    let clobbered = state(99, 0, Vec::new());
    let restored = runtime_state_from(&clobbered, 1, 4, 1234, &codes);
    assert_eq!(restored.health, 4);
    assert_eq!(restored.score, 1234);
    assert_eq!(restored.inventory, vec![InventoryObject::Jill, InventoryObject::Gem]);
    assert_eq!(restored.level, 1);
    assert_eq!(restore_target(1), RestoreTarget::Level(1));
}

#[test]
fn save_to_slot_without_a_level_reports_nothing_to_save() {
    assert_eq!(save_halves(false, None, &None, &None), Err(SaveError::NothingToSave));
}

#[test]
fn save_to_slot_requires_an_active_game_screen() {
    assert_eq!(save_halves(false, None, &Some(vec![1u8; 8]), &Some(vec![2u8; 8])), Err(SaveError::NothingToSave));
}

#[test]
fn dispatcher_die_restart_reloads_level_from_memory() {
    let mut cache = seeded_level("JN1L01.JN1", 1);
    let action = cache.apply_transition(None, None, ScreenTransition::RestartLevel);
    assert_eq!(action, TransitionAction::RestartFromMemory { bytes: vec![0u8; 32], number: 1 });
    assert_eq!(cache.level_number, Some(1));

    let entry = state(8, 0, vec![InventoryObject::Jill]);
    let current = state(0, 700, vec![InventoryObject::Jill, InventoryObject::Knife]);
    let restarted = restart_state(&current, &Some(entry));
    assert_eq!(restarted.level, 1);
    assert_eq!(restarted.lives, 2, "a death costs a life");
    assert_eq!(restarted.health, 8);
    assert_eq!(restarted.score, 700, "the score is kept");
    assert_eq!(restarted.inventory, vec![InventoryObject::Jill]);
}

#[test]
fn world_map_save_keeps_the_cached_level() {
    assert_eq!(save_halves(true, Some(vec![9u8; 2]), &None, &Some(vec![8u8; 3])), Ok((vec![9u8; 2], vec![8u8; 3])));
    assert_eq!(save_halves(true, Some(vec![9u8; 2]), &Some(vec![1u8]), &None), Err(SaveError::NothingToSave));
    assert_eq!(restore_target(0xFFFF), RestoreTarget::WorldMap);
}

#[test]
fn restored_inventory_skips_unknown_codes() {
    let restored = runtime_state_from(&state(1, 1, Vec::new()), 2, 5, 10, &vec![3, 200, 1]);
    assert_eq!(restored.inventory, vec![InventoryObject::Gem, InventoryObject::RedKey]);
    assert_eq!(restored.lives, 3, "a save does not hold the lives");
}

#[test]
fn resolve_root_prefers_env_then_data_dir_then_temp() {
    let with_env = resolve_root(Some(String::from("/state")), Some(String::from("/data")), String::from("/tmp"), "JILL1");
    assert_eq!(with_env, "/state/JILL1");
    let with_data = resolve_root(None, Some(String::from("/data")), String::from("/tmp"), "JILL1");
    assert_eq!(with_data, "/data/openjill/JILL1");
    let with_temp = resolve_root(None, None, String::from("/tmp"), "JILL1");
    assert_eq!(with_temp, "/tmp/openjill/JILL1");
}

#[test]
fn rejects_unsafe_filenames() {
    let dir = RuntimeDir::with_root(String::from("/nonexistent/openjill-test"));
    for bad in ["../escape", "a/b", "/etc/passwd", "..", ".", ""] {
        assert_eq!(dir.file_path(bad), Err(SaveStoreError::InvalidFilename), "read({bad:?}) must be rejected");
        assert_eq!(dir.temp_path(bad), Err(SaveStoreError::InvalidFilename), "write_atomic({bad:?}) must be rejected");
        assert!(!dir.file_exists(bad), "exists({bad:?}) must be false");
    }
    assert_eq!(dir.file_path("JILL1.CFG"), Ok(String::from("/nonexistent/openjill-test/JILL1.CFG")));
    assert_eq!(dir.temp_path("JILL1.CFG"), Ok(String::from("/nonexistent/openjill-test/JILL1.CFG.tmp")));
    assert!(!dir.file_exists("JILL1.CFG"), "nothing exists under a missing directory");
}

#[test]
fn save_load_reject_out_of_range_slot() {
    let count = 6;
    assert_eq!(check_slot(count, count), Err(SaveStoreError::InvalidSlot { slot: count, count }));
    assert!(matches!(slot_file_names("JILL1", count, count), Err(SaveStoreError::InvalidSlot { .. })));
    assert_eq!(check_slot(0, count), Ok(()));
    assert_eq!(slot_file_names("JILL1", 3, count), Ok((String::from("JILL1SAVEM.3"), String::from("JILL1SAVE.3"))));
}

#[test]
fn runtime_dir_for_episode_resolves_like_resolve_root() {
    let dir = RuntimeDir::for_episode(None, Some(String::from("/data")), String::from("/tmp"), "JILL2");
    assert_eq!(dir.path(), "/data/openjill/JILL2");
}

fn restored(saved_level: u16) -> RestoredGame {
    RestoredGame {
        map: vec![1u8; 4],
        saved_level,
        health: 4,
        score: 1234,
        inventory: vec![0, 3],
        level_bytes: Some(vec![2u8; 4]),
        level_file: String::from("1.JN1"),
    }
}

#[test]
fn restore_from_corrupt_slot_leaves_game_intact() {
    let mut cache = seeded_level("JN1L01.JN1", 1);
    let mut live = state(7, 555, vec![InventoryObject::Jill]);
    let result = cache.commit_restore(&mut live, Err(SaveError::Unreadable));
    assert_eq!(result, Err(SaveError::Unreadable));
    assert_eq!(live.health, 7, "state must be untouched");
    assert_eq!(live.score, 555, "state must be untouched");
    assert_eq!(cache.level_number, Some(1));
    assert!(cache.level_entry.is_none());
}

#[test]
fn committed_restore_resumes_the_saved_level() {
    let mut cache = SessionCache::new();
    let mut live = state(99, 0, Vec::new());
    assert_eq!(cache.commit_restore(&mut live, Ok(restored(1))), Ok(()));
    assert_eq!((live.level, live.health, live.score, live.lives), (1, 4, 1234, 3));
    assert_eq!(live.inventory, vec![InventoryObject::Jill, InventoryObject::Gem]);
    assert_eq!(cache.map_bytes, Some(vec![1u8; 4]));
    assert_eq!(cache.level_bytes, Some(vec![2u8; 4]));
    assert_eq!(cache.level_file, Some(String::from("1.JN1")));
    assert_eq!(cache.level_number, Some(1));
    assert_eq!(cache.level_entry.as_ref().map(|e| e.health), Some(4), "a restart goes back to the restored state");

    let mut on_map = seeded_level("JN1L01.JN1", 1);
    assert_eq!(on_map.commit_restore(&mut live, Ok(restored(0xFFFF))), Ok(()));
    assert_eq!(live.level, -1);
    assert_eq!((on_map.level_bytes, on_map.level_file, on_map.level_number), (None, None, None));
}

#[test]
fn level_entry_is_what_a_restart_restores() {
    let mut cache = seeded_level("JN1L01.JN1", 1);
    cache.note_level_entry(&state(8, 10, vec![InventoryObject::Jill]));
    let now = state(2, 300, vec![InventoryObject::Jill, InventoryObject::Gem]);
    let back = restart_state(&now, &cache.level_entry);
    assert_eq!((back.health, back.score, back.lives), (8, 300, 2));
    assert_eq!(back.inventory, vec![InventoryObject::Jill]);
}
