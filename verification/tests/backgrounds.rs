use openjill_game::background::{
    make_background_entity, BackgroundCell, BaseTreeBackground, DmaEntry, FFloorBackground, FroofBackground,
    Kill2Background, KillLavaBackground, KillWaterBackground, SpikeBackground, StdBackgroundEntity,
};
use openjill_game::player::PlayerEntity;
use openjill_game::record::JnObject;
use openjill_game::world::{DeathKind, Rect, RenderCommand};

fn make_player_at(x: u16, y: u16) -> PlayerEntity {
    PlayerEntity::new(&JnObject::spawned(0, x, y, 0, 0))
}

/// Touches `cell` with `player`, applying the death it arms.
fn touch(cell: &BackgroundCell, player: &mut PlayerEntity) {
    player.touch_background(cell);
}

#[test]
fn kill_lava_on_player_touch_arms_other_background_kill() {
    let cell = BackgroundCell::KillLava(KillLavaBackground::for_map_code(None));
    let mut player = make_player_at(0, 0);
    touch(&cell, &mut player);
    assert_eq!(player.death_kind(), Some(DeathKind::OtherBackground), "lava death must classify as OtherBackground");
}

#[test]
fn kill_water_on_player_touch_arms_water_kill() {
    let cell = BackgroundCell::KillWater(KillWaterBackground::for_map_code(None));
    let mut player = make_player_at(0, 0);
    touch(&cell, &mut player);
    assert_eq!(player.death_kind(), Some(DeathKind::Water));
}

#[test]
fn spike_on_player_touch_arms_other_background_kill() {
    let cell = BackgroundCell::Spike(SpikeBackground::for_map_code(None));
    let mut player = make_player_at(0, 0);
    touch(&cell, &mut player);
    assert_eq!(player.death_kind(), Some(DeathKind::OtherBackground));
}

#[test]
fn kill_two_on_player_touch_arms_other_background_kill() {
    let cell = BackgroundCell::Kill2(Kill2Background::for_map_code(None));
    let mut player = make_player_at(0, 0);
    touch(&cell, &mut player);
    assert_eq!(player.death_kind(), Some(DeathKind::OtherBackground));
}

#[test]
fn base_tree_reports_is_climbable() {
    let cell = BackgroundCell::BaseTree(BaseTreeBackground::for_map_code(None));
    assert!(cell.is_climbable(), "BASETREE cells must be climbable");
    assert!(cell.is_passthrough(), "BASETREE cells must allow the player to walk through them");
}

#[test]
fn ffloor_reports_is_passthrough() {
    let cell = BackgroundCell::FFloor(FFloorBackground::for_map_code(None));
    assert!(cell.is_passthrough(), "FFLOOR cells must be passable so the player can drop through");
}

#[test]
fn froof_reports_is_passthrough() {
    let cell = BackgroundCell::Froof(FroofBackground::for_map_code(None));
    assert!(cell.is_passthrough(), "FROOF cells must be passable so the player can jump through them");
}

#[test]
fn ffloor_blocks_only_upward_motion() {
    let cell = BackgroundCell::FFloor(FFloorBackground::for_map_code(None));
    assert!(cell.blocks_vertical(-1));
    assert!(!cell.blocks_vertical(1));
    assert!(!cell.blocks_vertical(0));
}

#[test]
fn froof_blocks_only_downward_motion() {
    let cell = BackgroundCell::Froof(FroofBackground::for_map_code(None));
    assert!(cell.blocks_vertical(1));
    assert!(!cell.blocks_vertical(-1));
}

#[test]
fn harmless_cells_arm_no_kill() {
    let air = BackgroundCell::Std(StdBackgroundEntity::transparent());
    let mut player = make_player_at(0, 0);
    touch(&air, &mut player);
    assert_eq!(player.death_kind(), None);
    assert!(air.is_passthrough());
    assert!(!air.is_climbable());
}

#[test]
fn factory_picks_handler_by_name_and_keeps_dma_flags() {
    let entry = DmaEntry { tileset: 3, tile: 7, map_code: 42, player_thru: false, stair: true, vine: false };
    match make_background_entity("LAVA3", Some(entry)) {
        BackgroundCell::KillLava(_) => {}
        other => panic!("LAVA3 must build a lava cell, got {other:?}"),
    }
    match make_background_entity("WATERMR2", Some(entry)) {
        BackgroundCell::KillWater(_) => {}
        other => panic!("WATERMR2 must build a water cell, got {other:?}"),
    }
    let plain = make_background_entity("ROCK", Some(entry));
    assert!(!plain.is_passthrough(), "a solid DMA entry stays solid");
    assert!(plain.is_stair());
    assert_eq!(plain.dma_map_code(), Some(42));
    let base = make_background_entity("BASETREE", Some(entry));
    assert!(base.is_climbable());
    assert_eq!(base.dma_map_code(), None, "special handlers report no map code");
}

#[test]
fn cells_draw_their_dma_tile_clipped_to_the_game_area() {
    let entry = DmaEntry { tileset: 3, tile: 9, map_code: 42, player_thru: true, stair: false, vine: false };
    let clip = Rect::new(0, 0, 256, 160);
    let lava = BackgroundCell::KillLava(KillLavaBackground::for_map_code(Some(entry)));
    assert_eq!(
        lava.draw(32, 48, clip),
        Some(RenderCommand::Blit { tileset: 3, tile: 9, x: 32, y: 48, opaque: false, clip: Some(clip) })
    );
    let empty = BackgroundCell::Std(StdBackgroundEntity::transparent());
    assert_eq!(empty.draw(0, 0, clip), None, "a cell without a tile draws nothing");
}
