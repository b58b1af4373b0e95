use openjill_game::input::{map_key_to_input_command, Key, PressedKeys};
use openjill_game::world::{ActiveInput, InputCommand};

const ALL_COMMANDS: [InputCommand; 14] = [
    InputCommand::MoveLeft,
    InputCommand::MoveRight,
    InputCommand::Up,
    InputCommand::Jump,
    InputCommand::ThrowItem,
    InputCommand::Duck,
    InputCommand::NextInventory,
    InputCommand::PrevInventory,
    InputCommand::Pause,
    InputCommand::Quit,
    InputCommand::ToggleNoise,
    InputCommand::ToggleTurtle,
    InputCommand::Save,
    InputCommand::Restore,
];

/// The held commands, in declaration order.
fn held(input: &ActiveInput) -> Vec<InputCommand> {
    ALL_COMMANDS.iter().copied().filter(|c| input.contains(c)).collect()
}

#[test]
fn map_key_to_input_command_resolves_default_bindings() {
    assert_eq!(map_key_to_input_command(Key::ArrowLeft), Some(InputCommand::MoveLeft));
    assert_eq!(map_key_to_input_command(Key::ArrowRight), Some(InputCommand::MoveRight));
    assert_eq!(map_key_to_input_command(Key::ArrowUp), Some(InputCommand::Up));
    assert_eq!(map_key_to_input_command(Key::Space), Some(InputCommand::Jump));
    assert_eq!(map_key_to_input_command(Key::ShiftLeft), Some(InputCommand::Jump));
    assert_eq!(map_key_to_input_command(Key::AltLeft), Some(InputCommand::ThrowItem));
    assert_eq!(map_key_to_input_command(Key::ArrowDown), Some(InputCommand::Duck));
    assert_eq!(map_key_to_input_command(Key::ControlLeft), Some(InputCommand::ThrowItem));
    assert_eq!(map_key_to_input_command(Key::Tab), Some(InputCommand::NextInventory));
    assert_eq!(map_key_to_input_command(Key::Backspace), Some(InputCommand::PrevInventory));
    assert_eq!(map_key_to_input_command(Key::Escape), Some(InputCommand::Pause));
    assert_eq!(map_key_to_input_command(Key::KeyQ), Some(InputCommand::Quit));
}

#[test]
fn map_key_to_input_command_ignores_unmapped_keys() {
    assert_eq!(map_key_to_input_command(Key::Unbound), None);
}

#[test]
fn update_pressed_keys_tracks_press_release_and_ignores_unmapped_keys() {
    let mut pressed = PressedKeys::new();
    pressed.update(Key::ArrowLeft, true);
    pressed.update(Key::Space, true);
    assert_eq!(held(&pressed.active_commands()), vec![InputCommand::MoveLeft, InputCommand::Jump]);
    pressed.update(Key::ArrowLeft, false);
    assert_eq!(held(&pressed.active_commands()), vec![InputCommand::Jump]);
    pressed.update(Key::Unbound, true);
    assert_eq!(held(&pressed.active_commands()), vec![InputCommand::Jump]);
    assert!(!pressed.contains(Key::Unbound), "an unbound key is not tracked");
}

#[test]
fn active_commands_persist_until_last_bound_key_released() {
    let mut pressed = PressedKeys::new();
    pressed.update(Key::Space, true);
    pressed.update(Key::ShiftLeft, true);
    pressed.update(Key::ShiftRight, true);
    assert_eq!(held(&pressed.active_commands()), vec![InputCommand::Jump]);
    pressed.update(Key::Space, false);
    assert_eq!(held(&pressed.active_commands()), vec![InputCommand::Jump]);
    pressed.update(Key::ShiftLeft, false);
    assert_eq!(held(&pressed.active_commands()), vec![InputCommand::Jump]);
    pressed.update(Key::ShiftRight, false);
    assert!(held(&pressed.active_commands()).is_empty());
}

#[test]
fn clearing_pressed_keys_drops_all_active_commands() {
    let mut pressed = PressedKeys::new();
    pressed.update(Key::ArrowLeft, true);
    pressed.update(Key::Space, true);
    assert!(!held(&pressed.active_commands()).is_empty());
    pressed.clear();
    assert!(held(&pressed.active_commands()).is_empty());
}

#[test]
fn extra_bindings_cover_the_menu_keys() {
    assert_eq!(map_key_to_input_command(Key::KeyS), Some(InputCommand::Save));
    assert_eq!(map_key_to_input_command(Key::KeyR), Some(InputCommand::Restore));
    assert_eq!(map_key_to_input_command(Key::KeyN), Some(InputCommand::ToggleNoise));
    assert_eq!(map_key_to_input_command(Key::KeyT), Some(InputCommand::ToggleTurtle));
    assert_eq!(map_key_to_input_command(Key::ControlRight), Some(InputCommand::ThrowItem));
}
