use notation_tab::application::handle_keyboard_inputs;
use notation_tab::application::AppCommand;
use notation_tab::input::dispatch;
use notation_tab::input::Binding;
use notation_tab::input::KeyCode;
use notation_tab::input::KeyInput;
use notation_tab::viewer::ViewerCommand;
use notation_tab::viewer::ViewerSwitches;
use notation_tab::NotationViewer;

fn released(keys: &[KeyCode]) -> KeyInput {
    KeyInput { released: keys.to_vec() }
}

fn switches() -> ViewerSwitches {
    ViewerSwitches { show_control: false, show_kb: false, should_loop: false }
}

fn viewer_command(keys: &[KeyCode]) -> Option<ViewerCommand> {
    let mut s = switches();
    NotationViewer::handle_keyboard_inputs(&released(keys), true, true, &mut s).command
}

#[test]
fn just_released_is_membership() {
    let input = released(&[KeyCode::A, KeyCode::Space, KeyCode::A]);
    assert!(input.just_released(KeyCode::A));
    assert!(input.just_released(KeyCode::Space));
    assert!(!input.just_released(KeyCode::B));
    assert!(!released(&[]).just_released(KeyCode::A));
}

#[test]
fn dispatch_takes_the_first_binding_of_the_table() {
    let table = vec![
        Binding { key: KeyCode::A, command: 1u8 },
        Binding { key: KeyCode::B, command: 2u8 },
        Binding { key: KeyCode::A, command: 3u8 },
    ];
    assert_eq!(dispatch(&table, &released(&[KeyCode::B, KeyCode::A])), Some(1));
    assert_eq!(dispatch(&table, &released(&[KeyCode::B])), Some(2));
    assert_eq!(dispatch(&table, &released(&[KeyCode::C])), None);
    assert_eq!(dispatch(&table, &released(&[])), None);
    let empty: Vec<Binding<u8>> = Vec::new();
    assert_eq!(dispatch(&empty, &released(&[KeyCode::A])), None);
}

#[test]
fn every_viewer_key_gives_its_command() {
    let expected = [
        (KeyCode::F10, ViewerCommand::ToggleShowControl),
        (KeyCode::Backslash, ViewerCommand::ToggleShowControl),
        (KeyCode::F1, ViewerCommand::ToggleShowKb),
        (KeyCode::H, ViewerCommand::ToggleShowKb),
        (KeyCode::F2, ViewerCommand::ToggleHideGuitarView),
        (KeyCode::F3, ViewerCommand::ToggleHideChordsView),
        (KeyCode::F4, ViewerCommand::ToggleHideMiniMap),
        (KeyCode::F5, ViewerCommand::ReloadTab),
        (KeyCode::R, ViewerCommand::ReloadTab),
        (KeyCode::Space, ViewerCommand::PlayOrPause),
        (KeyCode::Return, ViewerCommand::Stop),
        (KeyCode::Home, ViewerCommand::JumpToSectionStart),
        (KeyCode::End, ViewerCommand::JumpToSectionEnd),
        (KeyCode::PageUp, ViewerCommand::JumpToPrevSection),
        (KeyCode::PageDown, ViewerCommand::JumpToNextSection),
        (KeyCode::Left, ViewerCommand::JumpToPrevBar),
        (KeyCode::Right, ViewerCommand::JumpToNextBar),
        (KeyCode::Down, ViewerCommand::SeekForward),
        (KeyCode::Minus, ViewerCommand::ToggleLayoutMode),
        (KeyCode::G, ViewerCommand::ToggleShowGuitarSyllable),
        (KeyCode::M, ViewerCommand::ToggleShowMelodySyllable),
        (KeyCode::F, ViewerCommand::ToggleAlwaysShowFret),
        (KeyCode::L, ViewerCommand::ToggleShouldLoop),
        (KeyCode::A, ViewerCommand::SetBeginBarOrdinal),
        (KeyCode::B, ViewerCommand::SetEndBarOrdinal),
        (KeyCode::C, ViewerCommand::ClearBeginEnd),
        (KeyCode::D, ViewerCommand::SetBeginAndEndBarOrdinal),
        (KeyCode::E, ViewerCommand::SetBeginAndEndBarOrdinal),
        (KeyCode::Key1, ViewerCommand::SetSpeedFactor { percent: 25 }),
        (KeyCode::Key2, ViewerCommand::SetSpeedFactor { percent: 50 }),
        (KeyCode::Key3, ViewerCommand::SetSpeedFactor { percent: 75 }),
        (KeyCode::Key4, ViewerCommand::SetSpeedFactor { percent: 100 }),
    ];
    for (key, command) in expected {
        assert_eq!(viewer_command(&[key]), Some(command), "{:?}", key);
    }
}

#[test]
fn a_key_the_viewer_does_not_know_gives_nothing() {
    assert_eq!(viewer_command(&[KeyCode::LControl]), None);
    assert_eq!(viewer_command(&[]), None);
}

#[test]
fn of_two_viewer_keys_the_earlier_in_the_table_wins() {
    assert_eq!(
        viewer_command(&[KeyCode::Space, KeyCode::F10]),
        Some(ViewerCommand::ToggleShowControl)
    );
    assert_eq!(viewer_command(&[KeyCode::Key4, KeyCode::Return]), Some(ViewerCommand::Stop));
    assert_eq!(viewer_command(&[KeyCode::H, KeyCode::F1]), Some(ViewerCommand::ToggleShowKb));
    assert_eq!(
        viewer_command(&[KeyCode::E, KeyCode::A, KeyCode::D]),
        Some(ViewerCommand::SetBeginBarOrdinal)
    );
}

#[test]
fn without_a_tab_the_viewer_ignores_the_keyboard() {
    let mut s = switches();
    let out = NotationViewer::handle_keyboard_inputs(&released(&[KeyCode::F10]), false, false, &mut s);
    assert_eq!(out.command, None);
    assert!(!out.window_resized);
    assert_eq!(s, switches());
}

#[test]
fn the_control_key_flips_its_switch_and_resizes_unless_the_panel_floats() {
    let mut s = switches();
    let out = NotationViewer::handle_keyboard_inputs(&released(&[KeyCode::F10]), true, false, &mut s);
    assert_eq!(out.command, Some(ViewerCommand::ToggleShowControl));
    assert!(out.window_resized);
    assert_eq!(s, ViewerSwitches { show_control: true, show_kb: false, should_loop: false });
    let out = NotationViewer::handle_keyboard_inputs(&released(&[KeyCode::Backslash]), true, true, &mut s);
    assert_eq!(out.command, Some(ViewerCommand::ToggleShowControl));
    assert!(!out.window_resized);
    assert_eq!(s, switches());
}

#[test]
fn the_help_and_loop_keys_flip_their_switches() {
    let mut s = switches();
    let out = NotationViewer::handle_keyboard_inputs(&released(&[KeyCode::H]), true, false, &mut s);
    assert!(!out.window_resized);
    assert_eq!(s, ViewerSwitches { show_control: false, show_kb: true, should_loop: false });
    let out = NotationViewer::handle_keyboard_inputs(&released(&[KeyCode::L]), true, false, &mut s);
    assert_eq!(out.command, Some(ViewerCommand::ToggleShouldLoop));
    assert!(!out.window_resized);
    assert_eq!(s, ViewerSwitches { show_control: false, show_kb: true, should_loop: true });
    NotationViewer::handle_keyboard_inputs(&released(&[KeyCode::L]), true, false, &mut s);
    assert_eq!(s, ViewerSwitches { show_control: false, show_kb: true, should_loop: false });
}

#[test]
fn other_viewer_keys_leave_the_switches_alone() {
    let before = ViewerSwitches { show_control: true, show_kb: false, should_loop: true };
    let mut s = before;
    let out = NotationViewer::handle_keyboard_inputs(&released(&[KeyCode::Space]), true, false, &mut s);
    assert_eq!(out.command, Some(ViewerCommand::PlayOrPause));
    assert!(!out.window_resized);
    assert_eq!(s, before);
}

#[test]
fn every_application_key_gives_its_command() {
    let expected = [
        (KeyCode::LControl, AppCommand::ToggleHideControl),
        (KeyCode::Space, AppCommand::PlayOrPause),
        (KeyCode::Return, AppCommand::PlayOrStop),
        (KeyCode::Backslash, AppCommand::ToggleLayoutMode),
    ];
    for (key, command) in expected {
        let mut hide = false;
        let out = handle_keyboard_inputs(&released(&[key]), true, &mut hide);
        assert_eq!(out.command, Some(command));
        assert!(!out.window_resized);
        assert_eq!(hide, command == AppCommand::ToggleHideControl);
    }
}

#[test]
fn of_two_application_keys_the_earlier_in_the_table_wins() {
    let mut hide = true;
    let out = handle_keyboard_inputs(&released(&[KeyCode::Backslash, KeyCode::Space]), false, &mut hide);
    assert_eq!(out.command, Some(AppCommand::PlayOrPause));
    assert!(!out.window_resized);
    assert!(hide);
}

#[test]
fn the_application_control_key_resizes_unless_the_panel_floats() {
    let mut hide = false;
    let out = handle_keyboard_inputs(&released(&[KeyCode::LControl]), false, &mut hide);
    assert_eq!(out.command, Some(AppCommand::ToggleHideControl));
    assert!(out.window_resized);
    assert!(hide);
    let out = handle_keyboard_inputs(&released(&[KeyCode::LControl]), false, &mut hide);
    assert!(out.window_resized);
    assert!(!hide);
}

#[test]
fn the_application_ignores_keys_it_does_not_know() {
    let mut hide = true;
    let out = handle_keyboard_inputs(&released(&[KeyCode::F10, KeyCode::A]), false, &mut hide);
    assert_eq!(out.command, None);
    assert!(!out.window_resized);
    assert!(hide);
}
