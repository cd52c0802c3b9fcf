use real_time_project::console::{
    drag_target, list_index_to_mode, list_index_to_ref_mode, map_to_parts, ref_mode_list_index,
    Action, Console, InputMode, Key, ModeData, ParameterData, RefModeData, SelectionMode, TabIndex,
};
use real_time_project::mode::Mode;
use real_time_project::ref_mode::RefMode;
use real_time_project::selection::Selectable;

fn values() -> Vec<String> {
    ["-0.1", "15", "1.5", "10", "10", "1", "0.02"].iter().map(|s| s.to_string()).collect()
}

fn console() -> Console {
    Console::new(&values(), true, Mode::BEAM, RefMode::OPTIMAL)
}

fn value_of(c: &Console, row: usize) -> String {
    c.params.items[row][1].clone()
}

#[test]
fn tab_index_next_toggles() {
    let mut t = TabIndex::First;
    t.next();
    assert_eq!(t, TabIndex::Second);
    t.next();
    assert_eq!(t, TabIndex::First);
}

#[test]
fn selection_mode_next_cycles() {
    let mut s = SelectionMode::Mode;
    s.next();
    assert_eq!(s, SelectionMode::Parameters);
    s.next();
    assert_eq!(s, SelectionMode::Reference);
    s.next();
    assert_eq!(s, SelectionMode::Mode);
}

#[test]
fn list_index_maps_to_modes() {
    assert_eq!(list_index_to_mode(0), Mode::OFF);
    assert_eq!(list_index_to_mode(1), Mode::BALL);
    assert_eq!(list_index_to_mode(2), Mode::BEAM);
    assert_eq!(list_index_to_mode(7), Mode::OFF);
    assert_eq!(list_index_to_ref_mode(0), RefMode::MANUAL);
    assert_eq!(list_index_to_ref_mode(1), RefMode::SQUARE);
    assert_eq!(list_index_to_ref_mode(2), RefMode::OPTIMAL);
    assert_eq!(list_index_to_ref_mode(9), RefMode::MANUAL);
}

#[test]
fn ref_mode_index_round_trip() {
    for m in [RefMode::MANUAL, RefMode::SQUARE, RefMode::OPTIMAL] {
        assert_eq!(list_index_to_ref_mode(ref_mode_list_index(m)), m);
    }
}

#[test]
fn mode_list_labels_name_their_modes() {
    let data = ModeData::new(Mode::OFF);
    assert_eq!(data.items, vec!["OFF", "BALL", "BEAM"]);
    assert_eq!(data.selected(), None);
    assert_eq!(list_index_to_mode(1), Mode::BALL);
    assert_eq!(data.items[1], "BALL");
}

#[test]
fn ref_mode_list_starts_at_current_mode() {
    let data = RefModeData::new(RefMode::SQUARE);
    assert_eq!(data.items, vec!["MANUAL", "SQUARE", "OPTIMAL"]);
    assert_eq!(data.selected(), Some(1));
    assert_eq!(data.loc_ref_mode, RefMode::SQUARE);
}

#[test]
fn selectable_next_wraps_around() {
    let mut data = ModeData::new(Mode::OFF);
    data.next();
    assert_eq!(data.selected(), Some(0));
    data.next();
    data.next();
    assert_eq!(data.selected(), Some(2));
    data.next();
    assert_eq!(data.selected(), Some(0));
}

#[test]
fn selectable_previous_wraps_around() {
    let mut data = ModeData::new(Mode::OFF);
    data.previous();
    assert_eq!(data.selected(), Some(0));
    data.previous();
    assert_eq!(data.selected(), Some(2));
    data.previous();
    assert_eq!(data.selected(), Some(1));
}

#[test]
fn selectable_previous_undoes_next() {
    let mut data = RefModeData::new(RefMode::OPTIMAL);
    data.next();
    assert_eq!(data.selected(), Some(0));
    data.previous();
    assert_eq!(data.selected(), Some(2));
}

#[test]
fn selectable_unselect() {
    let mut data = RefModeData::new(RefMode::MANUAL);
    data.unselect();
    assert_eq!(data.selected(), None);
    assert_eq!(data.len(), 3);
}

#[test]
fn parameter_table_layout() {
    let data = ParameterData::new(&values(), false);
    let labels: Vec<&str> = data.items.iter().map(|r| r[0].as_str()).collect();
    assert_eq!(labels, vec!["K", "Ti", "Td", "Tr", "N", "Beta", "H", "Integrator on"]);
    assert_eq!(data.items[1][1], "15");
    assert_eq!(data.items[7][1], "false");
    assert_eq!(data.selected(), None);
}

#[test]
fn integrator_flag_reads_back() {
    assert!(ParameterData::new(&values(), true).integrator_on());
    assert!(!ParameterData::new(&values(), false).integrator_on());
}

#[test]
fn integrator_flag_other_text_is_false() {
    let mut data = ParameterData::new(&values(), true);
    data.select(Some(7));
    data.add_char('!');
    assert_eq!(data.items[7][1], "true!");
    assert!(!data.integrator_on());
}

#[test]
fn add_and_remove_char_edit_selected_value() {
    let mut data = ParameterData::new(&values(), true);
    data.add_char('x');
    assert_eq!(data.items[0][1], "-0.1");
    data.select(Some(2));
    data.add_char('5');
    assert_eq!(data.items[2][1], "1.55");
    data.remove_char();
    data.remove_char();
    assert_eq!(data.items[2][1], "1.");
    assert_eq!(data.items[2][0], "Td");
}

#[test]
fn remove_char_on_empty_value_keeps_it_empty() {
    let mut data = ParameterData::new(&values(), true);
    data.select(Some(5));
    data.remove_char();
    assert_eq!(data.items[5][1], "");
    data.remove_char();
    assert_eq!(data.items[5][1], "");
}

#[test]
fn set_items_replaces_rows_and_clears_selection() {
    let mut data = ParameterData::new(&values(), true);
    data.select(Some(1));
    data.set_items(vec![vec!["A".to_string(), "1".to_string()]]);
    assert_eq!(data.items.len(), 1);
    assert_eq!(data.selected(), None);
}

#[test]
fn new_console_state() {
    let c = console();
    assert_eq!(c.input_mode, InputMode::Normal);
    assert_eq!(c.selection, SelectionMode::Parameters);
    assert_eq!(c.index, TabIndex::First);
    assert_eq!(c.mode.loc_mode, Mode::BEAM);
    assert_eq!(c.ref_mode.selected(), Some(2));
    assert_eq!(value_of(&c, 7), "true");
}

#[test]
fn q_quits() {
    let mut c = console();
    assert_eq!(c.on_key_event(Key::Char('q')), Action::NoAction);
    assert_eq!(c.input_mode, InputMode::Quit);
}

#[test]
fn quit_is_final() {
    let mut c = console();
    c.on_key_event(Key::Char('q'));
    assert_eq!(c.on_key(Key::Char('i')), Action::NoAction);
    assert_eq!(c.on_key(Key::Tab), Action::NoAction);
    assert_eq!(c.input_mode, InputMode::Quit);
    assert_eq!(c.index, TabIndex::First);
}

#[test]
fn tab_twice_restores_tab() {
    let mut c = console();
    c.on_key_event(Key::Tab);
    assert_eq!(c.index, TabIndex::Second);
    assert_eq!(c.on_key_event(Key::Down), Action::NoAction);
    c.on_key_event(Key::Tab);
    assert_eq!(c.index, TabIndex::First);
    assert_eq!(c.params.selected(), None);
}

#[test]
fn second_tab_q_quits() {
    let mut c = console();
    c.on_key_event(Key::Tab);
    c.on_key_event(Key::Char('q'));
    assert_eq!(c.input_mode, InputMode::Quit);
}

#[test]
fn t_moves_to_reference_panel_and_sends_ref_mode() {
    let mut c = console();
    assert_eq!(c.on_key_event(Key::Char('t')), Action::SetRefMode(RefMode::OPTIMAL));
    assert_eq!(c.selection, SelectionMode::Reference);
    assert_eq!(c.on_key_event(Key::Down), Action::SetRefMode(RefMode::MANUAL));
    assert_eq!(c.on_key_event(Key::Down), Action::SetRefMode(RefMode::SQUARE));
    assert_eq!(c.on_key_event(Key::Up), Action::SetRefMode(RefMode::MANUAL));
}

#[test]
fn mode_panel_enter_sets_mode() {
    let mut c = console();
    c.on_key_event(Key::Char('t'));
    assert_eq!(c.on_key_event(Key::Char('t')), Action::NoAction);
    assert_eq!(c.selection, SelectionMode::Mode);
    assert_eq!(c.on_key_event(Key::Enter), Action::NoAction);
    c.on_key_event(Key::Down);
    c.on_key_event(Key::Down);
    assert_eq!(c.on_key_event(Key::Enter), Action::SetMode(Mode::BALL));
    assert_eq!(c.mode.loc_mode, Mode::BALL);
}

#[test]
fn parameter_panel_scroll_clears_mode_selection() {
    let mut c = console();
    c.mode.select(Some(1));
    c.on_key_event(Key::Down);
    assert_eq!(c.mode.selected(), None);
    assert_eq!(c.params.selected(), Some(0));
    c.on_key_event(Key::Up);
    assert_eq!(c.params.selected(), Some(7));
}

#[test]
fn editing_flow_applies_parameters() {
    let mut c = console();
    c.on_key_event(Key::Down);
    c.on_key_event(Key::Down);
    assert_eq!(c.on_key_event(Key::Char('i')), Action::NoAction);
    assert_eq!(c.input_mode, InputMode::Editing);
    c.on_key_event(Key::Backspace);
    c.on_key_event(Key::Backspace);
    c.on_key_event(Key::Char('2'));
    c.on_key_event(Key::Char('q'));
    c.on_key_event(Key::Delete);
    assert_eq!(value_of(&c, 1), "2");
    assert_eq!(c.on_key_event(Key::Tab), Action::NoAction);
    assert_eq!(c.on_key_event(Key::Enter), Action::ApplyParameters);
    assert_eq!(c.input_mode, InputMode::Normal);
}

#[test]
fn backspace_undoes_typed_char() {
    let mut c = console();
    c.on_key_event(Key::Down);
    c.on_key_event(Key::Char('i'));
    let before = value_of(&c, 0);
    c.on_key_event(Key::Char('7'));
    assert_eq!(value_of(&c, 0), "-0.17");
    c.on_key_event(Key::Backspace);
    assert_eq!(value_of(&c, 0), before);
}

#[test]
fn map_to_parts_inside_and_outside() {
    assert_eq!(map_to_parts(&[10, 20], 9), None);
    assert_eq!(map_to_parts(&[10, 20], 21), None);
    assert_eq!(map_to_parts(&[10, 20], 10), Some((0, 10)));
    assert_eq!(map_to_parts(&[10, 20], 15), Some((5, 10)));
    assert_eq!(map_to_parts(&[10, 20], 20), Some((10, 10)));
}

#[test]
fn drag_target_on_gauge() {
    assert_eq!(drag_target(20, 0, 50, 5, 30, 2), Some((10, 49)));
    assert_eq!(drag_target(20, 0, 50, 5, 30, 0), None);
    assert_eq!(drag_target(20, 0, 50, 5, 30, 5), None);
    assert_eq!(drag_target(20, 0, 50, 5, 70, 2), None);
    assert_eq!(drag_target(20, 0, 50, 5, 69, 4), Some((49, 49)));
}

#[test]
fn drag_target_on_empty_gauge_is_none() {
    assert_eq!(drag_target(5, 0, 0, 5, 5, 2), None);
    assert_eq!(drag_target(5, 0, 0, 5, 4, 2), None);
}

#[test]
fn keys_keep_console_well_formed() {
    let mut c = console();
    assert!(c.well_formed());
    let keys = [
        Key::Up, Key::Up, Key::Char('i'), Key::Char('1'), Key::Backspace, Key::Delete, Key::Enter,
        Key::Char('t'), Key::Down, Key::Up, Key::Char('t'), Key::Down, Key::Enter, Key::Tab, Key::Other,
        Key::Tab, Key::Char('t'), Key::Up,
    ];
    for k in keys {
        c.on_key_event(k);
        assert!(c.well_formed());
    }
}

#[test]
fn well_formed_detects_bad_selection() {
    let mut c = console();
    c.mode.select(Some(3));
    assert!(!c.well_formed());
    c.mode.select(Some(2));
    assert!(c.well_formed());
    c.params.set_items(vec![vec!["K".to_string()]]);
    assert!(!c.well_formed());
}

#[test]
fn mode_list_index_round_trip() {
    let data = ModeData::new(Mode::OFF);
    for (i, m) in [Mode::OFF, Mode::BALL, Mode::BEAM].iter().enumerate() {
        assert_eq!(list_index_to_mode(i), *m);
        assert_eq!(data.items[i], format!("{:?}", m));
    }
}


#[test]
fn previous_from_row_one_selects_row_zero() {
    let mut data = ModeData::new(Mode::OFF);
    data.select(Some(1));
    data.previous();
    assert_eq!(data.selected(), Some(0));
}
