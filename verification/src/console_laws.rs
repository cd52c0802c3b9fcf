use vstd::prelude::*;
use crate::mode::Mode;
use crate::ref_mode::RefMode;
use crate::console::{
    Action, ConsoleView, InputMode, Key, SelectionMode, TabIndex, event_step, key_step, mode_label,
    ref_mode_label, selection_after, spec_list_index_to_mode, spec_list_index_to_ref_mode,
    spec_mode_list_index, spec_ref_mode_list_index, tab_after, parameter_table, push_to_selected,
};

verus! {

/// Law: switching tab twice shows the tab that was shown.
pub proof fn lemma_tab_after_twice(t: TabIndex)
    ensures
        tab_after(tab_after(t)) == t,
{
}

/// Law: moving to the next panel three times returns to the panel one
/// started on.
pub proof fn lemma_selection_after_thrice(s: SelectionMode)
    ensures
        selection_after(selection_after(selection_after(s))) == s,
{
}

/// Law: the row that names a mode in the mode list is read back as that mode;
/// likewise for reference modes.
pub proof fn lemma_list_index_round_trip(m: Mode, r: RefMode)
    ensures
        spec_list_index_to_mode(spec_mode_list_index(m)) == m,
        spec_list_index_to_ref_mode(spec_ref_mode_list_index(r)) == r,
{
}

/// Law: the label of each row of the console's mode and reference lists names
/// the mode that selecting that row sets.
pub proof fn lemma_list_labels_match_modes(i: usize)
    requires
        i < 3,
    ensures
        seq!["OFF"@, "BALL"@, "BEAM"@][i as int] == mode_label(spec_list_index_to_mode(i)),
        seq!["MANUAL"@, "SQUARE"@, "OPTIMAL"@][i as int] == ref_mode_label(spec_list_index_to_ref_mode(i)),
{
}

/// Law: every key keeps the console well-formed.
pub proof fn lemma_event_step_keeps_wf(s: ConsoleView, key: Key)
    requires
        s.wf(),
    ensures
        key_step(s, key).0.wf(),
        event_step(s, key).0.wf(),
{
    let r = key_step(s, key).0;
    if s.input_mode == InputMode::Editing {
        if let Some(i) = s.param_sel {
            assert forall|j: int| 0 <= j < r.params.len() implies #[trigger] r.params[j].len() >= 2 by {
                assert(s.params[j].len() >= 2);
            }
        }
    }
}

/// Law: once the console has quit, a key on the first tab changes nothing
/// and asks for nothing, and no key leaves the quit state.
pub proof fn lemma_quit_is_final(s: ConsoleView, key: Key)
    requires
        s.input_mode == InputMode::Quit,
    ensures
        key_step(s, key) == (s, Action::NoAction),
        event_step(s, key).0.input_mode == InputMode::Quit,
        event_step(s, key).1 == Action::NoAction,
{
}

/// Law: 'q' quits, except while a parameter value on the first tab is being
/// edited, where it is typed into the value.
pub proof fn lemma_q_quits(s: ConsoleView)
    requires
        s.input_mode != InputMode::Editing || s.index == TabIndex::Second,
    ensures
        event_step(s, Key::Char('q')).0.input_mode == InputMode::Quit,
        event_step(s, Key::Char('q')).1 == Action::NoAction,
{
}

/// Law: while navigating, Tab twice brings back the console as it was.
pub proof fn lemma_tab_twice(s: ConsoleView)
    requires
        s.input_mode == InputMode::Normal,
    ensures
        event_step(event_step(s, Key::Tab).0, Key::Tab) == (s, Action::NoAction),
{
}

/// Law: while editing, Backspace takes back the character just typed.
pub proof fn lemma_backspace_undoes_char(s: ConsoleView, c: char)
    requires
        s.wf(),
        s.input_mode == InputMode::Editing,
    ensures
        key_step(key_step(s, Key::Char(c)).0, Key::Backspace) == (s, Action::NoAction),
{
    if let Some(i) = s.param_sel {
        let t = key_step(s, Key::Char(c)).0;
        assert(s.params[i as int].len() >= 2);
        assert(t.params[i as int][1].drop_last() =~= s.params[i as int][1]);
        assert(t.params[i as int].update(1, s.params[i as int][1]) =~= s.params[i as int]);
        assert(key_step(t, Key::Backspace).0.params =~= s.params);
    }
}

/// Law: the console asks the program to set a mode only on Enter in the mode
/// panel, and then the mode it asks for is the one the selected row names and
/// the one it now shows as current.
pub proof fn lemma_set_mode_matches_selection(s: ConsoleView, key: Key, m: Mode)
    requires
        event_step(s, key).1 == Action::SetMode(m),
    ensures
        key == Key::Enter,
        s.index == TabIndex::First,
        s.input_mode == InputMode::Normal,
        s.selection == SelectionMode::Mode,
        event_step(s, key).0.mode_sel matches Some(i) && spec_list_index_to_mode(i) == m,
        event_step(s, key).0.loc_mode == m,
{
}

/// Law: the parameter table is applied to the controller exactly when Enter
/// ends editing on the first tab.
pub proof fn lemma_apply_only_on_enter(s: ConsoleView, key: Key)
    ensures
        (event_step(s, key).1 == Action::ApplyParameters) <==> (s.index == TabIndex::First
            && s.input_mode == InputMode::Editing && key == Key::Enter),
{
}

/// Law: the parameter table reads back the integrator flag it was built with.
pub proof fn lemma_integrator_flag_round_trip(values: Seq<Seq<char>>, integrator_on: bool)
    requires
        values.len() == 7,
    ensures
        (parameter_table(values, integrator_on).last()[1] == "true"@) == integrator_on,
{
    reveal_strlit("true");
    reveal_strlit("false");
    assert(parameter_table(values, integrator_on).last()[1] == (if integrator_on { "true"@ } else { "false"@ }));
    if !integrator_on {
        assert("false"@[0] != "true"@[0]);
    }
}


/// Law: the parameter table shows, next to each of the seven parameter
/// labels K, Ti, Td, Tr, N, Beta and H, the value given for that parameter
/// (the i-th given value beside the i-th label), and its last row is the
/// integrator flag.
pub proof fn lemma_parameter_table_pairs_labels_with_values(values: Seq<Seq<char>>, integrator_on: bool)
    requires
        values.len() == 7,
    ensures
        parameter_table(values, integrator_on).len() == 8,
        forall|i: int| 0 <= i < 7 ==> #[trigger] parameter_table(values, integrator_on)[i][1] == values[i],
        forall|i: int| 0 <= i < 8 ==> #[trigger] parameter_table(values, integrator_on)[i].len() == 2,
        parameter_table(values, integrator_on)[0] == seq!["K"@, values[0]],
        parameter_table(values, integrator_on)[1] == seq!["Ti"@, values[1]],
        parameter_table(values, integrator_on)[2] == seq!["Td"@, values[2]],
        parameter_table(values, integrator_on)[3] == seq!["Tr"@, values[3]],
        parameter_table(values, integrator_on)[4] == seq!["N"@, values[4]],
        parameter_table(values, integrator_on)[5] == seq!["Beta"@, values[5]],
        parameter_table(values, integrator_on)[6] == seq!["H"@, values[6]],
        parameter_table(values, integrator_on)[7][0] == "Integrator on"@,
{
    let t = parameter_table(values, integrator_on);
    assert(t[0] =~= seq!["K"@, values[0]]);
    assert(t[1] =~= seq!["Ti"@, values[1]]);
    assert(t[2] =~= seq!["Td"@, values[2]]);
    assert(t[3] =~= seq!["Tr"@, values[3]]);
    assert(t[4] =~= seq!["N"@, values[4]]);
    assert(t[5] =~= seq!["Beta"@, values[5]]);
    assert(t[6] =~= seq!["H"@, values[6]]);
}

/// Law: in the mode panel, Enter activates whichever row is selected, the
/// last one included: the console asks for the mode that row names and shows
/// it as current.
pub proof fn lemma_enter_activates_selected_mode(s: ConsoleView, i: usize)
    requires
        s.index == TabIndex::First,
        s.input_mode == InputMode::Normal,
        s.selection == SelectionMode::Mode,
        s.mode_sel == Some(i),
    ensures
        event_step(s, Key::Enter).1 == Action::SetMode(spec_list_index_to_mode(i)),
        event_step(s, Key::Enter).0.loc_mode == spec_list_index_to_mode(i),
        event_step(s, Key::Enter).0.mode_sel == Some(i),
{
}

/// Law: while editing, a typed character, whatever it is, is appended as it
/// is to the value of the selected row: the new value is the old value
/// followed by exactly that character, and nothing else in the table changes.
pub proof fn lemma_typed_char_is_appended(s: ConsoleView, c: char, i: usize)
    requires
        s.wf(),
        s.index == TabIndex::First,
        s.input_mode == InputMode::Editing,
        s.param_sel == Some(i),
    ensures
        event_step(s, Key::Char(c)).1 == Action::NoAction,
        event_step(s, Key::Char(c)).0.params.len() == s.params.len(),
        event_step(s, Key::Char(c)).0.params[i as int][1] == s.params[i as int][1] + seq![c],
        event_step(s, Key::Char(c)).0.params[i as int][1].len() == s.params[i as int][1].len() + 1,
        event_step(s, Key::Char(c)).0.params[i as int][1].last() == c,
        event_step(s, Key::Char(c)).0.params[i as int][0] == s.params[i as int][0],
        forall|j: int| 0 <= j < s.params.len() && j != i ==> #[trigger] event_step(s, Key::Char(c)).0.params[j] == s.params[j],
{
    assert(s.params[i as int].len() >= 2);
    let r = event_step(s, Key::Char(c)).0;
    assert(r.params == push_to_selected(s.params, Some(i), c));
    assert(s.params[i as int][1].push(c) =~= s.params[i as int][1] + seq![c]);
}

} // verus!
