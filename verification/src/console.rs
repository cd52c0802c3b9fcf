use vstd::prelude::*;
use tui::widgets::{ListState, TableState};
use crate::mode::Mode;
use crate::ref_mode::RefMode;
use crate::selection::{
    Selectable, list_offset, list_selection, list_state_new, list_state_select, list_state_selected, next_index,
    previous_index, table_offset, table_selection, table_state_new, table_state_select, table_state_selected,
};

verus! {

/// The two tabs of the operator console.
#[derive(Clone, Copy, Debug, PartialEq, Eq, Structural)]
pub enum TabIndex {
    First,
    Second,
}

/// The tab that follows `t`.
pub open spec fn tab_after(t: TabIndex) -> TabIndex {
    match t {
        TabIndex::First => TabIndex::Second,
        TabIndex::Second => TabIndex::First,
    }
}

impl TabIndex {
    /// Switches to the other tab.
    pub fn next(&mut self)
        ensures
            *final(self) == tab_after(*old(self)),
    {
        *self = match *self {
            TabIndex::First => TabIndex::Second,
            TabIndex::Second => TabIndex::First,
        }
    }
}

/// Which panel of the first tab the arrow keys act on.
#[derive(Clone, Copy, Debug, PartialEq, Eq, Structural)]
pub enum SelectionMode {
    Mode,
    Parameters,
    Reference,
}

/// The panel that follows `s`.
pub open spec fn selection_after(s: SelectionMode) -> SelectionMode {
    match s {
        SelectionMode::Mode => SelectionMode::Parameters,
        SelectionMode::Parameters => SelectionMode::Reference,
        SelectionMode::Reference => SelectionMode::Mode,
    }
}

impl SelectionMode {
    /// Moves to the next panel: mode list, parameter table, reference list,
    /// and round again.
    pub fn next(&mut self)
        ensures
            *final(self) == selection_after(*old(self)),
    {
        *self = match *self {
            SelectionMode::Mode => SelectionMode::Parameters,
            SelectionMode::Parameters => SelectionMode::Reference,
            SelectionMode::Reference => SelectionMode::Mode,
        }
    }
}

/// Whether keys navigate, edit a parameter value, or the console has quit.
#[derive(Clone, Copy, Debug, PartialEq, Eq, Structural)]
pub enum InputMode {
    Normal,
    Editing,
    Quit,
}

/// The keys the console tells apart.
#[derive(Clone, Copy, Debug, PartialEq, Eq, Structural)]
pub enum Key {
    Char(char),
    Enter,
    Tab,
    Up,
    Down,
    Backspace,
    Delete,
    Other,
}

/// What the program has to do after a key has been handled.
#[derive(Clone, Copy, Debug, PartialEq, Eq, Structural)]
pub enum Action {
    /// Nothing beyond the console's own state.
    NoAction,
    /// Store this mode in the shared mode monitor and wake the regulator.
    SetMode(Mode),
    /// Store this mode in the shared reference mode monitor.
    SetRefMode(RefMode),
    /// Read the parameter table back into controller parameters and hand
    /// them to the controller.
    ApplyParameters,
}

/// The mode named by row `index` of the mode list ("OFF", "BALL", "BEAM");
/// any other row means `OFF`.
pub open spec fn spec_list_index_to_mode(index: usize) -> Mode {
    if index == 0 {
        Mode::OFF
    } else if index == 1 {
        Mode::BALL
    } else if index == 2 {
        Mode::BEAM
    } else {
        Mode::OFF
    }
}

/// The mode named by row `index` of the mode list.
pub fn list_index_to_mode(index: usize) -> (res: Mode)
    ensures
        res == spec_list_index_to_mode(index),
{
    match index {
        0 => Mode::OFF,
        1 => Mode::BALL,
        2 => Mode::BEAM,
        _ => Mode::OFF,
    }
}

/// The row of the mode list that names `m`.
pub open spec fn spec_mode_list_index(m: Mode) -> usize {
    match m {
        Mode::OFF => 0,
        Mode::BALL => 1,
        Mode::BEAM => 2,
    }
}

/// The reference mode named by row `index` of the reference list ("MANUAL",
/// "SQUARE", "OPTIMAL"); any other row means `MANUAL`.
pub open spec fn spec_list_index_to_ref_mode(index: usize) -> RefMode {
    if index == 1 {
        RefMode::SQUARE
    } else if index == 2 {
        RefMode::OPTIMAL
    } else {
        RefMode::MANUAL
    }
}

/// The reference mode named by row `index` of the reference list.
pub fn list_index_to_ref_mode(index: usize) -> (res: RefMode)
    ensures
        res == spec_list_index_to_ref_mode(index),
{
    match index {
        0 => RefMode::MANUAL,
        1 => RefMode::SQUARE,
        2 => RefMode::OPTIMAL,
        _ => RefMode::MANUAL,
    }
}

/// The row of the reference list that names `m`.
pub open spec fn spec_ref_mode_list_index(m: RefMode) -> usize {
    match m {
        RefMode::MANUAL => 0,
        RefMode::SQUARE => 1,
        RefMode::OPTIMAL => 2,
    }
}

/// The row of the reference list that names `m`.
pub fn ref_mode_list_index(m: RefMode) -> (res: usize)
    ensures
        res == spec_ref_mode_list_index(m),
{
    match m {
        RefMode::MANUAL => 0,
        RefMode::SQUARE => 1,
        RefMode::OPTIMAL => 2,
    }
}

/// The label of `m` in the mode list.
pub open spec fn mode_label(m: Mode) -> Seq<char> {
    match m {
        Mode::OFF => "OFF"@,
        Mode::BALL => "BALL"@,
        Mode::BEAM => "BEAM"@,
    }
}

/// The label of `m` in the reference list.
pub open spec fn ref_mode_label(m: RefMode) -> Seq<char> {
    match m {
        RefMode::MANUAL => "MANUAL"@,
        RefMode::SQUARE => "SQUARE"@,
        RefMode::OPTIMAL => "OPTIMAL"@,
    }
}

/// The characters of each string of `v`.
pub open spec fn strings_view(v: Seq<String>) -> Seq<Seq<char>> {
    v.map_values(|s: String| s@)
}

/// The characters of each cell of each row of `v`.
pub open spec fn rows_view(v: Seq<Vec<String>>) -> Seq<Seq<Seq<char>>> {
    v.map_values(|row: Vec<String>| strings_view(row@))
}

/// The controller parameter table: one row per parameter, holding its name
/// and the text of its value, and the row the operator has selected.
pub struct ParameterData {
    pub items: Vec<Vec<String>>,
    pub state: TableState,
}

impl ParameterData {
    /// The rows, as characters.
    pub open spec fn rows(&self) -> Seq<Seq<Seq<char>>> {
        rows_view(self.items@)
    }

    /// Whether the selected row, if any, exists and has a value cell.
    pub open spec fn selection_ok(&self) -> bool {
        table_selection(self.state) matches Some(i) ==> i < self.items@.len()
            && self.items@[i as int]@.len() >= 2
    }

    /// The table of controller parameters K, Ti, Td, Tr, N, Beta and H, whose
    /// values are shown as the texts `values` (in that order), followed by
    /// the row "Integrator on" showing "true" or "false"; no row is selected.
    pub fn new(values: &Vec<String>, integrator_on: bool) -> (res: Self)
        requires
            values@.len() == 7,
        ensures
            res.rows() == parameter_table(strings_view(values@), integrator_on),
            table_selection(res.state) == None::<usize>,
            table_offset(res.state) == 0,
    {
        let flag = if integrator_on { "true".to_owned() } else { "false".to_owned() };
        let items = vec![
            vec!["K".to_owned(), values[0].clone()],
            vec!["Ti".to_owned(), values[1].clone()],
            vec!["Td".to_owned(), values[2].clone()],
            vec!["Tr".to_owned(), values[3].clone()],
            vec!["N".to_owned(), values[4].clone()],
            vec!["Beta".to_owned(), values[5].clone()],
            vec!["H".to_owned(), values[6].clone()],
            vec!["Integrator on".to_owned(), flag],
        ];
        assert(rows_view(items@) =~= parameter_table(strings_view(values@), integrator_on)) by {
            assert forall|i: int| 0 <= i < 8 implies #[trigger] rows_view(items@)[i]
                =~= parameter_table(strings_view(values@), integrator_on)[i] by {
                assert(strings_view(items@[i]@) =~= parameter_table(strings_view(values@), integrator_on)[i]);
            }
        }
        Self { items, state: table_state_new() }
    }

    /// Whether the last row's value reads "true"; any other text means
    /// false.
    pub fn integrator_on(&self) -> (res: bool)
        requires
            self.items@.len() > 0,
            self.items@.last()@.len() >= 2,
        ensures
            res == (self.rows().last()[1] == "true"@),
    {
        let last = self.items.len() - 1;
        let yes = "true".to_owned();
        self.items[last][1] == yes
    }

    /// Replaces the rows and clears the selection.
    pub fn set_items(&mut self, items: Vec<Vec<String>>)
        ensures
            final(self).rows() == rows_view(items@),
            table_selection(final(self).state) == None::<usize>,
            table_offset(final(self).state) == 0,
    {
        self.items = items;
        self.state = table_state_new();
    }

    /// Appends `param` to the value of the selected row; with no row
    /// selected, changes nothing.
    pub fn add_char(&mut self, param: char)
        requires
            old(self).selection_ok(),
        ensures
            final(self).state == old(self).state,
            final(self).rows() == push_to_selected(old(self).rows(), table_selection(old(self).state), param),
    {
        if let Some(index) = table_state_selected(&self.state) {
            let ghost before = self.items@;
            self.items[index][1].push(param);
            proof {
                lemma_rows_cell_update(before, self.items@, index as int);
            }
        }
    }

    /// Removes the last character of the value of the selected row (if it is
    /// not empty); with no row selected, changes nothing.
    pub fn remove_char(&mut self)
        requires
            old(self).selection_ok(),
        ensures
            final(self).state == old(self).state,
            final(self).rows() == pop_from_selected(old(self).rows(), table_selection(old(self).state)),
    {
        if let Some(index) = table_state_selected(&self.state) {
            let ghost before = self.items@;
            self.items[index][1].pop();
            proof {
                lemma_rows_cell_update(before, self.items@, index as int);
            }
        }
    }
}

/// Changing cell 1 of row `i`, and nothing else, changes the character view
/// in that cell only.
proof fn lemma_rows_cell_update(before: Seq<Vec<String>>, after: Seq<Vec<String>>, i: int)
    requires
        0 <= i < before.len(),
        before[i]@.len() >= 2,
        after.len() == before.len(),
        forall|j: int| 0 <= j < before.len() && j != i ==> after[j] == before[j],
        after[i]@.len() == before[i]@.len(),
        forall|k: int| 0 <= k < before[i]@.len() && k != 1 ==> after[i]@[k] == before[i]@[k],
    ensures
        rows_view(after) == rows_view(before).update(
            i,
            rows_view(before)[i].update(1, after[i]@[1]@),
        ),
{
    assert(strings_view(after[i]@) =~= strings_view(before[i]@).update(1, after[i]@[1]@));
    assert(rows_view(after) =~= rows_view(before).update(
        i,
        rows_view(before)[i].update(1, after[i]@[1]@),
    ));
}

impl Selectable for ParameterData {
    type Content = Seq<Seq<Seq<char>>>;

    open spec fn selection(&self) -> Option<usize> {
        table_selection(self.state)
    }

    open spec fn offset(&self) -> usize {
        table_offset(self.state)
    }

    open spec fn size(&self) -> nat {
        self.items@.len()
    }

    open spec fn content(&self) -> Seq<Seq<Seq<char>>> {
        self.rows()
    }

    fn selected(&self) -> (res: Option<usize>) {
        table_state_selected(&self.state)
    }

    fn select(&mut self, index: Option<usize>) {
        table_state_select(&mut self.state, index);
    }

    fn len(&self) -> (res: usize) {
        self.items.len()
    }
}

/// The list of operating modes, the row the operator has selected, and the
/// mode last set from the console.
pub struct ModeData {
    pub items: Vec<String>,
    pub state: ListState,
    pub loc_mode: Mode,
}

impl ModeData {
    /// The list "OFF", "BALL", "BEAM" with no row selected, showing
    /// `loc_mode` as the current mode.
    pub fn new(loc_mode: Mode) -> (res: Self)
        ensures
            strings_view(res.items@) == seq!["OFF"@, "BALL"@, "BEAM"@],
            list_selection(res.state) == None::<usize>,
            list_offset(res.state) == 0,
            res.loc_mode == loc_mode,
    {
        let items = vec!["OFF".to_owned(), "BALL".to_owned(), "BEAM".to_owned()];
        assert(strings_view(items@) =~= seq!["OFF"@, "BALL"@, "BEAM"@]);
        Self { items, state: list_state_new(), loc_mode }
    }
}

impl Selectable for ModeData {
    type Content = (Seq<Seq<char>>, Mode);

    open spec fn selection(&self) -> Option<usize> {
        list_selection(self.state)
    }

    open spec fn offset(&self) -> usize {
        list_offset(self.state)
    }

    open spec fn size(&self) -> nat {
        self.items@.len()
    }

    open spec fn content(&self) -> (Seq<Seq<char>>, Mode) {
        (strings_view(self.items@), self.loc_mode)
    }

    fn selected(&self) -> (res: Option<usize>) {
        list_state_selected(&self.state)
    }

    fn select(&mut self, index: Option<usize>) {
        list_state_select(&mut self.state, index);
    }

    fn len(&self) -> (res: usize) {
        self.items.len()
    }
}

/// The list of reference modes, the row the operator has selected, and the
/// reference mode that was current when the console started.
pub struct RefModeData {
    pub items: Vec<String>,
    pub state: ListState,
    pub loc_ref_mode: RefMode,
}

impl RefModeData {
    /// The list "MANUAL", "SQUARE", "OPTIMAL" with the row of `loc_ref_mode`
    /// selected.
    pub fn new(loc_ref_mode: RefMode) -> (res: Self)
        ensures
            strings_view(res.items@) == seq!["MANUAL"@, "SQUARE"@, "OPTIMAL"@],
            list_selection(res.state) == Some(spec_ref_mode_list_index(loc_ref_mode)),
            list_offset(res.state) == 0,
            res.loc_ref_mode == loc_ref_mode,
    {
        let items = vec!["MANUAL".to_owned(), "SQUARE".to_owned(), "OPTIMAL".to_owned()];
        assert(strings_view(items@) =~= seq!["MANUAL"@, "SQUARE"@, "OPTIMAL"@]);
        let mut temp = Self { items, state: list_state_new(), loc_ref_mode };
        let index = ref_mode_list_index(loc_ref_mode);
        temp.select(Some(index));
        temp
    }
}

impl Selectable for RefModeData {
    type Content = (Seq<Seq<char>>, RefMode);

    open spec fn selection(&self) -> Option<usize> {
        list_selection(self.state)
    }

    open spec fn offset(&self) -> usize {
        list_offset(self.state)
    }

    open spec fn size(&self) -> nat {
        self.items@.len()
    }

    open spec fn content(&self) -> (Seq<Seq<char>>, RefMode) {
        (strings_view(self.items@), self.loc_ref_mode)
    }

    fn selected(&self) -> (res: Option<usize>) {
        list_state_selected(&self.state)
    }

    fn select(&mut self, index: Option<usize>) {
        list_state_select(&mut self.state, index);
    }

    fn len(&self) -> (res: usize) {
        self.items.len()
    }
}

/// `rows` with `c` appended to the value cell of row `sel`, if a row is selected.
pub open spec fn push_to_selected(rows: Seq<Seq<Seq<char>>>, sel: Option<usize>, c: char) -> Seq<Seq<Seq<char>>> {
    match sel {
        Some(i) => rows.update(i as int, rows[i as int].update(1, rows[i as int][1].push(c))),
        None => rows,
    }
}

/// `rows` with the last character of the value cell of row `sel` removed, if
/// a row is selected.
pub open spec fn pop_from_selected(rows: Seq<Seq<Seq<char>>>, sel: Option<usize>) -> Seq<Seq<Seq<char>>> {
    match sel {
        Some(i) => rows.update(i as int, rows[i as int].update(1, drop_last_char(rows[i as int][1]))),
        None => rows,
    }
}

/// Selection after an arrow key in a list of `n` entries: `Up` moves to the
/// previous entry, `Down` to the next, any other key leaves it.
pub open spec fn scroll(key: Key, sel: Option<usize>, n: nat) -> Option<usize> {
    match key {
        Key::Up => Some(previous_index(sel, n) as usize),
        Key::Down => Some(next_index(sel, n) as usize),
        _ => sel,
    }
}

/// Moves the selection of `list` by an arrow key.
pub fn scroll_selectable<T: Selectable>(key: Key, list: &mut T)
    requires
        key == Key::Down && old(list).selection() is Some ==> old(list).size() > 0,
        key == Key::Up && old(list).selection() == Some(0usize) ==> old(list).size() > 0,
    ensures
        final(list).selection() == scroll(key, old(list).selection(), old(list).size()),
        final(list).offset() == old(list).offset(),
        final(list).size() == old(list).size(),
        final(list).content() == old(list).content(),
{
    match key {
        Key::Up => list.previous(),
        Key::Down => list.next(),
        _ => {},
    }
}

/// What the console shows and remembers, as plain values.
pub struct ConsoleView {
    pub params: Seq<Seq<Seq<char>>>,
    pub param_sel: Option<usize>,
    pub param_offset: usize,
    pub modes: Seq<Seq<char>>,
    pub mode_sel: Option<usize>,
    pub mode_offset: usize,
    pub loc_mode: Mode,
    pub ref_modes: Seq<Seq<char>>,
    pub ref_sel: Option<usize>,
    pub ref_offset: usize,
    pub loc_ref_mode: RefMode,
    pub input_mode: InputMode,
    pub selection: SelectionMode,
    pub index: TabIndex,
}

impl ConsoleView {
    /// Every list has an entry, every parameter row has a value cell, and
    /// every selection points at an entry.
    pub open spec fn wf(self) -> bool {
        &&& self.params.len() > 0
        &&& forall|i: int| 0 <= i < self.params.len() ==> #[trigger] self.params[i].len() >= 2
        &&& (self.param_sel matches Some(i) ==> i < self.params.len())
        &&& self.modes.len() > 0
        &&& (self.mode_sel matches Some(i) ==> i < self.modes.len())
        &&& self.ref_modes.len() > 0
        &&& (self.ref_sel matches Some(i) ==> i < self.ref_modes.len())
    }
}

/// A key on the first tab while navigating, once 'q' and Tab are ruled out:
/// it acts on the panel that `s.selection` names.
pub open spec fn panel_key_step(s: ConsoleView, key: Key) -> (ConsoleView, Action) {
    match s.selection {
        SelectionMode::Mode => {
            let sel = scroll(key, s.mode_sel, s.modes.len());
            let s2 = ConsoleView { param_sel: None, param_offset: 0, mode_sel: sel, ..s };
            if key == Key::Enter && sel is Some {
                let m = spec_list_index_to_mode(sel->0);
                (ConsoleView { loc_mode: m, ..s2 }, Action::SetMode(m))
            } else {
                (s2, Action::NoAction)
            }
        },
        SelectionMode::Parameters => {
            match key {
                Key::Char(c) => {
                    let input_mode = if c == 'i' { InputMode::Editing } else { s.input_mode };
                    (ConsoleView { mode_sel: None, mode_offset: 0, input_mode: input_mode, ..s }, Action::NoAction)
                },
                _ => (
                    ConsoleView {
                        mode_sel: None,
                        mode_offset: 0,
                        param_sel: scroll(key, s.param_sel, s.params.len()),
                        ..s
                    },
                    Action::NoAction,
                ),
            }
        },
        SelectionMode::Reference => {
            let sel = scroll(key, s.ref_sel, s.ref_modes.len());
            let s2 = ConsoleView { ref_sel: sel, ..s };
            match sel {
                Some(i) => (s2, Action::SetRefMode(spec_list_index_to_ref_mode(i))),
                None => (s2, Action::NoAction),
            }
        },
    }
}

/// A key on the first tab while navigating: 'q' quits, Tab switches tab,
/// 't' moves to the next panel before the key acts on the panel.
pub open spec fn normal_key_step(s: ConsoleView, key: Key) -> (ConsoleView, Action) {
    if key == Key::Char('q') {
        (ConsoleView { input_mode: InputMode::Quit, ..s }, Action::NoAction)
    } else if key == Key::Tab {
        (ConsoleView { index: tab_after(s.index), ..s }, Action::NoAction)
    } else if key == Key::Char('t') {
        panel_key_step(ConsoleView { selection: selection_after(s.selection), ..s }, key)
    } else {
        panel_key_step(s, key)
    }
}

/// A key on the first tab while editing the selected parameter value:
/// characters are appended, Backspace and Delete remove the last one, Enter
/// ends editing and applies the table.
pub open spec fn editing_key_step(s: ConsoleView, key: Key) -> (ConsoleView, Action) {
    match key {
        Key::Char(c) => (ConsoleView { params: push_to_selected(s.params, s.param_sel, c), ..s }, Action::NoAction),
        Key::Enter => (ConsoleView { input_mode: InputMode::Normal, ..s }, Action::ApplyParameters),
        Key::Backspace => (ConsoleView { params: pop_from_selected(s.params, s.param_sel), ..s }, Action::NoAction),
        Key::Delete => (ConsoleView { params: pop_from_selected(s.params, s.param_sel), ..s }, Action::NoAction),
        _ => (s, Action::NoAction),
    }
}

/// The console after a key on the first tab, and what the program must do.
pub open spec fn key_step(s: ConsoleView, key: Key) -> (ConsoleView, Action) {
    match s.input_mode {
        InputMode::Normal => normal_key_step(s, key),
        InputMode::Editing => editing_key_step(s, key),
        InputMode::Quit => (s, Action::NoAction),
    }
}

/// The console after a key on whichever tab is shown: on the first tab as
/// `key_step`; on the second tab only 'q' (quit) and Tab (switch) count.
pub open spec fn event_step(s: ConsoleView, key: Key) -> (ConsoleView, Action) {
    if s.index == TabIndex::First {
        key_step(s, key)
    } else if key == Key::Char('q') {
        (ConsoleView { input_mode: InputMode::Quit, ..s }, Action::NoAction)
    } else if key == Key::Tab {
        (ConsoleView { index: tab_after(s.index), ..s }, Action::NoAction)
    } else {
        (s, Action::NoAction)
    }
}

/// The operator console: the parameter table, the mode and reference lists,
/// and where keys go.
pub struct Console {
    pub params: ParameterData,
    pub mode: ModeData,
    pub ref_mode: RefModeData,
    pub input_mode: InputMode,
    pub selection: SelectionMode,
    pub index: TabIndex,
}

impl View for Console {
    type V = ConsoleView;

    open spec fn view(&self) -> ConsoleView {
        ConsoleView {
            params: self.params.rows(),
            param_sel: table_selection(self.params.state),
            param_offset: table_offset(self.params.state),
            modes: strings_view(self.mode.items@),
            mode_sel: list_selection(self.mode.state),
            mode_offset: list_offset(self.mode.state),
            loc_mode: self.mode.loc_mode,
            ref_modes: strings_view(self.ref_mode.items@),
            ref_sel: list_selection(self.ref_mode.state),
            ref_offset: list_offset(self.ref_mode.state),
            loc_ref_mode: self.ref_mode.loc_ref_mode,
            input_mode: self.input_mode,
            selection: self.selection,
            index: self.index,
        }
    }
}

impl Console {
    /// A console on the first tab, navigating the parameter table, which
    /// shows `param_values` and `integrator_on`; `loc_mode` and `loc_ref_mode` are the modes
    /// current at start.
    pub fn new(param_values: &Vec<String>, integrator_on: bool, loc_mode: Mode, loc_ref_mode: RefMode) -> (res: Self)
        requires
            param_values@.len() == 7,
        ensures
            res@.params == parameter_table(strings_view(param_values@), integrator_on),
            res@.param_sel == None::<usize>,
            res@.param_offset == 0,
            res@.modes == seq!["OFF"@, "BALL"@, "BEAM"@],
            res@.mode_sel == None::<usize>,
            res@.mode_offset == 0,
            res@.loc_mode == loc_mode,
            res@.ref_modes == seq!["MANUAL"@, "SQUARE"@, "OPTIMAL"@],
            res@.ref_sel == Some(spec_ref_mode_list_index(loc_ref_mode)),
            res@.ref_offset == 0,
            res@.loc_ref_mode == loc_ref_mode,
            res@.input_mode == InputMode::Normal,
            res@.selection == SelectionMode::Parameters,
            res@.index == TabIndex::First,
            res@.wf(),
    {
        let params = ParameterData::new(param_values, integrator_on);
        assert forall|i: int| 0 <= i < params.rows().len() implies #[trigger] params.rows()[i].len() >= 2 by {
            assert(parameter_table(strings_view(param_values@), integrator_on)[i].len() == 2);
        }
        Self {
            params,
            mode: ModeData::new(loc_mode),
            ref_mode: RefModeData::new(loc_ref_mode),
            input_mode: InputMode::Normal,
            selection: SelectionMode::Parameters,
            index: TabIndex::First,
        }
    }

    /// Whether the console is well-formed (see `ConsoleView::wf`), the
    /// condition under which keys can be handled.
    pub fn well_formed(&self) -> (res: bool)
        ensures
            res == self@.wf(),
    {
        let n = self.params.items.len();
        if n == 0 {
            return false;
        }
        let mut i: usize = 0;
        while i < n
            invariant
                n == self.params.items@.len(),
                i <= n,
                forall|j: int| 0 <= j < i ==> #[trigger] self.params.rows()[j].len() >= 2,
            decreases n - i,
        {
            if self.params.items[i].len() < 2 {
                assert(self.params.rows()[i as int].len() < 2);
                return false;
            }
            assert(self.params.rows()[i as int].len() >= 2);
            i = i + 1;
        }
        let param_ok = match self.params.selected() {
            Some(k) => k < n,
            None => true,
        };
        let modes_n = self.mode.len();
        let mode_ok = match self.mode.selected() {
            Some(k) => k < modes_n,
            None => true,
        };
        let refs_n = self.ref_mode.len();
        let ref_ok = match self.ref_mode.selected() {
            Some(k) => k < refs_n,
            None => true,
        };
        param_ok && modes_n > 0 && mode_ok && refs_n > 0 && ref_ok
    }

    /// Handles a key on the first tab.
    pub fn on_key(&mut self, key: Key) -> (res: Action)
        requires
            old(self)@.wf(),
        ensures
            (final(self)@, res) == key_step(old(self)@, key),
    {
        match self.input_mode {
            InputMode::Normal => {
                if let Key::Char(ch) = key {
                    if ch == 'q' {
                        self.input_mode = InputMode::Quit;
                        return Action::NoAction;
                    } else if ch == 't' {
                        self.selection.next();
                    }
                }
                if let Key::Tab = key {
                    self.index.next();
                    return Action::NoAction;
                }
                match self.selection {
                    SelectionMode::Mode => {
                        self.params.unselect();
                        scroll_selectable(key, &mut self.mode);
                        if let Key::Enter = key {
                            if let Some(index) = self.mode.selected() {
                                let mode = list_index_to_mode(index);
                                self.mode.loc_mode = mode;
                                return Action::SetMode(mode);
                            }
                        }
                        Action::NoAction
                    },
                    SelectionMode::Parameters => {
                        self.mode.unselect();
                        if let Key::Char(ch) = key {
                            if ch == 'i' {
                                self.input_mode = InputMode::Editing;
                            }
                        } else {
                            scroll_selectable(key, &mut self.params);
                        }
                        Action::NoAction
                    },
                    SelectionMode::Reference => {
                        scroll_selectable(key, &mut self.ref_mode);
                        if let Some(index) = self.ref_mode.selected() {
                            Action::SetRefMode(list_index_to_ref_mode(index))
                        } else {
                            Action::NoAction
                        }
                    },
                }
            },
            InputMode::Editing => {
                proof {
                    if let Some(i) = table_selection(self.params.state) {
                        assert(self.params.rows()[i as int].len() >= 2);
                        assert(self.params.rows()[i as int].len() == self.params.items@[i as int]@.len());
                    }
                }
                match key {
                    Key::Char(ch) => {
                        self.params.add_char(ch);
                        Action::NoAction
                    },
                    Key::Enter => {
                        self.input_mode = InputMode::Normal;
                        Action::ApplyParameters
                    },
                    Key::Backspace => {
                        self.params.remove_char();
                        Action::NoAction
                    },
                    Key::Delete => {
                        self.params.remove_char();
                        Action::NoAction
                    },
                    _ => Action::NoAction,
                }
            },
            InputMode::Quit => Action::NoAction,
        }
    }

    /// Handles a key on whichever tab is shown.
    pub fn on_key_event(&mut self, key: Key) -> (res: Action)
        requires
            old(self)@.wf(),
        ensures
            (final(self)@, res) == event_step(old(self)@, key),
    {
        if let TabIndex::First = self.index {
            self.on_key(key)
        } else {
            match key {
                Key::Char('q') => {
                    self.input_mode = InputMode::Quit;
                },
                Key::Tab => {
                    self.index.next();
                },
                _ => {},
            }
            Action::NoAction
        }
    }
}

/// Where `point` lies in the closed interval `interval`: `None` outside it,
/// otherwise its offset from the lower end and the length of the interval.
/// Scaling the offset by the length onto another interval is left to the
/// caller.
pub fn map_to_parts(interval: &[u16; 2], point: u16) -> (res: Option<(u16, u16)>)
    ensures
        (point < interval[0] || point > interval[1]) ==> res == None::<(u16, u16)>,
        (interval[0] <= point <= interval[1]) ==> res == Some(
            ((point - interval[0]) as u16, (interval[1] - interval[0]) as u16),
        ),
{
    if point > interval[1] || point < interval[0] {
        return None;
    }
    let length = interval[1] - interval[0];
    Some((point - interval[0], length))
}

/// Where a left-button drag at (`column`, `row`) lands on the amplitude gauge
/// drawn in the area with corner (`x`, `y`), `width` and `height`: `None`
/// unless it lies strictly between the gauge's top and bottom rows and
/// between its left and right columns (inclusive); otherwise its offset from
/// the left column and the distance from the left to the right column.
pub fn drag_target(x: u16, y: u16, width: u16, height: u16, column: u16, row: u16) -> (res: Option<(u16, u16)>)
    requires
        1 <= x + width <= u16::MAX,
        y + height <= u16::MAX,
    ensures
        res == (if x <= column <= x + width - 1 && y < row < y + height {
            Some(((column - x) as u16, (width - 1) as u16))
        } else {
            None::<(u16, u16)>
        }),
{
    let gauge_left = x;
    let gauge_right = x + width - 1;
    let gauge_upper = y;
    let gauge_lower = y + height;
    match map_to_parts(&[gauge_left, gauge_right], column) {
        Some(p) => {
            if row > gauge_upper && row < gauge_lower {
                Some(p)
            } else {
                None
            }
        },
        None => None,
    }
}

/// The labels of the parameter table's rows.
pub open spec fn parameter_labels() -> Seq<Seq<char>> {
    seq!["K"@, "Ti"@, "Td"@, "Tr"@, "N"@, "Beta"@, "H"@, "Integrator on"@]
}

/// The rows of the parameter table for the value texts `values` and the
/// integrator flag.
pub open spec fn parameter_table(values: Seq<Seq<char>>, integrator_on: bool) -> Seq<Seq<Seq<char>>> {
    Seq::new(8, |i: int| if i < 7 {
        seq![parameter_labels()[i], values[i]]
    } else {
        seq![parameter_labels()[i], if integrator_on { "true"@ } else { "false"@ }]
    })
}

/// `s` without its last character; the empty text stays empty.
pub open spec fn drop_last_char(s: Seq<char>) -> Seq<char> {
    if s.len() == 0 { s } else { s.drop_last() }
}

} // verus!
