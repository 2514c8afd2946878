//! The session state machine: the single authority for user-input handling.
//!
//! Every transition is defined by the spec-level step function
//! [`spec_step`]; the executable handlers are proved to implement it
//! exactly.  The controller owns the credential store for the session, keeps
//! the filtered table coherent with it, and never constructs a state whose
//! focus is the popup without a pending action.

use vstd::prelude::*;

use crate::enums::{ActionView, Focus, InputEvent, Page, PopupAction};
use crate::otp_element::{with_counter, ElemView, OTPDatabase, OTPElement};
use crate::table::{
    clamp_selection, filter_rows, lemma_clamp_in_bounds, next_selection, prev_selection,
    selection_in_bounds, StatefulTable, TableView,
};

verus! {

/// The title shown in the frame borders.
pub open spec fn app_title() -> Seq<char> {
    "cotp"@
}

/// The confirmation prompt shown before a delete is applied.
pub open spec fn delete_prompt() -> Seq<char> {
    "Do you want to delete the selected code?"@
}

/// The confirmation prompt shown before an edit is committed.
pub open spec fn edit_prompt() -> Seq<char> {
    "Do you want to overwrite the selected code?"@
}

/// The popup text shown when a store mutation failed on a stale index.
pub open spec fn stale_error_text() -> Seq<char> {
    "Error: the selected code no longer exists"@
}

/// Mathematical model of the whole session state.
pub struct AppView {
    pub running: bool,
    pub title: Seq<char>,
    pub table: TableView,
    pub database: Seq<ElemView>,
    pub progress: u16,
    pub label_text: Seq<char>,
    pub print_percentage: bool,
    pub current_page: Page,
    pub search_query: Seq<char>,
    pub focus: Focus,
    pub popup_text: Seq<char>,
    pub popup_action: Option<ActionView>,
    pub data_modified: bool,
}

/// Session-state invariant: the popup focus always has a pending action,
/// the cursor stays inside the table, and the table is the filtered view of
/// the current store snapshot and query.
pub open spec fn inv(s: AppView) -> bool {
    &&& (s.focus == Focus::Popup ==> s.popup_action is Some)
    &&& selection_in_bounds(s.table.selected, s.table.rows.len())
    &&& s.table.rows == filter_rows(s.database, s.search_query)
}

/// The state with its filtered table recomputed from the store and query,
/// and the cursor clamped to the new bounds.
pub open spec fn rebuilt(s: AppView) -> AppView {
    let rows = filter_rows(s.database, s.search_query);
    AppView {
        table: TableView { rows, selected: clamp_selection(s.table.selected, rows.len()) },
        ..s
    }
}

/// Quitting: the running flag goes false, everything else is untouched.
pub open spec fn spec_quit(s: AppView) -> AppView {
    AppView { running: false, ..s }
}

/// Confirming the popup: the pending action is applied; on success the
/// dirty flag is set and the view rebuilt, on a stale index the popup text
/// becomes an error message and the dirty flag is left alone.  Both paths
/// return focus to the main page and clear the pending action.
pub open spec fn spec_confirm(s: AppView) -> AppView {
    match s.popup_action {
        Option::None => AppView { focus: Focus::MainPage, ..s },
        Option::Some(ActionView::Delete(i)) => {
            if 0 <= i < s.database.len() {
                rebuilt(
                    AppView {
                        database: s.database.remove(i),
                        data_modified: true,
                        focus: Focus::MainPage,
                        popup_action: Option::None,
                        popup_text: Seq::<char>::empty(),
                        ..s
                    },
                )
            } else {
                AppView {
                    focus: Focus::MainPage,
                    popup_action: Option::None,
                    popup_text: stale_error_text(),
                    ..s
                }
            }
        },
        Option::Some(ActionView::Edit(i, e)) => {
            if 0 <= i < s.database.len() {
                rebuilt(
                    AppView {
                        database: s.database.update(i, e),
                        data_modified: true,
                        focus: Focus::MainPage,
                        popup_action: Option::None,
                        popup_text: Seq::<char>::empty(),
                        ..s
                    },
                )
            } else {
                AppView {
                    focus: Focus::MainPage,
                    popup_action: Option::None,
                    popup_text: stale_error_text(),
                    ..s
                }
            }
        },
    }
}

/// Cancelling the popup: the pending action is discarded, nothing else
/// changes, and focus returns to the main page.
pub open spec fn spec_cancel(s: AppView) -> AppView {
    AppView {
        focus: Focus::MainPage,
        popup_action: Option::None,
        popup_text: Seq::<char>::empty(),
        ..s
    }
}

/// A search keystroke: the character is appended and the view rebuilt.
pub open spec fn spec_search_char(s: AppView, c: char) -> AppView {
    rebuilt(AppView { search_query: s.search_query.push(c), ..s })
}

/// Backspace in the search bar: the last character is removed (if any) and
/// the view rebuilt.
pub open spec fn spec_search_backspace(s: AppView) -> AppView {
    if s.search_query.len() > 0 {
        rebuilt(AppView { search_query: s.search_query.drop_last(), ..s })
    } else {
        s
    }
}

/// Clearing the search: the query becomes empty and the view is rebuilt.
pub open spec fn spec_clear_search(s: AppView) -> AppView {
    rebuilt(AppView { search_query: Seq::<char>::empty(), ..s })
}

/// Leaving the search bar: focus returns to the main page.
pub open spec fn spec_leave_search(s: AppView) -> AppView {
    AppView { focus: Focus::MainPage, ..s }
}

/// Focusing the search bar.
pub open spec fn spec_focus_search(s: AppView) -> AppView {
    AppView { focus: Focus::SearchBar, ..s }
}

/// Cursor movement over the table.
pub open spec fn spec_move(s: AppView, down: bool) -> AppView {
    AppView {
        table: TableView {
            rows: s.table.rows,
            selected: if down {
                next_selection(s.table.selected, s.table.rows.len())
            } else {
                prev_selection(s.table.selected, s.table.rows.len())
            },
        },
        ..s
    }
}

/// Entering the visual-code page: only possible while a row is selected.
pub open spec fn spec_show_qrcode(s: AppView) -> AppView {
    if s.table.selected is Some {
        AppView { current_page: Page::Qrcode, ..s }
    } else {
        s
    }
}

/// Entering the help page.
pub open spec fn spec_show_info(s: AppView) -> AppView {
    AppView { current_page: Page::Info, ..s }
}

/// Returning to the main page with main focus.
pub open spec fn spec_back(s: AppView) -> AppView {
    AppView { current_page: Page::Main, focus: Focus::MainPage, ..s }
}

/// A counter increment or decrement on the selected record: the store's
/// counter mutation is applied to the record the selected row came from,
/// the dirty flag is set and the view rebuilt; on a stale index the popup
/// text becomes an error message and the dirty flag is left alone.
pub open spec fn spec_counter_op(s: AppView, up: bool) -> AppView {
    match s.table.selected {
        Option::None => s,
        Option::Some(sel) => {
            if sel < s.table.rows.len() {
                let idx = s.table.rows[sel as int].index;
                if 0 <= idx < s.database.len() {
                    let c = s.database[idx].counter;
                    let c2 = if up {
                        (if c == u64::MAX {
                            u64::MAX as int
                        } else {
                            c + 1
                        }) as u64
                    } else {
                        (if c == 0 {
                            0 as int
                        } else {
                            c - 1
                        }) as u64
                    };
                    rebuilt(
                        AppView {
                            database: s.database.update(idx, with_counter(s.database[idx], c2)),
                            data_modified: true,
                            ..s
                        },
                    )
                } else {
                    AppView { popup_text: stale_error_text(), ..s }
                }
            } else {
                s
            }
        },
    }
}

/// A delete request on the selected row: the target's store index and the
/// delete tag become the pending action, the confirmation prompt is shown,
/// and focus moves to the popup.
pub open spec fn spec_request_delete(s: AppView) -> AppView {
    match s.table.selected {
        Option::None => s,
        Option::Some(sel) => {
            if sel < s.table.rows.len() {
                AppView {
                    focus: Focus::Popup,
                    popup_action: Option::Some(ActionView::Delete(s.table.rows[sel as int].index)),
                    popup_text: delete_prompt(),
                    ..s
                }
            } else {
                s
            }
        },
    }
}

/// An edit request on the selected row: the target's store index, the edit
/// tag and the edited record become the pending action, the confirmation
/// prompt is shown, and focus moves to the popup.
pub open spec fn spec_request_edit(s: AppView, e: ElemView) -> AppView {
    match s.table.selected {
        Option::None => s,
        Option::Some(sel) => {
            if sel < s.table.rows.len() {
                AppView {
                    focus: Focus::Popup,
                    popup_action: Option::Some(
                        ActionView::Edit(s.table.rows[sel as int].index, e),
                    ),
                    popup_text: edit_prompt(),
                    ..s
                }
            } else {
                s
            }
        },
    }
}

/// The complete transition function of the session: quitting is accepted
/// from every state; otherwise the event is routed by focus, then by page.
/// Events with no meaning in the current state leave it unchanged.
pub open spec fn spec_step(s: AppView, e: InputEvent) -> AppView {
    match e {
        InputEvent::Quit => spec_quit(s),
        _ => match s.focus {
            Focus::Popup => match e {
                InputEvent::ConfirmPopup => spec_confirm(s),
                InputEvent::CancelPopup => spec_cancel(s),
                _ => s,
            },
            Focus::SearchBar => match e {
                InputEvent::SearchChar(c) => spec_search_char(s, c),
                InputEvent::SearchBackspace => spec_search_backspace(s),
                InputEvent::ClearSearch => spec_clear_search(s),
                InputEvent::LeaveSearch => spec_leave_search(s),
                _ => s,
            },
            Focus::MainPage => match s.current_page {
                Page::Main => match e {
                    InputEvent::FocusSearch => spec_focus_search(s),
                    InputEvent::MoveUp => spec_move(s, false),
                    InputEvent::MoveDown => spec_move(s, true),
                    InputEvent::ShowQrcode => spec_show_qrcode(s),
                    InputEvent::ShowInfo => spec_show_info(s),
                    InputEvent::IncrementCounter => spec_counter_op(s, true),
                    InputEvent::DecrementCounter => spec_counter_op(s, false),
                    InputEvent::RequestDelete => spec_request_delete(s),
                    InputEvent::RequestEdit(rec) => spec_request_edit(s, rec@),
                    InputEvent::ClearSearch => spec_clear_search(s),
                    _ => s,
                },
                _ => match e {
                    InputEvent::RequestDelete => spec_request_delete(s),
                    InputEvent::RequestEdit(rec) => spec_request_edit(s, rec@),
                    _ => spec_back(s),
                },
            },
        },
    }
}

/// The refresh step: a rebuild is triggered exactly when the newly sampled
/// rotation progress is strictly below the previous sample (window wrap) or
/// the caller forces it; the stored progress then becomes the new sample.
pub open spec fn spec_tick(s: AppView, new_progress: u16, force: bool) -> AppView {
    let s2 = if new_progress < s.progress || force {
        rebuilt(s)
    } else {
        s
    };
    AppView { progress: new_progress, ..s2 }
}

/// The freshly constructed session over a store snapshot.
pub open spec fn spec_new(db: Seq<ElemView>) -> AppView {
    AppView {
        running: true,
        title: app_title(),
        table: TableView { rows: filter_rows(db, Seq::<char>::empty()), selected: Option::None },
        database: db,
        progress: 0,
        label_text: Seq::<char>::empty(),
        print_percentage: true,
        current_page: Page::Main,
        search_query: Seq::<char>::empty(),
        focus: Focus::MainPage,
        popup_text: Seq::<char>::empty(),
        popup_action: Option::None,
        data_modified: false,
    }
}

/// Every transition preserves the session invariant; in particular a state
/// whose focus is the popup but whose pending action is empty is never
/// constructed, from any reachable state, by any input.
pub proof fn lemma_step_preserves_inv(s: AppView, e: InputEvent)
    requires
        inv(s),
    ensures
        inv(spec_step(s, e)),
{
    let t = spec_step(s, e);
    lemma_clamp_in_bounds(s.table.selected, filter_rows(s.database, s.search_query).len());
    match e {
        InputEvent::Quit => {},
        _ => match s.focus {
            Focus::Popup => {
                match s.popup_action {
                    Option::Some(ActionView::Delete(i)) => {
                        lemma_clamp_in_bounds(
                            s.table.selected,
                            filter_rows(s.database.remove(i), s.search_query).len(),
                        );
                    },
                    Option::Some(ActionView::Edit(i, rec)) => {
                        if 0 <= i < s.database.len() {
                            lemma_clamp_in_bounds(
                                s.table.selected,
                                filter_rows(s.database.update(i, rec), s.search_query).len(),
                            );
                        }
                    },
                    Option::None => {},
                }
            },
            Focus::SearchBar => {
                match e {
                    InputEvent::SearchChar(c) => {
                        lemma_clamp_in_bounds(
                            s.table.selected,
                            filter_rows(s.database, s.search_query.push(c)).len(),
                        );
                    },
                    InputEvent::SearchBackspace => {
                        if s.search_query.len() > 0 {
                            lemma_clamp_in_bounds(
                                s.table.selected,
                                filter_rows(s.database, s.search_query.drop_last()).len(),
                            );
                        }
                    },
                    InputEvent::ClearSearch => {
                        lemma_clamp_in_bounds(
                            s.table.selected,
                            filter_rows(s.database, Seq::<char>::empty()).len(),
                        );
                    },
                    _ => {},
                }
            },
            Focus::MainPage => {
                match e {
                    InputEvent::IncrementCounter | InputEvent::DecrementCounter => {
                        if s.current_page == Page::Main {
                            match s.table.selected {
                                Option::Some(sel) => {
                                    if sel < s.table.rows.len() {
                                        let idx = s.table.rows[sel as int].index;
                                        if 0 <= idx < s.database.len() {
                                            let c = s.database[idx].counter;
                                            let up = e matches InputEvent::IncrementCounter;
                                            let c2 = if up {
                                                (if c == u64::MAX {
                                                    u64::MAX as int
                                                } else {
                                                    c + 1
                                                }) as u64
                                            } else {
                                                (if c == 0 {
                                                    0 as int
                                                } else {
                                                    c - 1
                                                }) as u64
                                            };
                                            lemma_clamp_in_bounds(
                                                s.table.selected,
                                                filter_rows(
                                                    s.database.update(
                                                        idx,
                                                        with_counter(s.database[idx], c2),
                                                    ),
                                                    s.search_query,
                                                ).len(),
                                            );
                                        }
                                    }
                                },
                                Option::None => {},
                            }
                        }
                    },
                    InputEvent::ClearSearch => {
                        lemma_clamp_in_bounds(
                            s.table.selected,
                            filter_rows(s.database, Seq::<char>::empty()).len(),
                        );
                    },
                    _ => {},
                }
            },
        },
    }
}

/// The session state after a whole sequence of input events, first event
/// first.
pub open spec fn spec_run(s: AppView, events: Seq<InputEvent>) -> AppView
    decreases events.len(),
{
    if events.len() == 0 {
        s
    } else {
        spec_run(spec_step(s, events[0]), events.drop_first())
    }
}

/// The session invariant is never violated across any sequence of inputs:
/// in particular, no sequence of events ever reaches a state whose focus is
/// the popup with an empty pending action.
pub proof fn lemma_inv_across_any_sequence(s: AppView, events: Seq<InputEvent>)
    requires
        inv(s),
    ensures
        inv(spec_run(s, events)),
    decreases events.len(),
{
    if events.len() > 0 {
        lemma_step_preserves_inv(s, events[0]);
        lemma_inv_across_any_sequence(spec_step(s, events[0]), events.drop_first());
    }
}

/// The visual-code page is only enterable while a row is selected: no
/// input event moves a session that is not already on that page onto it
/// without a selection.
pub proof fn lemma_qrcode_entered_only_with_selection(s: AppView, e: InputEvent)
    requires
        s.current_page != Page::Qrcode,
        spec_step(s, e).current_page == Page::Qrcode,
    ensures
        s.table.selected is Some,
{
}

/// The tick step preserves the session invariant.
pub proof fn lemma_tick_preserves_inv(s: AppView, new_progress: u16, force: bool)
    requires
        inv(s),
    ensures
        inv(spec_tick(s, new_progress, force)),
{
    lemma_clamp_in_bounds(s.table.selected, filter_rows(s.database, s.search_query).len());
}

/// After confirming a pending delete (or edit), the selection is either
/// re-clamped to a valid index of the rebuilt table or cleared — never left
/// out of range.
pub proof fn lemma_selection_valid_after_confirm(s: AppView)
    requires
        inv(s),
        s.focus == Focus::Popup,
    ensures
        selection_in_bounds(
            spec_step(s, InputEvent::ConfirmPopup).table.selected,
            spec_step(s, InputEvent::ConfirmPopup).table.rows.len(),
        ),
{
    lemma_step_preserves_inv(s, InputEvent::ConfirmPopup);
}

/// The session controller.
#[derive(Debug)]
pub struct App {
    /// Is the application running?
    pub running: bool,
    pub title: String,
    pub table: StatefulTable,
    pub database: OTPDatabase,
    pub progress: u16,
    /// Text to print replacing the percentage.
    pub label_text: String,
    pub print_percentage: bool,
    pub current_page: Page,
    pub search_query: Vec<char>,
    pub focus: Focus,
    pub popup_text: String,
    pub popup_action: Option<PopupAction>,
    pub data_modified: bool,
}

impl View for App {
    type V = AppView;

    open spec fn view(&self) -> AppView {
        AppView {
            running: self.running,
            title: self.title@,
            table: self.table@,
            database: self.database@,
            progress: self.progress,
            label_text: self.label_text@,
            print_percentage: self.print_percentage,
            current_page: self.current_page,
            search_query: self.search_query@,
            focus: self.focus,
            popup_text: self.popup_text@,
            popup_action: match self.popup_action {
                Option::Some(ref a) => Option::Some(a@),
                Option::None => Option::None,
            },
            data_modified: self.data_modified,
        }
    }
}

impl App {
    /// Constructs a new session over a store snapshot: running, main page,
    /// main focus, empty query, all records shown, nothing selected,
    /// nothing pending, clean.
    pub fn new(database: OTPDatabase) -> (r: App)
        ensures
            r@ == spec_new(database@),
            inv(r@),
    {
        let table = StatefulTable::new(database.elements());
        let r = App {
            running: true,
            title: String::from_str("cotp"),
            table,
            database,
            progress: 0,
            label_text: String::new(),
            print_percentage: true,
            current_page: Page::Main,
            search_query: Vec::new(),
            focus: Focus::MainPage,
            popup_text: String::new(),
            popup_action: None,
            data_modified: false,
        };
        proof {
            assert(r@ == spec_new(r.database@));
        }
        r
    }

    /// Recomputes the filtered table from the store and query, clamping the
    /// cursor.
    fn rebuild_table(&mut self)
        ensures
            final(self)@ == rebuilt(old(self)@),
    {
        self.table.rebuild(self.database.elements(), &self.search_query);
    }

    /// Handles a tick of the refresh clock, given the freshly sampled
    /// rotation-window progress: the codes table is rebuilt exactly when
    /// the sample wrapped below the previous one or the caller forces it.
    /// Returns whether a rebuild happened.
    pub fn tick(&mut self, new_progress: u16, force_update: bool) -> (rebuilt_now: bool)
        ensures
            rebuilt_now == (new_progress < old(self)@.progress || force_update),
            final(self)@ == spec_tick(old(self)@, new_progress, force_update),
    {
        let rebuilt_now = new_progress < self.progress || force_update;
        if rebuilt_now {
            self.rebuild_table();
        }
        self.progress = new_progress;
        rebuilt_now
    }

    /// Stops the session: the host observes `running == false` and
    /// terminates, persisting the store if the dirty flag is set.
    pub fn quit(&mut self)
        ensures
            final(self)@ == spec_quit(old(self)@),
    {
        self.running = false;
    }

    /// Moves focus to the search bar.
    pub fn focus_search(&mut self)
        ensures
            final(self)@ == spec_focus_search(old(self)@),
    {
        self.focus = Focus::SearchBar;
    }

    /// Returns focus from the search bar to the main page.
    pub fn leave_search(&mut self)
        ensures
            final(self)@ == spec_leave_search(old(self)@),
    {
        self.focus = Focus::MainPage;
    }

    /// Appends one typed character to the query and rebuilds immediately.
    pub fn search_char(&mut self, c: char)
        ensures
            final(self)@ == spec_search_char(old(self)@, c),
    {
        self.search_query.push(c);
        self.rebuild_table();
    }

    /// Removes the last query character (if any) and rebuilds immediately.
    pub fn search_backspace(&mut self)
        ensures
            final(self)@ == spec_search_backspace(old(self)@),
    {
        if self.search_query.len() > 0 {
            self.search_query.pop();
            proof {
                assert(self.search_query@ =~= old(self)@.search_query.drop_last());
            }
            self.rebuild_table();
        }
    }

    /// Empties the query and rebuilds immediately.
    pub fn clear_search(&mut self)
        ensures
            final(self)@ == spec_clear_search(old(self)@),
    {
        self.search_query.clear();
        proof {
            assert(self.search_query@ =~= Seq::<char>::empty());
        }
        self.rebuild_table();
    }

    /// Moves the cursor one row up.
    pub fn move_up(&mut self)
        ensures
            final(self)@ == spec_move(old(self)@, false),
    {
        self.table.previous();
    }

    /// Moves the cursor one row down.
    pub fn move_down(&mut self)
        ensures
            final(self)@ == spec_move(old(self)@, true),
    {
        self.table.next();
    }

    /// Opens the visual-code page for the selected row; without a selection
    /// the page is not entered.
    pub fn show_qrcode(&mut self)
        ensures
            final(self)@ == spec_show_qrcode(old(self)@),
    {
        if self.table.selected.is_some() {
            self.current_page = Page::Qrcode;
        }
    }

    /// Opens the help page.
    pub fn show_info(&mut self)
        ensures
            final(self)@ == spec_show_info(old(self)@),
    {
        self.current_page = Page::Info;
    }

    /// Returns to the main page with main focus.
    pub fn back_to_main(&mut self)
        ensures
            final(self)@ == spec_back(old(self)@),
    {
        self.current_page = Page::Main;
        self.focus = Focus::MainPage;
    }

    /// Applies a counter increment or decrement to the record under the
    /// cursor.
    fn counter_op(&mut self, up: bool)
        ensures
            final(self)@ == spec_counter_op(old(self)@, up),
    {
        let sel_opt = self.table.selected;
        match sel_opt {
            Option::None => {},
            Option::Some(sel) => {
                if sel < self.table.items.len() {
                    let idx = self.table.items[sel].index;
                    let r = if up {
                        self.database.increment_counter(idx)
                    } else {
                        self.database.decrement_counter(idx)
                    };
                    match r {
                        Result::Ok(()) => {
                            self.data_modified = true;
                            self.rebuild_table();
                        },
                        Result::Err(_) => {
                            self.popup_text = String::from_str(
                                "Error: the selected code no longer exists",
                            );
                        },
                    }
                }
            },
        }
    }

    /// Increments the counter of the record under the cursor.
    pub fn increment_counter(&mut self)
        ensures
            final(self)@ == spec_counter_op(old(self)@, true),
    {
        self.counter_op(true);
    }

    /// Decrements the counter of the record under the cursor.
    pub fn decrement_counter(&mut self)
        ensures
            final(self)@ == spec_counter_op(old(self)@, false),
    {
        self.counter_op(false);
    }

    /// Requests deletion of the record under the cursor: stores the pending
    /// action, shows the confirmation prompt, and focuses the popup.
    pub fn request_delete(&mut self)
        ensures
            final(self)@ == spec_request_delete(old(self)@),
    {
        let sel_opt = self.table.selected;
        match sel_opt {
            Option::None => {},
            Option::Some(sel) => {
                if sel < self.table.items.len() {
                    let idx = self.table.items[sel].index;
                    self.popup_action = Some(PopupAction::Delete(idx));
                    self.popup_text = String::from_str(
                        "Do you want to delete the selected code?",
                    );
                    self.focus = Focus::Popup;
                }
            },
        }
    }

    /// Requests replacement of the record under the cursor by the edited
    /// record: stores the pending action, shows the confirmation prompt,
    /// and focuses the popup.
    pub fn request_edit(&mut self, element: OTPElement)
        ensures
            final(self)@ == spec_request_edit(old(self)@, element@),
    {
        let sel_opt = self.table.selected;
        match sel_opt {
            Option::None => {},
            Option::Some(sel) => {
                if sel < self.table.items.len() {
                    let idx = self.table.items[sel].index;
                    self.popup_action = Some(PopupAction::Edit(idx, element));
                    self.popup_text = String::from_str(
                        "Do you want to overwrite the selected code?",
                    );
                    self.focus = Focus::Popup;
                }
            },
        }
    }

    /// Applies the pending popup action.
    pub fn confirm_popup(&mut self)
        ensures
            final(self)@ == spec_confirm(old(self)@),
    {
        let mut delete_idx: Option<usize> = None;
        let mut edit_req: Option<(usize, OTPElement)> = None;
        match &self.popup_action {
            Option::None => {},
            Option::Some(PopupAction::Delete(i)) => {
                delete_idx = Some(*i);
            },
            Option::Some(PopupAction::Edit(i, rec)) => {
                edit_req = Some((*i, rec.duplicate()));
            },
        }
        match delete_idx {
            Option::Some(idx) => {
                let r = self.database.delete(idx);
                match r {
                    Result::Ok(()) => {
                        self.data_modified = true;
                        self.popup_action = None;
                        self.popup_text = String::new();
                        self.focus = Focus::MainPage;
                        self.rebuild_table();
                    },
                    Result::Err(_) => {
                        self.popup_action = None;
                        self.popup_text = String::from_str(
                            "Error: the selected code no longer exists",
                        );
                        self.focus = Focus::MainPage;
                    },
                }
                return ;
            },
            Option::None => {},
        }
        match edit_req {
            Option::Some((idx, rec)) => {
                let r = self.database.edit(idx, rec);
                match r {
                    Result::Ok(()) => {
                        self.data_modified = true;
                        self.popup_action = None;
                        self.popup_text = String::new();
                        self.focus = Focus::MainPage;
                        self.rebuild_table();
                    },
                    Result::Err(_) => {
                        self.popup_action = None;
                        self.popup_text = String::from_str(
                            "Error: the selected code no longer exists",
                        );
                        self.focus = Focus::MainPage;
                    },
                }
                return ;
            },
            Option::None => {},
        }
        self.focus = Focus::MainPage;
    }

    /// Discards the pending popup action.
    pub fn cancel_popup(&mut self)
        ensures
            final(self)@ == spec_cancel(old(self)@),
    {
        self.popup_action = None;
        self.popup_text = String::new();
        self.focus = Focus::MainPage;
    }

    /// Routes one input event: quitting is accepted from every state;
    /// otherwise the event is dispatched by focus, then by page, exactly as
    /// [`spec_step`] prescribes.
    pub fn handle_event(&mut self, event: InputEvent)
        requires
            inv(old(self)@),
        ensures
            final(self)@ == spec_step(old(self)@, event),
            inv(final(self)@),
    {
        proof {
            lemma_step_preserves_inv(old(self)@, event);
        }
        match event {
            InputEvent::Quit => {
                self.quit();
            },
            other => {
                match self.focus {
                    Focus::Popup => {
                        match other {
                            InputEvent::ConfirmPopup => self.confirm_popup(),
                            InputEvent::CancelPopup => self.cancel_popup(),
                            _ => {},
                        }
                    },
                    Focus::SearchBar => {
                        match other {
                            InputEvent::SearchChar(c) => self.search_char(c),
                            InputEvent::SearchBackspace => self.search_backspace(),
                            InputEvent::ClearSearch => self.clear_search(),
                            InputEvent::LeaveSearch => self.leave_search(),
                            _ => {},
                        }
                    },
                    Focus::MainPage => {
                        match self.current_page {
                            Page::Main => {
                                match other {
                                    InputEvent::FocusSearch => self.focus_search(),
                                    InputEvent::MoveUp => self.move_up(),
                                    InputEvent::MoveDown => self.move_down(),
                                    InputEvent::ShowQrcode => self.show_qrcode(),
                                    InputEvent::ShowInfo => self.show_info(),
                                    InputEvent::IncrementCounter => self.increment_counter(),
                                    InputEvent::DecrementCounter => self.decrement_counter(),
                                    InputEvent::RequestDelete => self.request_delete(),
                                    InputEvent::RequestEdit(rec) => self.request_edit(rec),
                                    InputEvent::ClearSearch => self.clear_search(),
                                    _ => {},
                                }
                            },
                            _ => {
                                match other {
                                    InputEvent::RequestDelete => self.request_delete(),
                                    InputEvent::RequestEdit(rec) => self.request_edit(rec),
                                    _ => self.back_to_main(),
                                }
                            },
                        }
                    },
                }
            },
        }
    }
}

} // verus!
