//! The selection and pagination state machine of the result list.
//!
//! The state reacts to navigation commands and to the result batch being
//! replaced underneath it at any time. Because a new batch can shrink the
//! list without the state machine being told synchronously, the highlighted
//! row is re-validated lazily, on every read before rendering
//! ([`UI::validate_selection`]); every navigation step with a positive
//! count lands in bounds on its own.
//!
//! The widgets themselves (the text box, the painted list) live outside the
//! library; this state is everything the decisions need.

use crate::results::QueryResults;
use vstd::prelude::*;

verus! {

/// A navigation or control key, already decoded from the terminal's raw
/// event. Keys that only edit the search text are summarized as [`KeyInput::Other`].
#[derive(Debug, Clone, Copy)]
pub enum KeyInput {
    /// A key release; ignored, only presses and repeats drive the state.
    Release,
    Esc,
    CtrlC,
    Enter { ctrl: bool },
    Backspace,
    Tab,
    Up,
    Down,
    PageUp,
    PageDown,
    /// Any other key; it belongs to the text-edit buffer.
    Other,
}

/// A mouse event, already decoded; scrolling moves the selection like the
/// arrow keys.
#[derive(Debug, Clone, Copy)]
pub enum MouseInput {
    ScrollUp,
    ScrollDown,
    Other,
}

/// What the caller must do after the state machine handled a key: nothing,
/// quit, dispatch a query for the current edit text, open the selected
/// entry (`ctrl` asks to reveal it in its folder), or forward the key to
/// the text-edit buffer.
#[derive(Debug, Clone, Copy)]
pub enum UiAction {
    Nothing,
    Quit,
    SubmitQuery,
    Activate { ctrl: bool },
    EditKey,
}

/// `min(last, i + n)`: the row `n` steps below row `i`, stopped at the
/// last row.
pub open spec fn sel_fwd(i: int, n: int, last: int) -> int {
    if i + n <= last {
        i + n
    } else {
        last
    }
}

/// `min(last, max(0, i - n))`: the row `n` steps above row `i`, stopped at
/// the first row, and pulled back onto the list if `i` was beyond it.
pub open spec fn sel_back(i: int, n: int, last: int) -> int {
    let j = if i >= n {
        i - n
    } else {
        0
    };
    if j <= last {
        j
    } else {
        last
    }
}

/// The navigation state of the client: which region has focus, which row
/// is highlighted, which row is scrolled to the top of the list, and the
/// list height of the most recent layout pass.
#[derive(Debug, Clone, Copy)]
pub struct UI {
    /// Focus: `true` while the search box consumes keystrokes, `false`
    /// while the result list does.
    pub is_focus_search_bar: bool,
    /// The highlighted row, or `None` while no row is highlighted.
    pub selected: Option<usize>,
    /// Index of the first row scrolled into view.
    pub offset: usize,
    /// Rows the list region showed in the most recent layout pass; `None`
    /// before the first pass.
    pub last_page_height: Option<u16>,
    /// Whether the status popup is shown over the list.
    pub is_popup_show: bool,
}

impl UI {
    /// The selection invariant: the highlighted row, if any, lies strictly
    /// inside the current result count.
    pub open spec fn selection_in_bounds(self, number: u32) -> bool {
        self.selected matches Some(i) ==> (i as int) < number as int
    }

    /// The page height of the most recent layout pass, as a width-free
    /// number of rows.
    pub open spec fn page_rows(self) -> int {
        match self.last_page_height {
            Some(h) => h as int,
            None => 0,
        }
    }

    /// `self` with only the highlighted row changed.
    pub open spec fn with_selected(self, s: Option<usize>) -> UI {
        UI { selected: s, ..self }
    }

    /// Whether the visible window already reaches the end of a list of
    /// `number` rows.
    pub open spec fn spec_is_last_page(self, number: u32) -> bool {
        number as int <= self.page_rows() || number as int - self.offset as int
            <= self.page_rows()
    }

    /// Highlighting the first row, if there is one.
    pub open spec fn spec_select_first(self, number: u32) -> UI {
        if number > 0 {
            self.with_selected(Some(0usize))
        } else {
            self
        }
    }

    /// Moving the highlighted row `n` rows down, stopped at the last row;
    /// nothing moves while the list is empty or nothing is highlighted.
    pub open spec fn spec_select_next_n(self, n: int, number: u32) -> UI {
        if number > 0 {
            match self.selected {
                Some(i) => self.with_selected(
                    Some(sel_fwd(i as int, n, number as int - 1) as usize),
                ),
                None => self,
            }
        } else {
            self
        }
    }

    /// Moving the highlighted row `n` rows up, stopped at the first row;
    /// nothing moves while the list is empty or nothing is highlighted.
    pub open spec fn spec_select_previous_n(self, n: int, number: u32) -> UI {
        if number > 0 {
            match self.selected {
                Some(i) => self.with_selected(
                    Some(sel_back(i as int, n, number as int - 1) as usize),
                ),
                None => self,
            }
        } else {
            self
        }
    }

    /// Where the window may be scrolled to over a list of `number` rows:
    /// no further than `number` less one page, so that the last page is
    /// shown full, and never below the top.
    pub open spec fn offset_bound(self, number: u32) -> int {
        if number as int >= self.page_rows() {
            number as int - self.page_rows()
        } else {
            0
        }
    }

    /// One page down: on the last page the highlight jumps to the last row;
    /// otherwise the window advances by one page height, clamped to
    /// [`UI::offset_bound`], and the highlight moves down by the rows the
    /// window actually moved, stopped at the last row.
    pub open spec fn spec_select_next_page(self, number: u32) -> UI {
        if number == 0 {
            self
        } else if self.spec_is_last_page(number) {
            self.with_selected(Some((number - 1) as usize))
        } else {
            let advanced = self.offset + self.page_rows();
            let new_offset = if advanced <= self.offset_bound(number) {
                advanced
            } else {
                self.offset_bound(number)
            };
            let moved = UI { offset: new_offset as usize, ..self };
            moved.spec_select_next_n(new_offset - self.offset, number)
        }
    }

    /// One page up: on the first page the highlight jumps to the first row;
    /// otherwise the window retreats by one page height, clamped to
    /// [`UI::offset_bound`], and the highlight moves up by the rows the
    /// window actually moved, stopped at the first row.
    pub open spec fn spec_select_previous_page(self, number: u32) -> UI {
        if number == 0 {
            self
        } else if self.offset == 0 {
            self.with_selected(Some(0usize))
        } else {
            let retreated = if self.offset >= self.page_rows() {
                self.offset - self.page_rows()
            } else {
                0
            };
            let new_offset = if retreated <= self.offset_bound(number) {
                retreated
            } else {
                self.offset_bound(number)
            };
            let moved = UI { offset: new_offset as usize, ..self };
            moved.spec_select_previous_n(self.offset - new_offset, number)
        }
    }

    /// The arrow-up transition: from the first row the focus returns to the
    /// search box with nothing highlighted; from any lower row the
    /// highlight moves up one; while the search box has focus nothing
    /// happens.
    pub open spec fn spec_up(self, number: u32) -> UI {
        if self.is_focus_search_bar {
            self
        } else if self.selected == Some(0usize) {
            UI { is_focus_search_bar: true, selected: None, ..self }
        } else {
            self.spec_select_previous_n(1, number)
        }
    }

    /// The arrow-down transition: from the search box over a non-empty list
    /// the focus enters the list at its first row; inside the list the
    /// highlight moves down one, or onto the first row if none was
    /// highlighted.
    pub open spec fn spec_down(self, number: u32) -> UI {
        if self.is_focus_search_bar && number > 0 {
            UI { is_focus_search_bar: false, ..self.spec_select_first(number) }
        } else if self.selected is Some {
            self.spec_select_next_n(1, number)
        } else {
            self.spec_select_first(number)
        }
    }

    /// The lazy re-validation applied before every read: a highlight that
    /// fell outside the current list is clamped onto its last row, and
    /// cleared when the list is empty.
    pub open spec fn spec_validated(self, number: u32) -> UI {
        match self.selected {
            Some(i) => if number == 0 {
                self.with_selected(None)
            } else if i as int >= number as int {
                self.with_selected(Some((number - 1) as usize))
            } else {
                self
            },
            None => self,
        }
    }

    /// The state before the first render: the search box has focus, no row
    /// is highlighted, the list is scrolled to the top, and no layout pass
    /// has happened.
    pub fn new() -> (r: UI)
        ensures
            r.is_focus_search_bar,
            r.selected is None,
            r.offset == 0,
            r.last_page_height is None,
            !r.is_popup_show,
    {
        UI {
            is_focus_search_bar: true,
            selected: None,
            offset: 0,
            last_page_height: None,
            is_popup_show: false,
        }
    }

    /// Caches the list height of a layout pass; page navigation jumps by
    /// this many rows.
    pub fn set_page_height(&mut self, rows: u16)
        ensures
            *final(self) == (UI { last_page_height: Some(rows), ..*old(self) }),
    {
        self.last_page_height = Some(rows);
    }

    /// Whether some row is highlighted.
    pub fn is_selected(&self) -> (r: bool)
        ensures
            r == (self.selected is Some),
    {
        self.selected.is_some()
    }

    /// Whether the first row is highlighted.
    pub fn is_first_selected(&self) -> (r: bool)
        ensures
            r == (self.selected == Some(0usize)),
    {
        match self.selected {
            Some(i) => i == 0,
            None => false,
        }
    }

    /// Highlights the first row, if the list has one.
    pub fn select_first(&mut self, results_number: u32)
        ensures
            *final(self) == old(self).spec_select_first(results_number),
            results_number > 0 ==> final(self).selection_in_bounds(results_number),
    {
        if results_number > 0 {
            self.selected = Some(0);
        }
    }

    /// Moves the highlighted row `n` rows up, stopping at the first row.
    pub fn select_previous_n(&mut self, n: usize, results_number: u32)
        ensures
            *final(self) == old(self).spec_select_previous_n(n as int, results_number),
            results_number > 0 ==> final(self).selection_in_bounds(results_number),
    {
        if results_number > 0 {
            let last = (results_number - 1) as usize;
            match self.selected {
                Some(i) => {
                    let stepped = if i >= n {
                        i - n
                    } else {
                        0
                    };
                    let clamped = if stepped <= last {
                        stepped
                    } else {
                        last
                    };
                    self.selected = Some(clamped);
                },
                None => {},
            }
        }
    }

    /// Moves the highlighted row `n` rows down, stopping at the last row.
    pub fn select_next_n(&mut self, n: usize, results_number: u32)
        ensures
            *final(self) == old(self).spec_select_next_n(n as int, results_number),
            results_number > 0 ==> final(self).selection_in_bounds(results_number),
    {
        if results_number > 0 {
            let last = (results_number - 1) as usize;
            match self.selected {
                Some(i) => {
                    let stepped = if i >= last {
                        last
                    } else if n >= last - i {
                        last
                    } else {
                        i + n
                    };
                    self.selected = Some(stepped);
                },
                None => {},
            }
        }
    }

    /// Whether the list is scrolled to its top.
    pub fn is_first_page(&self) -> (r: bool)
        ensures
            r == (self.offset == 0),
    {
        self.offset == 0
    }

    /// Whether the visible window already reaches the end of a list of
    /// `results_number` rows.
    pub fn is_last_page(&self, results_number: u32) -> (r: bool)
        requires
            self.last_page_height is Some,
        ensures
            r == self.spec_is_last_page(results_number),
    {
        let page_height = self.last_page_height.unwrap() as usize;
        if results_number as usize <= page_height {
            true
        } else if self.offset >= results_number as usize {
            true
        } else {
            results_number as usize - self.offset <= page_height
        }
    }

    /// One page down, as [`UI::spec_select_next_page`] describes.
    pub fn select_next_page(&mut self, results_number: u32)
        requires
            results_number > 0 ==> old(self).last_page_height is Some,
        ensures
            *final(self) == old(self).spec_select_next_page(results_number),
            results_number > 0 ==> final(self).selection_in_bounds(results_number),
    {
        if results_number > 0 {
            if self.is_last_page(results_number) {
                self.selected = Some((results_number - 1) as usize);
            } else {
                let page_height = self.last_page_height.unwrap() as usize;
                // Off the last page the list is longer than one page, so
                // the window may advance, but no further than one page
                // before the end.
                let bound = results_number as usize - page_height;
                let advanced = self.offset + page_height;
                let new_offset = if advanced <= bound {
                    advanced
                } else {
                    bound
                };
                let moved = new_offset - self.offset;
                self.offset = new_offset;
                self.select_next_n(moved, results_number);
            }
        }
    }

    /// One page up, as [`UI::spec_select_previous_page`] describes.
    pub fn select_previous_page(&mut self, results_number: u32)
        requires
            results_number > 0 && old(self).offset != 0 ==> old(
                self,
            ).last_page_height is Some,
        ensures
            *final(self) == old(self).spec_select_previous_page(results_number),
            results_number > 0 ==> final(self).selection_in_bounds(results_number),
    {
        if results_number > 0 {
            if self.is_first_page() {
                self.selected = Some(0);
            } else {
                let page_height = self.last_page_height.unwrap() as usize;
                let old_offset = self.offset;
                let retreated = if old_offset >= page_height {
                    old_offset - page_height
                } else {
                    0
                };
                let bound = if results_number as usize >= page_height {
                    results_number as usize - page_height
                } else {
                    0
                };
                let new_offset = if retreated <= bound {
                    retreated
                } else {
                    bound
                };
                self.offset = new_offset;
                self.select_previous_n(old_offset - new_offset, results_number);
            }
        }
    }

    /// Clears the highlight.
    pub fn unselect(&mut self)
        ensures
            *final(self) == old(self).with_selected(None),
    {
        self.selected = None;
    }

    /// Re-validates the highlight against the current result count, as the
    /// render path does before every frame: the highlight is clamped onto
    /// the list or cleared, and afterwards it always lies in bounds.
    pub fn validate_selection(&mut self, results_number: u32)
        ensures
            *final(self) == old(self).spec_validated(results_number),
            final(self).selection_in_bounds(results_number),
    {
        match self.selected {
            Some(i) => {
                if results_number == 0 {
                    self.selected = None;
                } else if i >= results_number as usize {
                    self.selected = Some((results_number - 1) as usize);
                }
            },
            None => {},
        }
    }

    /// The full path of the highlighted entry of `results`, if a row is
    /// highlighted, it lies inside the batch, and the batch carries file
    /// paths.
    pub fn get_selected_full_path(&self, results: &QueryResults) -> (r: Option<String>)
        ensures
            r == self.spec_selected_full_path(*results),
    {
        match self.selected {
            Some(index) => {
                if index < results.entrys.len() {
                    match &results.entrys[index].filepath {
                        Some(p) => Some(p.clone()),
                        None => None,
                    }
                } else {
                    None
                }
            },
            None => None,
        }
    }

    /// What [`UI::get_selected_full_path`] returns: the highlighted entry's
    /// combined file path, when all of highlight, entry and path exist.
    pub open spec fn spec_selected_full_path(self, results: QueryResults) -> Option<String> {
        match self.selected {
            Some(i) => if (i as int) < results.entrys@.len() {
                results.entrys@[i as int].filepath
            } else {
                None
            },
            None => None,
        }
    }
}

/// Whether the edit box text is already the text a result batch echoes:
/// `edit` against the echo of the current batch, or against nothing while
/// the batch is momentarily unreadable.
pub open spec fn query_already(edit: Seq<char>, echoed: Option<&String>) -> bool {
    match echoed {
        Some(t) => t@ == edit,
        None => false,
    }
}

impl UI {
    /// Routes one key to the state machine and says what the caller must
    /// do with it.
    ///
    /// `results_number` is the current batch's result count and
    /// `echoed_text` its echoed search text, or `None` while the batch is
    /// momentarily unreadable; `edit_text` is the current edit box text.
    ///
    /// Submitting (`Enter` from the search box) when the current batch
    /// already echoes the edit text moves the focus straight into the list
    /// without asking for a second dispatch; otherwise it clears the
    /// highlight and asks the caller to dispatch exactly one query.
    pub fn handle_key(
        &mut self,
        key: KeyInput,
        results_number: u32,
        edit_text: &String,
        echoed_text: Option<&String>,
    ) -> (r: UiAction)
        requires
            key is PageDown && !old(self).is_focus_search_bar && results_number > 0 ==> old(
                self,
            ).last_page_height is Some,
            key is PageUp && !old(self).is_focus_search_bar && results_number > 0 && old(
                self,
            ).offset != 0 ==> old(self).last_page_height is Some,
        ensures
            key is Release ==> *final(self) == *old(self) && r is Nothing,
            key is Esc && old(self).is_focus_search_bar ==> *final(self) == *old(self)
                && r is Quit,
            key is Esc && !old(self).is_focus_search_bar ==> *final(self) == (UI {
                is_focus_search_bar: true,
                ..*old(self)
            }) && r is Nothing,
            key is CtrlC ==> *final(self) == *old(self) && r is Quit,
            key is Enter && old(self).is_focus_search_bar && query_already(
                edit_text@,
                echoed_text,
            ) ==> *final(self) == (UI {
                is_focus_search_bar: false,
                ..old(self).spec_select_first(results_number)
            }) && r is Nothing,
            key is Enter && old(self).is_focus_search_bar && !query_already(
                edit_text@,
                echoed_text,
            ) ==> *final(self) == old(self).with_selected(None) && r is SubmitQuery,
            key is Enter && !old(self).is_focus_search_bar && old(self).selected is Some
                ==> *final(self) == *old(self) && r == (UiAction::Activate {
                ctrl: key->ctrl,
            }),
            key is Enter && !old(self).is_focus_search_bar && old(self).selected is None
                ==> *final(self) == *old(self) && r is Nothing,
            key is Backspace && !old(self).is_focus_search_bar ==> *final(self) == (UI {
                is_focus_search_bar: true,
                ..*old(self)
            }) && r is Nothing,
            key is Backspace && old(self).is_focus_search_bar ==> *final(self) == *old(self)
                && r is EditKey,
            key is Tab && old(self).is_focus_search_bar ==> *final(self) == (UI {
                is_focus_search_bar: false,
                ..(if old(self).selected is Some {
                    *old(self)
                } else {
                    old(self).spec_select_first(results_number)
                })
            }) && r is Nothing,
            key is Tab && !old(self).is_focus_search_bar ==> *final(self) == (UI {
                is_focus_search_bar: true,
                ..*old(self)
            }) && r is Nothing,
            key is Up ==> *final(self) == old(self).spec_up(results_number) && r is Nothing,
            key is Down ==> *final(self) == old(self).spec_down(results_number)
                && r is Nothing,
            key is PageUp ==> *final(self) == (if old(self).is_focus_search_bar {
                *old(self)
            } else {
                old(self).spec_select_previous_page(results_number)
            }) && r is Nothing,
            key is PageDown ==> *final(self) == (if old(self).is_focus_search_bar {
                *old(self)
            } else {
                old(self).spec_select_next_page(results_number)
            }) && r is Nothing,
            key is Other ==> *final(self) == *old(self) && r == (if old(
                self,
            ).is_focus_search_bar {
                UiAction::EditKey
            } else {
                UiAction::Nothing
            }),
    {
        match key {
            KeyInput::Release => UiAction::Nothing,
            KeyInput::Esc => {
                if self.is_focus_search_bar {
                    UiAction::Quit
                } else {
                    self.is_focus_search_bar = true;
                    UiAction::Nothing
                }
            },
            KeyInput::CtrlC => UiAction::Quit,
            KeyInput::Enter { ctrl } => {
                if self.is_focus_search_bar {
                    let is_query_already = match echoed_text {
                        Some(t) => *t == *edit_text,
                        None => false,
                    };
                    if is_query_already {
                        self.select_first(results_number);
                        self.is_focus_search_bar = false;
                        UiAction::Nothing
                    } else {
                        self.unselect();
                        UiAction::SubmitQuery
                    }
                } else {
                    if self.is_selected() {
                        UiAction::Activate { ctrl }
                    } else {
                        UiAction::Nothing
                    }
                }
            },
            KeyInput::Backspace => {
                if !self.is_focus_search_bar {
                    self.is_focus_search_bar = true;
                    UiAction::Nothing
                } else {
                    UiAction::EditKey
                }
            },
            KeyInput::Tab => {
                if self.is_focus_search_bar {
                    self.is_focus_search_bar = false;
                    if !self.is_selected() {
                        self.select_first(results_number);
                    }
                    UiAction::Nothing
                } else {
                    self.is_focus_search_bar = true;
                    UiAction::Nothing
                }
            },
            KeyInput::Up => {
                self.up(results_number);
                UiAction::Nothing
            },
            KeyInput::Down => {
                self.down(results_number);
                UiAction::Nothing
            },
            KeyInput::PageUp => {
                if !self.is_focus_search_bar {
                    self.select_previous_page(results_number);
                }
                UiAction::Nothing
            },
            KeyInput::PageDown => {
                if !self.is_focus_search_bar {
                    self.select_next_page(results_number);
                }
                UiAction::Nothing
            },
            KeyInput::Other => {
                if self.is_focus_search_bar {
                    UiAction::EditKey
                } else {
                    UiAction::Nothing
                }
            },
        }
    }

    /// Routes one mouse event: scrolling moves the selection like the
    /// arrow keys; clicks are ignored.
    pub fn handle_mouse(&mut self, mouse: MouseInput, results_number: u32)
        ensures
            mouse is ScrollUp ==> *final(self) == old(self).spec_up(results_number),
            mouse is ScrollDown ==> *final(self) == old(self).spec_down(results_number),
            mouse is Other ==> *final(self) == *old(self),
    {
        match mouse {
            MouseInput::ScrollUp => self.up(results_number),
            MouseInput::ScrollDown => self.down(results_number),
            MouseInput::Other => {},
        }
    }

    /// The arrow-up transition, as [`UI::spec_up`] describes.
    pub fn up(&mut self, results_number: u32)
        ensures
            *final(self) == old(self).spec_up(results_number),
    {
        if !self.is_focus_search_bar {
            if self.is_first_selected() {
                self.unselect();
                self.is_focus_search_bar = true;
            } else {
                self.select_previous_n(1, results_number);
            }
        }
    }

    /// The arrow-down transition, as [`UI::spec_down`] describes.
    pub fn down(&mut self, results_number: u32)
        ensures
            *final(self) == old(self).spec_down(results_number),
    {
        if self.is_focus_search_bar && results_number > 0 {
            self.select_first(results_number);
            self.is_focus_search_bar = false;
        } else {
            if self.is_selected() {
                self.select_next_n(1, results_number);
            } else {
                self.select_first(results_number);
            }
        }
    }
}

/// However the result count changed since the last step, one re-validation
/// restores the selection invariant: afterwards the highlight is absent or
/// strictly inside the current count.
pub proof fn lemma_selection_bound(s: UI, number: u32)
    ensures
        s.spec_validated(number).selection_in_bounds(number),
{
}

} // verus!
