//! The render dispatcher: a pure read of the session state that produces a
//! screen plan — one dispatch by current page.
//!
//! The plan carries everything the host needs to draw a frame: texts, rows,
//! highlight decisions and regions.  Presentation details with no logic in
//! them (styles, number formatting, the QR bitmap itself) are the host's.

use vstd::prelude::*;

use crate::app::{App, AppView};
use crate::enums::{Focus, Page};
use crate::otp_element::{ElemView, OTPElement};
use crate::popup::{centered_rect, spec_centered_rect, Rect};
use crate::table::{duplicate_rows, rows_view, FilteredRow, RowView};

verus! {

/// The help text of the info page.
pub open spec fn info_text() -> Seq<char> {
    "Press:\n+ -> Increment the HOTP counter\n- -> Decrement the HOTP counter\nk -> Show QRCode of the selected element\nEnter -> Copy the OTP Code to the clipboard\nCTRL-F -> Search codes\nCTRL-W -> Clear the search query\nq, CTRL-D, Esc -> Exit the application"@
}

/// Width of the popup overlay, as a percentage of the viewport.
pub const POPUP_PERCENT_X: u16 = 60;

/// Height of the popup overlay, as a percentage of the viewport.
pub const POPUP_PERCENT_Y: u16 = 20;

/// `a - b`, floored at zero.
pub open spec fn sat_sub(a: int, b: int) -> int {
    if a >= b {
        a - b
    } else {
        0
    }
}

/// The three stacked regions of the main page — search bar (3 rows), codes
/// table, progress gauge (6 rows) — inside a 2-cell margin.
pub open spec fn spec_main_areas(width: u16, height: u16) -> (Rect, Rect, Rect) {
    let iw = sat_sub(width as int, 4) as u16;
    let ih = sat_sub(height as int, 4);
    let search = Rect { x: 2, y: 2, width: iw, height: 3 };
    let table = Rect { x: 2, y: 5, width: iw, height: sat_sub(ih, 9) as u16 };
    let gauge = Rect { x: 2, y: (5 + sat_sub(ih, 9)) as u16, width: iw, height: 6 };
    (search, table, gauge)
}

/// Computes the three stacked regions of the main page.
pub fn main_areas(width: u16, height: u16) -> (r: (Rect, Rect, Rect))
    ensures
        r == spec_main_areas(width, height),
{
    let iw = if width >= 4 {
        width - 4
    } else {
        0
    };
    let ih = if height >= 4 {
        height - 4
    } else {
        0
    };
    let th = if ih >= 9 {
        ih - 9
    } else {
        0
    };
    let search = Rect { x: 2, y: 2, width: iw, height: 3 };
    let table = Rect { x: 2, y: 5, width: iw, height: th };
    let gauge = Rect { x: 2, y: 5 + th, width: iw, height: 6 };
    (search, table, gauge)
}

/// The confirmation overlay: its text and its centered region.
#[derive(Debug, PartialEq)]
pub struct PopupPlan {
    pub text: String,
    pub area: Rect,
}

/// Mathematical model of the confirmation overlay.
pub struct PopupPlanView {
    pub text: Seq<char>,
    pub area: Rect,
}

impl View for PopupPlan {
    type V = PopupPlanView;

    open spec fn view(&self) -> PopupPlanView {
        PopupPlanView { text: self.text@, area: self.area }
    }
}

/// The main page: search bar, codes table with the selected row
/// highlighted, progress indicator, and the optional confirmation overlay
/// drawn centered over everything else.
#[derive(Debug, PartialEq)]
pub struct MainScreen {
    pub title: String,
    pub search_query: Vec<char>,
    pub search_focused: bool,
    pub rows: Vec<FilteredRow>,
    pub selected: Option<usize>,
    pub progress: u16,
    pub print_percentage: bool,
    pub label_text: String,
    pub search_area: Rect,
    pub table_area: Rect,
    pub gauge_area: Rect,
    pub popup: Option<PopupPlan>,
}

/// Mathematical model of the main page plan.
pub struct MainScreenView {
    pub title: Seq<char>,
    pub search_query: Seq<char>,
    pub search_focused: bool,
    pub rows: Seq<RowView>,
    pub selected: Option<usize>,
    pub progress: u16,
    pub print_percentage: bool,
    pub label_text: Seq<char>,
    pub search_area: Rect,
    pub table_area: Rect,
    pub gauge_area: Rect,
    pub popup: Option<PopupPlanView>,
}

impl View for MainScreen {
    type V = MainScreenView;

    open spec fn view(&self) -> MainScreenView {
        MainScreenView {
            title: self.title@,
            search_query: self.search_query@,
            search_focused: self.search_focused,
            rows: rows_view(self.rows@),
            selected: self.selected,
            progress: self.progress,
            print_percentage: self.print_percentage,
            label_text: self.label_text@,
            search_area: self.search_area,
            table_area: self.table_area,
            gauge_area: self.gauge_area,
            popup: match self.popup {
                Option::Some(ref p) => Option::Some(p@),
                Option::None => Option::None,
            },
        }
    }
}

/// The visual-code page: the selected record, or nothing when no row is
/// selected or the index is stale (the host then draws the placeholder).
#[derive(Debug, PartialEq)]
pub struct QrcodeScreen {
    pub title: String,
    pub element: Option<OTPElement>,
}

/// Mathematical model of the visual-code page plan.
pub struct QrcodeScreenView {
    pub title: Seq<char>,
    pub element: Option<ElemView>,
}

impl View for QrcodeScreen {
    type V = QrcodeScreenView;

    open spec fn view(&self) -> QrcodeScreenView {
        QrcodeScreenView {
            title: self.title@,
            element: match self.element {
                Option::Some(ref e) => Option::Some(e@),
                Option::None => Option::None,
            },
        }
    }
}

/// The help page: the frame title and the static help text.
#[derive(Debug, PartialEq)]
pub struct InfoScreen {
    pub title: String,
    pub text: String,
}

/// Mathematical model of the help page plan.
pub struct InfoScreenView {
    pub title: Seq<char>,
    pub text: Seq<char>,
}

impl View for InfoScreen {
    type V = InfoScreenView;

    open spec fn view(&self) -> InfoScreenView {
        InfoScreenView { title: self.title@, text: self.text@ }
    }
}

/// One frame's plan: a single dispatch by current page.
#[derive(Debug, PartialEq)]
pub enum Screen {
    Main(MainScreen),
    Qrcode(QrcodeScreen),
    Info(InfoScreen),
}

/// Mathematical model of a frame plan.
pub enum ScreenView {
    Main(MainScreenView),
    Qrcode(QrcodeScreenView),
    Info(InfoScreenView),
}

impl View for Screen {
    type V = ScreenView;

    open spec fn view(&self) -> ScreenView {
        match self {
            Screen::Main(m) => ScreenView::Main(m@),
            Screen::Qrcode(q) => ScreenView::Qrcode(q@),
            Screen::Info(i) => ScreenView::Info(i@),
        }
    }
}

/// The record the visual-code page shows: the one the selected row came
/// from, or nothing when no row is selected or its store index is stale.
pub open spec fn spec_selected_element(s: AppView) -> Option<ElemView> {
    match s.table.selected {
        Option::None => Option::<ElemView>::None,
        Option::Some(sel) => {
            if sel < s.table.rows.len() {
                let idx = s.table.rows[sel as int].index;
                if 0 <= idx < s.database.len() {
                    Option::Some(s.database[idx])
                } else {
                    Option::<ElemView>::None
                }
            } else {
                Option::<ElemView>::None
            }
        },
    }
}

/// The frame produced for a session state and viewport: a pure function —
/// no component of rendering mutates state.
pub open spec fn spec_render(s: AppView, width: u16, height: u16) -> ScreenView {
    match s.current_page {
        Page::Main => {
            let (search_area, table_area, gauge_area) = spec_main_areas(width, height);
            ScreenView::Main(
                MainScreenView {
                    title: s.title,
                    search_query: s.search_query,
                    search_focused: s.focus == Focus::SearchBar,
                    rows: s.table.rows,
                    selected: s.table.selected,
                    progress: s.progress,
                    print_percentage: s.print_percentage,
                    label_text: s.label_text,
                    search_area,
                    table_area,
                    gauge_area,
                    popup: if s.focus == Focus::Popup {
                        Option::Some(
                            PopupPlanView {
                                text: s.popup_text,
                                area: spec_centered_rect(
                                    POPUP_PERCENT_X,
                                    POPUP_PERCENT_Y,
                                    Rect { x: 0, y: 0, width, height },
                                ),
                            },
                        )
                    } else {
                        Option::<PopupPlanView>::None
                    },
                },
            )
        },
        Page::Qrcode => ScreenView::Qrcode(
            QrcodeScreenView { title: s.title, element: spec_selected_element(s) },
        ),
        Page::Info => ScreenView::Info(InfoScreenView { title: s.title, text: info_text() }),
    }
}

/// Rendering is idempotent: called twice with unchanged state and viewport
/// it produces identical output.
pub proof fn lemma_render_idempotent(s1: AppView, s2: AppView, width: u16, height: u16)
    requires
        s1 == s2,
    ensures
        spec_render(s1, width, height) == spec_render(s2, width, height),
{
}

impl App {
    /// Produces the frame plan for the current state and the given
    /// viewport: a pure read of the session, exactly [`spec_render`].
    pub fn render(&self, width: u16, height: u16) -> (p: Screen)
        ensures
            p@ == spec_render(self@, width, height),
    {
        match self.current_page {
            Page::Main => {
                let (search_area, table_area, gauge_area) = main_areas(width, height);
                let popup = if matches!(self.focus, Focus::Popup) {
                    Some(
                        PopupPlan {
                            text: self.popup_text.clone(),
                            area: centered_rect(
                                POPUP_PERCENT_X,
                                POPUP_PERCENT_Y,
                                Rect { x: 0, y: 0, width, height },
                            ),
                        },
                    )
                } else {
                    None
                };
                Screen::Main(
                    MainScreen {
                        title: self.title.clone(),
                        search_query: self.search_query.clone(),
                        search_focused: matches!(self.focus, Focus::SearchBar),
                        rows: duplicate_rows(&self.table.items),
                        selected: self.table.selected,
                        progress: self.progress,
                        print_percentage: self.print_percentage,
                        label_text: self.label_text.clone(),
                        search_area,
                        table_area,
                        gauge_area,
                        popup,
                    },
                )
            },
            Page::Qrcode => {
                let element = match self.table.selected {
                    Option::None => None,
                    Option::Some(sel) => {
                        if sel < self.table.items.len() {
                            let idx = self.table.items[sel].index;
                            let els = self.database.elements();
                            if idx < els.len() {
                                proof {
                                    assert(els@.map_values(|e: OTPElement| e@)[idx as int] == els@[
                                        idx as int]@);
                                }
                                Some(els[idx].duplicate())
                            } else {
                                None
                            }
                        } else {
                            None
                        }
                    },
                };
                Screen::Qrcode(QrcodeScreen { title: self.title.clone(), element })
            },
            Page::Info => Screen::Info(
                InfoScreen {
                    title: self.title.clone(),
                    text: String::from_str(
                        "Press:\n+ -> Increment the HOTP counter\n- -> Decrement the HOTP counter\nk -> Show QRCode of the selected element\nEnter -> Copy the OTP Code to the clipboard\nCTRL-F -> Search codes\nCTRL-W -> Clear the search query\nq, CTRL-D, Esc -> Exit the application",
                    ),
                },
            ),
        }
    }
}

} // verus!
