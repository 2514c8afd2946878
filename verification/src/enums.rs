//! The state axes of the session: current page, input focus, the pending
//! popup action, and the user-input events that drive transitions.

use vstd::prelude::*;

use crate::otp_element::{ElemView, OTPElement};

verus! {

/// The page currently displayed.
#[derive(Clone, Copy, Debug, PartialEq, Eq, Structural)]
pub enum Page {
    Main,
    Qrcode,
    Info,
}

/// Where keyboard input is routed.
#[derive(Clone, Copy, Debug, PartialEq, Eq, Structural)]
pub enum Focus {
    MainPage,
    SearchBar,
    Popup,
}

/// The action awaiting confirmation in the popup.  Each variant stores the
/// targeted store index; an edit also carries the record to commit.
#[derive(Debug)]
pub enum PopupAction {
    Delete(usize),
    Edit(usize, OTPElement),
}

/// Mathematical model of a pending popup action.
pub enum ActionView {
    Delete(int),
    Edit(int, ElemView),
}

impl View for PopupAction {
    type V = ActionView;

    open spec fn view(&self) -> ActionView {
        match self {
            PopupAction::Delete(i) => ActionView::Delete(*i as int),
            PopupAction::Edit(i, e) => ActionView::Edit(*i as int, e@),
        }
    }
}

/// One user-input event, as mapped from a key press by the host.  An edit
/// request carries the edited record the host's form produced, to be
/// committed on confirmation.
#[derive(Debug)]
pub enum InputEvent {
    FocusSearch,
    SearchChar(char),
    SearchBackspace,
    ClearSearch,
    LeaveSearch,
    MoveUp,
    MoveDown,
    ShowQrcode,
    ShowInfo,
    IncrementCounter,
    DecrementCounter,
    RequestDelete,
    RequestEdit(OTPElement),
    ConfirmPopup,
    CancelPopup,
    Quit,
}

} // verus!
