//! Creating boards.
use vstd::prelude::*;
use crate::auth::AuthError;
use crate::models::{Board, NewBoard, User};
use crate::storage::records::new_board_record;

verus! {

/// The board editor; `existing_board` is the board being edited, if any.
#[derive(Debug)]
pub struct EditBoardTemplate {
    pub existing_board: Option<Board>,
    pub form_action: &'static str,
}

/// What the board editor posts; `id` is set when an existing board is
/// saved.
#[derive(Debug)]
pub struct SaveBoardForm {
    pub title: String,
    pub details: String,
    pub id: Option<u32>,
}

/// The answer to a request for the board editor.
#[derive(Debug)]
pub enum BoardEditorPage {
    /// The session was refused; the text to show.
    Refused(String),
    /// The empty board editor.
    Editor(EditBoardTemplate),
}

/// What saving the board editor leads to.
#[derive(Debug)]
pub enum SaveBoardAction {
    /// The session was refused; the text to show.
    Refused(String),
    /// The form names an existing board, and editing is not supported.
    EditingNotImplemented,
    /// A new board is to be inserted.
    Create(NewBoard),
}

/// The board editor for a new board, for a signed-in user.
pub fn new_board_page(session: Result<User, AuthError>) -> (page: BoardEditorPage)
    ensures
        match session {
            Err(e) => page matches BoardEditorPage::Refused(t) && t@ == e.error_detail@,
            Ok(_) => page matches BoardEditorPage::Editor(t) && t.existing_board is None
                && t.form_action@ == "/admin/board/save"@,
        },
{
    match session {
        Err(e) => BoardEditorPage::Refused(e.error_detail),
        Ok(_user) => BoardEditorPage::Editor(
            EditBoardTemplate { existing_board: None, form_action: "/admin/board/save" },
        ),
    }
}

/// What saving the board editor does for a signed-in user: a form with an
/// id asks for editing, which is not supported; a form without one makes
/// a new board with the form's title and details.
pub fn save_board_page(session: Result<User, AuthError>, input: &SaveBoardForm) -> (action:
    SaveBoardAction)
    ensures
        match session {
            Err(e) => action matches SaveBoardAction::Refused(t) && t@ == e.error_detail@,
            Ok(_) => match input.id {
                Some(_) => action is EditingNotImplemented,
                None => action matches SaveBoardAction::Create(b) && b.title@ == input.title@
                    && b.details@ == input.details@,
            },
        },
{
    match session {
        Err(e) => SaveBoardAction::Refused(e.error_detail),
        Ok(_user) => {
            if input.id.is_some() {
                SaveBoardAction::EditingNotImplemented
            } else {
                SaveBoardAction::Create(
                    new_board_record(input.title.clone(), input.details.clone()),
                )
            }
        },
    }
}

} // verus!
