//! What the engine asks of the outside world: store operations, messages,
//! file archival and report generation.
use vstd::prelude::*;
use vstd::string::*;
use crate::store::{opt_view, StoreOp, StoreOpView, TargetView, UserTarget};

verus! {

/// The keyboard attached to a message.
#[derive(Clone, Debug, PartialEq, Eq)]
pub enum Markup {
    /// No keyboard.
    Plain,
    /// The main menu; the administrator's has the admin-panel entry.
    MainMenu(bool),
    /// The section choices.
    Sections,
    /// The topic choices of a section.
    Topics(String),
    /// The administrator's actions.
    Admin,
    /// An empty inline keyboard, which removes the previous one.
    Cleared,
}

pub enum MarkupView {
    Plain,
    MainMenu(bool),
    Sections,
    Topics(Seq<char>),
    Admin,
    Cleared,
}

impl View for Markup {
    type V = MarkupView;

    open spec fn view(&self) -> MarkupView {
        match self {
            Markup::Plain => MarkupView::Plain,
            Markup::MainMenu(a) => MarkupView::MainMenu(*a),
            Markup::Sections => MarkupView::Sections,
            Markup::Topics(s) => MarkupView::Topics(s@),
            Markup::Admin => MarkupView::Admin,
            Markup::Cleared => MarkupView::Cleared,
        }
    }
}

/// One step of outside work. They are carried out in order. Only the failure
/// of a `required` store operation drops the rest and leaves the dialogue state
/// as it was; any other failure (of a message, an edit, an archival or a
/// report) is logged and the remaining actions go on.
#[derive(Clone, Debug, PartialEq, Eq)]
pub enum Action {
    /// A store operation; the failure of one that is not `required` is only logged.
    Store { op: StoreOp, required: bool },
    /// Sends a text.
    Send { chat: i64, text: String, markup: Markup },
    /// Replaces the text of an earlier message.
    Edit { chat: i64, message_id: i32, text: String, markup: Markup },
    /// Acknowledges a button press, with an optional note or alert.
    Answer { callback_id: String, text: Option<String>, alert: bool },
    /// Keeps a copy of a file of a notes submission; on failure `notice`, if
    /// any, is sent to `chat`.
    SaveFile {
        file_ref: String,
        user_id: i64,
        section: String,
        topic_id: String,
        chat: i64,
        notice: Option<String>,
    },
    /// Keeps a copy of the text of a notes submission; a failure is only logged.
    SaveText { text: String, user_id: i64, section: String, topic_id: String },
    /// Sends a user the archive of their saved notes, or `empty` when there is none.
    SendOwnArchive { chat: i64, user_id: i64, empty: String },
    /// A store operation whose outcome is reported: `done` or `failed` is sent
    /// with the admin keyboard.
    Checked { op: StoreOp, chat: i64, done: String, failed: String },
    /// Sends the export of a user's submissions and files, then `done` with the
    /// admin keyboard; `failed` instead when the user is unknown or the export fails.
    Export { chat: i64, target: UserTarget, done: String, failed: String },
    /// Sends the report of a day, or `failed` when it cannot be made.
    DailyReport { chat: i64, date: String, failed: String },
    /// Sends the full-history package.
    FullHistory { chat: i64 },
    /// Empties the directory of saved notes; a failure is ignored.
    ResetFiles,
}

pub enum ActionView {
    Store { op: StoreOpView, required: bool },
    Send { chat: int, text: Seq<char>, markup: MarkupView },
    Edit { chat: int, message_id: int, text: Seq<char>, markup: MarkupView },
    Answer { callback_id: Seq<char>, text: Option<Seq<char>>, alert: bool },
    SaveFile {
        file_ref: Seq<char>,
        user_id: int,
        section: Seq<char>,
        topic_id: Seq<char>,
        chat: int,
        notice: Option<Seq<char>>,
    },
    SaveText { text: Seq<char>, user_id: int, section: Seq<char>, topic_id: Seq<char> },
    SendOwnArchive { chat: int, user_id: int, empty: Seq<char> },
    Checked { op: StoreOpView, chat: int, done: Seq<char>, failed: Seq<char> },
    Export { chat: int, target: TargetView, done: Seq<char>, failed: Seq<char> },
    DailyReport { chat: int, date: Seq<char>, failed: Seq<char> },
    FullHistory { chat: int },
    ResetFiles,
}

impl View for Action {
    type V = ActionView;

    open spec fn view(&self) -> ActionView {
        match self {
            Action::Store { op, required } => ActionView::Store { op: op@, required: *required },
            Action::Send { chat, text, markup } => ActionView::Send {
                chat: *chat as int,
                text: text@,
                markup: markup@,
            },
            Action::Edit { chat, message_id, text, markup } => ActionView::Edit {
                chat: *chat as int,
                message_id: *message_id as int,
                text: text@,
                markup: markup@,
            },
            Action::Answer { callback_id, text, alert } => ActionView::Answer {
                callback_id: callback_id@,
                text: opt_view(*text),
                alert: *alert,
            },
            Action::SaveFile { file_ref, user_id, section, topic_id, chat, notice } =>
                ActionView::SaveFile {
                file_ref: file_ref@,
                user_id: *user_id as int,
                section: section@,
                topic_id: topic_id@,
                chat: *chat as int,
                notice: opt_view(*notice),
            },
            Action::SaveText { text, user_id, section, topic_id } => ActionView::SaveText {
                text: text@,
                user_id: *user_id as int,
                section: section@,
                topic_id: topic_id@,
            },
            Action::SendOwnArchive { chat, user_id, empty } => ActionView::SendOwnArchive {
                chat: *chat as int,
                user_id: *user_id as int,
                empty: empty@,
            },
            Action::Checked { op, chat, done, failed } => ActionView::Checked {
                op: op@,
                chat: *chat as int,
                done: done@,
                failed: failed@,
            },
            Action::Export { chat, target, done, failed } => ActionView::Export {
                chat: *chat as int,
                target: target@,
                done: done@,
                failed: failed@,
            },
            Action::DailyReport { chat, date, failed } => ActionView::DailyReport {
                chat: *chat as int,
                date: date@,
                failed: failed@,
            },
            Action::FullHistory { chat } => ActionView::FullHistory { chat: *chat as int },
            Action::ResetFiles => ActionView::ResetFiles,
        }
    }
}

/// The views of a list of actions.
pub open spec fn actions_view(v: Seq<Action>) -> Seq<ActionView> {
    v.map_values(|a: Action| a@)
}

/// A text message without keyboard, as a view.
pub open spec fn say(chat: int, text: Seq<char>) -> ActionView {
    ActionView::Send { chat, text, markup: MarkupView::Plain }
}

/// Builds a message.
pub fn send(chat: i64, text: &str, markup: Markup) -> (r: Action)
    ensures
        r@ == (ActionView::Send { chat: chat as int, text: text@, markup: markup@ }),
{
    Action::Send { chat, text: String::from_str(text), markup }
}

} // verus!
