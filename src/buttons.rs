//! Button presses: the payload mini-grammar `cancel`, `section|<section>`,
//! `topic|<section>|<id>` and `admin|<action>`, and what each press does.
use vstd::prelude::*;
use vstd::string::*;
use crate::actions::{actions_view, send, Action, ActionView, Markup, MarkupView};
use crate::catalog::{get_topic_title, topic_title_of};
use crate::engine::{step_view, Config, Step, StepView};
use crate::states::{DialogueState, StateView, SubmissionType};
use crate::store::{StoreOp, StoreOpView};
use crate::text::{field, field_of, fields_of, has_prefix, is_prefix, same_text, split_fields};

verus! {

pub const CANCEL: &'static str = "cancel";
pub const SECTION_PREFIX: &'static str = "section|";
pub const TOPIC_PREFIX: &'static str = "topic|";
pub const ADMIN_PREFIX: &'static str = "admin|";
pub const CANCELLED: &'static str = "Операция отменена.";
pub const SESSION_EXPIRED: &'static str = "Сессия истекла, начни заново";
pub const DEFAULT_TOPIC: &'static str = "Тема";
pub const REPORT_WORKING: &'static str = "Генерирую отчет...";
pub const REPORT_FAILED: &'static str = "Ошибка генерации отчета";
pub const HISTORY_WORKING: &'static str = "Это может занять время...";
pub const ASK_EXPORT: &'static str = "Пришли ID или @username пользователя:";
pub const ASK_DELETE: &'static str = "Пришли ID или @username для УДАЛЕНИЯ:";
pub const RESET_DONE: &'static str = "База сброшена!";
pub const ADMIN_DAILY: &'static str = "daily_full";
pub const ADMIN_SEND_NOW: &'static str = "send_daily_now";
pub const ADMIN_HISTORY: &'static str = "full_history_manual";
pub const ADMIN_EXPORT: &'static str = "export_user";
pub const ADMIN_DELETE: &'static str = "delete_user";
pub const ADMIN_RESET: &'static str = "reset_all";

/// A button press: its id, who pressed, the message the button sits on (0 if
/// unknown) and the payload.
#[derive(Clone, Debug, PartialEq, Eq)]
pub struct Press {
    pub id: String,
    pub user: i64,
    pub message_id: i32,
    pub data: Option<String>,
}

/// How the topic prompt names a kind.
pub open spec fn kind_noun(kind: SubmissionType) -> Seq<char> {
    match kind {
        SubmissionType::Dz => "ДЗ"@,
        SubmissionType::Conspect => "конспект"@,
    }
}

pub open spec fn answer(p: Press, text: Option<Seq<char>>, alert: bool) -> ActionView {
    ActionView::Answer { callback_id: p.id@, text, alert }
}

pub open spec fn section_prompt(section: Seq<char>) -> Seq<char> {
    "Раздел: "@ + section + "\nВыбери тему:"@
}

pub open spec fn topic_prompt(title: Seq<char>, kind: SubmissionType) -> Seq<char> {
    "Тема: "@ + title + "\nОтправь "@ + kind_noun(kind) + " (фото, файл или текст)."@
}

/// An administrator's action.
pub open spec fn admin_step(st: StateView, p: Press, action: Seq<char>, date: Seq<char>) -> StepView {
    let user = p.user as int;
    let done = answer(p, None, false);
    if action == ADMIN_DAILY@ || action == ADMIN_SEND_NOW@ {
        StepView {
            state: st,
            actions: seq![
                answer(p, Some(REPORT_WORKING@), false),
                ActionView::DailyReport { chat: user, date, failed: REPORT_FAILED@ },
                done,
            ],
        }
    } else if action == ADMIN_HISTORY@ {
        StepView {
            state: st,
            actions: seq![
                answer(p, Some(HISTORY_WORKING@), false),
                ActionView::FullHistory { chat: user },
                done,
            ],
        }
    } else if action == ADMIN_EXPORT@ {
        StepView {
            state: StateView::AdminWaitingForExportUser,
            actions: seq![ActionView::Send { chat: user, text: ASK_EXPORT@, markup: MarkupView::Plain }, done],
        }
    } else if action == ADMIN_DELETE@ {
        StepView {
            state: StateView::AdminWaitingForDeleteUser,
            actions: seq![ActionView::Send { chat: user, text: ASK_DELETE@, markup: MarkupView::Plain }, done],
        }
    } else if action == ADMIN_RESET@ {
        StepView {
            state: st,
            actions: seq![
                ActionView::Store { op: StoreOpView::ResetAll, required: true },
                ActionView::ResetFiles,
                answer(p, Some(RESET_DONE@), true),
                done,
            ],
        }
    } else {
        StepView { state: st, actions: seq![done] }
    }
}

/// The outcome of a button press in state `st` on day `date`.
pub open spec fn press_step(cfg: Config, st: StateView, p: Press, date: Seq<char>) -> StepView {
    let user = p.user as int;
    match p.data {
        None => StepView { state: st, actions: seq![] },
        Some(data) => {
            let d = data@;
            if d == CANCEL@ {
                StepView {
                    state: StateView::Start,
                    actions: seq![
                        ActionView::Send {
                            chat: user,
                            text: CANCELLED@,
                            markup: MarkupView::MainMenu(p.user == cfg.admin_id),
                        },
                        answer(p, None, false),
                    ],
                }
            } else if is_prefix(SECTION_PREFIX@, d) {
                let section = field_of(d, 1);
                match st {
                    StateView::ChoosingSection { kind } => StepView {
                        state: StateView::ChoosingTopic { kind, section },
                        actions: seq![
                            ActionView::Edit {
                                chat: user,
                                message_id: p.message_id as int,
                                text: section_prompt(section),
                                markup: MarkupView::Topics(section),
                            },
                        ],
                    },
                    _ => StepView { state: st, actions: seq![answer(p, Some(SESSION_EXPIRED@), false)] },
                }
            } else if is_prefix(TOPIC_PREFIX@, d) {
                if fields_of(d).len() < 3 {
                    StepView { state: st, actions: seq![] }
                } else {
                    let section = fields_of(d)[1];
                    let topic_id = fields_of(d)[2];
                    let title = match topic_title_of(section, topic_id) {
                        Some(t) => t,
                        None => DEFAULT_TOPIC@,
                    };
                    match st {
                        StateView::ChoosingTopic { kind, .. } => StepView {
                            state: StateView::WaitingForContent { kind, section, topic_id, topic_title: title },
                            actions: seq![
                                ActionView::Edit {
                                    chat: user,
                                    message_id: p.message_id as int,
                                    text: topic_prompt(title, kind),
                                    markup: MarkupView::Cleared,
                                },
                            ],
                        },
                        _ => StepView { state: st, actions: seq![] },
                    }
                }
            } else if is_prefix(ADMIN_PREFIX@, d) && p.user == cfg.admin_id {
                admin_step(st, p, field_of(d, 1), date)
            } else {
                StepView { state: st, actions: seq![] }
            }
        },
    }
}

fn answer_now(p: &Press, text: Option<&str>, alert: bool) -> (r: Action)
    ensures
        r@ == answer(
            *p,
            match text {
                Some(t) => Some(t@),
                None => None,
            },
            alert,
        ),
{
    let t = match text {
        Some(t) => Some(String::from_str(t)),
        None => None,
    };
    Action::Answer { callback_id: p.id.clone(), text: t, alert }
}

fn kind_noun_text(kind: SubmissionType) -> (r: &'static str)
    ensures
        r@ == kind_noun(kind),
{
    match kind {
        SubmissionType::Dz => "ДЗ",
        SubmissionType::Conspect => "конспект",
    }
}

fn admin_step_exec(state: &DialogueState, p: &Press, action: &str, date: &str) -> (r: Step)
    ensures
        step_view(r) == admin_step(state@, *p, action@, date@),
{
    let mut v: Vec<Action> = Vec::new();
    if same_text(action, ADMIN_DAILY) || same_text(action, ADMIN_SEND_NOW) {
        v.push(answer_now(p, Some(REPORT_WORKING), false));
        v.push(Action::DailyReport { chat: p.user, date: String::from_str(date), failed: String::from_str(REPORT_FAILED) });
        v.push(answer_now(p, None, false));
        assert(actions_view(v@) =~= admin_step(state@, *p, action@, date@).actions);
        Step { state: state.duplicate(), actions: v }
    } else if same_text(action, ADMIN_HISTORY) {
        v.push(answer_now(p, Some(HISTORY_WORKING), false));
        v.push(Action::FullHistory { chat: p.user });
        v.push(answer_now(p, None, false));
        assert(actions_view(v@) =~= admin_step(state@, *p, action@, date@).actions);
        Step { state: state.duplicate(), actions: v }
    } else if same_text(action, ADMIN_EXPORT) {
        v.push(send(p.user, ASK_EXPORT, Markup::Plain));
        v.push(answer_now(p, None, false));
        assert(actions_view(v@) =~= admin_step(state@, *p, action@, date@).actions);
        Step { state: DialogueState::AdminWaitingForExportUser, actions: v }
    } else if same_text(action, ADMIN_DELETE) {
        v.push(send(p.user, ASK_DELETE, Markup::Plain));
        v.push(answer_now(p, None, false));
        assert(actions_view(v@) =~= admin_step(state@, *p, action@, date@).actions);
        Step { state: DialogueState::AdminWaitingForDeleteUser, actions: v }
    } else if same_text(action, ADMIN_RESET) {
        v.push(Action::Store { op: StoreOp::ResetAll, required: true });
        v.push(Action::ResetFiles);
        v.push(answer_now(p, Some(RESET_DONE), true));
        v.push(answer_now(p, None, false));
        assert(actions_view(v@) =~= admin_step(state@, *p, action@, date@).actions);
        Step { state: state.duplicate(), actions: v }
    } else {
        v.push(answer_now(p, None, false));
        assert(actions_view(v@) =~= admin_step(state@, *p, action@, date@).actions);
        Step { state: state.duplicate(), actions: v }
    }
}

/// Handles a button press in state `state` on day `date`.
pub fn step_press(cfg: &Config, state: &DialogueState, p: &Press, date: &str) -> (r: Step)
    ensures
        step_view(r) == press_step(*cfg, state@, *p, date@),
        p.data matches Some(d) && d@ == CANCEL@ ==> r.state@ == StateView::Start,
{
    let data = match &p.data {
        Some(d) => d.as_str(),
        None => {
            let v: Vec<Action> = Vec::new();
            assert(actions_view(v@) =~= Seq::<ActionView>::empty());
            return Step { state: state.duplicate(), actions: v };
        },
    };
    let mut v: Vec<Action> = Vec::new();
    if same_text(data, CANCEL) {
        v.push(send(p.user, CANCELLED, Markup::MainMenu(p.user == cfg.admin_id)));
        v.push(answer_now(p, None, false));
        assert(actions_view(v@) =~= press_step(*cfg, state@, *p, date@).actions);
        Step { state: DialogueState::Start, actions: v }
    } else if has_prefix(data, SECTION_PREFIX) {
        let section = field(data, 1);
        match state {
            DialogueState::ChoosingSection { kind } => {
                let text = String::from_str("Раздел: ").concat(section.as_str()).concat("\nВыбери тему:");
                let shown = section.clone();
                v.push(Action::Edit { chat: p.user, message_id: p.message_id, text, markup: Markup::Topics(shown) });
                assert(actions_view(v@) =~= press_step(*cfg, state@, *p, date@).actions);
                Step { state: DialogueState::ChoosingTopic { kind: *kind, section }, actions: v }
            },
            _ => {
                v.push(answer_now(p, Some(SESSION_EXPIRED), false));
                assert(actions_view(v@) =~= press_step(*cfg, state@, *p, date@).actions);
                Step { state: state.duplicate(), actions: v }
            },
        }
    } else if has_prefix(data, TOPIC_PREFIX) {
        let parts = split_fields(data);
        if parts.len() < 3 {
            assert(actions_view(v@) =~= press_step(*cfg, state@, *p, date@).actions);
            return Step { state: state.duplicate(), actions: v };
        }
        let section = parts[1].clone();
        let topic_id = parts[2].clone();
        assert(section@ == fields_of(data@)[1]);
        assert(topic_id@ == fields_of(data@)[2]);
        let title = match get_topic_title(section.as_str(), topic_id.as_str()) {
            Some(t) => t,
            None => String::from_str(DEFAULT_TOPIC),
        };
        match state {
            DialogueState::ChoosingTopic { kind, .. } => {
                let text = String::from_str("Тема: ").concat(title.as_str()).concat("\nОтправь ").concat(
                    kind_noun_text(*kind),
                ).concat(" (фото, файл или текст).");
                v.push(Action::Edit { chat: p.user, message_id: p.message_id, text, markup: Markup::Cleared });
                assert(actions_view(v@) =~= press_step(*cfg, state@, *p, date@).actions);
                Step {
                    state: DialogueState::WaitingForContent { kind: *kind, section, topic_id, topic_title: title },
                    actions: v,
                }
            },
            _ => {
                assert(actions_view(v@) =~= press_step(*cfg, state@, *p, date@).actions);
                Step { state: state.duplicate(), actions: v }
            },
        }
    } else if has_prefix(data, ADMIN_PREFIX) && p.user == cfg.admin_id {
        let action = field(data, 1);
        admin_step_exec(state, p, action.as_str(), date)
    } else {
        assert(actions_view(v@) =~= press_step(*cfg, state@, *p, date@).actions);
        Step { state: state.duplicate(), actions: v }
    }
}

} // verus!
