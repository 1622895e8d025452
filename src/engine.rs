//! The dialogue engine: from a user's event and conversation state to the next
//! state and the outside work to do.
use vstd::prelude::*;
use vstd::string::*;
use rand::seq::SliceRandom;
use crate::actions::{actions_view, say, send, Action, ActionView, Markup, MarkupView};
use crate::media::{arrive_spec, Filing, FilingView, MediaGroups, CAPTION_CAP};
use crate::states::{DialogueState, StateView, SubmissionType};
use crate::store::{
    ContentType, StoreOp, StoreOpView, Submission, SubmissionView, TargetView, UserRecord, UserRow,
    UserTarget,
};
use crate::text::{
    has_prefix, i64_of, is_prefix, parse_i64, same_text, strip_leading, strip_leading_text,
    summarize, summary_of, trim, trimmed_of,
};

verus! {

pub const CMD_START: &'static str = "/start";
pub const CMD_MENU: &'static str = "/menu";
pub const MENU_DZ: &'static str = "📚 Сдать ДЗ";
pub const MENU_CONSPECT: &'static str = "📘 Сдать конспект";
pub const MENU_ARCHIVE: &'static str = "📁 Мои конспекты";
pub const MENU_HOME: &'static str = "📌 Главное меню";
pub const MENU_ADMIN: &'static str = "🛠️ Админ-панель";
pub const GREETING: &'static str = "Привет! Я бот для сдачи ДЗ и конспектов.\nВыбери действие:";
pub const CHOOSE_SECTION: &'static str = "Выбери раздел:";
pub const ARCHIVING: &'static str = "Архивирую твои конспекты, подожди пару секунд...";
pub const NO_CONSPECTS: &'static str = "У тебя пока нет сохранённых конспектов.";
pub const ADMIN_PANEL: &'static str = "Админ-панель:";
pub const DENIED: &'static str = "Доступ запрещён.";
pub const REASON_SAVED: &'static str = "Причина сохранена, спасибо.";
pub const USE_MENU: &'static str = "Пожалуйста, используй меню для сдачи работ.";
pub const PHOTO_NOT_SAVED: &'static str = "⚠️ Файл не удалось сохранить на диск. Попробуй еще раз.";
pub const FILE_NOT_SAVED: &'static str = "⚠️ Ошибка сохранения файла.";
pub const SEND_CONTENT: &'static str = "Пожалуйста, отправь фото, файл или текст.";
pub const EXPORT_STARTED: &'static str = "Начинаю выгрузку...";
pub const EXPORT_DONE: &'static str = "Готово.";
pub const EXPORT_FAILED: &'static str = "Пользователь не найден или ошибка.";
pub const DELETE_DONE: &'static str = "Пользователь удален.";
pub const DELETE_FAILED: &'static str = "Ошибка удаления.";
pub const FILE_ACCEPTED: &'static str = " (Файл принят)";
pub const NO_HANDLE: &'static str = "noname";
pub const DEFAULT_DOCUMENT_NAME: &'static str = "document";
pub const NOTE_PHOTO: &'static str = "📸 Новый ";
pub const NOTE_DOCUMENT: &'static str = "📄 Новый ";
pub const NOTE_TEXT: &'static str = "✅ Новый ";
pub const TAG_DOCUMENT: &'static str = " (ФАЙЛ)";
pub const TEXT_CAP: usize = 300;

/// Who the administrator is.
#[derive(Clone, Copy, Debug, PartialEq, Eq)]
pub struct Config {
    pub admin_id: i64,
}

/// The sender of an event.
#[derive(Clone, Debug, PartialEq, Eq)]
pub struct Sender {
    pub id: i64,
    pub username: Option<String>,
    pub first_name: String,
}

/// What an inbound message carries.
#[derive(Clone, Debug, PartialEq, Eq)]
pub enum Content {
    Text(String),
    /// A photo (its largest size), with the group key of its album, if any.
    Photo { file_ref: String, caption: Option<String>, group: Option<String> },
    Document { file_ref: String, file_name: Option<String>, caption: Option<String> },
    Other,
}

/// An inbound message.
#[derive(Clone, Debug, PartialEq, Eq)]
pub struct Incoming {
    pub chat: i64,
    pub message_id: i32,
    pub sender: Sender,
    pub content: Content,
}

/// The time of an event: milliseconds since the epoch, the calendar date
/// (`YYYY-MM-DD`) and a precise timestamp.
#[derive(Clone, Debug, PartialEq, Eq)]
pub struct Clock {
    pub now: i64,
    pub date: String,
    pub ts: String,
}

/// The next state and the work to do.
pub struct Step {
    pub state: DialogueState,
    pub actions: Vec<Action>,
}

pub struct StepView {
    pub state: StateView,
    pub actions: Seq<ActionView>,
}

pub open spec fn step_view(s: Step) -> StepView {
    StepView { state: s.state@, actions: actions_view(s.actions@) }
}

pub open spec fn text_view_or(o: Option<String>, d: Seq<char>) -> Seq<char> {
    match o {
        Some(s) => s@,
        None => d,
    }
}

/// The text of a message; other content has none.
pub open spec fn text_of(c: Content) -> Seq<char> {
    match c {
        Content::Text(t) => t@,
        _ => seq![],
    }
}

/// The texts that always lead back to the main menu.
pub open spec fn is_menu_trigger(t: Seq<char>) -> bool {
    t == CMD_START@ || t == CMD_MENU@ || t == MENU_HOME@
}

/// Free text that looks like an attempt to hand something in.
pub open spec fn is_keyword(lowered: Seq<char>) -> bool {
    is_prefix("дз"@, lowered) || is_prefix("конспект"@, lowered)
}

pub open spec fn user_row_of(s: Sender) -> UserRow {
    UserRow { username: text_view_or(s.username, seq![]), first_name: s.first_name@ }
}

pub open spec fn upsert_of(s: Sender) -> ActionView {
    ActionView::Store { op: StoreOpView::UpsertUser(s.id as int, user_row_of(s)), required: false }
}

/// How the administrator's notes name a kind.
pub open spec fn kind_word(kind: SubmissionType) -> Seq<char> {
    match kind {
        SubmissionType::Dz => "ДЗ"@,
        SubmissionType::Conspect => "Конспект"@,
    }
}

pub open spec fn handle_of(s: Sender) -> Seq<char> {
    text_view_or(s.username, NO_HANDLE@)
}

/// The administrator's note on a new submission.
pub open spec fn note_of(
    head: Seq<char>,
    kind: SubmissionType,
    tag: Seq<char>,
    handle: Seq<char>,
    title: Seq<char>,
    summary: Seq<char>,
) -> Seq<char> {
    head + kind_word(kind) + tag + " от @"@ + handle + ": "@ + title + " - "@ + summary
}

pub open spec fn filing_of(
    kind: SubmissionType,
    section: Seq<char>,
    topic_id: Seq<char>,
    topic_title: Seq<char>,
) -> FilingView {
    FilingView { kind, section, topic_id, topic_title }
}

/// The submission a message makes in a flow.
pub open spec fn submission_of(
    msg: Incoming,
    f: FilingView,
    content_type: ContentType,
    summary: Seq<char>,
    file_ref: Seq<char>,
    clock: Clock,
) -> SubmissionView {
    SubmissionView {
        user_id: msg.sender.id as int,
        kind: f.kind,
        section: f.section,
        topic_id: f.topic_id,
        topic_title: f.topic_title,
        content_type,
        summary,
        file_ref,
        message_id: msg.message_id as int,
        date: clock.date@,
        ts: clock.ts@,
    }
}

/// What completes a flow: the stored submission, the optional archival, the
/// praise to the sender and the note to the administrator.
pub open spec fn finish_of(
    cfg: Config,
    msg: Incoming,
    sub: SubmissionView,
    save: Seq<ActionView>,
    reply: Seq<char>,
    note: Seq<char>,
) -> Seq<ActionView> {
    seq![ActionView::Store { op: StoreOpView::InsertSubmission(sub), required: true }] + save + seq![
        ActionView::Send {
            chat: msg.chat as int,
            text: reply,
            markup: MarkupView::MainMenu(msg.sender.id == cfg.admin_id),
        },
        say(cfg.admin_id as int, note),
    ]
}

pub open spec fn save_file_of(
    msg: Incoming,
    f: FilingView,
    file_ref: Seq<char>,
    notice: Seq<char>,
) -> Seq<ActionView> {
    if f.kind == SubmissionType::Conspect {
        seq![
            ActionView::SaveFile {
                file_ref,
                user_id: msg.sender.id as int,
                section: f.section,
                topic_id: f.topic_id,
                chat: msg.chat as int,
                notice: Some(notice),
            },
        ]
    } else {
        seq![]
    }
}

/// A message in `WaitingForContent`: the first recognised content completes
/// the flow; a grouped photo is staged and leaves the state as it is.
pub open spec fn content_step(
    cfg: Config,
    st: StateView,
    f: FilingView,
    msg: Incoming,
    praise: Seq<char>,
    clock: Clock,
) -> StepView {
    let up = seq![upsert_of(msg.sender)];
    match msg.content {
        Content::Photo { file_ref, caption, group } => match group {
            Some(g) => StepView { state: st, actions: up },
            None => {
                let summary = summary_of(text_view_or(caption, seq![]), CAPTION_CAP as nat);
                let sub = submission_of(msg, f, ContentType::Photo, summary, file_ref@, clock);
                StepView {
                    state: StateView::Start,
                    actions: up + finish_of(
                        cfg,
                        msg,
                        sub,
                        save_file_of(msg, f, file_ref@, PHOTO_NOT_SAVED@),
                        praise + " "@ + f.topic_title,
                        note_of(NOTE_PHOTO@, f.kind, ""@, handle_of(msg.sender), f.topic_title, summary),
                    ),
                }
            },
        },
        Content::Document { file_ref, file_name, caption } => {
            let name = text_view_or(file_name, DEFAULT_DOCUMENT_NAME@);
            let summary = summary_of(text_view_or(caption, name), CAPTION_CAP as nat);
            let sub = submission_of(msg, f, ContentType::Document, summary, file_ref@, clock);
            StepView {
                state: StateView::Start,
                actions: up + finish_of(
                    cfg,
                    msg,
                    sub,
                    save_file_of(msg, f, file_ref@, FILE_NOT_SAVED@),
                    praise + " "@ + f.topic_title + FILE_ACCEPTED@,
                    note_of(NOTE_DOCUMENT@, f.kind, TAG_DOCUMENT@, handle_of(msg.sender), f.topic_title, summary),
                ),
            }
        },
        Content::Text(t) => if t@.len() > 0 {
            let summary = summary_of(t@, TEXT_CAP as nat);
            let sub = submission_of(msg, f, ContentType::Text, summary, seq![], clock);
            let save = if f.kind == SubmissionType::Conspect {
                seq![
                    ActionView::SaveText {
                        text: t@,
                        user_id: msg.sender.id as int,
                        section: f.section,
                        topic_id: f.topic_id,
                    },
                ]
            } else {
                seq![]
            };
            StepView {
                state: StateView::Start,
                actions: up + finish_of(
                    cfg,
                    msg,
                    sub,
                    save,
                    praise + " "@ + f.topic_title,
                    note_of(NOTE_TEXT@, f.kind, ""@, handle_of(msg.sender), f.topic_title, summary),
                ),
            }
        } else {
            StepView { state: st, actions: up + seq![say(msg.chat as int, SEND_CONTENT@)] }
        },
        Content::Other => StepView {
            state: st,
            actions: up + seq![say(msg.chat as int, SEND_CONTENT@)],
        },
    }
}

/// A message with no flow under way.
pub open spec fn start_step(
    cfg: Config,
    msg: Incoming,
    open_miss: bool,
    lowered: Seq<char>,
) -> StepView {
    let up = seq![upsert_of(msg.sender)];
    let chat = msg.chat as int;
    let t = text_of(msg.content);
    if !(msg.content is Text) {
        StepView { state: StateView::Start, actions: up }
    } else if t == MENU_DZ@ || t == MENU_CONSPECT@ {
        StepView {
            state: StateView::ChoosingSection {
                kind: if t == MENU_DZ@ {
                    SubmissionType::Dz
                } else {
                    SubmissionType::Conspect
                },
            },
            actions: up + seq![
                ActionView::Send { chat, text: CHOOSE_SECTION@, markup: MarkupView::Sections },
            ],
        }
    } else if t == MENU_ARCHIVE@ {
        StepView {
            state: StateView::Start,
            actions: up + seq![
                say(chat, ARCHIVING@),
                ActionView::SendOwnArchive {
                    chat,
                    user_id: msg.sender.id as int,
                    empty: NO_CONSPECTS@,
                },
            ],
        }
    } else if t == MENU_ADMIN@ {
        if msg.sender.id == cfg.admin_id {
            StepView {
                state: StateView::AdminPanel,
                actions: up + seq![
                    ActionView::Send { chat, text: ADMIN_PANEL@, markup: MarkupView::Admin },
                ],
            }
        } else {
            StepView { state: StateView::Start, actions: up + seq![say(chat, DENIED@)] }
        }
    } else if open_miss {
        StepView {
            state: StateView::Start,
            actions: up + seq![
                ActionView::Store {
                    op: StoreOpView::CloseMissReason { user_id: msg.sender.id as int, reason: t },
                    required: true,
                },
                say(chat, REASON_SAVED@),
            ],
        }
    } else if is_keyword(lowered) {
        StepView { state: StateView::Start, actions: up + seq![say(chat, USE_MENU@)] }
    } else {
        StepView { state: StateView::Start, actions: up }
    }
}

/// The user an administrator's text names: a numeric id, else a handle.
pub open spec fn target_of(s: Seq<char>) -> TargetView {
    match i64_of(s) {
        Some(v) => TargetView::Id(v as int),
        None => TargetView::Handle(s),
    }
}

/// The outcome of a message, given the sender's state, whether they have an
/// open miss reason, the message text lower-cased and trimmed, and the praise
/// phrase to use.
pub open spec fn message_step(
    cfg: Config,
    st: StateView,
    msg: Incoming,
    open_miss: bool,
    lowered: Seq<char>,
    trimmed: Seq<char>,
    praise: Seq<char>,
    clock: Clock,
) -> StepView {
    let up = seq![upsert_of(msg.sender)];
    let chat = msg.chat as int;
    if is_menu_trigger(text_of(msg.content)) {
        StepView {
            state: StateView::Start,
            actions: up + seq![
                ActionView::Send {
                    chat,
                    text: GREETING@,
                    markup: MarkupView::MainMenu(msg.sender.id == cfg.admin_id),
                },
            ],
        }
    } else {
        match st {
            StateView::Start => start_step(cfg, msg, open_miss, lowered),
            StateView::WaitingForContent { kind, section, topic_id, topic_title } => content_step(
                cfg,
                st,
                filing_of(kind, section, topic_id, topic_title),
                msg,
                praise,
                clock,
            ),
            StateView::AdminWaitingForExportUser => StepView {
                state: StateView::AdminPanel,
                actions: up + seq![
                    say(chat, EXPORT_STARTED@),
                    ActionView::Export {
                        chat,
                        target: target_of(strip_leading(trimmed, "@"@)),
                        done: EXPORT_DONE@,
                        failed: EXPORT_FAILED@,
                    },
                ],
            },
            StateView::AdminWaitingForDeleteUser => StepView {
                state: StateView::AdminPanel,
                actions: up + seq![
                    ActionView::Checked {
                        op: StoreOpView::DeleteUser(target_of(trimmed)),
                        chat,
                        done: DELETE_DONE@,
                        failed: DELETE_FAILED@,
                    },
                ],
            },
            _ => StepView { state: st, actions: up },
        }
    }
}

/// The photo a message stages, if it is a grouped photo arriving in
/// `WaitingForContent`: its key, reference, caption and flow.
pub open spec fn staged_photo(st: StateView, msg: Incoming) -> Option<
    ((int, Seq<char>), Seq<char>, Seq<char>, FilingView),
> {
    match (st, msg.content) {
        (
            StateView::WaitingForContent { kind, section, topic_id, topic_title },
            Content::Photo { file_ref, caption, group: Some(g) },
        ) => if is_menu_trigger(text_of(msg.content)) {
            None
        } else {
            Some(
                (
                    (msg.sender.id as int, g@),
                    file_ref@,
                    text_view_or(caption, seq![]),
                    filing_of(kind, section, topic_id, topic_title),
                ),
            )
        },
        _ => None,
    }
}

/// The staging area after a message.
pub open spec fn groups_after(
    m: Map<(int, Seq<char>), crate::media::GroupView>,
    st: StateView,
    msg: Incoming,
    now: int,
) -> Map<(int, Seq<char>), crate::media::GroupView> {
    match staged_photo(st, msg) {
        Some((k, r, c, f)) => m.insert(
            k,
            arrive_spec(
                if m.contains_key(k) {
                    Some(m[k])
                } else {
                    None
                },
                r,
                c,
                now,
                f,
            ),
        ),
        None => m,
    }
}

/// Content that completes a flow on its own: a photo outside any group, a
/// document, or a non-empty text.
pub open spec fn is_complete_content(c: Content) -> bool {
    match c {
        Content::Photo { group, .. } => group is None,
        Content::Document { .. } => true,
        Content::Text(t) => t@.len() > 0,
        Content::Other => false,
    }
}

/// How many submissions a list of actions stores.
pub open spec fn inserts(a: Seq<ActionView>) -> nat
    decreases a.len(),
{
    if a.len() == 0 {
        0
    } else {
        inserts(a.drop_last()) + match a.last() {
            ActionView::Store { op: StoreOpView::InsertSubmission(_), .. } => 1nat,
            _ => 0nat,
        }
    }
}

fn copy_opt(o: &Option<String>) -> (r: Option<String>)
    ensures
        crate::store::opt_view(r) == crate::store::opt_view(*o),
        forall|d: Seq<char>| text_view_or(r, d) == text_view_or(*o, d),
{
    match o {
        Some(s) => Some(s.clone()),
        None => None,
    }
}

fn text_or(o: &Option<String>, d: &str) -> (r: String)
    ensures
        r@ == text_view_or(*o, d@),
{
    match o {
        Some(s) => s.clone(),
        None => String::from_str(d),
    }
}

fn upsert(s: &Sender) -> (r: Action)
    ensures
        r@ == upsert_of(*s),
{
    let rec = UserRecord { id: s.id, username: copy_opt(&s.username), first_name: s.first_name.clone() };
    Action::Store { op: StoreOp::UpsertUser(rec), required: false }
}

fn kind_word_text(kind: SubmissionType) -> (r: &'static str)
    ensures
        r@ == kind_word(kind),
{
    match kind {
        SubmissionType::Dz => "ДЗ",
        SubmissionType::Conspect => "Конспект",
    }
}

fn note_text(
    head: &str,
    kind: SubmissionType,
    tag: &str,
    handle: &str,
    title: &str,
    summary: &str,
) -> (r: String)
    ensures
        r@ == note_of(head@, kind, tag@, handle@, title@, summary@),
{
    String::from_str(head).concat(kind_word_text(kind)).concat(tag).concat(" от @").concat(
        handle,
    ).concat(": ").concat(title).concat(" - ").concat(summary)
}

fn filing_from(state: &DialogueState) -> (r: Option<Filing>)
    ensures
        match state@ {
            StateView::WaitingForContent { kind, section, topic_id, topic_title } => r matches Some(
                f,
            ) && f@ == filing_of(kind, section, topic_id, topic_title),
            _ => r is None,
        },
{
    match state {
        DialogueState::WaitingForContent { kind, section, topic_id, topic_title } => Some(
            Filing {
                kind: *kind,
                section: section.clone(),
                topic_id: topic_id.clone(),
                topic_title: topic_title.clone(),
            },
        ),
        _ => None,
    }
}

fn finish(
    cfg: &Config,
    msg: &Incoming,
    sub: Submission,
    save: Vec<Action>,
    reply: String,
    note: String,
) -> (r: Vec<Action>)
    ensures
        actions_view(r@) == finish_of(*cfg, *msg, sub@, actions_view(save@), reply@, note@),
{
    let ghost sv = sub@;
    let ghost saves = actions_view(save@);
    let mut v: Vec<Action> = Vec::new();
    v.push(Action::Store { op: StoreOp::InsertSubmission(sub), required: true });
    let mut save = save;
    v.append(&mut save);
    v.push(Action::Send { chat: msg.chat, text: reply, markup: Markup::MainMenu(msg.sender.id == cfg.admin_id) });
    v.push(Action::Send { chat: cfg.admin_id, text: note, markup: Markup::Plain });
    assert(actions_view(v@) =~= finish_of(*cfg, *msg, sv, saves, reply@, note@));
    v
}

fn save_file(msg: &Incoming, f: &Filing, file_ref: &String, notice: &str) -> (r: Vec<Action>)
    ensures
        actions_view(r@) == save_file_of(*msg, f@, file_ref@, notice@),
{
    let mut v: Vec<Action> = Vec::new();
    if f.kind == SubmissionType::Conspect {
        v.push(
            Action::SaveFile {
                file_ref: file_ref.clone(),
                user_id: msg.sender.id,
                section: f.section.clone(),
                topic_id: f.topic_id.clone(),
                chat: msg.chat,
                notice: Some(String::from_str(notice)),
            },
        );
    }
    assert(actions_view(v@) =~= save_file_of(*msg, f@, file_ref@, notice@));
    v
}

fn make_submission(
    msg: &Incoming,
    f: &Filing,
    content_type: ContentType,
    summary: String,
    file_ref: String,
    clock: &Clock,
) -> (r: Submission)
    ensures
        r@ == submission_of(*msg, f@, content_type, summary@, file_ref@, *clock),
{
    Submission {
        user_id: msg.sender.id,
        kind: f.kind,
        section: f.section.clone(),
        topic_id: f.topic_id.clone(),
        topic_title: f.topic_title.clone(),
        content_type,
        summary,
        file_ref,
        message_id: msg.message_id,
        date: clock.date.clone(),
        ts: clock.ts.clone(),
    }
}

fn prepend(first: Action, rest: Vec<Action>) -> (r: Vec<Action>)
    ensures
        actions_view(r@) == seq![first@] + actions_view(rest@),
{
    let ghost fv = first@;
    let ghost rv = actions_view(rest@);
    let mut v: Vec<Action> = Vec::new();
    v.push(first);
    let mut rest = rest;
    v.append(&mut rest);
    assert(actions_view(v@) =~= seq![fv] + rv);
    v
}

fn content_step_exec(
    cfg: &Config,
    state: &DialogueState,
    f: Filing,
    msg: &Incoming,
    praise: &str,
    groups: &mut MediaGroups,
    clock: &Clock,
) -> (r: Step)
    requires
        state@ is WaitingForContent,
        f@ == filing_of(
            state@->WaitingForContent_kind,
            state@->WaitingForContent_section,
            state@->WaitingForContent_topic_id,
            state@->WaitingForContent_topic_title,
        ),
        !is_menu_trigger(text_of(msg.content)),
    ensures
        step_view(r) == content_step(*cfg, state@, f@, *msg, praise@, *clock),
        final(groups)@ == groups_after(old(groups)@, state@, *msg, clock.now as int),
{
    let up = upsert(&msg.sender);
    let ghost fv = f@;
    proof {
        reveal_strlit("");
        assert(""@ =~= Seq::<char>::empty());
    }
    match &msg.content {
        Content::Photo { file_ref, caption, group } => {
            match group {
                Some(g) => {
                    let cap = text_or(caption, "");
                    groups.arrive(msg.sender.id, g.clone(), file_ref.clone(), cap, clock.now, f);
                    let mut v: Vec<Action> = Vec::new();
                    v.push(up);
                    assert(actions_view(v@) =~= seq![upsert_of(msg.sender)]);
                    let r = Step { state: state.duplicate(), actions: v };
                    assert(r.state@ == content_step(*cfg, state@, fv, *msg, praise@, *clock).state);
                    assert(step_view(r).actions =~= content_step(*cfg, state@, fv, *msg, praise@, *clock).actions);
                    assert(groups@ == groups_after(old(groups)@, state@, *msg, clock.now as int));
                    r
                },
                None => {
                    let cap = text_or(caption, "");
                    let summary = summarize(cap.as_str(), CAPTION_CAP);
                    let note = note_text(
                        NOTE_PHOTO,
                        f.kind,
                        "",
                        text_or(&msg.sender.username, NO_HANDLE).as_str(),
                        f.topic_title.as_str(),
                        summary.as_str(),
                    );
                    let reply = String::from_str(praise).concat(" ").concat(f.topic_title.as_str());
                    let save = save_file(msg, &f, file_ref, PHOTO_NOT_SAVED);
                    let sub = make_submission(msg, &f, ContentType::Photo, summary, file_ref.clone(), clock);
                    let rest = finish(cfg, msg, sub, save, reply, note);
                    let r = Step { state: DialogueState::Start, actions: prepend(up, rest) };
                    assert(step_view(r).actions =~= content_step(*cfg, state@, fv, *msg, praise@, *clock).actions);
                    assert(groups@ == groups_after(old(groups)@, state@, *msg, clock.now as int));
                    r
                },
            }
        },
        Content::Document { file_ref, file_name, caption } => {
            let name = text_or(file_name, DEFAULT_DOCUMENT_NAME);
            let shown = match caption {
                Some(c) => c.clone(),
                None => name,
            };
            let summary = summarize(shown.as_str(), CAPTION_CAP);
            let note = note_text(
                NOTE_DOCUMENT,
                f.kind,
                TAG_DOCUMENT,
                text_or(&msg.sender.username, NO_HANDLE).as_str(),
                f.topic_title.as_str(),
                summary.as_str(),
            );
            let reply = String::from_str(praise).concat(" ").concat(f.topic_title.as_str()).concat(
                FILE_ACCEPTED,
            );
            let save = save_file(msg, &f, file_ref, FILE_NOT_SAVED);
            let sub = make_submission(msg, &f, ContentType::Document, summary, file_ref.clone(), clock);
            let rest = finish(cfg, msg, sub, save, reply, note);
            Step { state: DialogueState::Start, actions: prepend(up, rest) }
        },
        Content::Text(t) => {
            if t.as_str().unicode_len() > 0 {
                let summary = summarize(t.as_str(), TEXT_CAP);
                let note = note_text(
                    NOTE_TEXT,
                    f.kind,
                    "",
                    text_or(&msg.sender.username, NO_HANDLE).as_str(),
                    f.topic_title.as_str(),
                    summary.as_str(),
                );
                let reply = String::from_str(praise).concat(" ").concat(f.topic_title.as_str());
                let mut save: Vec<Action> = Vec::new();
                if f.kind == SubmissionType::Conspect {
                    save.push(
                        Action::SaveText {
                            text: t.clone(),
                            user_id: msg.sender.id,
                            section: f.section.clone(),
                            topic_id: f.topic_id.clone(),
                        },
                    );
                }
                let ghost saves = actions_view(save@);
                let sub = make_submission(msg, &f, ContentType::Text, summary, String::new(), clock);
                let rest = finish(cfg, msg, sub, save, reply, note);
                proof {
                    if f.kind == SubmissionType::Conspect {
                        assert(saves =~= seq![
                            ActionView::SaveText {
                                text: t@,
                                user_id: msg.sender.id as int,
                                section: fv.section,
                                topic_id: fv.topic_id,
                            },
                        ]);
                    } else {
                        assert(saves =~= Seq::<ActionView>::empty());
                    }
                }
                Step { state: DialogueState::Start, actions: prepend(up, rest) }
            } else {
                let mut v: Vec<Action> = Vec::new();
                v.push(up);
                v.push(send(msg.chat, SEND_CONTENT, Markup::Plain));
                assert(actions_view(v@) =~= seq![upsert_of(msg.sender)] + seq![say(msg.chat as int, SEND_CONTENT@)]);
                Step { state: state.duplicate(), actions: v }
            }
        },
        Content::Other => {
            let mut v: Vec<Action> = Vec::new();
            v.push(up);
            v.push(send(msg.chat, SEND_CONTENT, Markup::Plain));
            assert(actions_view(v@) =~= seq![upsert_of(msg.sender)] + seq![say(msg.chat as int, SEND_CONTENT@)]);
            Step { state: state.duplicate(), actions: v }
        },
    }
}

proof fn lemma_inserts_concat(a: Seq<ActionView>, b: Seq<ActionView>)
    ensures
        inserts(a + b) == inserts(a) + inserts(b),
    decreases b.len(),
{
    if b.len() == 0 {
        assert(a + b =~= a);
    } else {
        lemma_inserts_concat(a, b.drop_last());
        assert((a + b).drop_last() =~= a + b.drop_last());
    }
}

proof fn lemma_no_inserts(a: Seq<ActionView>)
    requires
        forall|i: int| 0 <= i < a.len() ==> !(#[trigger] a[i] is Store),
    ensures
        inserts(a) == 0,
    decreases a.len(),
{
    if a.len() > 0 {
        lemma_no_inserts(a.drop_last());
    }
}

proof fn lemma_finish_inserts_once(
    cfg: Config,
    msg: Incoming,
    sub: SubmissionView,
    save: Seq<ActionView>,
    reply: Seq<char>,
    note: Seq<char>,
)
    requires
        forall|i: int| 0 <= i < save.len() ==> !(#[trigger] save[i] is Store),
    ensures
        inserts(seq![upsert_of(msg.sender)] + finish_of(cfg, msg, sub, save, reply, note)) == 1,
{
    let first = seq![ActionView::Store { op: StoreOpView::InsertSubmission(sub), required: true }];
    let last = seq![
        ActionView::Send {
            chat: msg.chat as int,
            text: reply,
            markup: MarkupView::MainMenu(msg.sender.id == cfg.admin_id),
        },
        say(cfg.admin_id as int, note),
    ];
    let up = seq![upsert_of(msg.sender)];
    lemma_no_inserts(save);
    lemma_no_inserts(last);
    assert(inserts(Seq::<ActionView>::empty()) == 0);
    assert(inserts(up) == 0) by {
        assert(up.drop_last() =~= Seq::<ActionView>::empty());
        assert(up.last() == upsert_of(msg.sender));
    }
    assert(inserts(first) == 1) by {
        assert(first.drop_last() =~= Seq::<ActionView>::empty());
        assert(first.last() == ActionView::Store { op: StoreOpView::InsertSubmission(sub), required: true });
    }
    lemma_inserts_concat(first, save);
    lemma_inserts_concat(first + save, last);
    lemma_inserts_concat(up, first + save + last);
}

proof fn lemma_completed_flow_inserts_once(
    cfg: Config,
    st: StateView,
    msg: Incoming,
    praise: Seq<char>,
    clock: Clock,
)
    requires
        st is WaitingForContent,
        is_complete_content(msg.content),
    ensures
        ({
            let f = filing_of(
                st->WaitingForContent_kind,
                st->WaitingForContent_section,
                st->WaitingForContent_topic_id,
                st->WaitingForContent_topic_title,
            );
            &&& content_step(cfg, st, f, msg, praise, clock).state == StateView::Start
            &&& inserts(content_step(cfg, st, f, msg, praise, clock).actions) == 1
        }),
{
    let f = filing_of(
        st->WaitingForContent_kind,
        st->WaitingForContent_section,
        st->WaitingForContent_topic_id,
        st->WaitingForContent_topic_title,
    );
    match msg.content {
        Content::Photo { file_ref, caption, group } => {
            let summary = summary_of(text_view_or(caption, seq![]), CAPTION_CAP as nat);
            let sub = submission_of(msg, f, ContentType::Photo, summary, file_ref@, clock);
            lemma_finish_inserts_once(
                cfg,
                msg,
                sub,
                save_file_of(msg, f, file_ref@, PHOTO_NOT_SAVED@),
                praise + " "@ + f.topic_title,
                note_of(NOTE_PHOTO@, f.kind, ""@, handle_of(msg.sender), f.topic_title, summary),
            );
        },
        Content::Document { file_ref, file_name, caption } => {
            let name = text_view_or(file_name, DEFAULT_DOCUMENT_NAME@);
            let summary = summary_of(text_view_or(caption, name), CAPTION_CAP as nat);
            let sub = submission_of(msg, f, ContentType::Document, summary, file_ref@, clock);
            lemma_finish_inserts_once(
                cfg,
                msg,
                sub,
                save_file_of(msg, f, file_ref@, FILE_NOT_SAVED@),
                praise + " "@ + f.topic_title + FILE_ACCEPTED@,
                note_of(NOTE_DOCUMENT@, f.kind, TAG_DOCUMENT@, handle_of(msg.sender), f.topic_title, summary),
            );
        },
        Content::Text(t) => {
            let summary = summary_of(t@, TEXT_CAP as nat);
            let sub = submission_of(msg, f, ContentType::Text, summary, seq![], clock);
            let save = if f.kind == SubmissionType::Conspect {
                seq![
                    ActionView::SaveText {
                        text: t@,
                        user_id: msg.sender.id as int,
                        section: f.section,
                        topic_id: f.topic_id,
                    },
                ]
            } else {
                seq![]
            };
            lemma_finish_inserts_once(
                cfg,
                msg,
                sub,
                save,
                praise + " "@ + f.topic_title,
                note_of(NOTE_TEXT@, f.kind, ""@, handle_of(msg.sender), f.topic_title, summary),
            );
        },
        Content::Other => {},
    }
}

fn start_step_exec(cfg: &Config, msg: &Incoming, open_miss: bool, lowered: &str) -> (r: Step)
    requires
        !is_menu_trigger(text_of(msg.content)),
    ensures
        step_view(r) == start_step(*cfg, *msg, open_miss, lowered@),
{
    let up = upsert(&msg.sender);
    let chat = msg.chat;
    let ghost upv = seq![upsert_of(msg.sender)];
    let mut v: Vec<Action> = Vec::new();
    v.push(up);
    let t = match &msg.content {
        Content::Text(t) => t,
        _ => {
            assert(actions_view(v@) =~= upv);
            return Step { state: DialogueState::Start, actions: v };
        },
    };
    let tx = t.as_str();
    if same_text(tx, MENU_DZ) || same_text(tx, MENU_CONSPECT) {
        let kind = if same_text(tx, MENU_DZ) {
            SubmissionType::Dz
        } else {
            SubmissionType::Conspect
        };
        v.push(send(chat, CHOOSE_SECTION, Markup::Sections));
        assert(actions_view(v@) =~= start_step(*cfg, *msg, open_miss, lowered@).actions);
        Step { state: DialogueState::ChoosingSection { kind }, actions: v }
    } else if same_text(tx, MENU_ARCHIVE) {
        v.push(send(chat, ARCHIVING, Markup::Plain));
        v.push(Action::SendOwnArchive { chat, user_id: msg.sender.id, empty: String::from_str(NO_CONSPECTS) });
        assert(actions_view(v@) =~= start_step(*cfg, *msg, open_miss, lowered@).actions);
        Step { state: DialogueState::Start, actions: v }
    } else if same_text(tx, MENU_ADMIN) {
        if msg.sender.id == cfg.admin_id {
            v.push(send(chat, ADMIN_PANEL, Markup::Admin));
            assert(actions_view(v@) =~= start_step(*cfg, *msg, open_miss, lowered@).actions);
            Step { state: DialogueState::AdminPanel, actions: v }
        } else {
            v.push(send(chat, DENIED, Markup::Plain));
            assert(actions_view(v@) =~= start_step(*cfg, *msg, open_miss, lowered@).actions);
            Step { state: DialogueState::Start, actions: v }
        }
    } else if open_miss {
        v.push(
            Action::Store {
                op: StoreOp::CloseMissReason { user_id: msg.sender.id, reason: t.clone() },
                required: true,
            },
        );
        v.push(send(chat, REASON_SAVED, Markup::Plain));
        assert(actions_view(v@) =~= start_step(*cfg, *msg, open_miss, lowered@).actions);
        Step { state: DialogueState::Start, actions: v }
    } else if has_prefix(lowered, "дз") || has_prefix(lowered, "конспект") {
        v.push(send(chat, USE_MENU, Markup::Plain));
        assert(actions_view(v@) =~= start_step(*cfg, *msg, open_miss, lowered@).actions);
        Step { state: DialogueState::Start, actions: v }
    } else {
        assert(actions_view(v@) =~= upv);
        Step { state: DialogueState::Start, actions: v }
    }
}

/// The user an administrator's text names: a numeric id if the text reads as
/// one, else a handle.
pub fn parse_target(s: &str) -> (r: UserTarget)
    ensures
        r@ == target_of(s@),
{
    match parse_i64(s) {
        Some(v) => UserTarget::Id(v),
        None => UserTarget::Handle(String::from_str(s)),
    }
}

fn is_menu_text(t: &str) -> (r: bool)
    ensures
        r == is_menu_trigger(t@),
{
    same_text(t, CMD_START) || same_text(t, CMD_MENU) || same_text(t, MENU_HOME)
}

fn message_text(c: &Content) -> (r: &str)
    ensures
        r@ == text_of(*c),
{
    match c {
        Content::Text(t) => t.as_str(),
        _ => {
            proof {
                reveal_strlit("");
                assert(""@ =~= Seq::<char>::empty());
            }
            ""
        },
    }
}

/// Handles a message, given the sender's state, whether they have an open miss
/// reason, the message text lower-cased and trimmed, the praise phrase to use,
/// the staging area for photo groups and the time.
pub fn step_message(
    cfg: &Config,
    state: &DialogueState,
    msg: &Incoming,
    open_miss: bool,
    lowered: &str,
    trimmed: &str,
    praise: &str,
    groups: &mut MediaGroups,
    clock: &Clock,
) -> (r: Step)
    ensures
        step_view(r) == message_step(*cfg, state@, *msg, open_miss, lowered@, trimmed@, praise@, *clock),
        final(groups)@ == groups_after(old(groups)@, state@, *msg, clock.now as int),
        is_menu_trigger(text_of(msg.content)) ==> r.state@ == StateView::Start,
        state@ is WaitingForContent && is_complete_content(msg.content) && !is_menu_trigger(
            text_of(msg.content),
        ) ==> r.state@ == StateView::Start && inserts(actions_view(r.actions@)) == 1,
        staged_photo(state@, *msg) is Some ==> r.state@ == state@ && inserts(actions_view(r.actions@))
            == 0,
{
    let text = message_text(&msg.content);
    let r = if is_menu_text(text) {
        let mut v: Vec<Action> = Vec::new();
        v.push(upsert(&msg.sender));
        v.push(send(msg.chat, GREETING, Markup::MainMenu(msg.sender.id == cfg.admin_id)));
        assert(actions_view(v@) =~= message_step(*cfg, state@, *msg, open_miss, lowered@, trimmed@, praise@, *clock).actions);
        Step { state: DialogueState::Start, actions: v }
    } else {
        match state {
            DialogueState::Start => start_step_exec(cfg, msg, open_miss, lowered),
            DialogueState::WaitingForContent { .. } => {
                let f = filing_from(state);
                match f {
                    Some(f) => content_step_exec(cfg, state, f, msg, praise, groups, clock),
                    None => {
                        assert(false);
                        Step { state: DialogueState::Start, actions: Vec::new() }
                    },
                }
            },
            DialogueState::AdminWaitingForExportUser => {
                let mut v: Vec<Action> = Vec::new();
                v.push(upsert(&msg.sender));
                v.push(send(msg.chat, EXPORT_STARTED, Markup::Plain));
                proof {
                    reveal_strlit("@");
                }
                let target = parse_target(strip_leading_text(trimmed, "@"));
                v.push(
                    Action::Export {
                        chat: msg.chat,
                        target,
                        done: String::from_str(EXPORT_DONE),
                        failed: String::from_str(EXPORT_FAILED),
                    },
                );
                assert(actions_view(v@) =~= message_step(*cfg, state@, *msg, open_miss, lowered@, trimmed@, praise@, *clock).actions);
                Step { state: DialogueState::AdminPanel, actions: v }
            },
            DialogueState::AdminWaitingForDeleteUser => {
                let mut v: Vec<Action> = Vec::new();
                v.push(upsert(&msg.sender));
                v.push(
                    Action::Checked {
                        op: StoreOp::DeleteUser(parse_target(trimmed)),
                        chat: msg.chat,
                        done: String::from_str(DELETE_DONE),
                        failed: String::from_str(DELETE_FAILED),
                    },
                );
                assert(actions_view(v@) =~= message_step(*cfg, state@, *msg, open_miss, lowered@, trimmed@, praise@, *clock).actions);
                Step { state: DialogueState::AdminPanel, actions: v }
            },
            _ => {
                let mut v: Vec<Action> = Vec::new();
                v.push(upsert(&msg.sender));
                assert(actions_view(v@) =~= message_step(*cfg, state@, *msg, open_miss, lowered@, trimmed@, praise@, *clock).actions);
                Step { state: state.duplicate(), actions: v }
            },
        }
    };
    proof {
        let acts = actions_view(r.actions@);
        if state@ is WaitingForContent && is_complete_content(msg.content) && !is_menu_trigger(text_of(msg.content)) {
            lemma_completed_flow_inserts_once(*cfg, state@, *msg, praise@, *clock);
        }
        if staged_photo(state@, *msg) is Some {
            let up = seq![upsert_of(msg.sender)];
            assert(up.drop_last() =~= Seq::<ActionView>::empty());
            assert(inserts(Seq::<ActionView>::empty()) == 0);
            assert(acts == up);
            assert(inserts(up) == 0);
        }
    }
    r
}

/// The lower-case form of a text, as `str::to_lowercase` gives it.
pub uninterp spec fn lower_of(s: Seq<char>) -> Seq<char>;

/// Relies on `str::to_lowercase`: the result depends on the characters alone.
#[verifier::external_body]
fn lowercase(s: &str) -> (r: String)
    ensures
        r@ == lower_of(s@),
{
    s.to_lowercase()
}

/// The phrases a completed submission is praised with.
pub open spec fn praises() -> Seq<Seq<char>> {
    seq![
        "Молодец, отличная работа!"@,
        "Здорово, так держать!"@,
        "Круто, ты справился!"@,
        "Умница, ДЗ принято!"@,
        "АЙ ЛЕВ"@,
        "Лёва оценил!!!"@,
        "Ты - будущий 100-балльник"@,
        "Имба, Леве понравится!"@,
        "Ну ты прям машина!!"@,
    ]
}

fn praise_list() -> (r: Vec<String>)
    ensures
        r@.map_values(|s: String| s@) == praises(),
{
    let mut v: Vec<String> = Vec::new();
    v.push(String::from_str("Молодец, отличная работа!"));
    v.push(String::from_str("Здорово, так держать!"));
    v.push(String::from_str("Круто, ты справился!"));
    v.push(String::from_str("Умница, ДЗ принято!"));
    v.push(String::from_str("АЙ ЛЕВ"));
    v.push(String::from_str("Лёва оценил!!!"));
    v.push(String::from_str("Ты - будущий 100-балльник"));
    v.push(String::from_str("Имба, Леве понравится!"));
    v.push(String::from_str("Ну ты прям машина!!"));
    assert(v@.map_values(|s: String| s@) =~= praises());
    v
}

/// The praise phrase with index `i`, if there is one.
pub fn praise_at(i: usize) -> (r: Option<String>)
    ensures
        r is None <==> i >= praises().len(),
        r matches Some(p) ==> p@ == praises()[i as int],
{
    let v = praise_list();
    if i < v.len() {
        assert(v@.map_values(|s: String| s@)[i as int] == v@[i as int]@);
        Some(v[i].clone())
    } else {
        None
    }
}

/// Relies on rand's `SliceRandom::choose` with the thread-local generator: it
/// gives nothing for an empty list and else one of its elements.
#[verifier::external_body]
fn choose_index(items: &Vec<usize>) -> (r: Option<usize>)
    ensures
        r is None <==> items@.len() == 0,
        r matches Some(i) ==> items@.contains(i),
{
    items.choose(&mut rand::thread_rng()).copied()
}

/// A praise phrase picked at random: a random index, read by [`praise_at`].
pub fn get_praise() -> (r: String)
    ensures
        praises().contains(r@),
{
    let mut indices: Vec<usize> = Vec::new();
    let mut i: usize = 0;
    while i < 9
        invariant
            i <= 9,
            indices@ == Seq::new(i as nat, |j: int| j as usize),
        decreases 9 - i,
    {
        indices.push(i);
        i = i + 1;
    }
    match choose_index(&indices) {
        Some(k) => {
            match praise_at(k) {
                Some(p) => p,
                None => {
                    assert(false);
                    String::new()
                },
            }
        },
        None => {
            assert(indices@.len() == 9);
            String::new()
        },
    }
}

/// Handles a message: lower-cases and trims its text, picks a praise phrase
/// and does what [`step_message`] says for them.
pub fn handle_message(
    cfg: &Config,
    state: &DialogueState,
    msg: &Incoming,
    open_miss: bool,
    groups: &mut MediaGroups,
    clock: &Clock,
) -> (r: Step)
    ensures
        exists|praise: Seq<char>|
            #[trigger] praises().contains(praise) && step_view(r) == message_step(
                *cfg,
                state@,
                *msg,
                open_miss,
                lower_of(text_of(msg.content)),
                trimmed_of(text_of(msg.content)),
                praise,
                *clock,
            ),
        final(groups)@ == groups_after(old(groups)@, state@, *msg, clock.now as int),
        is_menu_trigger(text_of(msg.content)) ==> r.state@ == StateView::Start,
        state@ is WaitingForContent && is_complete_content(msg.content) && !is_menu_trigger(
            text_of(msg.content),
        ) ==> r.state@ == StateView::Start && inserts(actions_view(r.actions@)) == 1,
        staged_photo(state@, *msg) is Some ==> r.state@ == state@ && inserts(actions_view(r.actions@))
            == 0,
{
    let text = message_text(&msg.content);
    let lowered = lowercase(text);
    let trimmed = trim(text);
    let praise = get_praise();
    step_message(cfg, state, msg, open_miss, lowered.as_str(), trimmed.as_str(), praise.as_str(), groups, clock)
}

} // verus!
