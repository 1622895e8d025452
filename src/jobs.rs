//! What the periodic jobs decide: whom to message and what to store, what a
//! blocked delivery removes, and what follows a finished photo group.
use vstd::prelude::*;
use vstd::string::*;
use crate::actions::{actions_view, say, Action, ActionView, Markup};
use crate::engine::{kind_word, Config};
use crate::media::Album;
use crate::states::{DialogueState, StateView, SubmissionType};
use crate::store::{StoreOp, StoreOpView, SubmissionView, TargetView, UserTarget};
use crate::text::{decimal, decimal_of, signed_decimal, signed_decimal_of};

verus! {

pub const REMINDER: &'static str = "⏰ Напоминание: не забудьте сегодня сдать ДЗ и/или конспект.";
pub const BROADCAST: &'static str = "Привет от Дани) Желаю удачкиии!!\n\nУ меня все хорошо, просто очень много прогаю и занят стартапом(((";

/// How a delivery went.
#[derive(Clone, Copy, Debug, PartialEq, Eq, Structural)]
pub enum Delivery {
    Delivered,
    /// The user has blocked the bot for good.
    Blocked,
    /// Any other failure, which is ignored.
    Failed,
}

/// One message of a job to one user, after an optional store operation whose
/// failure is ignored.
#[derive(Clone, Debug, PartialEq, Eq)]
pub struct Outreach {
    pub user: i64,
    pub before: Option<StoreOp>,
    pub text: String,
}

/// The view of an optional store operation.
pub open spec fn op_view(o: Option<StoreOp>) -> Option<StoreOpView> {
    match o {
        Some(op) => Some(op@),
        None => None,
    }
}

/// What a delivery outcome asks of the store.
pub open spec fn cleanup_of(user: int, d: Delivery) -> Option<StoreOpView> {
    if d == Delivery::Blocked {
        Some(StoreOpView::DeleteUser(TargetView::Id(user)))
    } else {
        None
    }
}

/// What to do after a delivery: a user who blocked the bot is removed with
/// everything recorded for them; other outcomes change nothing.
pub fn after_delivery(user: i64, d: Delivery) -> (r: Option<StoreOp>)
    ensures
        match r {
            Some(op) => cleanup_of(user as int, d) == Some(op@),
            None => cleanup_of(user as int, d) is None,
        },
{
    if d == Delivery::Blocked {
        Some(StoreOp::DeleteUser(UserTarget::Id(user)))
    } else {
        None
    }
}

/// The same text to each listed user, in order.
pub fn message_all(users: &Vec<i64>, text: &str) -> (r: Vec<Outreach>)
    ensures
        r@.len() == users@.len(),
        forall|i: int|
            0 <= i < r@.len() ==> (#[trigger] r@[i]).user == users@[i] && r@[i].before is None
                && r@[i].text@ == text@,
{
    let mut out: Vec<Outreach> = Vec::new();
    let mut i: usize = 0;
    while i < users.len()
        invariant
            i <= users@.len(),
            out@.len() == i,
            forall|j: int|
                0 <= j < i ==> (#[trigger] out@[j]).user == users@[j] && out@[j].before is None
                    && out@[j].text@ == text@,
        decreases users@.len() - i,
    {
        out.push(Outreach { user: users[i], before: None, text: String::from_str(text) });
        i = i + 1;
    }
    out
}

/// The daily reminder to each listed user.
pub fn reminder_plan(users: &Vec<i64>) -> (r: Vec<Outreach>)
    ensures
        r@.len() == users@.len(),
        forall|i: int|
            0 <= i < r@.len() ==> (#[trigger] r@[i]).user == users@[i] && r@[i].before is None
                && r@[i].text@ == REMINDER@,
{
    message_all(users, REMINDER)
}

/// The periodic greeting to each listed user.
pub fn broadcast_plan(users: &Vec<i64>) -> (r: Vec<Outreach>)
    ensures
        r@.len() == users@.len(),
        forall|i: int|
            0 <= i < r@.len() ==> (#[trigger] r@[i]).user == users@[i] && r@[i].before is None
                && r@[i].text@ == BROADCAST@,
{
    message_all(users, BROADCAST)
}

/// The request for a reason of absence on `date`.
pub open spec fn absence_text(date: Seq<char>) -> Seq<char> {
    "Сегодня ("@ + date + ") ты ничего не сдал(а). Укажи причину пропуска (отправь текст)."@
}

/// The store operations of the absence sweep: an open miss reason for each user.
pub open spec fn absence_ops(users: Seq<i64>, date: Seq<char>) -> Seq<StoreOpView> {
    users.map_values(|u: i64| StoreOpView::OpenMissReason { user_id: u as int, date })
}

/// The absence sweep for the users who handed nothing in on `date`: each gets
/// an open miss reason, unless they have one for that date, and a request for it.
pub fn absence_plan(users: &Vec<i64>, date: &str) -> (r: Vec<Outreach>)
    ensures
        r@.len() == users@.len(),
        forall|i: int|
            0 <= i < r@.len() ==> (#[trigger] r@[i]).user == users@[i] && op_view(r@[i].before) == Some(
                absence_ops(users@, date@)[i],
            ) && r@[i].text@ == absence_text(date@),
{
    let mut out: Vec<Outreach> = Vec::new();
    let mut i: usize = 0;
    while i < users.len()
        invariant
            i <= users@.len(),
            out@.len() == i,
            forall|j: int|
                0 <= j < i ==> (#[trigger] out@[j]).user == users@[j] && op_view(out@[j].before) == Some(
                    absence_ops(users@, date@)[j],
                ) && out@[j].text@ == absence_text(date@),
        decreases users@.len() - i,
    {
        let text = String::from_str("Сегодня (").concat(date).concat(
            ") ты ничего не сдал(а). Укажи причину пропуска (отправь текст).",
        );
        let op = StoreOp::OpenMissReason { user_id: users[i], date: String::from_str(date) };
        out.push(Outreach { user: users[i], before: Some(op), text });
        i = i + 1;
    }
    out
}

/// The administrator's nightly count of the day's submissions.
pub open spec fn summary_text(date: Seq<char>, dz: int, conspect: int) -> Seq<char> {
    "Ежедневный отчёт за "@ + date + ":\nДЗ: "@ + signed_decimal_of(dz) + "\nКонспект: "@
        + signed_decimal_of(conspect)
}

/// The administrator's nightly count of the day's submissions.
pub fn daily_summary(date: &str, dz: i64, conspect: i64) -> (r: String)
    ensures
        r@ == summary_text(date@, dz as int, conspect as int),
{
    let a = signed_decimal(dz);
    let b = signed_decimal(conspect);
    String::from_str("Ежедневный отчёт за ").concat(date).concat(":\nДЗ: ").concat(a.as_str()).concat(
        "\nКонспект: ",
    ).concat(b.as_str())
}

/// The administrator's note on an album.
pub open spec fn album_note(s: SubmissionView) -> Seq<char> {
    "📸 Новый "@ + kind_word(s.kind) + " (АЛЬБОМ) от user_"@ + signed_decimal_of(s.user_id) + ": "@
        + s.topic_title + " - "@ + s.summary
}

/// The sender's receipt for an album of `n` photos.
pub open spec fn album_receipt(n: nat) -> Seq<char> {
    "Альбом принят! ("@ + decimal_of(n) + " фото)"@
}

pub open spec fn album_saves(a: Album) -> Seq<ActionView> {
    if a.submission.kind == SubmissionType::Conspect {
        Seq::new(
            a.refs@.len(),
            |i: int|
                ActionView::SaveFile {
                    file_ref: a.refs@[i]@,
                    user_id: a.user_id as int,
                    section: a.submission.section@,
                    topic_id: a.submission.topic_id@,
                    chat: a.user_id as int,
                    notice: None,
                },
        )
    } else {
        seq![]
    }
}

/// What follows a finished group: its submission is stored; then the copies of
/// a notes album are kept, the sender gets the count and the administrator a note.
pub open spec fn album_steps(cfg: Config, a: Album) -> Seq<ActionView> {
    seq![ActionView::Store { op: StoreOpView::InsertSubmission(a.submission@), required: true }]
        + album_saves(a) + seq![
        say(a.user_id as int, album_receipt(a.refs@.len())),
        say(cfg.admin_id as int, album_note(a.submission@)),
    ]
}

fn kind_word_text(kind: SubmissionType) -> (r: &'static str)
    ensures
        r@ == kind_word(kind),
{
    match kind {
        SubmissionType::Dz => "ДЗ",
        SubmissionType::Conspect => "Конспект",
    }
}

/// The work that follows a finished group.
pub fn album_actions(cfg: &Config, a: &Album) -> (r: Vec<Action>)
    ensures
        actions_view(r@) == album_steps(*cfg, *a),
{
    let s = &a.submission;
    let mut v: Vec<Action> = Vec::new();
    v.push(Action::Store { op: StoreOp::InsertSubmission(s.duplicate()), required: true });
    let ghost head = actions_view(v@);
    assert(head =~= seq![ActionView::Store { op: StoreOpView::InsertSubmission(a.submission@), required: true }]);
    if s.kind == SubmissionType::Conspect {
        let mut i: usize = 0;
        while i < a.refs.len()
            invariant
                i <= a.refs@.len(),
                s == &a.submission,
                s.kind == SubmissionType::Conspect,
                actions_view(v@) =~= head + album_saves(*a).take(i as int),
            decreases a.refs@.len() - i,
        {
            let ghost before = v@;
            v.push(
                Action::SaveFile {
                    file_ref: a.refs[i].clone(),
                    user_id: a.user_id,
                    section: s.section.clone(),
                    topic_id: s.topic_id.clone(),
                    chat: a.user_id,
                    notice: None,
                },
            );
            assert(actions_view(v@) =~= actions_view(before).push(v@[v@.len() - 1]@));
            assert(v@[v@.len() - 1]@ == album_saves(*a)[i as int]);
            assert(album_saves(*a).take(i + 1) =~= album_saves(*a).take(i as int).push(album_saves(*a)[i as int]));
            i = i + 1;
        }
        assert(album_saves(*a).take(a.refs@.len() as int) =~= album_saves(*a));
    } else {
        assert(head + album_saves(*a) =~= head);
    }
    let ghost mid = actions_view(v@);
    assert(mid =~= head + album_saves(*a));
    let n = decimal(a.refs.len() as u64);
    let receipt = String::from_str("Альбом принят! (").concat(n.as_str()).concat(" фото)");
    v.push(Action::Send { chat: a.user_id, text: receipt, markup: Markup::Plain });
    let uid = signed_decimal(s.user_id);
    let note = String::from_str("📸 Новый ").concat(kind_word_text(s.kind)).concat(" (АЛЬБОМ) от user_").concat(
        uid.as_str(),
    ).concat(": ").concat(s.topic_title.as_str()).concat(" - ").concat(s.summary.as_str());
    assert(receipt@ == album_receipt(a.refs@.len()));
    assert(note@ == album_note(a.submission@));
    v.push(Action::Send { chat: cfg.admin_id, text: note, markup: Markup::Plain });
    assert(actions_view(v@) =~= mid + seq![
        say(a.user_id as int, album_receipt(a.refs@.len())),
        say(cfg.admin_id as int, album_note(a.submission@)),
    ]);
    assert(actions_view(v@) =~= album_steps(*cfg, *a));
    v
}

/// The state of the album's sender once the album is stored: a flow still
/// waiting for content of the same topic is over; any other state stays.
pub open spec fn settled(st: StateView, s: SubmissionView) -> StateView {
    match st {
        StateView::WaitingForContent { kind, section, topic_id, topic_title } => if kind == s.kind
            && section == s.section && topic_id == s.topic_id && topic_title == s.topic_title {
            StateView::Start
        } else {
            st
        },
        _ => st,
    }
}

/// The state of the album's sender once the album is stored.
pub fn settle_after_album(state: &DialogueState, a: &Album) -> (r: DialogueState)
    ensures
        r@ == settled(state@, a.submission@),
{
    let s = &a.submission;
    match state {
        DialogueState::WaitingForContent { kind, section, topic_id, topic_title } => {
            if *kind == s.kind && *section == s.section && *topic_id == s.topic_id && *topic_title
                == s.topic_title {
                DialogueState::Start
            } else {
                state.duplicate()
            }
        },
        _ => state.duplicate(),
    }
}

} // verus!
