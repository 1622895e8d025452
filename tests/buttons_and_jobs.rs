use homework_bot::actions::{Action, Markup};
use homework_bot::buttons::{step_press, Press};
use homework_bot::catalog::get_topic_title;
use homework_bot::engine::{parse_target, Config};
use homework_bot::jobs::{
    absence_plan, after_delivery, album_actions, broadcast_plan, daily_summary, reminder_plan,
    settle_after_album, Delivery,
};
use homework_bot::media::{Filing, MediaGroups};
use homework_bot::menus::{admin_buttons, main_menu_rows, section_buttons, topic_buttons};
use homework_bot::states::{DialogueState, SubmissionType};
use homework_bot::store::{ContentType, StoreOp, UserTarget};
use homework_bot::text::{decimal, field, parse_i64, signed_decimal, split_fields, summarize};

const ADMIN: i64 = 1000;

fn cfg() -> Config {
    Config { admin_id: ADMIN }
}

fn press(user: i64, data: &str) -> Press {
    Press { id: "q1".to_string(), user, message_id: 77, data: Some(data.to_string()) }
}

fn filing(kind: SubmissionType) -> Filing {
    Filing {
        kind,
        section: "ЕГЭ 1-27".to_string(),
        topic_id: "ege5".to_string(),
        topic_title: "Задание 5".to_string(),
    }
}

#[test]
fn caption_of_250_chars_is_cut_to_200() {
    let cap: String = "a".repeat(250);
    let s = summarize(&cap, 200);
    assert_eq!(s.chars().count(), 200);
    assert!(s.ends_with("..."));
    assert_eq!(&s[..197], &cap[..197]);
}

#[test]
fn text_of_301_chars_is_cut_to_300() {
    let t: String = "b".repeat(301);
    let s = summarize(&t, 300);
    assert_eq!(s.chars().count(), 300);
    assert!(s.ends_with("..."));
}

#[test]
fn short_texts_are_kept_verbatim() {
    assert_eq!(summarize("done", 300), "done");
    let t: String = "c".repeat(300);
    assert_eq!(summarize(&t, 300), t);
    assert_eq!(summarize("", 200), "");
    let multi: String = "ж".repeat(200);
    assert_eq!(summarize(&multi, 200), multi);
}

#[test]
fn album_of_three_photos_after_debounce() {
    let mut g = MediaGroups::new();
    g.arrive(7, "G1".to_string(), "p1".to_string(), "".to_string(), 0, filing(SubmissionType::Conspect));
    g.arrive(7, "G1".to_string(), "p2".to_string(), "our work".to_string(), 500, filing(SubmissionType::Dz));
    g.arrive(7, "G1".to_string(), "p3".to_string(), "".to_string(), 1000, filing(SubmissionType::Dz));
    assert!(g.flush(1000, "2024-05-01", "ts").is_empty());
    assert!(g.flush(2999, "2024-05-01", "ts").is_empty());
    let albums = g.flush(3000, "2024-05-01", "ts");
    assert_eq!(albums.len(), 1);
    let a = &albums[0];
    assert_eq!(a.user_id, 7);
    assert_eq!(a.group, "G1");
    assert_eq!(a.refs, vec!["p1".to_string(), "p2".to_string(), "p3".to_string()]);
    let s = &a.submission;
    assert_eq!(s.file_ref, "p1;p2;p3");
    assert_eq!(s.content_type, ContentType::PhotoAlbum);
    assert_eq!(s.content_code(), "photo_album");
    assert_eq!(s.summary, "our work");
    assert_eq!(s.message_id, 0);
    assert_eq!(s.kind, SubmissionType::Conspect);
    assert_eq!(s.topic_title, "Задание 5");
    assert!(g.flush(10_000, "2024-05-01", "ts").is_empty());
}

#[test]
fn groups_are_flushed_independently() {
    let mut g = MediaGroups::new();
    g.arrive(7, "A".to_string(), "a1".to_string(), "".to_string(), 0, filing(SubmissionType::Dz));
    g.arrive(8, "A".to_string(), "b1".to_string(), "".to_string(), 1500, filing(SubmissionType::Dz));
    let first = g.flush(2500, "d", "t");
    assert_eq!(first.len(), 1);
    assert_eq!(first[0].user_id, 7);
    let second = g.flush(3500, "d", "t");
    assert_eq!(second.len(), 1);
    assert_eq!(second[0].user_id, 8);
    assert_eq!(second[0].submission.file_ref, "b1");
}

#[test]
fn album_caption_is_truncated() {
    let mut g = MediaGroups::new();
    let cap: String = "x".repeat(250);
    g.arrive(7, "G".to_string(), "p".to_string(), cap, 0, filing(SubmissionType::Dz));
    let albums = g.flush(2000, "d", "t");
    assert_eq!(albums[0].submission.summary.chars().count(), 200);
    assert!(albums[0].submission.summary.ends_with("..."));
}

#[test]
fn album_follow_up_actions() {
    let mut g = MediaGroups::new();
    g.arrive(7, "G".to_string(), "p1".to_string(), "hi".to_string(), 0, filing(SubmissionType::Conspect));
    g.arrive(7, "G".to_string(), "p2".to_string(), "".to_string(), 100, filing(SubmissionType::Conspect));
    let albums = g.flush(5000, "d", "t");
    let acts = album_actions(&cfg(), &albums[0]);
    assert_eq!(acts.len(), 5);
    assert!(matches!(&acts[0], Action::Store { op: StoreOp::InsertSubmission(_), required: true }));
    assert!(matches!(&acts[1], Action::SaveFile { file_ref, notice: None, .. } if file_ref == "p1"));
    assert!(matches!(&acts[2], Action::SaveFile { file_ref, .. } if file_ref == "p2"));
    assert_eq!(acts[3], Action::Send { chat: 7, text: "Альбом принят! (2 фото)".to_string(), markup: Markup::Plain });
    assert_eq!(
        acts[4],
        Action::Send {
            chat: ADMIN,
            text: "📸 Новый Конспект (АЛЬБОМ) от user_7: Задание 5 - hi".to_string(),
            markup: Markup::Plain,
        }
    );
}

#[test]
fn album_ends_matching_flow_only() {
    let mut g = MediaGroups::new();
    g.arrive(7, "G".to_string(), "p1".to_string(), "".to_string(), 0, filing(SubmissionType::Dz));
    let albums = g.flush(5000, "d", "t");
    let same = DialogueState::WaitingForContent {
        kind: SubmissionType::Dz,
        section: "ЕГЭ 1-27".to_string(),
        topic_id: "ege5".to_string(),
        topic_title: "Задание 5".to_string(),
    };
    assert_eq!(settle_after_album(&same, &albums[0]), DialogueState::Start);
    let other = DialogueState::ChoosingSection { kind: SubmissionType::Dz };
    assert_eq!(settle_after_album(&other, &albums[0]), other);
}

#[test]
fn blocked_user_is_deleted() {
    assert_eq!(after_delivery(7, Delivery::Blocked), Some(StoreOp::DeleteUser(UserTarget::Id(7))));
    assert_eq!(after_delivery(7, Delivery::Failed), None);
    assert_eq!(after_delivery(7, Delivery::Delivered), None);
}

#[test]
fn reminder_and_broadcast_reach_listed_users() {
    let users = vec![3, 7];
    let r = reminder_plan(&users);
    assert_eq!(r.len(), 2);
    assert_eq!(r[1].user, 7);
    assert_eq!(r[0].text, "⏰ Напоминание: не забудьте сегодня сдать ДЗ и/или конспект.");
    assert!(r[0].before.is_none());
    let b = broadcast_plan(&vec![3]);
    assert!(b[0].text.starts_with("Привет от Дани)"));
    assert!(reminder_plan(&vec![]).is_empty());
}

#[test]
fn absence_sweep_opens_reasons() {
    let r = absence_plan(&vec![3, 7], "2024-05-01");
    assert_eq!(r.len(), 2);
    assert_eq!(r[1].user, 7);
    assert_eq!(r[1].before, Some(StoreOp::OpenMissReason { user_id: 7, date: "2024-05-01".to_string() }));
    assert_eq!(r[1].text, "Сегодня (2024-05-01) ты ничего не сдал(а). Укажи причину пропуска (отправь текст).");
}

#[test]
fn nightly_summary_text() {
    assert_eq!(daily_summary("2024-05-01", 12, 0), "Ежедневный отчёт за 2024-05-01:\nДЗ: 12\nКонспект: 0");
}

#[test]
fn topic_titles() {
    assert_eq!(get_topic_title("Основы Питона", "op3"), Some("Цикл for".to_string()));
    assert_eq!(get_topic_title("Основы Питона", "op8"), None);
    assert_eq!(get_topic_title("ЕГЭ 1-27", "ege12"), Some("Задание 12".to_string()));
    assert_eq!(get_topic_title("ЕГЭ 1-27", "egeege3"), Some("Задание 3".to_string()));
    assert_eq!(get_topic_title("ЕГЭ 1-27", "op1"), None);
    assert_eq!(get_topic_title("Other", "op1"), None);
}

#[test]
fn keyboards() {
    assert_eq!(main_menu_rows(false).len(), 2);
    assert_eq!(main_menu_rows(true)[2], vec!["🛠️ Админ-панель".to_string()]);
    let s = section_buttons();
    assert_eq!(s[1], ("ЕГЭ 1-27".to_string(), "section|ЕГЭ 1-27".to_string()));
    assert_eq!(s[2], ("Отмена".to_string(), "cancel".to_string()));
    let t = topic_buttons("ЕГЭ 1-27");
    assert_eq!(t.len(), 28);
    assert_eq!(t[26], ("Задание 27".to_string(), "topic|ЕГЭ 1-27|ege27".to_string()));
    let p = topic_buttons("Основы Питона");
    assert_eq!(p.len(), 8);
    assert_eq!(p[6], ("Списки".to_string(), "topic|Основы Питона|op7".to_string()));
    assert_eq!(topic_buttons("?").len(), 1);
    assert_eq!(admin_buttons()[5].1, "admin|reset_all");
}

#[test]
fn cancel_press() {
    let st = DialogueState::ChoosingTopic { kind: SubmissionType::Dz, section: "S".to_string() };
    let r = step_press(&cfg(), &st, &press(7, "cancel"), "d");
    assert_eq!(r.state, DialogueState::Start);
    assert_eq!(r.actions[0], Action::Send { chat: 7, text: "Операция отменена.".to_string(), markup: Markup::MainMenu(false) });
    assert_eq!(r.actions[1], Action::Answer { callback_id: "q1".to_string(), text: None, alert: false });
}

#[test]
fn stale_section_press_is_answered() {
    let r = step_press(&cfg(), &DialogueState::Start, &press(7, "section|Основы Питона"), "d");
    assert_eq!(r.state, DialogueState::Start);
    assert_eq!(
        r.actions,
        vec![Action::Answer { callback_id: "q1".to_string(), text: Some("Сессия истекла, начни заново".to_string()), alert: false }]
    );
}

#[test]
fn malformed_presses_are_ignored() {
    let st = DialogueState::ChoosingTopic { kind: SubmissionType::Dz, section: "S".to_string() };
    let r = step_press(&cfg(), &st, &press(7, "topic|S"), "d");
    assert_eq!(r.state, st);
    assert!(r.actions.is_empty());
    let r = step_press(&cfg(), &st, &press(7, "whatever"), "d");
    assert!(r.actions.is_empty());
    let r = step_press(&cfg(), &st, &Press { id: "q".to_string(), user: 7, message_id: 0, data: None }, "d");
    assert!(r.actions.is_empty());
    let r = step_press(&cfg(), &DialogueState::Start, &press(7, "admin|reset_all"), "d");
    assert!(r.actions.is_empty());
}

#[test]
fn unknown_topic_gets_default_title() {
    let st = DialogueState::ChoosingTopic { kind: SubmissionType::Conspect, section: "S".to_string() };
    let r = step_press(&cfg(), &st, &press(7, "topic|S|zz"), "d");
    assert_eq!(
        r.state,
        DialogueState::WaitingForContent {
            kind: SubmissionType::Conspect,
            section: "S".to_string(),
            topic_id: "zz".to_string(),
            topic_title: "Тема".to_string(),
        }
    );
    match &r.actions[0] {
        Action::Edit { text, .. } => assert_eq!(text, "Тема: Тема\nОтправь конспект (фото, файл или текст)."),
        other => panic!("unexpected {:?}", other),
    }
}

#[test]
fn admin_presses() {
    let st = DialogueState::AdminPanel;
    let r = step_press(&cfg(), &st, &press(ADMIN, "admin|daily_full"), "2024-05-01");
    assert_eq!(
        r.actions[1],
        Action::DailyReport { chat: ADMIN, date: "2024-05-01".to_string(), failed: "Ошибка генерации отчета".to_string() }
    );
    let r = step_press(&cfg(), &st, &press(ADMIN, "admin|full_history_manual"), "d");
    assert_eq!(r.actions[1], Action::FullHistory { chat: ADMIN });
    let r = step_press(&cfg(), &st, &press(ADMIN, "admin|export_user"), "d");
    assert_eq!(r.state, DialogueState::AdminWaitingForExportUser);
    let r = step_press(&cfg(), &st, &press(ADMIN, "admin|delete_user"), "d");
    assert_eq!(r.state, DialogueState::AdminWaitingForDeleteUser);
    let r = step_press(&cfg(), &st, &press(ADMIN, "admin|reset_all"), "d");
    assert_eq!(r.actions[0], Action::Store { op: StoreOp::ResetAll, required: true });
    assert_eq!(r.actions[1], Action::ResetFiles);
    assert_eq!(r.actions[2], Action::Answer { callback_id: "q1".to_string(), text: Some("База сброшена!".to_string()), alert: true });
    let r = step_press(&cfg(), &st, &press(ADMIN, "admin|nope"), "d");
    assert_eq!(r.actions, vec![Action::Answer { callback_id: "q1".to_string(), text: None, alert: false }]);
}

#[test]
fn integer_parsing() {
    assert_eq!(parse_i64("42"), Some(42));
    assert_eq!(parse_i64("-42"), Some(-42));
    assert_eq!(parse_i64("+7"), Some(7));
    assert_eq!(parse_i64("9223372036854775807"), Some(i64::MAX));
    assert_eq!(parse_i64("-9223372036854775808"), Some(i64::MIN));
    assert_eq!(parse_i64("9223372036854775808"), None);
    assert_eq!(parse_i64(""), None);
    assert_eq!(parse_i64("-"), None);
    assert_eq!(parse_i64("4a"), None);
    assert_eq!(parse_i64("@42"), None);
    assert_eq!(parse_target("42"), UserTarget::Id(42));
    assert_eq!(parse_target("kid"), UserTarget::Handle("kid".to_string()));
}

#[test]
fn fields_and_numbers() {
    assert_eq!(split_fields("topic|a|b"), vec!["topic".to_string(), "a".to_string(), "b".to_string()]);
    assert_eq!(split_fields(""), vec!["".to_string()]);
    assert_eq!(split_fields("a||"), vec!["a".to_string(), "".to_string(), "".to_string()]);
    assert_eq!(field("section|X|Y", 1), "X");
    assert_eq!(field("section", 1), "");
    assert_eq!(decimal(0), "0");
    assert_eq!(decimal(1234567890), "1234567890");
    assert_eq!(signed_decimal(-15), "-15");
    assert_eq!(signed_decimal(i64::MIN), "-9223372036854775808");
}

#[test]
fn slugs_keep_letters_and_digits() {
    assert_eq!(homework_bot::text::slugify("ЕГЭ 1-27"), "ЕГЭ_1_27");
    assert_eq!(homework_bot::text::slugify("op1"), "op1");
    assert_eq!(homework_bot::text::slugify(""), "");
}

#[test]
fn trimming_matches_whitespace_of_std() {
    let samples = ["  42 ", "\t\n kid\u{a0}", "\u{3000}a b\u{2029}", "", "   ", "x", "\u{200b}x"];
    for s in samples {
        assert_eq!(homework_bot::text::trim(s), s.trim());
    }
}

#[test]
fn praise_by_index() {
    assert_eq!(homework_bot::engine::praise_at(0), Some("Молодец, отличная работа!".to_string()));
    assert_eq!(homework_bot::engine::praise_at(8), Some("Ну ты прям машина!!".to_string()));
    assert_eq!(homework_bot::engine::praise_at(9), None);
}

#[test]
fn section_press_follows_payload_grammar() {
    let st = DialogueState::ChoosingSection { kind: SubmissionType::Dz };
    let r = step_press(&cfg(), &st, &press(7, "section|A"), "d");
    assert_eq!(r.state, DialogueState::ChoosingTopic { kind: SubmissionType::Dz, section: "A".to_string() });
    let r = step_press(&cfg(), &st, &press(7, "sec|A"), "d");
    assert_eq!(r.state, st);
    assert!(r.actions.is_empty());
}
