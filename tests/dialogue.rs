use homework_bot::actions::{Action, Markup};
use homework_bot::buttons::{step_press, Press};
use homework_bot::engine::{
    handle_message, step_message, Clock, Config, Content, Incoming, Sender, Step,
};
use homework_bot::media::MediaGroups;
use homework_bot::states::{DialogueState, SubmissionType};
use homework_bot::store::{ContentType, StoreOp, UserTarget};

const ADMIN: i64 = 1000;

fn cfg() -> Config {
    Config { admin_id: ADMIN }
}

fn clock(now: i64) -> Clock {
    Clock { now, date: "2024-05-01".to_string(), ts: "2024-05-01T10:00:00+00:00".to_string() }
}

fn sender(id: i64) -> Sender {
    Sender { id, username: Some("kid".to_string()), first_name: "Kid".to_string() }
}

fn text_msg(id: i64, t: &str) -> Incoming {
    Incoming { chat: id, message_id: 5, sender: sender(id), content: Content::Text(t.to_string()) }
}

fn waiting(kind: SubmissionType) -> DialogueState {
    DialogueState::WaitingForContent {
        kind,
        section: "Основы Питона".to_string(),
        topic_id: "op1".to_string(),
        topic_title: "Вводный урок".to_string(),
    }
}

fn step(state: &DialogueState, msg: &Incoming, groups: &mut MediaGroups) -> Step {
    step_message(&cfg(), state, msg, false, "", "", "Молодец!", groups, &clock(0))
}

fn inserted(actions: &[Action]) -> Vec<homework_bot::store::Submission> {
    actions
        .iter()
        .filter_map(|a| match a {
            Action::Store { op: StoreOp::InsertSubmission(s), .. } => Some(s.clone()),
            _ => None,
        })
        .collect()
}

fn press(user: i64, data: &str) -> Press {
    Press { id: "q1".to_string(), user, message_id: 77, data: Some(data.to_string()) }
}

#[test]
fn menu_trigger_resets_every_state() {
    let states = vec![
        DialogueState::Start,
        DialogueState::ChoosingSection { kind: SubmissionType::Dz },
        DialogueState::ChoosingTopic { kind: SubmissionType::Conspect, section: "X".to_string() },
        waiting(SubmissionType::Dz),
        DialogueState::AdminPanel,
        DialogueState::AdminWaitingForExportUser,
        DialogueState::AdminWaitingForDeleteUser,
    ];
    for trigger in ["/start", "/menu", "📌 Главное меню"] {
        for st in &states {
            let mut g = MediaGroups::new();
            let r = step(st, &text_msg(3, trigger), &mut g);
            assert_eq!(r.state, DialogueState::Start);
            assert_eq!(
                r.actions[1],
                Action::Send {
                    chat: 3,
                    text: "Привет! Я бот для сдачи ДЗ и конспектов.\nВыбери действие:".to_string(),
                    markup: Markup::MainMenu(false),
                }
            );
        }
    }
}

#[test]
fn every_message_upserts_the_sender() {
    let mut g = MediaGroups::new();
    let r = step(&DialogueState::AdminPanel, &text_msg(3, "hi"), &mut g);
    assert_eq!(r.state, DialogueState::AdminPanel);
    assert_eq!(r.actions.len(), 1);
    match &r.actions[0] {
        Action::Store { op: StoreOp::UpsertUser(u), required } => {
            assert!(!required);
            assert_eq!(u.id, 3);
            assert_eq!(u.username.as_deref(), Some("kid"));
        }
        other => panic!("unexpected {:?}", other),
    }
}

#[test]
fn homework_text_scenario() {
    let c = cfg();
    let mut g = MediaGroups::new();
    let r = step(&DialogueState::Start, &text_msg(7, "/start"), &mut g);
    assert_eq!(r.state, DialogueState::Start);
    let r = step(&r.state, &text_msg(7, "📚 Сдать ДЗ"), &mut g);
    assert_eq!(r.state, DialogueState::ChoosingSection { kind: SubmissionType::Dz });
    assert_eq!(
        r.actions[1],
        Action::Send { chat: 7, text: "Выбери раздел:".to_string(), markup: Markup::Sections }
    );
    let r = step_press(&c, &r.state, &press(7, "section|Основы Питона"), "2024-05-01");
    assert_eq!(
        r.state,
        DialogueState::ChoosingTopic { kind: SubmissionType::Dz, section: "Основы Питона".to_string() }
    );
    assert_eq!(
        r.actions,
        vec![Action::Edit {
            chat: 7,
            message_id: 77,
            text: "Раздел: Основы Питона\nВыбери тему:".to_string(),
            markup: Markup::Topics("Основы Питона".to_string()),
        }]
    );
    let r = step_press(&c, &r.state, &press(7, "topic|Основы Питона|op1"), "2024-05-01");
    assert_eq!(r.state, waiting(SubmissionType::Dz));
    assert_eq!(
        r.actions,
        vec![Action::Edit {
            chat: 7,
            message_id: 77,
            text: "Тема: Вводный урок\nОтправь ДЗ (фото, файл или текст).".to_string(),
            markup: Markup::Cleared,
        }]
    );
    let r = step(&r.state, &text_msg(7, "done"), &mut g);
    assert_eq!(r.state, DialogueState::Start);
    let subs = inserted(&r.actions);
    assert_eq!(subs.len(), 1);
    let s = &subs[0];
    assert_eq!(s.kind, SubmissionType::Dz);
    assert_eq!(s.section, "Основы Питона");
    assert_eq!(s.topic_id, "op1");
    assert_eq!(s.content_type, ContentType::Text);
    assert_eq!(s.content_code(), "text");
    assert_eq!(s.kind_code(), "dz");
    assert_eq!(s.summary, "done");
    assert_eq!(s.file_ref, "");
    assert_eq!(s.message_id, 5);
    assert_eq!(s.date, "2024-05-01");
    assert_eq!(
        r.actions[2],
        Action::Send {
            chat: 7,
            text: "Молодец! Вводный урок".to_string(),
            markup: Markup::MainMenu(false),
        }
    );
    assert_eq!(
        r.actions[3],
        Action::Send {
            chat: ADMIN,
            text: "✅ Новый ДЗ от @kid: Вводный урок - done".to_string(),
            markup: Markup::Plain,
        }
    );
}

#[test]
fn single_photo_completes_the_flow() {
    let mut g = MediaGroups::new();
    let msg = Incoming {
        chat: 7,
        message_id: 9,
        sender: Sender { id: 7, username: None, first_name: "A".to_string() },
        content: Content::Photo { file_ref: "F1".to_string(), caption: Some("look".to_string()), group: None },
    };
    let r = step(&waiting(SubmissionType::Conspect), &msg, &mut g);
    assert_eq!(r.state, DialogueState::Start);
    let subs = inserted(&r.actions);
    assert_eq!(subs.len(), 1);
    assert_eq!(subs[0].content_type, ContentType::Photo);
    assert_eq!(subs[0].file_ref, "F1");
    assert_eq!(subs[0].summary, "look");
    assert_eq!(
        r.actions[2],
        Action::SaveFile {
            file_ref: "F1".to_string(),
            user_id: 7,
            section: "Основы Питона".to_string(),
            topic_id: "op1".to_string(),
            chat: 7,
            notice: Some("⚠️ Файл не удалось сохранить на диск. Попробуй еще раз.".to_string()),
        }
    );
    assert_eq!(
        r.actions[4],
        Action::Send {
            chat: ADMIN,
            text: "📸 Новый Конспект от @noname: Вводный урок - look".to_string(),
            markup: Markup::Plain,
        }
    );
}

#[test]
fn document_uses_file_name_when_no_caption() {
    let mut g = MediaGroups::new();
    let msg = Incoming {
        chat: 7,
        message_id: 9,
        sender: sender(7),
        content: Content::Document { file_ref: "D1".to_string(), file_name: Some("hw.pdf".to_string()), caption: None },
    };
    let r = step(&waiting(SubmissionType::Dz), &msg, &mut g);
    assert_eq!(r.state, DialogueState::Start);
    let subs = inserted(&r.actions);
    assert_eq!(subs.len(), 1);
    assert_eq!(subs[0].content_type, ContentType::Document);
    assert_eq!(subs[0].summary, "hw.pdf");
    assert_eq!(
        r.actions[2],
        Action::Send {
            chat: 7,
            text: "Молодец! Вводный урок (Файл принят)".to_string(),
            markup: Markup::MainMenu(false),
        }
    );
    let msg = Incoming {
        chat: 7,
        message_id: 9,
        sender: sender(7),
        content: Content::Document { file_ref: "D1".to_string(), file_name: None, caption: None },
    };
    let r = step(&waiting(SubmissionType::Dz), &msg, &mut g);
    assert_eq!(inserted(&r.actions)[0].summary, "document");
}

#[test]
fn unrecognised_content_asks_again() {
    let mut g = MediaGroups::new();
    let msg = Incoming { chat: 7, message_id: 9, sender: sender(7), content: Content::Other };
    let r = step(&waiting(SubmissionType::Dz), &msg, &mut g);
    assert_eq!(r.state, waiting(SubmissionType::Dz));
    assert!(inserted(&r.actions).is_empty());
    assert_eq!(
        r.actions[1],
        Action::Send { chat: 7, text: "Пожалуйста, отправь фото, файл или текст.".to_string(), markup: Markup::Plain }
    );
}

#[test]
fn grouped_photo_is_staged_without_submission() {
    let mut g = MediaGroups::new();
    let msg = Incoming {
        chat: 7,
        message_id: 9,
        sender: sender(7),
        content: Content::Photo { file_ref: "P1".to_string(), caption: None, group: Some("G".to_string()) },
    };
    let r = step(&waiting(SubmissionType::Dz), &msg, &mut g);
    assert_eq!(r.state, waiting(SubmissionType::Dz));
    assert_eq!(r.actions.len(), 1);
    assert!(inserted(&r.actions).is_empty());
    let albums = g.flush(10_000, "2024-05-01", "ts");
    assert_eq!(albums.len(), 1);
    assert_eq!(albums[0].refs, vec!["P1".to_string()]);
}

#[test]
fn start_menu_entries() {
    let mut g = MediaGroups::new();
    let r = step(&DialogueState::Start, &text_msg(7, "📘 Сдать конспект"), &mut g);
    assert_eq!(r.state, DialogueState::ChoosingSection { kind: SubmissionType::Conspect });
    let r = step(&DialogueState::Start, &text_msg(7, "📁 Мои конспекты"), &mut g);
    assert_eq!(
        r.actions[2],
        Action::SendOwnArchive { chat: 7, user_id: 7, empty: "У тебя пока нет сохранённых конспектов.".to_string() }
    );
    let r = step(&DialogueState::Start, &text_msg(7, "🛠️ Админ-панель"), &mut g);
    assert_eq!(r.state, DialogueState::Start);
    assert_eq!(r.actions[1], Action::Send { chat: 7, text: "Доступ запрещён.".to_string(), markup: Markup::Plain });
    let r = step(&DialogueState::Start, &text_msg(ADMIN, "🛠️ Админ-панель"), &mut g);
    assert_eq!(r.state, DialogueState::AdminPanel);
    assert_eq!(r.actions[1], Action::Send { chat: ADMIN, text: "Админ-панель:".to_string(), markup: Markup::Admin });
}

#[test]
fn free_text_fills_open_miss_reason() {
    let mut g = MediaGroups::new();
    let r = step_message(&cfg(), &DialogueState::Start, &text_msg(7, "sick"), true, "sick", "sick", "", &mut g, &clock(0));
    assert_eq!(
        r.actions[1],
        Action::Store { op: StoreOp::CloseMissReason { user_id: 7, reason: "sick".to_string() }, required: true }
    );
    assert_eq!(r.actions[2], Action::Send { chat: 7, text: "Причина сохранена, спасибо.".to_string(), markup: Markup::Plain });
    let r = step_message(&cfg(), &DialogueState::Start, &text_msg(7, "sick"), false, "sick", "sick", "", &mut g, &clock(0));
    assert_eq!(r.actions.len(), 1);
}

#[test]
fn keyword_guidance_goes_through_lowercasing() {
    let mut g = MediaGroups::new();
    let r = handle_message(&cfg(), &DialogueState::Start, &text_msg(7, "ДЗ сделал"), false, &mut g, &clock(0));
    assert_eq!(r.actions.len(), 2);
    assert_eq!(
        r.actions[1],
        Action::Send { chat: 7, text: "Пожалуйста, используй меню для сдачи работ.".to_string(), markup: Markup::Plain }
    );
    let r = handle_message(&cfg(), &DialogueState::Start, &text_msg(7, "Конспект тут"), false, &mut g, &clock(0));
    assert_eq!(r.actions.len(), 2);
    let r = handle_message(&cfg(), &DialogueState::Start, &text_msg(7, "привет"), false, &mut g, &clock(0));
    assert_eq!(r.actions.len(), 1);
}

#[test]
fn handle_message_praises_with_a_known_phrase() {
    let mut g = MediaGroups::new();
    let r = handle_message(&cfg(), &waiting(SubmissionType::Dz), &text_msg(7, "done"), false, &mut g, &clock(0));
    assert_eq!(r.state, DialogueState::Start);
    let phrases = [
        "Молодец, отличная работа!", "Здорово, так держать!", "Круто, ты справился!",
        "Умница, ДЗ принято!", "АЙ ЛЕВ", "Лёва оценил!!!", "Ты - будущий 100-балльник",
        "Имба, Леве понравится!", "Ну ты прям машина!!",
    ];
    match &r.actions[2] {
        Action::Send { text, .. } => {
            assert!(phrases.iter().any(|p| *text == format!("{} Вводный урок", p)));
        }
        other => panic!("unexpected {:?}", other),
    }
}

#[test]
fn delete_target_42() {
    let mut g = MediaGroups::new();
    let r = handle_message(&cfg(), &DialogueState::AdminWaitingForDeleteUser, &text_msg(ADMIN, "42"), false, &mut g, &clock(0));
    assert_eq!(r.state, DialogueState::AdminPanel);
    assert_eq!(
        r.actions[1],
        Action::Checked {
            op: StoreOp::DeleteUser(UserTarget::Id(42)),
            chat: ADMIN,
            done: "Пользователь удален.".to_string(),
            failed: "Ошибка удаления.".to_string(),
        }
    );
}

#[test]
fn delete_target_is_trimmed() {
    let mut g = MediaGroups::new();
    let r = handle_message(&cfg(), &DialogueState::AdminWaitingForDeleteUser, &text_msg(ADMIN, "  42 \n"), false, &mut g, &clock(0));
    match &r.actions[1] {
        Action::Checked { op, .. } => assert_eq!(*op, StoreOp::DeleteUser(UserTarget::Id(42))),
        other => panic!("unexpected {:?}", other),
    }
    let r = handle_message(&cfg(), &DialogueState::AdminWaitingForDeleteUser, &text_msg(ADMIN, " kid "), false, &mut g, &clock(0));
    match &r.actions[1] {
        Action::Checked { op, .. } => assert_eq!(*op, StoreOp::DeleteUser(UserTarget::Handle("kid".to_string()))),
        other => panic!("unexpected {:?}", other),
    }
}

#[test]
fn export_target_drops_at_sign() {
    let mut g = MediaGroups::new();
    let r = handle_message(&cfg(), &DialogueState::AdminWaitingForExportUser, &text_msg(ADMIN, " @kid "), false, &mut g, &clock(0));
    assert_eq!(r.state, DialogueState::AdminPanel);
    assert_eq!(r.actions[1], Action::Send { chat: ADMIN, text: "Начинаю выгрузку...".to_string(), markup: Markup::Plain });
    assert_eq!(
        r.actions[2],
        Action::Export {
            chat: ADMIN,
            target: UserTarget::Handle("kid".to_string()),
            done: "Готово.".to_string(),
            failed: "Пользователь не найден или ошибка.".to_string(),
        }
    );
}

#[test]
fn long_text_is_truncated_in_summary() {
    let mut g = MediaGroups::new();
    let long: String = "я".repeat(301);
    let r = step(&waiting(SubmissionType::Conspect), &text_msg(7, &long), &mut g);
    let s = &inserted(&r.actions)[0];
    assert_eq!(s.summary.chars().count(), 300);
    assert!(s.summary.ends_with("..."));
    assert_eq!(
        r.actions[2],
        Action::SaveText { text: long.clone(), user_id: 7, section: "Основы Питона".to_string(), topic_id: "op1".to_string() }
    );
}
