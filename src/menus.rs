//! The layouts of the keyboards: labels and the payloads their buttons carry.
use vstd::prelude::*;
use vstd::string::*;
use crate::buttons::{
    ADMIN_DAILY, ADMIN_DELETE, ADMIN_EXPORT, ADMIN_HISTORY, ADMIN_PREFIX, ADMIN_RESET, ADMIN_SEND_NOW,
    CANCEL, SECTION_PREFIX, TOPIC_PREFIX,
};
use crate::catalog::{pairs_view, section_list, topic_list, topics_of, SECTION_EXAM, SECTION_PYTHON};
use crate::engine::{MENU_ADMIN, MENU_ARCHIVE, MENU_CONSPECT, MENU_DZ, MENU_HOME};

verus! {

pub const CANCEL_LABEL: &'static str = "Отмена";

/// A button: its label and payload.
pub type Button = (String, String);

/// The payload of a section button.
pub open spec fn section_payload_of(section: Seq<char>) -> Seq<char> {
    SECTION_PREFIX@ + section
}

/// The payload of a topic button.
pub open spec fn topic_payload_of(section: Seq<char>, topic_id: Seq<char>) -> Seq<char> {
    TOPIC_PREFIX@ + section + "|"@ + topic_id
}

/// The rows of the main menu; the administrator's has a row for the admin panel.
pub fn main_menu_rows(is_admin: bool) -> (r: Vec<Vec<String>>)
    ensures
        r@.len() == if is_admin {
            3nat
        } else {
            2nat
        },
        r@[0].len() == 2 && r@[0][0]@ == MENU_DZ@ && r@[0][1]@ == MENU_CONSPECT@,
        r@[1].len() == 2 && r@[1][0]@ == MENU_ARCHIVE@ && r@[1][1]@ == MENU_HOME@,
        is_admin ==> r@[2].len() == 1 && r@[2][0]@ == MENU_ADMIN@,
{
    let mut rows: Vec<Vec<String>> = Vec::new();
    let mut first: Vec<String> = Vec::new();
    first.push(String::from_str(MENU_DZ));
    first.push(String::from_str(MENU_CONSPECT));
    rows.push(first);
    let mut second: Vec<String> = Vec::new();
    second.push(String::from_str(MENU_ARCHIVE));
    second.push(String::from_str(MENU_HOME));
    rows.push(second);
    if is_admin {
        let mut third: Vec<String> = Vec::new();
        third.push(String::from_str(MENU_ADMIN));
        rows.push(third);
    }
    rows
}

fn cancel_button() -> (r: Button)
    ensures
        r.0@ == CANCEL_LABEL@,
        r.1@ == CANCEL@,
{
    (String::from_str(CANCEL_LABEL), String::from_str(CANCEL))
}

/// The section buttons, then the cancel button.
pub fn section_buttons() -> (r: Vec<Button>)
    ensures
        r@.len() == 3,
        r@[0].0@ == SECTION_PYTHON@ && r@[0].1@ == section_payload_of(SECTION_PYTHON@),
        r@[1].0@ == SECTION_EXAM@ && r@[1].1@ == section_payload_of(SECTION_EXAM@),
        r@[2].0@ == CANCEL_LABEL@ && r@[2].1@ == CANCEL@,
{
    let names = section_list();
    let mut v: Vec<Button> = Vec::new();
    let mut i: usize = 0;
    while i < names.len()
        invariant
            names@.len() == 2,
            names@[0]@ == SECTION_PYTHON@,
            names@[1]@ == SECTION_EXAM@,
            i <= 2,
            v@.len() == i,
            forall|j: int|
                0 <= j < i ==> (#[trigger] v@[j]).0@ == names@[j]@ && v@[j].1@ == section_payload_of(
                    names@[j]@,
                ),
        decreases 2 - i,
    {
        let payload = String::from_str(SECTION_PREFIX).concat(names[i].as_str());
        v.push((names[i].clone(), payload));
        i = i + 1;
    }
    v.push(cancel_button());
    v
}

/// The topic buttons of a section (titles as labels), then the cancel button.
pub fn topic_buttons(section: &str) -> (r: Vec<Button>)
    ensures
        r@.len() == topics_of(section@).len() + 1,
        forall|j: int|
            0 <= j < topics_of(section@).len() ==> (#[trigger] r@[j]).0@ == topics_of(section@)[j].1
                && r@[j].1@ == topic_payload_of(section@, topics_of(section@)[j].0),
        r@.last().0@ == CANCEL_LABEL@ && r@.last().1@ == CANCEL@,
{
    let topics = topic_list(section);
    let ghost tv = pairs_view(topics@);
    let mut v: Vec<Button> = Vec::new();
    let mut i: usize = 0;
    while i < topics.len()
        invariant
            tv == pairs_view(topics@),
            tv == topics_of(section@),
            i <= topics@.len(),
            v@.len() == i,
            forall|j: int|
                0 <= j < i ==> (#[trigger] v@[j]).0@ == tv[j].1 && v@[j].1@ == topic_payload_of(
                    section@,
                    tv[j].0,
                ),
        decreases topics@.len() - i,
    {
        let payload = String::from_str(TOPIC_PREFIX).concat(section).concat("|").concat(
            topics[i].0.as_str(),
        );
        v.push((topics[i].1.clone(), payload));
        i = i + 1;
    }
    v.push(cancel_button());
    v
}

fn admin_button(label: &str, action: &str) -> (r: Button)
    ensures
        r.0@ == label@,
        r.1@ == ADMIN_PREFIX@ + action@,
{
    (String::from_str(label), String::from_str(ADMIN_PREFIX).concat(action))
}

/// The administrator's buttons, one per row, then the cancel button.
pub fn admin_buttons() -> (r: Vec<Button>)
    ensures
        r@.len() == 7,
        r@[0].0@ == "📋 Дневной отчёт"@ && r@[0].1@ == ADMIN_PREFIX@ + ADMIN_DAILY@,
        r@[1].0@ == "📤 Выслать сейчас"@ && r@[1].1@ == ADMIN_PREFIX@ + ADMIN_SEND_NOW@,
        r@[2].0@ == "📊 Полная история"@ && r@[2].1@ == ADMIN_PREFIX@ + ADMIN_HISTORY@,
        r@[3].0@ == "👤 Выгрузить ученика"@ && r@[3].1@ == ADMIN_PREFIX@ + ADMIN_EXPORT@,
        r@[4].0@ == "🗑️ Удалить ученика"@ && r@[4].1@ == ADMIN_PREFIX@ + ADMIN_DELETE@,
        r@[5].0@ == "♻️ Сброс базы"@ && r@[5].1@ == ADMIN_PREFIX@ + ADMIN_RESET@,
        r@[6].0@ == CANCEL_LABEL@ && r@[6].1@ == CANCEL@,
{
    let mut v: Vec<Button> = Vec::new();
    v.push(admin_button("📋 Дневной отчёт", ADMIN_DAILY));
    v.push(admin_button("📤 Выслать сейчас", ADMIN_SEND_NOW));
    v.push(admin_button("📊 Полная история", ADMIN_HISTORY));
    v.push(admin_button("👤 Выгрузить ученика", ADMIN_EXPORT));
    v.push(admin_button("🗑️ Удалить ученика", ADMIN_DELETE));
    v.push(admin_button("♻️ Сброс базы", ADMIN_RESET));
    v.push(cancel_button());
    v
}

} // verus!
