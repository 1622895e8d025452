//! The sections and topics a submission can be filed under, and the menus
//! offered to users.
use vstd::prelude::*;
use vstd::string::*;
use crate::text::{decimal, decimal_of, has_prefix, is_prefix, same_text, strip_leading, strip_leading_text};

verus! {

/// The section of the Python course.
pub const SECTION_PYTHON: &'static str = "Основы Питона";

/// The section of the exam tasks.
pub const SECTION_EXAM: &'static str = "ЕГЭ 1-27";

/// The number of exam tasks.
pub const EXAM_TASKS: u64 = 27;

/// The topics of the Python section, as (identifier, title).
pub open spec fn python_topics() -> Seq<(Seq<char>, Seq<char>)> {
    seq![
        ("op1"@, "Вводный урок"@),
        ("op2"@, "Условия и операторы"@),
        ("op3"@, "Цикл for"@),
        ("op4"@, "Цикл while"@),
        ("op5"@, "Практика: циклы"@),
        ("op6"@, "Строки и срезы"@),
        ("op7"@, "Списки"@),
    ]
}

/// The topics of the exam section: task `i` has identifier `ege<i>`.
pub open spec fn exam_topics() -> Seq<(Seq<char>, Seq<char>)> {
    Seq::new(
        EXAM_TASKS as nat,
        |i: int| ("ege"@ + decimal_of((i + 1) as nat), "Задание "@ + decimal_of((i + 1) as nat)),
    )
}

/// The topics offered for a section.
pub open spec fn topics_of(section: Seq<char>) -> Seq<(Seq<char>, Seq<char>)> {
    if section == SECTION_PYTHON@ {
        python_topics()
    } else if section == SECTION_EXAM@ {
        exam_topics()
    } else {
        seq![]
    }
}

/// The title of the first entry of `table` with identifier `id`.
pub open spec fn lookup_title(table: Seq<(Seq<char>, Seq<char>)>, id: Seq<char>) -> Option<
    Seq<char>,
>
    decreases table.len(),
{
    if table.len() == 0 {
        None
    } else if table[0].0 == id {
        Some(table[0].1)
    } else {
        lookup_title(table.drop_first(), id)
    }
}

/// The title of a topic: an exam identifier `ege<n>` is titled `Задание <n>` for
/// any `n`; a Python topic takes its title from the table.
pub open spec fn topic_title_of(section: Seq<char>, topic_id: Seq<char>) -> Option<Seq<char>> {
    if section == SECTION_EXAM@ && is_prefix("ege"@, topic_id) {
        Some("Задание "@ + strip_leading(topic_id, "ege"@))
    } else if section == SECTION_PYTHON@ {
        lookup_title(python_topics(), topic_id)
    } else {
        None
    }
}

/// The view of a list of (identifier, title) pairs.
pub open spec fn pairs_view(v: Seq<(String, String)>) -> Seq<(Seq<char>, Seq<char>)> {
    v.map_values(|p: (String, String)| (p.0@, p.1@))
}

fn pair(a: &str, b: &str) -> (r: (String, String))
    ensures
        r.0@ == a@,
        r.1@ == b@,
{
    (String::from_str(a), String::from_str(b))
}

fn python_topic_list() -> (r: Vec<(String, String)>)
    ensures
        pairs_view(r@) == python_topics(),
{
    let mut v: Vec<(String, String)> = Vec::new();
    v.push(pair("op1", "Вводный урок"));
    v.push(pair("op2", "Условия и операторы"));
    v.push(pair("op3", "Цикл for"));
    v.push(pair("op4", "Цикл while"));
    v.push(pair("op5", "Практика: циклы"));
    v.push(pair("op6", "Строки и срезы"));
    v.push(pair("op7", "Списки"));
    assert(pairs_view(v@) =~= python_topics());
    v
}

fn exam_topic_list() -> (r: Vec<(String, String)>)
    ensures
        pairs_view(r@) == exam_topics(),
{
    let mut v: Vec<(String, String)> = Vec::new();
    let mut i: u64 = 0;
    while i < EXAM_TASKS
        invariant
            i <= EXAM_TASKS,
            pairs_view(v@) =~= exam_topics().take(i as int),
        decreases EXAM_TASKS - i,
    {
        let n = decimal(i + 1);
        let id = String::from_str("ege").concat(n.as_str());
        let title = String::from_str("Задание ").concat(n.as_str());
        let ghost before = v@;
        v.push((id, title));
        assert(pairs_view(v@) =~= pairs_view(before).push(exam_topics()[i as int]));
        assert(exam_topics().take(i + 1) =~= exam_topics().take(i as int).push(exam_topics()[i as int]));
        i = i + 1;
    }
    assert(exam_topics().take(EXAM_TASKS as int) =~= exam_topics());
    v
}

/// The (identifier, title) pairs of the topics of a section, in menu order.
pub fn topic_list(section: &str) -> (r: Vec<(String, String)>)
    ensures
        pairs_view(r@) == topics_of(section@),
{
    if same_text(section, SECTION_PYTHON) {
        python_topic_list()
    } else if same_text(section, SECTION_EXAM) {
        exam_topic_list()
    } else {
        let v: Vec<(String, String)> = Vec::new();
        assert(pairs_view(v@) =~= seq![]);
        v
    }
}

/// The sections, in menu order.
pub fn section_list() -> (r: Vec<String>)
    ensures
        r@.len() == 2,
        r@[0]@ == SECTION_PYTHON@,
        r@[1]@ == SECTION_EXAM@,
{
    let mut v: Vec<String> = Vec::new();
    v.push(String::from_str(SECTION_PYTHON));
    v.push(String::from_str(SECTION_EXAM));
    v
}

fn find_title(table: &Vec<(String, String)>, id: &str) -> (r: Option<String>)
    ensures
        r matches Some(t) ==> lookup_title(pairs_view(table@), id@) == Some(t@),
        r is None ==> lookup_title(pairs_view(table@), id@) is None,
{
    let mut i: usize = 0;
    assert(pairs_view(table@).skip(0) =~= pairs_view(table@));
    while i < table.len()
        invariant
            i <= table@.len(),
            lookup_title(pairs_view(table@), id@) == lookup_title(pairs_view(table@).skip(i as int), id@),
        decreases table@.len() - i,
    {
        let ghost rest = pairs_view(table@).skip(i as int);
        assert(rest.drop_first() =~= pairs_view(table@).skip(i + 1));
        if same_text(table[i].0.as_str(), id) {
            return Some(table[i].1.clone());
        }
        i = i + 1;
    }
    assert(pairs_view(table@).skip(i as int) =~= seq![]);
    None
}

/// The title of a topic of a section, if the topic is known.
pub fn get_topic_title(section: &str, topic_id: &str) -> (r: Option<String>)
    ensures
        r matches Some(t) ==> topic_title_of(section@, topic_id@) == Some(t@),
        r is None ==> topic_title_of(section@, topic_id@) is None,
{
    if same_text(section, SECTION_EXAM) && has_prefix(topic_id, "ege") {
        let num = strip_leading_text(topic_id, "ege");
        return Some(String::from_str("Задание ").concat(num));
    }
    if same_text(section, SECTION_PYTHON) {
        let table = python_topic_list();
        find_title(&table, topic_id)
    } else {
        None
    }
}

} // verus!
