//! Properties that relate several operations: album collection, the absence
//! sweep, deletions and the clean-up of blocked users.
use vstd::prelude::*;
use crate::jobs::{absence_ops, cleanup_of, Delivery};
use crate::media::{album_of, arrive_spec, is_due, joined, FilingView, GroupView, DEBOUNCE_MS};
use crate::buttons::{press_step, Press, CANCEL, SECTION_PREFIX, TOPIC_PREFIX};
use crate::catalog::topic_title_of;
use crate::engine::{is_menu_trigger, message_step, text_of, Clock, Config, Incoming, StepView};
use crate::menus::{section_payload_of, topic_payload_of};
use crate::states::{StateView, SubmissionType};
use crate::text::{field_of, fields_of, lemma_fields_nonempty};
use crate::store::{
    apply, apply_all, resolve, succeeds, user_ids, ContentType, StoreModel, StoreOpView, TargetView,
};

verus! {

/// The staging area after photos of group `key` arrive in order, the `i`-th
/// with reference `refs[i]` and caption `captions[i]` at time `times[i]`.
pub open spec fn arrivals(
    m: Map<(int, Seq<char>), GroupView>,
    key: (int, Seq<char>),
    refs: Seq<Seq<char>>,
    captions: Seq<Seq<char>>,
    times: Seq<int>,
    filing: FilingView,
) -> Map<(int, Seq<char>), GroupView>
    decreases refs.len(),
{
    if refs.len() == 0 {
        m
    } else {
        let prev = arrivals(m, key, refs.drop_last(), captions.drop_last(), times.drop_last(), filing);
        prev.insert(
            key,
            arrive_spec(
                if prev.contains_key(key) {
                    Some(prev[key])
                } else {
                    None
                },
                refs.last(),
                captions.last(),
                times.last(),
                filing,
            ),
        )
    }
}

proof fn lemma_arrivals(
    m: Map<(int, Seq<char>), GroupView>,
    key: (int, Seq<char>),
    refs: Seq<Seq<char>>,
    captions: Seq<Seq<char>>,
    times: Seq<int>,
    filing: FilingView,
)
    requires
        !m.contains_key(key),
        refs.len() > 0,
        captions.len() == refs.len(),
        times.len() == refs.len(),
    ensures
        ({
            let g = arrivals(m, key, refs, captions, times, filing);
            &&& g.contains_key(key)
            &&& g[key].refs == refs
            &&& g[key].updated_at == times.last()
            &&& g[key].filing == filing
            &&& forall|k: (int, Seq<char>)|
                k != key ==> (#[trigger] g.contains_key(k) == m.contains_key(k) && (g.contains_key(k)
                    ==> g[k] == m[k]))
        }),
    decreases refs.len(),
{
    let g = arrivals(m, key, refs, captions, times, filing);
    if refs.len() == 1 {
        assert(refs.drop_last() =~= Seq::<Seq<char>>::empty());
        assert(arrivals(m, key, refs.drop_last(), captions.drop_last(), times.drop_last(), filing) == m);
        assert(g[key].refs =~= refs);
    } else {
        lemma_arrivals(m, key, refs.drop_last(), captions.drop_last(), times.drop_last(), filing);
        let prev = arrivals(m, key, refs.drop_last(), captions.drop_last(), times.drop_last(), filing);
        assert(prev[key].refs.push(refs.last()) =~= refs);
    }
}

/// Photos of one group that arrive in order, into a staging area that does not
/// hold the group yet, make one entry with all their references in arrival
/// order, last touched at the last arrival. The group is due exactly when the
/// debounce window has passed since that last arrival; until then a flush keeps
/// it and stores nothing. Its album then holds all references joined in order,
/// and other groups are left as they were.
pub proof fn lemma_group_collects_in_order(
    m: Map<(int, Seq<char>), GroupView>,
    key: (int, Seq<char>),
    refs: Seq<Seq<char>>,
    captions: Seq<Seq<char>>,
    times: Seq<int>,
    filing: FilingView,
    now: int,
    date: Seq<char>,
    ts: Seq<char>,
)
    requires
        !m.contains_key(key),
        refs.len() > 0,
        captions.len() == refs.len(),
        times.len() == refs.len(),
    ensures
        ({
            let g = arrivals(m, key, refs, captions, times, filing);
            &&& g.contains_key(key)
            &&& g[key].refs == refs
            &&& (is_due(g[key], now) <==> now - times.last() >= DEBOUNCE_MS)
            &&& album_of(key, g[key], date, ts).file_ref == joined(refs, seq![';'])
            &&& album_of(key, g[key], date, ts).content_type == ContentType::PhotoAlbum
            &&& album_of(key, g[key], date, ts).user_id == key.0
            &&& forall|k: (int, Seq<char>)|
                k != key ==> (#[trigger] g.contains_key(k) == m.contains_key(k))
        }),
{
    lemma_arrivals(m, key, refs, captions, times, filing);
}

/// Every user has exactly one dialogue state. A message replaces its sender's
/// state by the one its step gives and leaves every other user's as it was; a
/// menu trigger makes the sender's state `Start`, whatever it was.
pub proof fn lemma_one_state_per_user(
    states: Map<int, StateView>,
    cfg: Config,
    msg: Incoming,
    open_miss: bool,
    lowered: Seq<char>,
    trimmed: Seq<char>,
    praise: Seq<char>,
    clock: Clock,
)
    requires
        states.contains_key(msg.sender.id as int),
    ensures
        ({
            let uid = msg.sender.id as int;
            let after = states.insert(
                uid,
                message_step(cfg, states[uid], msg, open_miss, lowered, trimmed, praise, clock).state,
            );
            &&& after.dom() == states.dom()
            &&& forall|u: int| u != uid && #[trigger] states.contains_key(u) ==> after[u] == states[u]
            &&& is_menu_trigger(text_of(msg.content)) ==> after[uid] == StateView::Start
        }),
{
    let uid = msg.sender.id as int;
    let after = states.insert(
        uid,
        message_step(cfg, states[uid], msg, open_miss, lowered, trimmed, praise, clock).state,
    );
    assert(after.dom() =~= states.dom());
}

/// The store after the absence sweep's operations: each listed user has a miss
/// reason for `date`, an existing one kept as it was.
pub open spec fn opened(m: StoreModel, users: Seq<i64>, date: Seq<char>) -> StoreModel {
    StoreModel {
        misses: Map::new(
            |k: (int, Seq<char>)|
                m.misses.contains_key(k) || (k.1 == date && exists|i: int|
                    0 <= i < users.len() && #[trigger] users[i] as int == k.0),
            |k: (int, Seq<char>)|
                if m.misses.contains_key(k) {
                    m.misses[k]
                } else {
                    seq![]
                },
        ),
        ..m
    }
}

proof fn lemma_open_all(m: StoreModel, users: Seq<i64>, date: Seq<char>)
    ensures
        apply_all(m, absence_ops(users, date)) == opened(m, users, date),
    decreases users.len(),
{
    let ops = absence_ops(users, date);
    if users.len() == 0 {
        assert(opened(m, users, date).misses =~= m.misses);
        assert(opened(m, users, date) == m);
    } else {
        let m1 = apply(m, ops[0]);
        assert(ops.drop_first() =~= absence_ops(users.drop_first(), date));
        lemma_open_all(m1, users.drop_first(), date);
        let rest = users.drop_first();
        assert forall|k: (int, Seq<char>)|
            (exists|i: int| 0 <= i < users.len() && #[trigger] users[i] as int == k.0) <==> (k.0
                == users[0] as int || exists|i: int| 0 <= i < rest.len() && #[trigger] rest[i] as int == k.0) by {
            if exists|i: int| 0 <= i < users.len() && #[trigger] users[i] as int == k.0 {
                let i = choose|i: int| 0 <= i < users.len() && #[trigger] users[i] as int == k.0;
                if i > 0 {
                    assert(rest[i - 1] == users[i]);
                }
            }
            if exists|i: int| 0 <= i < rest.len() && #[trigger] rest[i] as int == k.0 {
                let i = choose|i: int| 0 <= i < rest.len() && #[trigger] rest[i] as int == k.0;
                assert(users[i + 1] == rest[i]);
            }
        }
        assert(opened(m1, rest, date).misses =~= opened(m, users, date).misses);
    }
}

/// Running the absence sweep's store operations twice for one date leaves the
/// store as running them once: nobody gets a second miss reason, and a miss
/// reason that already existed is kept as it was.
pub proof fn lemma_absence_sweep_idempotent(m: StoreModel, users: Seq<i64>, date: Seq<char>)
    ensures
        ({
            let once = apply_all(m, absence_ops(users, date));
            &&& apply_all(once, absence_ops(users, date)) == once
            &&& forall|k: (int, Seq<char>)|
                #[trigger] m.misses.contains_key(k) ==> once.misses.contains_key(k) && once.misses[k]
                    == m.misses[k]
        }),
{
    let once = apply_all(m, absence_ops(users, date));
    lemma_open_all(m, users, date);
    lemma_open_all(once, users, date);
    assert(opened(once, users, date).misses =~= once.misses);
    assert(opened(once, users, date) == once);
}

/// Deleting by a target that names no user fails and removes nothing.
pub proof fn lemma_unknown_target_untouched(m: StoreModel, t: TargetView)
    requires
        resolve(m, t) is None,
    ensures
        apply(m, StoreOpView::DeleteUser(t)) == m,
        !succeeds(m, StoreOpView::DeleteUser(t)),
{
}

/// A listed user whose delivery is reported blocked is gone after the clean-up:
/// no longer listed, so no later job messages them, and with no submission or
/// miss reason left.
pub proof fn lemma_blocked_user_removed(m: StoreModel, user: i64)
    requires
        user_ids(m).contains(user as int),
    ensures
        cleanup_of(user as int, Delivery::Blocked) is Some,
        ({
            let after = apply(m, cleanup_of(user as int, Delivery::Blocked)->Some_0);
            &&& !user_ids(after).contains(user as int)
            &&& forall|i: int|
                0 <= i < after.submissions.len() ==> (#[trigger] after.submissions[i]).user_id
                    != user as int
            &&& forall|k: (int, Seq<char>)| #[trigger] after.misses.contains_key(k) ==> k.0 != user as int
        }),
{
    let after = apply(m, cleanup_of(user as int, Delivery::Blocked)->Some_0);
    assert forall|i: int| 0 <= i < after.submissions.len() implies (#[trigger] after.submissions[i]).user_id
        != user as int by {
        let keep = |s: crate::store::SubmissionView| s.user_id != user as int;
        m.submissions.lemma_filter_pred(keep, i);
    }
}

proof fn lemma_fields_join(x: Seq<char>, y: Seq<char>)
    ensures
        fields_of(x + seq!['|'] + y) == fields_of(x) + fields_of(y),
    decreases y.len(),
{
    let z = x + seq!['|'] + y;
    lemma_fields_nonempty(x);
    if y.len() == 0 {
        assert(z.drop_last() =~= x);
        assert(fields_of(y) =~= seq![Seq::<char>::empty()]);
        assert(fields_of(z) =~= fields_of(x) + fields_of(y));
    } else {
        let y1 = y.drop_last();
        assert(z.drop_last() =~= x + seq!['|'] + y1);
        lemma_fields_join(x, y1);
        lemma_fields_nonempty(y1);
        let fx = fields_of(x);
        let fy = fields_of(y1);
        if y.last() == '|' {
            assert(fields_of(z) =~= fx + fy.push(seq![]));
        } else {
            assert(fields_of(z) =~= fx + fy.update(fy.len() - 1, fy.last().push(y.last())));
        }
        assert(fields_of(z) =~= fields_of(x) + fields_of(y));
    }
}

proof fn lemma_fields_plain(s: Seq<char>)
    requires
        !s.contains('|'),
    ensures
        fields_of(s) == seq![s],
    decreases s.len(),
{
    if s.len() == 0 {
        assert(s =~= Seq::<char>::empty());
        assert(fields_of(s) =~= seq![s]);
    } else {
        let t = s.drop_last();
        assert(!t.contains('|')) by {
            if t.contains('|') {
                let i = choose|i: int| 0 <= i < t.len() && t[i] == '|';
                assert(s[i] == '|');
            }
        }
        lemma_fields_plain(t);
        assert(s.last() != '|') by {
            assert(s[s.len() - 1] == s.last());
        }
        assert(t.push(s.last()) =~= s);
        assert(fields_of(s) =~= seq![t].update(0, t.push(s.last())));
        assert(fields_of(s) =~= seq![s]);
    }
}

/// A section button's payload is read back as its section: pressed while a
/// section is being chosen, it moves the flow on to that section's topics.
/// Section names holding `|` are not supported.
pub proof fn lemma_section_button_read_back(
    cfg: Config,
    kind: SubmissionType,
    section: Seq<char>,
    p: Press,
    date: Seq<char>,
)
    requires
        !section.contains('|'),
        p.data matches Some(d) && d@ == section_payload_of(section),
    ensures
        press_step(cfg, StateView::ChoosingSection { kind }, p, date).state
            == (StateView::ChoosingTopic { kind, section }),
{
    reveal_strlit("section|");
    reveal_strlit("section");
    reveal_strlit("cancel");
    let d = section_payload_of(section);
    assert(SECTION_PREFIX@ =~= "section"@ + seq!['|']);
    assert(d =~= "section"@ + seq!['|'] + section);
    lemma_fields_join("section"@, section);
    lemma_fields_plain("section"@);
    lemma_fields_plain(section);
    assert(fields_of(d) =~= seq!["section"@, section]);
    assert(d[0] == 's');
    assert(CANCEL@[0] == 'c');
    assert(d.subrange(0, 8) =~= SECTION_PREFIX@);
    assert(field_of(d, 1) == section);
}

/// A topic button's payload is read back as its section and topic: pressed
/// while a topic is being chosen, it moves the flow on to waiting for content
/// of that topic, titled from the catalog (or with the default title).
/// Names holding `|` are not supported.
pub proof fn lemma_topic_button_read_back(
    cfg: Config,
    kind: SubmissionType,
    chosen: Seq<char>,
    section: Seq<char>,
    topic_id: Seq<char>,
    p: Press,
    date: Seq<char>,
)
    requires
        !section.contains('|'),
        !topic_id.contains('|'),
        p.data matches Some(d) && d@ == topic_payload_of(section, topic_id),
    ensures
        press_step(cfg, StateView::ChoosingTopic { kind, section: chosen }, p, date).state
            == (StateView::WaitingForContent {
            kind,
            section,
            topic_id,
            topic_title: match topic_title_of(section, topic_id) {
                Some(t) => t,
                None => "Тема"@,
            },
        }),
{
    reveal_strlit("topic|");
    reveal_strlit("topic");
    reveal_strlit("section|");
    reveal_strlit("cancel");
    reveal_strlit("|");
    let d = topic_payload_of(section, topic_id);
    assert(TOPIC_PREFIX@ =~= "topic"@ + seq!['|']);
    assert(d =~= ("topic"@ + seq!['|'] + section) + seq!['|'] + topic_id);
    lemma_fields_join("topic"@ + seq!['|'] + section, topic_id);
    lemma_fields_join("topic"@, section);
    lemma_fields_plain("topic"@);
    lemma_fields_plain(section);
    lemma_fields_plain(topic_id);
    assert(fields_of(d) =~= seq!["topic"@, section, topic_id]);
    assert(d[0] == 't');
    assert(CANCEL@[0] == 'c');
    assert(SECTION_PREFIX@[0] == 's');
    assert(d.subrange(0, 6) =~= TOPIC_PREFIX@);
}

} // verus!
