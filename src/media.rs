//! The media-group aggregator: photos delivered one by one under a shared
//! group key are staged here and turned into one album submission once the
//! group has been quiet for the debounce window.
use vstd::prelude::*;
use vstd::string::*;
use dashmap::DashMap;
use crate::states::SubmissionType;
use crate::store::{ContentType, Submission, SubmissionView};
use crate::text::{summarize, summary_of};

verus! {

/// How long a group must stay quiet before it is finalized, in milliseconds.
pub const DEBOUNCE_MS: i64 = 2000;

/// The longest stored summary of an album's caption.
pub const CAPTION_CAP: usize = 200;

/// The flow a submission belongs to: kind, section and topic.
#[derive(Clone, Debug, PartialEq, Eq)]
pub struct Filing {
    pub kind: SubmissionType,
    pub section: String,
    pub topic_id: String,
    pub topic_title: String,
}

pub struct FilingView {
    pub kind: SubmissionType,
    pub section: Seq<char>,
    pub topic_id: Seq<char>,
    pub topic_title: Seq<char>,
}

impl View for Filing {
    type V = FilingView;

    open spec fn view(&self) -> FilingView {
        FilingView {
            kind: self.kind,
            section: self.section@,
            topic_id: self.topic_id@,
            topic_title: self.topic_title@,
        }
    }
}

impl Filing {
    /// A copy of this filing.
    pub fn duplicate(&self) -> (r: Filing)
        ensures
            r@ == self@,
    {
        Filing {
            kind: self.kind,
            section: self.section.clone(),
            topic_id: self.topic_id.clone(),
            topic_title: self.topic_title.clone(),
        }
    }
}

/// An in-progress group: its file references in arrival order, the latest
/// non-empty caption, when it was last touched, and the flow it was opened in.
pub struct GroupEntry {
    pub refs: Vec<String>,
    pub caption: String,
    pub updated_at: i64,
    pub filing: Filing,
}

pub struct GroupView {
    pub refs: Seq<Seq<char>>,
    pub caption: Seq<char>,
    pub updated_at: int,
    pub filing: FilingView,
}

/// The view of a list of texts.
pub open spec fn texts_view(v: Seq<String>) -> Seq<Seq<char>> {
    v.map_values(|s: String| s@)
}

impl View for GroupEntry {
    type V = GroupView;

    open spec fn view(&self) -> GroupView {
        GroupView {
            refs: texts_view(self.refs@),
            caption: self.caption@,
            updated_at: self.updated_at as int,
            filing: self.filing@,
        }
    }
}

/// A group is keyed by its sender and the group key the transport gave.
pub open spec fn key_view(k: (i64, String)) -> (int, Seq<char>) {
    (k.0 as int, k.1@)
}

#[verifier::external_type_specification]
#[verifier::external_body]
#[verifier::reject_recursive_types(K)]
#[verifier::reject_recursive_types(V)]
#[verifier::reject_recursive_types(S)]
pub struct ExDashMap<K, V, S>(DashMap<K, V, S>);

/// The map that holds the groups, keyed by (sender, group key).
pub type GroupMap = DashMap<(i64, String), GroupEntry>;

/// The groups a map holds, by key.
pub uninterp spec fn pending_of(m: GroupMap) -> Map<(int, Seq<char>), GroupView>;

/// No group at all.
pub open spec fn no_groups() -> Map<(int, Seq<char>), GroupView> {
    Map::empty()
}

/// Relies on `DashMap::new`: a new map holds nothing.
#[verifier::external_body]
fn empty_map() -> (r: GroupMap)
    ensures
        pending_of(r) == no_groups(),
{
    DashMap::new()
}

/// Relies on `DashMap::insert`: the key now maps to the value, replacing any
/// earlier one.
#[verifier::external_body]
fn map_insert(m: &mut GroupMap, k: (i64, String), v: GroupEntry)
    ensures
        pending_of(*final(m)) == pending_of(*old(m)).insert(key_view(k), v@),
{
    m.insert(k, v);
}

/// Relies on `DashMap::remove`: it takes out the key's value, if it has one.
#[verifier::external_body]
fn map_remove(m: &mut GroupMap, k: &(i64, String)) -> (r: Option<GroupEntry>)
    ensures
        pending_of(*final(m)) == pending_of(*old(m)).remove(key_view(*k)),
        r is None <==> !pending_of(*old(m)).contains_key(key_view(*k)),
        r matches Some(v) ==> v@ == pending_of(*old(m))[key_view(*k)],
{
    m.remove(k).map(|kv| kv.1)
}

/// Relies on `DashMap::iter`: while nobody else holds the map, it visits each
/// entry once; each is handed out as its key and last-update time.
#[verifier::external_body]
fn map_stamps(m: &GroupMap) -> (r: Vec<((i64, String), i64)>)
    ensures
        forall|i: int|
            0 <= i < r@.len() ==> pending_of(*m).contains_key(key_view(#[trigger] r@[i].0))
                && pending_of(*m)[key_view(r@[i].0)].updated_at == r@[i].1,
        forall|k: (int, Seq<char>)|
            pending_of(*m).contains_key(k) ==> exists|i: int|
                0 <= i < r@.len() && key_view(#[trigger] r@[i].0) == k,
        forall|i: int, j: int|
            0 <= i < j < r@.len() ==> key_view(#[trigger] r@[i].0) != key_view(#[trigger] r@[j].0),
{
    m.iter().map(|e| (e.key().clone(), e.value().updated_at)).collect()
}

/// A group is due once it has been quiet for the debounce window.
pub open spec fn is_due(e: GroupView, now: int) -> bool {
    now - e.updated_at >= DEBOUNCE_MS
}

/// The group after one more photo arrives at `now`.
pub open spec fn arrive_spec(
    prev: Option<GroupView>,
    file_ref: Seq<char>,
    caption: Seq<char>,
    now: int,
    filing: FilingView,
) -> GroupView {
    match prev {
        Some(e) => GroupView {
            refs: e.refs.push(file_ref),
            caption: if caption.len() > 0 {
                caption
            } else {
                e.caption
            },
            updated_at: now,
            filing: e.filing,
        },
        None => GroupView { refs: seq![file_ref], caption, updated_at: now, filing },
    }
}

/// The texts joined with `sep` between neighbours.
pub open spec fn joined(parts: Seq<Seq<char>>, sep: Seq<char>) -> Seq<char>
    decreases parts.len(),
{
    if parts.len() == 0 {
        seq![]
    } else if parts.len() == 1 {
        parts[0]
    } else {
        joined(parts.drop_last(), sep) + sep + parts.last()
    }
}

/// The album submission a finished group becomes.
pub open spec fn album_of(
    key: (int, Seq<char>),
    e: GroupView,
    date: Seq<char>,
    ts: Seq<char>,
) -> SubmissionView {
    SubmissionView {
        user_id: key.0,
        kind: e.filing.kind,
        section: e.filing.section,
        topic_id: e.filing.topic_id,
        topic_title: e.filing.topic_title,
        content_type: ContentType::PhotoAlbum,
        summary: summary_of(e.caption, CAPTION_CAP as nat),
        file_ref: joined(e.refs, seq![';']),
        message_id: 0,
        date,
        ts,
    }
}

/// A finished group: who sent it, its album submission and its file references.
pub struct Album {
    pub user_id: i64,
    pub group: String,
    pub submission: Submission,
    pub refs: Vec<String>,
}

/// The (sender, group key) of an album.
pub open spec fn album_key(a: Album) -> (int, Seq<char>) {
    (a.user_id as int, a.group@)
}

/// `a` is the album of a due group of `m`, with its references.
pub open spec fn is_album_of(a: Album, m: Map<(int, Seq<char>), GroupView>, now: int, date: Seq<char>, ts: Seq<char>) -> bool {
    let k = album_key(a);
    &&& m.contains_key(k)
    &&& is_due(m[k], now)
    &&& a.submission@ == album_of(k, m[k], date, ts)
    &&& texts_view(a.refs@) == m[k].refs
}

/// Joins texts with `sep` between neighbours.
pub fn join_texts(parts: &Vec<String>, sep: &str) -> (r: String)
    ensures
        r@ == joined(texts_view(parts@), sep@),
{
    let mut out = String::new();
    let mut i: usize = 0;
    while i < parts.len()
        invariant
            i <= parts@.len(),
            out@ == joined(texts_view(parts@).take(i as int), sep@),
        decreases parts@.len() - i,
    {
        let ghost before = texts_view(parts@).take(i as int);
        let ghost after = texts_view(parts@).take(i + 1);
        assert(after.drop_last() =~= before);
        if i > 0 {
            out.append(sep);
        } else {
            assert(before =~= seq![]);
        }
        out.append(parts[i].as_str());
        proof {
            if i == 0 {
                assert(out@ =~= after[0]);
            }
        }
        i = i + 1;
    }
    assert(texts_view(parts@).take(parts@.len() as int) =~= texts_view(parts@));
    out
}

fn clone_texts(v: &Vec<String>) -> (r: Vec<String>)
    ensures
        texts_view(r@) == texts_view(v@),
{
    let mut out: Vec<String> = Vec::new();
    let mut i: usize = 0;
    while i < v.len()
        invariant
            i <= v@.len(),
            texts_view(out@) =~= texts_view(v@).take(i as int),
        decreases v@.len() - i,
    {
        let ghost before = out@;
        out.push(v[i].clone());
        assert(texts_view(out@) =~= texts_view(before).push(v@[i as int]@));
        i = i + 1;
    }
    assert(texts_view(v@).take(v@.len() as int) =~= texts_view(v@));
    out
}

/// The staging area for photo groups.
pub struct MediaGroups {
    map: GroupMap,
}

impl View for MediaGroups {
    type V = Map<(int, Seq<char>), GroupView>;

    closed spec fn view(&self) -> Map<(int, Seq<char>), GroupView> {
        pending_of(self.map)
    }
}

impl MediaGroups {
    /// An empty staging area.
    pub fn new() -> (r: MediaGroups)
        ensures
            r@ == no_groups(),
    {
        MediaGroups { map: empty_map() }
    }

    /// Records a photo of group `group` from `user` at `now`: appends its
    /// reference, keeps a non-empty caption, and refreshes the group's time.
    /// A new group is opened with `filing`.
    pub fn arrive(
        &mut self,
        user: i64,
        group: String,
        file_ref: String,
        caption: String,
        now: i64,
        filing: Filing,
    )
        ensures
            final(self)@ == old(self)@.insert(
                (user as int, group@),
                arrive_spec(
                    if old(self)@.contains_key((user as int, group@)) {
                        Some(old(self)@[(user as int, group@)])
                    } else {
                        None
                    },
                    file_ref@,
                    caption@,
                    now as int,
                    filing@,
                ),
            ),
    {
        let key = (user, group);
        let ghost kv = key_view(key);
        let prev = map_remove(&mut self.map, &key);
        let entry = match prev {
            Some(e) => {
                let mut refs = e.refs;
                refs.push(file_ref);
                let keep = caption.unicode_len() > 0;
                let new_caption = if keep {
                    caption
                } else {
                    e.caption
                };
                assert(texts_view(refs@) =~= texts_view(e.refs@).push(file_ref@));
                GroupEntry { refs, caption: new_caption, updated_at: now, filing: e.filing }
            },
            None => {
                let mut refs: Vec<String> = Vec::new();
                refs.push(file_ref);
                assert(texts_view(refs@) =~= seq![file_ref@]);
                GroupEntry { refs, caption, updated_at: now, filing }
            },
        };
        map_insert(&mut self.map, key, entry);
        assert(pending_of(self.map) =~= old(self)@.insert(
            kv,
            arrive_spec(
                if old(self)@.contains_key(kv) {
                    Some(old(self)@[kv])
                } else {
                    None
                },
                file_ref@,
                caption@,
                now as int,
                filing@,
            ),
        ));
    }

    /// Takes out every group that has been quiet for the debounce window at
    /// `now` and turns each into its album submission, dated `date` and `ts`.
    pub fn flush(&mut self, now: i64, date: &str, ts: &str) -> (r: Vec<Album>)
        ensures
            forall|k: (int, Seq<char>)|
                #[trigger] final(self)@.contains_key(k) <==> old(self)@.contains_key(k) && !is_due(
                    old(self)@[k],
                    now as int,
                ),
            forall|k: (int, Seq<char>)|
                #[trigger] final(self)@.contains_key(k) ==> final(self)@[k] == old(self)@[k],
            forall|i: int|
                0 <= i < r@.len() ==> is_album_of(#[trigger] r@[i], old(self)@, now as int, date@, ts@),
            forall|k: (int, Seq<char>)|
                old(self)@.contains_key(k) && is_due(old(self)@[k], now as int) ==> exists|i: int|
                    0 <= i < r@.len() && album_key(#[trigger] r@[i]) == k,
            forall|i: int, j: int|
                0 <= i < j < r@.len() ==> album_key(#[trigger] r@[i]) != album_key(#[trigger] r@[j]),
    {
        let ghost start = self@;
        let stamps = map_stamps(&self.map);
        let mut out: Vec<Album> = Vec::new();
        let ghost mut seen: Set<(int, Seq<char>)> = Set::empty();
        let mut i: usize = 0;
        while i < stamps.len()
            invariant
                i <= stamps@.len(),
                forall|j: int|
                    0 <= j < stamps@.len() ==> start.contains_key(key_view(#[trigger] stamps@[j].0))
                        && start[key_view(stamps@[j].0)].updated_at == stamps@[j].1,
                forall|k: (int, Seq<char>)|
                    start.contains_key(k) ==> exists|j: int|
                        0 <= j < stamps@.len() && key_view(#[trigger] stamps@[j].0) == k,
                forall|a: int, b: int|
                    0 <= a < b < stamps@.len() ==> key_view(#[trigger] stamps@[a].0) != key_view(
                        #[trigger] stamps@[b].0,
                    ),
                forall|j: int| 0 <= j < i ==> seen.contains(key_view(#[trigger] stamps@[j].0)),
                forall|k: (int, Seq<char>)|
                    #[trigger] seen.contains(k) ==> exists|j: int|
                        0 <= j < i && key_view(#[trigger] stamps@[j].0) == k,
                forall|k: (int, Seq<char>)|
                    #[trigger] self@.contains_key(k) <==> start.contains_key(k) && !(seen.contains(k)
                        && is_due(start[k], now as int)),
                forall|k: (int, Seq<char>)| #[trigger] self@.contains_key(k) ==> self@[k] == start[k],
                forall|a: int|
                    0 <= a < out@.len() ==> is_album_of(#[trigger] out@[a], start, now as int, date@, ts@),
                forall|a: int| 0 <= a < out@.len() ==> seen.contains(album_key(#[trigger] out@[a])),
                forall|k: (int, Seq<char>)|
                    seen.contains(k) && start.contains_key(k) && is_due(start[k], now as int) ==> exists|a: int|
                        0 <= a < out@.len() && album_key(#[trigger] out@[a]) == k,
                forall|a: int, b: int|
                    0 <= a < b < out@.len() ==> album_key(#[trigger] out@[a]) != album_key(#[trigger] out@[b]),
            decreases stamps@.len() - i,
        {
            let key = &stamps[i].0;
            let stamp = stamps[i].1;
            let ghost kv = key_view(*key);
            assert(!seen.contains(kv)) by {
                if seen.contains(kv) {
                    let j = choose|j: int| 0 <= j < i && key_view(#[trigger] stamps@[j].0) == kv;
                    assert(key_view(stamps@[j].0) != key_view(stamps@[i as int].0));
                }
            }
            let ghost prev_out = out@;
            let ghost before = self@;
            let ghost due = now - stamp >= DEBOUNCE_MS;
            assert(due == is_due(start[kv], now as int));
            if now as i128 - stamp as i128 >= DEBOUNCE_MS as i128 {
                let taken = map_remove(&mut self.map, key);
                match taken {
                    Some(e) => {
                        let summary = summarize(e.caption.as_str(), CAPTION_CAP);
                        let joined_refs = join_texts(&e.refs, ";");
                        proof {
                            reveal_strlit(";");
                            assert(";"@ =~= seq![';']);
                        }
                        let refs = clone_texts(&e.refs);
                        let submission = Submission {
                            user_id: key.0,
                            kind: e.filing.kind,
                            section: e.filing.section,
                            topic_id: e.filing.topic_id,
                            topic_title: e.filing.topic_title,
                            content_type: ContentType::PhotoAlbum,
                            summary,
                            file_ref: joined_refs,
                            message_id: 0,
                            date: String::from_str(date),
                            ts: String::from_str(ts),
                        };
                        out.push(Album { user_id: key.0, group: key.1.clone(), submission, refs });
                        assert(album_key(out@[out@.len() - 1]) == kv);
                    },
                    None => {},
                }
            }
            proof {
                if due {
                    assert(self@ == before.remove(kv));
                } else {
                    assert(self@ == before);
                }
                let ghost seen_before = seen;
                seen = seen.insert(kv);
                assert forall|k: (int, Seq<char>)|
                    #[trigger] self@.contains_key(k) <==> start.contains_key(k) && !(seen.contains(k)
                        && is_due(start[k], now as int)) by {
                    if k != kv {
                        assert(seen.contains(k) == seen_before.contains(k));
                    }
                }
                assert forall|k: (int, Seq<char>)|
                    seen.contains(k) && start.contains_key(k) && is_due(start[k], now as int) implies exists|a: int|
                        0 <= a < out@.len() && album_key(#[trigger] out@[a]) == k by {
                    if k == kv {
                        assert(before.contains_key(kv));
                        assert(album_key(out@[out@.len() - 1]) == kv);
                    } else {
                        assert(seen_before.contains(k));
                        let a = choose|a: int| 0 <= a < prev_out.len() && album_key(#[trigger] prev_out[a]) == k;
                        assert(out@[a] == prev_out[a]);
                    }
                }
                assert forall|a: int| 0 <= a < out@.len() implies seen.contains(album_key(#[trigger] out@[a])) by {
                    if a < prev_out.len() {
                        assert(out@[a] == prev_out[a]);
                    }
                }
            }
            i = i + 1;
        }
        assert forall|k: (int, Seq<char>)| start.contains_key(k) implies #[trigger] seen.contains(k) by {
            let j = choose|j: int| 0 <= j < stamps@.len() && key_view(#[trigger] stamps@[j].0) == k;
        }
        out
    }
}

} // verus!
