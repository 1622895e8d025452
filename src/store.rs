//! The operations the engine asks of the Submission Store, and a model of what
//! each one does to the stored rows.
use vstd::prelude::*;
use crate::states::{kind_code_of, SubmissionType};

verus! {

/// The view of an optional text.
pub open spec fn opt_view(o: Option<String>) -> Option<Seq<char>> {
    match o {
        Some(s) => Some(s@),
        None => None,
    }
}

/// What a submission holds.
#[derive(Clone, Copy, PartialEq, Eq, Structural, Debug)]
pub enum ContentType {
    Text,
    Photo,
    Document,
    PhotoAlbum,
}

/// The code under which a content type is stored.
pub open spec fn content_code_of(c: ContentType) -> Seq<char> {
    match c {
        ContentType::Text => "text"@,
        ContentType::Photo => "photo"@,
        ContentType::Document => "document"@,
        ContentType::PhotoAlbum => "photo_album"@,
    }
}

impl ContentType {
    /// The code under which this content type is stored.
    pub fn code(&self) -> (r: &'static str)
        ensures
            r@ == content_code_of(*self),
    {
        match self {
            ContentType::Text => "text",
            ContentType::Photo => "photo",
            ContentType::Document => "document",
            ContentType::PhotoAlbum => "photo_album",
        }
    }
}

/// A user as the store keeps them.
#[derive(Clone, Debug, PartialEq, Eq)]
pub struct UserRecord {
    pub id: i64,
    pub username: Option<String>,
    pub first_name: String,
}

/// A stored user row: a missing handle is kept as the empty text.
pub struct UserRow {
    pub username: Seq<char>,
    pub first_name: Seq<char>,
}

impl View for UserRecord {
    type V = UserRow;

    open spec fn view(&self) -> UserRow {
        UserRow {
            username: match self.username {
                Some(u) => u@,
                None => seq![],
            },
            first_name: self.first_name@,
        }
    }
}

/// One submission, immutable once stored.
#[derive(Clone, Debug, PartialEq, Eq)]
pub struct Submission {
    pub user_id: i64,
    pub kind: SubmissionType,
    pub section: String,
    pub topic_id: String,
    pub topic_title: String,
    pub content_type: ContentType,
    pub summary: String,
    pub file_ref: String,
    pub message_id: i32,
    pub date: String,
    pub ts: String,
}

/// A submission with its texts as character sequences.
pub struct SubmissionView {
    pub user_id: int,
    pub kind: SubmissionType,
    pub section: Seq<char>,
    pub topic_id: Seq<char>,
    pub topic_title: Seq<char>,
    pub content_type: ContentType,
    pub summary: Seq<char>,
    pub file_ref: Seq<char>,
    pub message_id: int,
    pub date: Seq<char>,
    pub ts: Seq<char>,
}

impl View for Submission {
    type V = SubmissionView;

    open spec fn view(&self) -> SubmissionView {
        SubmissionView {
            user_id: self.user_id as int,
            kind: self.kind,
            section: self.section@,
            topic_id: self.topic_id@,
            topic_title: self.topic_title@,
            content_type: self.content_type,
            summary: self.summary@,
            file_ref: self.file_ref@,
            message_id: self.message_id as int,
            date: self.date@,
            ts: self.ts@,
        }
    }
}

impl Submission {
    /// A copy of this submission.
    pub fn duplicate(&self) -> (r: Submission)
        ensures
            r@ == self@,
    {
        Submission {
            user_id: self.user_id,
            kind: self.kind,
            section: self.section.clone(),
            topic_id: self.topic_id.clone(),
            topic_title: self.topic_title.clone(),
            content_type: self.content_type,
            summary: self.summary.clone(),
            file_ref: self.file_ref.clone(),
            message_id: self.message_id,
            date: self.date.clone(),
            ts: self.ts.clone(),
        }
    }

    /// The code of this submission's kind (`dz` or `conspect`).
    pub fn kind_code(&self) -> (r: &'static str)
        ensures
            r@ == kind_code_of(self.kind),
    {
        crate::states::kind_code(self.kind)
    }

    /// The code of this submission's content type.
    pub fn content_code(&self) -> (r: &'static str)
        ensures
            r@ == content_code_of(self.content_type),
    {
        self.content_type.code()
    }
}

/// Whom an administrator names: a numeric id, or else a handle.
#[derive(Clone, Debug, PartialEq, Eq)]
pub enum UserTarget {
    Id(i64),
    Handle(String),
}

pub enum TargetView {
    Id(int),
    Handle(Seq<char>),
}

impl View for UserTarget {
    type V = TargetView;

    open spec fn view(&self) -> TargetView {
        match self {
            UserTarget::Id(i) => TargetView::Id(*i as int),
            UserTarget::Handle(h) => TargetView::Handle(h@),
        }
    }
}

/// An operation on the store; each is atomic on its own.
#[derive(Clone, Debug, PartialEq, Eq)]
pub enum StoreOp {
    /// Inserts or replaces a user.
    UpsertUser(UserRecord),
    /// Appends a submission.
    InsertSubmission(Submission),
    /// Fills every open (empty) miss reason of a user.
    CloseMissReason { user_id: i64, reason: String },
    /// Opens an empty miss reason for (user, date) unless one exists.
    OpenMissReason { user_id: i64, date: String },
    /// Removes a user with their submissions and miss reasons.
    DeleteUser(UserTarget),
    /// Removes every user, submission and miss reason.
    ResetAll,
}

pub enum StoreOpView {
    UpsertUser(int, UserRow),
    InsertSubmission(SubmissionView),
    CloseMissReason { user_id: int, reason: Seq<char> },
    OpenMissReason { user_id: int, date: Seq<char> },
    DeleteUser(TargetView),
    ResetAll,
}

impl View for StoreOp {
    type V = StoreOpView;

    open spec fn view(&self) -> StoreOpView {
        match self {
            StoreOp::UpsertUser(u) => StoreOpView::UpsertUser(u.id as int, u@),
            StoreOp::InsertSubmission(s) => StoreOpView::InsertSubmission(s@),
            StoreOp::CloseMissReason { user_id, reason } => StoreOpView::CloseMissReason {
                user_id: *user_id as int,
                reason: reason@,
            },
            StoreOp::OpenMissReason { user_id, date } => StoreOpView::OpenMissReason {
                user_id: *user_id as int,
                date: date@,
            },
            StoreOp::DeleteUser(t) => StoreOpView::DeleteUser(t@),
            StoreOp::ResetAll => StoreOpView::ResetAll,
        }
    }
}

/// The rows of the store: users by id, submissions in insertion order, and
/// miss reasons by (user, date), empty while open.
pub struct StoreModel {
    pub users: Map<int, UserRow>,
    pub submissions: Seq<SubmissionView>,
    pub misses: Map<(int, Seq<char>), Seq<char>>,
}

/// The user a target names, if any.
pub open spec fn resolve(m: StoreModel, t: TargetView) -> Option<int> {
    match t {
        TargetView::Id(i) => if m.users.contains_key(i) {
            Some(i)
        } else {
            None
        },
        TargetView::Handle(h) => if exists|i: int| #[trigger]
            m.users.contains_key(i) && m.users[i].username == h {
            Some(choose|i: int| #[trigger] m.users.contains_key(i) && m.users[i].username == h)
        } else {
            None
        },
    }
}

/// The store without a user and everything recorded for them.
pub open spec fn without_user(m: StoreModel, id: int) -> StoreModel {
    StoreModel {
        users: m.users.remove(id),
        submissions: m.submissions.filter(|s: SubmissionView| s.user_id != id),
        misses: Map::new(
            |k: (int, Seq<char>)| m.misses.contains_key(k) && k.0 != id,
            |k: (int, Seq<char>)| m.misses[k],
        ),
    }
}

/// Whether an operation succeeds on a store: only a deletion can fail, when
/// its target names no user.
pub open spec fn succeeds(m: StoreModel, op: StoreOpView) -> bool {
    match op {
        StoreOpView::DeleteUser(t) => resolve(m, t) is Some,
        _ => true,
    }
}

/// The store after an operation.
pub open spec fn apply(m: StoreModel, op: StoreOpView) -> StoreModel {
    match op {
        StoreOpView::UpsertUser(id, row) => StoreModel { users: m.users.insert(id, row), ..m },
        StoreOpView::InsertSubmission(s) => StoreModel { submissions: m.submissions.push(s), ..m },
        StoreOpView::CloseMissReason { user_id, reason } => StoreModel {
            misses: Map::new(
                |k: (int, Seq<char>)| m.misses.contains_key(k),
                |k: (int, Seq<char>)|
                    if k.0 == user_id && m.misses[k] == Seq::<char>::empty() {
                        reason
                    } else {
                        m.misses[k]
                    },
            ),
            ..m
        },
        StoreOpView::OpenMissReason { user_id, date } => if m.misses.contains_key((user_id, date)) {
            m
        } else {
            StoreModel { misses: m.misses.insert((user_id, date), seq![]), ..m }
        },
        StoreOpView::DeleteUser(t) => match resolve(m, t) {
            Some(id) => without_user(m, id),
            None => m,
        },
        StoreOpView::ResetAll => StoreModel {
            users: Map::empty(),
            submissions: seq![],
            misses: Map::empty(),
        },
    }
}

/// The store after a sequence of operations, in order.
pub open spec fn apply_all(m: StoreModel, ops: Seq<StoreOpView>) -> StoreModel
    decreases ops.len(),
{
    if ops.len() == 0 {
        m
    } else {
        apply_all(apply(m, ops[0]), ops.drop_first())
    }
}

/// The ids that list-all-users gives.
pub open spec fn user_ids(m: StoreModel) -> Set<int> {
    m.users.dom()
}

} // verus!
