//! The per-user conversation state and the kinds of submission.
use vstd::prelude::*;

verus! {

/// What a user hands in: homework or lecture notes.
#[derive(Clone, Copy, PartialEq, Eq, Structural, Debug)]
pub enum SubmissionType {
    Dz,
    Conspect,
}

/// Where a user stands in the submission dialogue.
#[derive(Clone, Debug, PartialEq, Eq)]
pub enum DialogueState {
    Start,
    ChoosingSection { kind: SubmissionType },
    ChoosingTopic { kind: SubmissionType, section: String },
    WaitingForContent { kind: SubmissionType, section: String, topic_id: String, topic_title: String },
    AdminPanel,
    AdminWaitingForExportUser,
    AdminWaitingForDeleteUser,
}

/// The dialogue state with its texts as character sequences.
pub enum StateView {
    Start,
    ChoosingSection { kind: SubmissionType },
    ChoosingTopic { kind: SubmissionType, section: Seq<char> },
    WaitingForContent {
        kind: SubmissionType,
        section: Seq<char>,
        topic_id: Seq<char>,
        topic_title: Seq<char>,
    },
    AdminPanel,
    AdminWaitingForExportUser,
    AdminWaitingForDeleteUser,
}

impl View for DialogueState {
    type V = StateView;

    open spec fn view(&self) -> StateView {
        match self {
            DialogueState::Start => StateView::Start,
            DialogueState::ChoosingSection { kind } => StateView::ChoosingSection { kind: *kind },
            DialogueState::ChoosingTopic { kind, section } => StateView::ChoosingTopic {
                kind: *kind,
                section: section@,
            },
            DialogueState::WaitingForContent { kind, section, topic_id, topic_title } =>
                StateView::WaitingForContent {
                kind: *kind,
                section: section@,
                topic_id: topic_id@,
                topic_title: topic_title@,
            },
            DialogueState::AdminPanel => StateView::AdminPanel,
            DialogueState::AdminWaitingForExportUser => StateView::AdminWaitingForExportUser,
            DialogueState::AdminWaitingForDeleteUser => StateView::AdminWaitingForDeleteUser,
        }
    }
}

impl Default for DialogueState {
    fn default() -> (r: DialogueState)
        ensures
            r@ == StateView::Start,
    {
        DialogueState::Start
    }
}

impl DialogueState {
    /// A copy of this state.
    pub fn duplicate(&self) -> (r: DialogueState)
        ensures
            r@ == self@,
    {
        match self {
            DialogueState::Start => DialogueState::Start,
            DialogueState::ChoosingSection { kind } => DialogueState::ChoosingSection { kind: *kind },
            DialogueState::ChoosingTopic { kind, section } => DialogueState::ChoosingTopic {
                kind: *kind,
                section: section.clone(),
            },
            DialogueState::WaitingForContent { kind, section, topic_id, topic_title } =>
                DialogueState::WaitingForContent {
                kind: *kind,
                section: section.clone(),
                topic_id: topic_id.clone(),
                topic_title: topic_title.clone(),
            },
            DialogueState::AdminPanel => DialogueState::AdminPanel,
            DialogueState::AdminWaitingForExportUser => DialogueState::AdminWaitingForExportUser,
            DialogueState::AdminWaitingForDeleteUser => DialogueState::AdminWaitingForDeleteUser,
        }
    }
}

/// The code under which a kind of submission is stored.
pub open spec fn kind_code_of(kind: SubmissionType) -> Seq<char> {
    match kind {
        SubmissionType::Dz => seq!['d', 'z'],
        SubmissionType::Conspect => seq!['c', 'o', 'n', 's', 'p', 'e', 'c', 't'],
    }
}

/// The code under which a kind of submission is stored (`dz` or `conspect`).
pub fn kind_code(kind: SubmissionType) -> (r: &'static str)
    ensures
        r@ == kind_code_of(kind),
{
    match kind {
        SubmissionType::Dz => {
            proof {
                reveal_strlit("dz");
            }
            "dz"
        },
        SubmissionType::Conspect => {
            proof {
                reveal_strlit("conspect");
            }
            "conspect"
        },
    }
}

} // verus!
