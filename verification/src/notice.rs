//! What a component has to tell: records for the log and notifications for
//! the listeners, handed back to the caller, who delivers them.

use crate::errors::{EngineError, EngineErrorView};
use crate::events::{
    EventDetails, EventMessage, EventMessageView, Level, ProgressInfo, ProgressInfoView,
    ProgressKind, ProgressLevel,
};
use vstd::prelude::*;
use vstd::string::*;

verus! {

/// One thing to tell.
#[derive(Debug)]
pub enum Notice {
    /// A record for the log.
    Log { level: Level, details: EventDetails, message: EventMessage },
    /// An error, for the log at the level of errors.
    Failure(EngineError),
    /// A notification for the listeners, through the callback `kind`.
    Progress { kind: ProgressKind, info: ProgressInfo },
}

pub enum NoticeView {
    Log { level: Level, details: EventDetails, message: EventMessageView },
    Failure(EngineErrorView),
    Progress { kind: ProgressKind, info: ProgressInfoView },
}

impl View for Notice {
    type V = NoticeView;

    open spec fn view(&self) -> NoticeView {
        match *self {
            Notice::Log { level, details, message } => NoticeView::Log {
                level,
                details,
                message: message@,
            },
            Notice::Failure(error) => NoticeView::Failure(error@),
            Notice::Progress { kind, info } => NoticeView::Progress { kind, info: info@ },
        }
    }
}

/// The contents of a list of notices.
pub open spec fn notices(v: Seq<Notice>) -> Seq<NoticeView> {
    v.map_values(|n: Notice| n@)
}

pub proof fn lemma_notices_push(v: Seq<Notice>, n: Notice)
    ensures
        notices(v.push(n)) == notices(v).push(n@),
{
    assert(notices(v.push(n)) =~= notices(v).push(n@));
}

pub proof fn lemma_notices_empty()
    ensures
        notices(Seq::<Notice>::empty()) == Seq::<NoticeView>::empty(),
{
    assert(notices(Seq::<Notice>::empty()) =~= Seq::<NoticeView>::empty());
}

/// A record for the log whose text holds nothing to hide.
pub open spec fn safe_log(level: Level, details: EventDetails, text: Seq<char>) -> NoticeView {
    NoticeView::Log { level, details, message: EventMessageView { raw: text, safe: Some(text) } }
}

/// A notification about the application `id`.
pub open spec fn application_progress(
    kind: ProgressKind,
    id: Seq<char>,
    level: ProgressLevel,
    text: Seq<char>,
    execution_id: Seq<char>,
) -> NoticeView {
    NoticeView::Progress {
        kind,
        info: ProgressInfo::spec_for_application(id, level, text, execution_id),
    }
}

/// Appends a notice to a list of notices.
pub fn push_notice(out: &mut Vec<Notice>, n: Notice)
    ensures
        notices(final(out)@) == notices(old(out)@).push(n@),
{
    proof {
        lemma_notices_push(out@, n);
    }
    out.push(n);
}

/// A list without notices.
pub fn no_notices() -> (r: Vec<Notice>)
    ensures
        notices(r@) == Seq::<NoticeView>::empty(),
{
    proof {
        lemma_notices_empty();
    }
    Vec::new()
}

impl Notice {
    /// A record for the log whose text holds nothing to hide.
    pub fn log(level: Level, details: EventDetails, text: String) -> (r: Notice)
        ensures
            r@ == safe_log(level, details, text@),
    {
        Notice::Log { level, details, message: EventMessage::new_from_safe(text) }
    }

    /// A notification about the application `id`.
    pub fn progress(
        kind: ProgressKind,
        id: &str,
        level: ProgressLevel,
        text: String,
        execution_id: &str,
    ) -> (r: Notice)
        ensures
            r@ == application_progress(kind, id@, level, text@, execution_id@),
    {
        Notice::Progress { kind, info: ProgressInfo::for_application(id, level, text, execution_id) }
    }
}

} // verus!
