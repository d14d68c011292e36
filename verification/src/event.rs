//! Raw notification kinds and the filter that decides which of them count as
//! a content change.

use vstd::prelude::*;
use notify::event::{EventKind, ModifyKind};

verus! {

/// What a modification touched, as far as the notification source could tell.
#[derive(Clone, Copy, Debug, PartialEq, Eq, Structural)]
pub enum ModifyDetail {
    /// A modification of unknown nature.
    Any,
    /// File contents were written.
    Data,
    /// Attributes, timestamps, ownership or permissions changed.
    Metadata,
    /// A rename.
    Name,
    /// A modification the source knows but cannot describe further.
    Other,
}

/// The kind of one raw filesystem notification.
#[derive(Clone, Copy, Debug, PartialEq, Eq, Structural)]
pub enum RawEventKind {
    /// An event of unknown kind.
    Any,
    /// A file was opened, read, closed or executed.
    Access,
    /// A file or directory was created.
    Create,
    /// Content, name or metadata changed.
    Modify(ModifyDetail),
    /// A file or directory was removed.
    Remove,
    /// A meta-event about the watch itself.
    Other,
}

/// `notify::Event`, opaque: `kind_of` reads it.
#[verifier::external_type_specification]
#[verifier::external_body]
pub struct ExEvent(notify::Event);

/// The kind that a raw event of the notification source is of.
pub uninterp spec fn event_kind(event: &notify::Event) -> RawEventKind;

/// Tells the variants of `notify::EventKind` apart, and below `Modify` those
/// of `notify::event::ModifyKind`, reading the public field `kind` of a
/// `notify::Event`. The result depends on the event alone, and is what
/// `event_kind` names.
#[verifier::external_body]
pub(crate) fn kind_of(event: &notify::Event) -> (kind: RawEventKind)
    ensures
        kind == event_kind(event),
{
    match event.kind {
        EventKind::Any => RawEventKind::Any,
        EventKind::Access(_) => RawEventKind::Access,
        EventKind::Create(_) => RawEventKind::Create,
        EventKind::Modify(ModifyKind::Any) => RawEventKind::Modify(ModifyDetail::Any),
        EventKind::Modify(ModifyKind::Data(_)) => RawEventKind::Modify(ModifyDetail::Data),
        EventKind::Modify(ModifyKind::Metadata(_)) => RawEventKind::Modify(ModifyDetail::Metadata),
        EventKind::Modify(ModifyKind::Name(_)) => RawEventKind::Modify(ModifyDetail::Name),
        EventKind::Modify(ModifyKind::Other) => RawEventKind::Modify(ModifyDetail::Other),
        EventKind::Remove(_) => RawEventKind::Remove,
        EventKind::Other => RawEventKind::Other,
    }
}

/// A raw event counts as a content change exactly when it reports written
/// data or a modification of unknown nature. Everything else (metadata,
/// renames, access, creation, removal) is ignored.
pub open spec fn qualifies(kind: RawEventKind) -> bool {
    kind == RawEventKind::Modify(ModifyDetail::Data) || kind == RawEventKind::Modify(
        ModifyDetail::Any,
    )
}

/// Decides whether a raw event of this kind is a candidate for a change
/// signal.
pub fn is_qualifying(kind: RawEventKind) -> (candidate: bool)
    ensures
        candidate == qualifies(kind),
{
    match kind {
        RawEventKind::Modify(ModifyDetail::Data) => true,
        RawEventKind::Modify(ModifyDetail::Any) => true,
        _ => false,
    }
}

} // verus!
