//! A snapshot section: collection status next to optional data.
use vstd::prelude::*;
use crate::model::status::CollectorState;

verus! {

/// A non-fatal collection problem attached to a snapshot section.
#[derive(Debug, Clone, PartialEq, Eq)]
pub struct CollectionNote {
    pub message: String,
}

/// Snapshot section carrying the collection status next to optional data,
/// so that "not supported" and "failed unexpectedly" stay distinct.
#[derive(Debug, Clone, PartialEq, Eq)]
pub struct Section<T> {
    pub status: CollectorState,
    pub value: Option<T>,
    pub errors: Vec<CollectionNote>,
}

impl<T> Section<T> {
    /// Section whose data was collected successfully.
    pub fn available(value: T) -> (s: Self)
        ensures
            s.status == CollectorState::Available,
            s.value == Some(value),
            s.errors@.len() == 0,
    {
        Section { status: CollectorState::Available, value: Some(value), errors: Vec::new() }
    }

    /// Section for a collector that is not applicable on this system.
    pub fn unsupported(message: &str) -> (s: Self)
        ensures
            s.failed_with(CollectorState::Unsupported, message@),
    {
        Self::with_error(CollectorState::Unsupported, message)
    }

    /// Section for a collector that could not obtain its data.
    pub fn unavailable(message: &str) -> (s: Self)
        ensures
            s.failed_with(CollectorState::Unavailable, message@),
    {
        Self::with_error(CollectorState::Unavailable, message)
    }

    /// Section for a collector that exceeded its bounded timeout.
    pub fn timed_out(message: &str) -> (s: Self)
        ensures
            s.failed_with(CollectorState::TimedOut, message@),
    {
        Self::with_error(CollectorState::TimedOut, message)
    }

    /// Section for a collection blocked by permissions.
    pub fn permission_denied(message: &str) -> (s: Self)
        ensures
            s.failed_with(CollectorState::PermissionDenied, message@),
    {
        Self::with_error(CollectorState::PermissionDenied, message)
    }

    /// Section for a collector whose payload was invalid.
    pub fn parse_error(message: &str) -> (s: Self)
        ensures
            s.failed_with(CollectorState::ParseError, message@),
    {
        Self::with_error(CollectorState::ParseError, message)
    }

    /// Append a note to an existing section.
    pub fn push_note(&mut self, message: &str)
        ensures
            final(self).status == old(self).status,
            final(self).value == old(self).value,
            final(self).errors@.len() == old(self).errors@.len() + 1,
            forall|i: int| 0 <= i < old(self).errors@.len() ==> final(self).errors@[i] == old(self).errors@[i],
            final(self).errors@.last().message@ == message@,
    {
        self.errors.push(CollectionNote { message: message.to_owned() });
    }

    /// A failed section: the given status, no value, one note.
    pub open spec fn failed_with(self, status: CollectorState, message: Seq<char>) -> bool {
        &&& self.status == status
        &&& self.value is None
        &&& self.errors@.len() == 1
        &&& self.errors@[0].message@ == message
    }

    fn with_error(status: CollectorState, message: &str) -> (s: Self)
        ensures
            s.failed_with(status, message@),
    {
        let mut errors: Vec<CollectionNote> = Vec::new();
        errors.push(CollectionNote { message: message.to_owned() });
        Section { status, value: None, errors }
    }
}

} // verus!
