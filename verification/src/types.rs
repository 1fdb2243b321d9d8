//! Stable session records shared by every surface.
use vstd::prelude::*;

verus! {

/// Stable identity for one conversation session.
#[derive(Clone, Debug, Eq, Hash, PartialEq)]
pub struct SessionId(pub String);

/// Stable identity for one requested or active source.
#[derive(Clone, Debug, Eq, Hash, PartialEq)]
pub struct SourceId(pub String);

/// Durable lifecycle persisted by Rust. Transitional UI states do not belong here.
#[derive(Clone, Copy, Debug, Eq, PartialEq, Structural)]
pub enum Lifecycle {
    Idle,
    Ready,
    Recording,
    Paused,
    Finalizing,
    ReadyForReview,
    Interrupted,
}

#[derive(Clone, Copy, Debug, Eq, PartialEq, Structural)]
pub enum SourceKind {
    Microphone,
    ApplicationAudio,
    SystemAudio,
}

#[derive(Clone, Copy, Debug, Eq, PartialEq, Structural)]
pub enum SourceActivity {
    Selected,
    Active,
    Paused,
    Failed,
}

#[derive(Clone, Copy, Debug, Eq, PartialEq, Structural)]
pub enum PermissionState {
    NotRequested,
    Granted,
    Denied,
    Revoked,
    Restricted,
}

#[derive(Clone, Debug, Eq, PartialEq)]
pub struct PermissionRecord {
    pub state: PermissionState,
    pub recovery_hint: Option<String>,
}

#[derive(Clone, Copy, Debug, Eq, PartialEq, Structural)]
pub enum SourceHealth {
    Healthy,
    Failed,
}

#[derive(Clone, Debug, Eq, PartialEq)]
pub struct SourceRecord {
    pub id: SourceId,
    pub name: String,
    pub kind: SourceKind,
    pub activity: SourceActivity,
    pub health: SourceHealth,
    pub health_detail: Option<String>,
    pub permission: PermissionRecord,
}

#[derive(Clone, Copy, Debug, Eq, PartialEq, Structural)]
pub enum SessionHealth {
    Healthy,
    Degraded,
}

/// Evidence that must exist before Rust may enter `Lifecycle::Recording`.
#[derive(Clone, Copy, Debug, Eq, PartialEq, Structural)]
pub struct DurabilityRecord {
    pub journal_durable: bool,
    pub media_files_open: bool,
    pub media_safe: bool,
}

impl DurabilityRecord {
    /// Recording needs both a durable journal and open media files.
    #[must_use]
    #[verifier::allow_in_spec]
    pub fn permits_recording(self) -> bool
        returns
            self.journal_durable && self.media_files_open,
    {
        self.journal_durable && self.media_files_open
    }
}

#[derive(Clone, Copy, Debug, Eq, PartialEq, Structural)]
pub enum RecoveryStatus {
    NotRequired,
    Required,
    Deferred,
    Recovered,
}

#[derive(Clone, Debug, Eq, PartialEq)]
pub struct RecoveryRecord {
    pub status: RecoveryStatus,
    pub preserved_evidence_summary: Option<String>,
}

/// Stable Rust-owned record. Presentation labels, symbols, and transient progress
/// are derived by the domain module and are never persisted as lifecycle truth.
#[derive(Clone, Debug, Eq, PartialEq)]
pub struct SessionRecord {
    pub id: SessionId,
    pub title: String,
    pub lifecycle: Lifecycle,
    pub health: SessionHealth,
    pub elapsed_seconds: u64,
    pub sources: Vec<SourceRecord>,
    pub durability: DurabilityRecord,
    pub recovery: RecoveryRecord,
}

fn duplicate_text(text: &Option<String>) -> (copy: Option<String>)
    ensures
        copy == *text,
{
    match text {
        Some(value) => Some(value.clone()),
        None => None,
    }
}

impl SourceRecord {
    /// A field-for-field copy.
    pub fn duplicate(&self) -> (copy: Self)
        ensures
            copy == *self,
    {
        SourceRecord {
            id: SourceId(self.id.0.clone()),
            name: self.name.clone(),
            kind: self.kind,
            activity: self.activity,
            health: self.health,
            health_detail: duplicate_text(&self.health_detail),
            permission: PermissionRecord {
                state: self.permission.state,
                recovery_hint: duplicate_text(&self.permission.recovery_hint),
            },
        }
    }
}

/// An element-for-element copy of a list of sources.
pub fn duplicate_sources(sources: &Vec<SourceRecord>) -> (copy: Vec<SourceRecord>)
    ensures
        copy@ == sources@,
{
    let mut copy: Vec<SourceRecord> = Vec::new();
    let mut index: usize = 0;
    while index < sources.len()
        invariant
            index <= sources.len(),
            copy@ == sources@.take(index as int),
        decreases sources.len() - index,
    {
        copy.push(sources[index].duplicate());
        assert(sources@.take(index as int).push(sources@[index as int]) == sources@.take(index + 1));
        index = index + 1;
    }
    assert(sources@.take(sources.len() as int) == sources@);
    copy
}

impl SessionRecord {
    /// Field-wise equality, with the sources compared as sequences.
    pub open spec fn same_as(self, other: SessionRecord) -> bool {
        &&& self.id == other.id
        &&& self.title == other.title
        &&& self.lifecycle == other.lifecycle
        &&& self.health == other.health
        &&& self.elapsed_seconds == other.elapsed_seconds
        &&& self.sources@ == other.sources@
        &&& self.durability == other.durability
        &&& self.recovery == other.recovery
    }

    /// A field-for-field copy.
    pub fn duplicate(&self) -> (copy: Self)
        ensures
            copy.same_as(*self),
    {
        SessionRecord {
            id: SessionId(self.id.0.clone()),
            title: self.title.clone(),
            lifecycle: self.lifecycle,
            health: self.health,
            elapsed_seconds: self.elapsed_seconds,
            sources: duplicate_sources(&self.sources),
            durability: self.durability,
            recovery: RecoveryRecord {
                status: self.recovery.status,
                preserved_evidence_summary: duplicate_text(&self.recovery.preserved_evidence_summary),
            },
        }
    }
}

} // verus!
