//! The snapshot store: the latest snapshot, the latest extended snapshot and
//! the state of the connection-drive walk. Each write replaces a whole value;
//! readers borrow what is stored. Shared across tasks behind a read/write lock.
use vstd::prelude::*;
use crate::collector::{
    assemble_metrics, built_from_poll, connection_drive_step, next_drive, StreamPoll, DRIVE_CENTER,
    DRIVE_MAX, DRIVE_MIN,
};
use crate::metrics::{default_metrics, is_default_metrics, DashboardMetrics, ExtendedMetrics};

verus! {

/// What a store holds.
pub struct StoreView {
    pub metrics: DashboardMetrics,
    pub extended: Option<ExtendedMetrics>,
    pub connection_drive: i64,
}

impl StoreView {
    pub open spec fn wf(&self) -> bool {
        &&& self.metrics.wf()
        &&& (self.extended matches Some(e) ==> e.wf())
        &&& DRIVE_MIN <= self.connection_drive <= DRIVE_MAX
    }
}

/// Store `s1` follows `s0` after a stream poll with outcome `poll`: a failed
/// poll (`None`) changes nothing; a successful one advances the drive walk by
/// one tick and replaces the whole snapshot with the one built from the poll.
pub open spec fn after_stream_poll(s0: StoreView, s1: StoreView, poll: Option<StreamPoll>) -> bool {
    match poll {
        None => s1 == s0,
        Some(p) => {
            &&& s1.connection_drive == next_drive(s0.connection_drive as int, p.drive_seed)
            &&& built_from_poll(s1.metrics, p, s1.connection_drive)
            &&& s1.extended == s0.extended
        },
    }
}

/// Store `s1` follows `s0` after an upstream-metrics poll with outcome `poll`:
/// a failed poll changes nothing; a successful one replaces the extended
/// snapshot with the reading brought into its invariant.
pub open spec fn after_extended_poll(
    s0: StoreView,
    s1: StoreView,
    poll: Option<ExtendedMetrics>,
) -> bool {
    match poll {
        None => s1 == s0,
        Some(e) => {
            &&& s1.extended == Some(e.sanitize_spec())
            &&& s1.metrics == s0.metrics
            &&& s1.connection_drive == s0.connection_drive
        },
    }
}

pub struct SnapshotStore {
    metrics: DashboardMetrics,
    extended: Option<ExtendedMetrics>,
    connection_drive: i64,
}

impl View for SnapshotStore {
    type V = StoreView;

    closed spec fn view(&self) -> StoreView {
        StoreView {
            metrics: self.metrics,
            extended: self.extended,
            connection_drive: self.connection_drive,
        }
    }
}

impl SnapshotStore {
    pub open spec fn wf(&self) -> bool {
        self@.wf()
    }

    /// A store holding the default snapshot, no extended snapshot, and the
    /// drive at its centre.
    pub fn new(now_ms: i64) -> (r: Self)
        ensures
            is_default_metrics(r@.metrics, now_ms),
            r@.extended is None,
            r@.connection_drive == DRIVE_CENTER,
            r.wf(),
    {
        SnapshotStore { metrics: default_metrics(now_ms), extended: None, connection_drive: DRIVE_CENTER }
    }

    /// The latest snapshot.
    pub fn metrics(&self) -> (r: &DashboardMetrics)
        ensures
            *r == self@.metrics,
    {
        &self.metrics
    }

    /// The latest extended snapshot, if any poll of it has succeeded.
    pub fn extended(&self) -> (r: &Option<ExtendedMetrics>)
        ensures
            *r == self@.extended,
    {
        &self.extended
    }

    /// Current value of the connection drive, in millionths.
    pub fn connection_drive(&self) -> (r: i64)
        ensures
            r == self@.connection_drive,
    {
        self.connection_drive
    }

    /// Records the outcome of one stream poll.
    pub fn apply_stream_poll(&mut self, poll: Option<StreamPoll>)
        requires
            old(self).wf(),
        ensures
            final(self).wf(),
            after_stream_poll(old(self)@, final(self)@, poll),
    {
        match poll {
            None => {},
            Some(p) => {
                let drive = connection_drive_step(self.connection_drive, p.drive_seed);
                let m = assemble_metrics(&p, drive);
                self.connection_drive = drive;
                self.metrics = m;
            },
        }
    }

    /// Records the outcome of one upstream-metrics poll.
    pub fn apply_extended_poll(&mut self, poll: Option<ExtendedMetrics>)
        requires
            old(self).wf(),
        ensures
            final(self).wf(),
            after_extended_poll(old(self)@, final(self)@, poll),
    {
        match poll {
            None => {},
            Some(e) => {
                self.extended = Some(e.sanitized());
            },
        }
    }
}

/// A failed poll (an outage of the store) keeps the prior snapshot, and the
/// next successful poll updates as if the failure had not happened.
pub proof fn lemma_outage_keeps_snapshot(
    s0: StoreView,
    s1: StoreView,
    s2: StoreView,
    p: StreamPoll,
)
    requires
        after_stream_poll(s0, s1, None),
        after_stream_poll(s1, s2, Some(p)),
    ensures
        s1 == s0,
        s2.connection_drive == next_drive(s0.connection_drive as int, p.drive_seed),
        built_from_poll(s2.metrics, p, s2.connection_drive),
        s2.extended == s0.extended,
{
}

/// A write never leaves a mixture: after any poll the snapshot is either the
/// prior one, whole, or the one built from that poll, whole; and likewise
/// for the extended snapshot.
pub proof fn lemma_snapshot_is_whole(
    s0: StoreView,
    s1: StoreView,
    poll: Option<StreamPoll>,
    ext: Option<ExtendedMetrics>,
    s2: StoreView,
)
    requires
        after_stream_poll(s0, s1, poll),
        after_extended_poll(s1, s2, ext),
    ensures
        s1.metrics == s0.metrics || (poll matches Some(p) && built_from_poll(
            s1.metrics,
            p,
            s1.connection_drive,
        )),
        s2.metrics == s1.metrics,
        s2.extended == s1.extended || (ext matches Some(e) && s2.extended == Some(
            e.sanitize_spec(),
        )),
{
}

} // verus!
