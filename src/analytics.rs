//! The aggregation buffer: pending page views, downloads and revenue,
//! counted per key and handed out in one batch by each rotation.
//!
//! Every operation takes `&mut self`: a rotation then detaches exactly the
//! additions made before it, and a caller that shares the buffer between
//! tasks serialises the short critical sections with a lock.

use crate::maps::{
    get_path_count, get_project_total, lists_path_counts, lists_project_totals, new_path_counts,
    new_project_totals, no_path_counts, no_project_totals, path_counts, project_totals,
    set_path_count, set_project_total, take_path_counts, take_project_totals,
};
use crate::error::ApiError;
use crate::ingest::{validate_revenue, Download, PageView, MAX_REVENUE_MICROS};
use dashmap::DashMap;
use std::collections::HashMap;
use vstd::prelude::*;

verus! {

/// `v + 1`, held at `u32::MAX`.
pub open spec fn succ_sat(v: u32) -> u32 {
    if v == u32::MAX {
        v
    } else {
        (v + 1) as u32
    }
}

/// `a + b`, held at `u64::MAX`.
pub open spec fn add_sat(a: u64, b: u64) -> u64 {
    if a + b > u64::MAX {
        u64::MAX
    } else {
        (a + b) as u64
    }
}

/// One more occurrence of key `k`: a new key starts at one.
pub open spec fn bump(m: Map<(u64, Seq<char>), u32>, k: (u64, Seq<char>)) -> Map<(u64, Seq<char>), u32> {
    m.insert(k, if m.dom().contains(k) { succ_sat(m[k]) } else { 1 })
}

/// `amount` more for project `p`: a new project starts at `amount`.
pub open spec fn credit(m: Map<u64, u64>, p: u64, amount: u64) -> Map<u64, u64> {
    m.insert(p, if m.dom().contains(p) { add_sat(m[p], amount) } else { amount })
}

/// The counters after one `bump` per key of `ks`, in order.
pub open spec fn bump_all(m: Map<(u64, Seq<char>), u32>, ks: Seq<(u64, Seq<char>)>) -> Map<(u64, Seq<char>), u32>
    decreases ks.len(),
{
    if ks.len() == 0 {
        m
    } else {
        bump(bump_all(m, ks.drop_last()), ks.last())
    }
}

/// How many times `k` occurs in `ks`.
pub open spec fn occurrences(ks: Seq<(u64, Seq<char>)>, k: (u64, Seq<char>)) -> nat
    decreases ks.len(),
{
    if ks.len() == 0 {
        0
    } else {
        occurrences(ks.drop_last(), k) + if ks.last() == k { 1nat } else { 0nat }
    }
}

/// Counted from an empty buffer, each key holds the number of additions made to it,
/// and a key that was never added is absent.
pub proof fn lemma_counts_are_additions(ks: Seq<(u64, Seq<char>)>, k: (u64, Seq<char>))
    requires
        occurrences(ks, k) <= u32::MAX,
    ensures
        bump_all(no_path_counts(), ks).dom().contains(k) <==> occurrences(ks, k) > 0,
        occurrences(ks, k) > 0 ==> bump_all(no_path_counts(), ks)[k] == occurrences(ks, k),
    decreases ks.len(),
{
    if ks.len() > 0 {
        lemma_counts_are_additions(ks.drop_last(), k);
    }
}

/// A rotation (`index`) after a run of additions to an empty buffer reports, for each
/// key added, exactly one row, whose count is the number of additions made to that key
/// (for counts that fit the `u32` counter).
pub proof fn lemma_rotation_reports_additions(
    ks: Seq<(u64, Seq<char>)>,
    rows: Seq<((u64, String), u32)>,
    k: (u64, Seq<char>),
)
    requires
        lists_path_counts(rows, bump_all(no_path_counts(), ks)),
        0 < occurrences(ks, k) <= u32::MAX,
    ensures
        exists|i: int|
            0 <= i < rows.len() && (#[trigger] rows[i]).0.0 == k.0 && rows[i].0.1@ == k.1
                && rows[i].1 == occurrences(ks, k),
        forall|i: int, j: int|
            0 <= i < j < rows.len() ==> !(crate::maps::path_key(#[trigger] rows[i].0) == k
                && crate::maps::path_key(#[trigger] rows[j].0) == k),
        !no_path_counts().dom().contains(k),
{
    lemma_counts_are_additions(ks, k);
    let m = bump_all(no_path_counts(), ks);
    assert(m.dom().contains(k));
    let i = choose|i: int| 0 <= i < rows.len() && crate::maps::path_key(#[trigger] rows[i].0) == k;
    assert(rows[i].0.0 == k.0 && rows[i].0.1@ == k.1 && rows[i].1 == occurrences(ks, k));
}

/// The content detached by one rotation: one row per key.
pub struct Batch {
    /// `((project id, site path), views)`.
    pub views: Vec<((u64, String), u32)>,
    /// `((project id, site path), downloads)`.
    pub downloads: Vec<((u64, String), u32)>,
    /// `(project id, revenue in millionths)`.
    pub revenue: Vec<(u64, u64)>,
}

impl Batch {
    /// Whether the batch holds no row at all (then nothing is written).
    pub fn is_empty(&self) -> (r: bool)
        ensures
            r == (self.views@.len() == 0 && self.downloads@.len() == 0 && self.revenue@.len() == 0),
    {
        self.views.len() == 0 && self.downloads.len() == 0 && self.revenue.len() == 0
    }
}

/// Batches analytics data points between two flushes.
pub struct AnalyticsQueue {
    views_queue: DashMap<(u64, String), u32>,
    downloads_queue: DashMap<(u64, String), u32>,
    revenue_queue: DashMap<u64, u64>,
}

impl AnalyticsQueue {
    /// Pending page views per `(project id, site path)`.
    pub closed spec fn views(&self) -> Map<(u64, Seq<char>), u32> {
        path_counts(self.views_queue)
    }

    /// Pending downloads per `(project id, site path)`.
    pub closed spec fn downloads(&self) -> Map<(u64, Seq<char>), u32> {
        path_counts(self.downloads_queue)
    }

    /// Pending revenue per project, in millionths of the currency unit.
    pub closed spec fn revenue(&self) -> Map<u64, u64> {
        project_totals(self.revenue_queue)
    }

    /// An empty buffer.
    pub fn new() -> (r: Self)
        ensures
            r.views() == no_path_counts(),
            r.downloads() == no_path_counts(),
            r.revenue() == no_project_totals(),
    {
        AnalyticsQueue {
            views_queue: new_path_counts(),
            downloads_queue: new_path_counts(),
            revenue_queue: new_project_totals(),
        }
    }

    /// Counts one page view of `site_path` for `project_id` (zero: unresolved).
    pub fn add_view(&mut self, project_id: u64, site_path: String)
        ensures
            final(self).views() == bump(old(self).views(), (project_id, site_path@)),
            final(self).downloads() == old(self).downloads(),
            final(self).revenue() == old(self).revenue(),
    {
        let key = (project_id, site_path);
        let next = match get_path_count(&self.views_queue, &key) {
            Some(v) => v.saturating_add(1),
            None => 1,
        };
        set_path_count(&mut self.views_queue, key, next);
    }

    /// Counts one download of `site_path` for `project_id`.
    pub fn add_download(&mut self, project_id: u64, site_path: String)
        ensures
            final(self).downloads() == bump(old(self).downloads(), (project_id, site_path@)),
            final(self).views() == old(self).views(),
            final(self).revenue() == old(self).revenue(),
    {
        let key = (project_id, site_path);
        let next = match get_path_count(&self.downloads_queue, &key) {
            Some(v) => v.saturating_add(1),
            None => 1,
        };
        set_path_count(&mut self.downloads_queue, key, next);
    }

    /// Adds `revenue` (in millionths) to the pending total of `project_id`; an amount
    /// above the per-request cap is refused and nothing changes.
    pub fn add_revenue(&mut self, project_id: u64, revenue: u64) -> (r: Result<(), ApiError>)
        ensures
            r is Ok <==> revenue <= MAX_REVENUE_MICROS,
            r is Ok ==> final(self).revenue() == credit(old(self).revenue(), project_id, revenue),
            r is Err ==> final(self).revenue() == old(self).revenue(),
            r matches Err(e) ==> (e matches ApiError::InvalidInput(m) && m@ == "revenue exceeds the per-request cap!"@),
            final(self).views() == old(self).views(),
            final(self).downloads() == old(self).downloads(),
    {
        let revenue = match validate_revenue(revenue) {
            Ok(v) => v,
            Err(e) => {
                return Err(e);
            },
        };
        let next = match get_project_total(&self.revenue_queue, project_id) {
            Some(v) => v.saturating_add(revenue),
            None => revenue,
        };
        set_project_total(&mut self.revenue_queue, project_id, next);
        Ok(())
    }

    /// Detaches everything pending and leaves the buffer empty.
    pub fn index(&mut self) -> (b: Batch)
        ensures
            lists_path_counts(b.views@, old(self).views()),
            lists_path_counts(b.downloads@, old(self).downloads()),
            lists_project_totals(b.revenue@, old(self).revenue()),
            final(self).views() == no_path_counts(),
            final(self).downloads() == no_path_counts(),
            final(self).revenue() == no_project_totals(),
    {
        let views = take_path_counts(&mut self.views_queue);
        let downloads = take_path_counts(&mut self.downloads_queue);
        let revenue = take_project_totals(&mut self.revenue_queue);
        Batch { views, downloads, revenue }
    }
}


/// The records detached by one rotation of a raw buffer, keyed by event id.
pub struct RawBatch {
    pub views: HashMap<u128, PageView>,
    pub downloads: HashMap<u128, Download>,
}

/// A buffer of whole records, for a sink that stores each event with its client
/// details. Records are keyed by their unique id; a second record with an id already
/// pending is ignored.
pub struct RawQueue {
    views_queue: HashMap<u128, PageView>,
    downloads_queue: HashMap<u128, Download>,
}

impl RawQueue {
    /// Pending page views by id.
    pub closed spec fn views(&self) -> Map<u128, PageView> {
        self.views_queue@
    }

    /// Pending downloads by id.
    pub closed spec fn downloads(&self) -> Map<u128, Download> {
        self.downloads_queue@
    }

    /// An empty buffer.
    pub fn new() -> (r: Self)
        ensures
            r.views() == Map::<u128, PageView>::empty(),
            r.downloads() == Map::<u128, Download>::empty(),
    {
        RawQueue { views_queue: HashMap::new(), downloads_queue: HashMap::new() }
    }

    /// Appends a page view unless one with its id is pending.
    pub fn add_view(&mut self, view: PageView)
        ensures
            final(self).views() == if old(self).views().contains_key(view.id) {
                old(self).views()
            } else {
                old(self).views().insert(view.id, view)
            },
            final(self).downloads() == old(self).downloads(),
    {
        broadcast use vstd::std_specs::hash::group_hash_axioms;
        if !self.views_queue.contains_key(&view.id) {
            self.views_queue.insert(view.id, view);
        }
    }

    /// Appends a download unless one with its id is pending.
    pub fn add_download(&mut self, download: Download)
        ensures
            final(self).downloads() == if old(self).downloads().contains_key(download.id) {
                old(self).downloads()
            } else {
                old(self).downloads().insert(download.id, download)
            },
            final(self).views() == old(self).views(),
    {
        broadcast use vstd::std_specs::hash::group_hash_axioms;
        if !self.downloads_queue.contains_key(&download.id) {
            self.downloads_queue.insert(download.id, download);
        }
    }

    /// Detaches every pending record and leaves the buffer empty.
    pub fn index(&mut self) -> (b: RawBatch)
        ensures
            b.views@ == old(self).views(),
            b.downloads@ == old(self).downloads(),
            final(self).views() == Map::<u128, PageView>::empty(),
            final(self).downloads() == Map::<u128, Download>::empty(),
    {
        let mut views = HashMap::new();
        let mut downloads = HashMap::new();
        core::mem::swap(&mut views, &mut self.views_queue);
        core::mem::swap(&mut downloads, &mut self.downloads_queue);
        RawBatch { views, downloads }
    }

    /// Whether nothing is pending.
    pub fn is_empty(&self) -> (r: bool)
        ensures
            r == (self.views().len() == 0 && self.downloads().len() == 0),
    {
        broadcast use vstd::std_specs::hash::group_hash_axioms;
        self.views_queue.len() == 0 && self.downloads_queue.len() == 0
    }
}

} // verus!
