//! The execution queue of a session: each queued call moves through a fixed
//! set of statuses, and the queue keeps counters over the batch.
use crate::error::{PsyGuardError, PsyResult};
use crate::hash;
use crate::text::{decimal, join};
use crate::types::{
    CfcId, CftVerificationResult, ReadOnlyPreviewResult, UpsAccumulatedInfo, UpsQueueItem,
    UpsQueueItemStatus,
};
use vstd::prelude::*;

verus! {

/// The size an end cap grows by with each proven call, in KiB.
pub const STEP_SIZE_KB: u64 = 10;

/// The number of items with status `st`.
pub open spec fn count_status(items: Seq<UpsQueueItem>, st: UpsQueueItemStatus) -> nat
    decreases items.len(),
{
    if items.len() == 0 {
        0
    } else {
        count_status(items.drop_last(), st) + if items.last().status == st {
            1nat
        } else {
            0nat
        }
    }
}

pub proof fn lemma_count_bound(items: Seq<UpsQueueItem>, st: UpsQueueItemStatus)
    ensures
        count_status(items, st) <= items.len(),
    decreases items.len(),
{
    if items.len() > 0 {
        lemma_count_bound(items.drop_last(), st);
    }
}

pub open spec fn is_completed(st: UpsQueueItemStatus) -> bool {
    st == UpsQueueItemStatus::Success || st == UpsQueueItemStatus::Failed
}

pub open spec fn all_completed(items: Seq<UpsQueueItem>) -> bool {
    forall|i: int| 0 <= i < items.len() ==> is_completed(#[trigger] items[i].status)
}

/// None of the three counters went down from `a` to `b`.
pub open spec fn counters_not_decreased(a: UpsAccumulatedInfo, b: UpsAccumulatedInfo) -> bool {
    &&& a.total_items <= b.total_items
    &&& a.total_proving_time_ms <= b.total_proving_time_ms
    &&& a.estimated_endcap_size_kb <= b.estimated_endcap_size_kb
}

/// `item` with another status.
pub open spec fn with_status(item: UpsQueueItem, st: UpsQueueItemStatus) -> UpsQueueItem {
    UpsQueueItem { status: st, ..item }
}

/// The queue of calls of one batch and its accumulated counters.
pub struct UpsQueue {
    items: Vec<UpsQueueItem>,
    accumulated_info: UpsAccumulatedInfo,
}

impl UpsQueue {
    pub closed spec fn items_spec(&self) -> Seq<UpsQueueItem> {
        self.items@
    }

    pub closed spec fn info_spec(&self) -> UpsAccumulatedInfo {
        self.accumulated_info
    }

    /// Indices are dense, and `total_items` counts the items.
    pub open spec fn wf(&self) -> bool {
        &&& self.items_spec().len() <= u32::MAX
        &&& self.info_spec().total_items == self.items_spec().len()
        &&& forall|i: int| 0 <= i < self.items_spec().len() ==> (#[trigger] self.items_spec()[i]).index == i
    }

    /// An empty queue whose container root starts at `initial_ucon_root`.
    pub fn new(initial_ucon_root: hash::Hash) -> (r: UpsQueue)
        ensures
            r.wf(),
            r.items_spec().len() == 0,
            r.info_spec() == (UpsAccumulatedInfo {
                total_items: 0,
                total_proving_time_ms: 0,
                estimated_endcap_size_kb: 0,
                old_ucon_root: initial_ucon_root,
                new_ucon_root: initial_ucon_root,
            }),
    {
        UpsQueue {
            items: Vec::new(),
            accumulated_info: UpsAccumulatedInfo {
                total_items: 0,
                total_proving_time_ms: 0,
                estimated_endcap_size_kb: 0,
                old_ucon_root: initial_ucon_root,
                new_ucon_root: initial_ucon_root,
            },
        }
    }

    /// Appends a pending call and returns its index.
    pub fn add_item(&mut self, cfc_id: CfcId, args: String) -> (r: u32)
        requires
            old(self).wf(),
            old(self).items_spec().len() < u32::MAX,
        ensures
            final(self).wf(),
            r == old(self).items_spec().len(),
            final(self).items_spec() == old(self).items_spec().push(
                UpsQueueItem {
                    index: r,
                    cfc_id,
                    args,
                    status: UpsQueueItemStatus::Pending,
                    preview_result: None,
                    cft_verification: None,
                },
            ),
            final(self).info_spec() == (UpsAccumulatedInfo {
                total_items: (old(self).info_spec().total_items + 1) as u32,
                ..old(self).info_spec()
            }),
            counters_not_decreased(old(self).info_spec(), final(self).info_spec()),
    {
        let index = self.items.len() as u32;
        let item = UpsQueueItem {
            index,
            cfc_id,
            args,
            status: UpsQueueItemStatus::Pending,
            preview_result: None,
            cft_verification: None,
        };
        self.items.push(item);
        self.accumulated_info.total_items = self.accumulated_info.total_items + 1;
        index
    }

    fn not_found(index: u32) -> (r: PsyGuardError)
        ensures
            r is NotFound,
    {
        PsyGuardError::NotFound(join("no queue item ", decimal(index as u64).as_str()))
    }

    /// Attaches a preview to the item; its status becomes `PreviewSuccess`
    /// or `PreviewFailed` after the preview's outcome. Fails with `NotFound`
    /// when there is no such item.
    pub fn update_preview(&mut self, index: u32, preview_result: ReadOnlyPreviewResult) -> (r:
        PsyResult<()>)
        requires
            old(self).wf(),
        ensures
            final(self).wf(),
            r is Err <==> index >= old(self).items_spec().len(),
            r matches Err(e) ==> e is NotFound && final(self).items_spec() == old(self).items_spec(),
            r is Ok ==> final(self).items_spec() == old(self).items_spec().update(
                index as int,
                UpsQueueItem {
                    status: if preview_result.success {
                        UpsQueueItemStatus::PreviewSuccess
                    } else {
                        UpsQueueItemStatus::PreviewFailed
                    },
                    preview_result: Some(preview_result),
                    ..old(self).items_spec()[index as int]
                },
            ),
            final(self).info_spec() == old(self).info_spec(),
    {
        if index as usize >= self.items.len() {
            return Err(Self::not_found(index));
        }
        let i = index as usize;
        let status = if preview_result.success {
            UpsQueueItemStatus::PreviewSuccess
        } else {
            UpsQueueItemStatus::PreviewFailed
        };
        let ghost before = self.items@;
        self.items[i].status = status;
        self.items[i].preview_result = Some(preview_result);
        assert(self.items@ =~= before.update(i as int, UpsQueueItem {
            status,
            preview_result: Some(preview_result),
            ..before[i as int]
        }));
        Ok(())
    }

    /// Attaches a whitelist verification to the item; an item whose function
    /// is not whitelisted becomes `Failed`, any other keeps its status.
    /// Fails with `NotFound` when there is no such item.
    pub fn update_cft_verification(&mut self, index: u32, cft_verification: CftVerificationResult) -> (r:
        PsyResult<()>)
        requires
            old(self).wf(),
        ensures
            final(self).wf(),
            r is Err <==> index >= old(self).items_spec().len(),
            r matches Err(e) ==> e is NotFound && final(self).items_spec() == old(self).items_spec(),
            r is Ok ==> final(self).items_spec() == old(self).items_spec().update(
                index as int,
                UpsQueueItem {
                    status: if cft_verification.in_cft {
                        old(self).items_spec()[index as int].status
                    } else {
                        UpsQueueItemStatus::Failed
                    },
                    cft_verification: Some(cft_verification),
                    ..old(self).items_spec()[index as int]
                },
            ),
            final(self).info_spec() == old(self).info_spec(),
    {
        if index as usize >= self.items.len() {
            return Err(Self::not_found(index));
        }
        let i = index as usize;
        let ghost before = self.items@;
        if !cft_verification.in_cft {
            self.items[i].status = UpsQueueItemStatus::Failed;
        }
        let ghost st = self.items@[i as int].status;
        self.items[i].cft_verification = Some(cft_verification);
        assert(self.items@ =~= before.update(i as int, UpsQueueItem {
            status: st,
            cft_verification: Some(cft_verification),
            ..before[i as int]
        }));
        Ok(())
    }

    fn set_status(&mut self, index: u32, st: UpsQueueItemStatus) -> (r: PsyResult<()>)
        requires
            old(self).wf(),
        ensures
            final(self).wf(),
            r is Err <==> index >= old(self).items_spec().len(),
            r matches Err(e) ==> e is NotFound && final(self).items_spec() == old(self).items_spec(),
            r is Ok ==> final(self).items_spec() == old(self).items_spec().update(
                index as int,
                with_status(old(self).items_spec()[index as int], st),
            ),
            final(self).info_spec() == old(self).info_spec(),
    {
        if index as usize >= self.items.len() {
            return Err(Self::not_found(index));
        }
        let i = index as usize;
        let ghost before = self.items@;
        self.items[i].status = st;
        assert(self.items@ =~= before.update(i as int, with_status(before[i as int], st)));
        Ok(())
    }

    /// The item starts executing. Fails with `NotFound` when there is no such
    /// item.
    pub fn mark_executing(&mut self, index: u32) -> (r: PsyResult<()>)
        requires
            old(self).wf(),
        ensures
            final(self).wf(),
            r is Err <==> index >= old(self).items_spec().len(),
            r matches Err(e) ==> e is NotFound && final(self).items_spec() == old(self).items_spec(),
            r is Ok ==> final(self).items_spec() == old(self).items_spec().update(
                index as int,
                with_status(old(self).items_spec()[index as int], UpsQueueItemStatus::Executing),
            ),
            final(self).info_spec() == old(self).info_spec(),
    {
        self.set_status(index, UpsQueueItemStatus::Executing)
    }

    /// The item was proven in `proving_time_ms`; the proving time and the
    /// estimated end-cap size grow. Fails with `NotFound`, changing nothing,
    /// when there is no such item.
    pub fn mark_success(&mut self, index: u32, proving_time_ms: u64) -> (r: PsyResult<()>)
        requires
            old(self).wf(),
            old(self).info_spec().total_proving_time_ms + proving_time_ms <= u64::MAX,
            old(self).info_spec().estimated_endcap_size_kb + STEP_SIZE_KB <= u64::MAX,
        ensures
            final(self).wf(),
            r is Err <==> index >= old(self).items_spec().len(),
            r matches Err(e) ==> e is NotFound && final(self).items_spec() == old(self).items_spec()
                && final(self).info_spec() == old(self).info_spec(),
            r is Ok ==> final(self).items_spec() == old(self).items_spec().update(
                index as int,
                with_status(old(self).items_spec()[index as int], UpsQueueItemStatus::Success),
            ) && final(self).info_spec() == (UpsAccumulatedInfo {
                total_proving_time_ms: (old(self).info_spec().total_proving_time_ms
                    + proving_time_ms) as u64,
                estimated_endcap_size_kb: (old(self).info_spec().estimated_endcap_size_kb
                    + STEP_SIZE_KB) as u64,
                ..old(self).info_spec()
            }),
            counters_not_decreased(old(self).info_spec(), final(self).info_spec()),
    {
        let r = self.set_status(index, UpsQueueItemStatus::Success);
        if r.is_ok() {
            self.accumulated_info.total_proving_time_ms = self.accumulated_info.total_proving_time_ms
                + proving_time_ms;
            self.accumulated_info.estimated_endcap_size_kb = self.accumulated_info.estimated_endcap_size_kb
                + STEP_SIZE_KB;
        }
        r
    }

    /// The item failed. Fails with `NotFound` when there is no such item.
    pub fn mark_failed(&mut self, index: u32) -> (r: PsyResult<()>)
        requires
            old(self).wf(),
        ensures
            final(self).wf(),
            r is Err <==> index >= old(self).items_spec().len(),
            r matches Err(e) ==> e is NotFound && final(self).items_spec() == old(self).items_spec(),
            r is Ok ==> final(self).items_spec() == old(self).items_spec().update(
                index as int,
                with_status(old(self).items_spec()[index as int], UpsQueueItemStatus::Failed),
            ),
            final(self).info_spec() == old(self).info_spec(),
    {
        self.set_status(index, UpsQueueItemStatus::Failed)
    }

    /// Records the container root reached so far.
    pub fn update_ucon_root(&mut self, new_ucon_root: hash::Hash)
        ensures
            final(self).items_spec() == old(self).items_spec(),
            final(self).info_spec() == (UpsAccumulatedInfo { new_ucon_root, ..old(self).info_spec() }),
    {
        self.accumulated_info.new_ucon_root = new_ucon_root;
    }

    pub fn get_items(&self) -> (r: &[UpsQueueItem])
        ensures
            r@ == self.items_spec(),
    {
        self.items.as_slice()
    }

    pub fn get_accumulated_info(&self) -> (r: &UpsAccumulatedInfo)
        ensures
            *r == self.info_spec(),
    {
        &self.accumulated_info
    }

    fn count(&self, st: UpsQueueItemStatus) -> (r: u32)
        requires
            self.wf(),
        ensures
            r == count_status(self.items_spec(), st),
    {
        let mut n: u32 = 0;
        let mut i: usize = 0;
        while i < self.items.len()
            invariant
                self.wf(),
                0 <= i <= self.items@.len(),
                n == count_status(self.items@.subrange(0, i as int), st),
            decreases self.items@.len() - i,
        {
            proof {
                assert(self.items@.subrange(0, i + 1).drop_last() =~= self.items@.subrange(0, i as int));
                lemma_count_bound(self.items@.subrange(0, i as int), st);
            }
            if self.items[i].status == st {
                n = n + 1;
            }
            i = i + 1;
        }
        assert(self.items@.subrange(0, i as int) =~= self.items@);
        n
    }

    /// The number of items that succeeded.
    pub fn get_success_count(&self) -> (r: u32)
        requires
            self.wf(),
        ensures
            r == count_status(self.items_spec(), UpsQueueItemStatus::Success),
    {
        self.count(UpsQueueItemStatus::Success)
    }

    /// The number of items that failed.
    pub fn get_failed_count(&self) -> (r: u32)
        requires
            self.wf(),
        ensures
            r == count_status(self.items_spec(), UpsQueueItemStatus::Failed),
    {
        self.count(UpsQueueItemStatus::Failed)
    }

    /// Whether every item succeeded or failed.
    pub fn is_all_completed(&self) -> (r: bool)
        ensures
            r == all_completed(self.items_spec()),
    {
        let mut i: usize = 0;
        while i < self.items.len()
            invariant
                0 <= i <= self.items@.len(),
                forall|k: int| 0 <= k < i ==> is_completed(#[trigger] self.items@[k].status),
            decreases self.items@.len() - i,
        {
            let st = self.items[i].status;
            if !(st == UpsQueueItemStatus::Success || st == UpsQueueItemStatus::Failed) {
                return false;
            }
            i = i + 1;
        }
        true
    }

    /// Whether the batch can be closed: it is not empty, something succeeded,
    /// and every item is completed.
    pub fn can_submit_endcap(&self) -> (r: bool)
        requires
            self.wf(),
        ensures
            r == (self.items_spec().len() > 0 && count_status(
                self.items_spec(),
                UpsQueueItemStatus::Success,
            ) > 0 && all_completed(self.items_spec())),
    {
        self.items.len() > 0 && self.get_success_count() > 0 && self.is_all_completed()
    }

    /// Empties the queue and zeroes the counters; the container roots carry
    /// over to the next batch.
    pub fn clear(&mut self)
        ensures
            final(self).wf(),
            final(self).items_spec().len() == 0,
            final(self).info_spec() == (UpsAccumulatedInfo {
                total_items: 0,
                total_proving_time_ms: 0,
                estimated_endcap_size_kb: 0,
                ..old(self).info_spec()
            }),
    {
        self.items.clear();
        self.accumulated_info.total_items = 0;
        self.accumulated_info.total_proving_time_ms = 0;
        self.accumulated_info.estimated_endcap_size_kb = 0;
    }
}

} // verus!
