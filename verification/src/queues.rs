//! Queue classification: the requested queue families of a device are
//! sorted into categories (general, graphics, presentation, compute,
//! transfer), and any category left without a specialised family falls
//! back to the general family when one exists.

use vstd::prelude::*;
use crate::flags::QUEUE_GRAPHICS;
use crate::flags::QUEUE_COMPUTE;
use crate::flags::QUEUE_TRANSFER;
use crate::flags::has_bits;
use crate::flags::contains_bits;

verus! {

/// A logical queue category that callers address queues and pools by.
pub enum DeviceQueueCategory {
    /// Queue able to do graphics, compute and transfer work alike.
    General,
    /// Queue specialised for graphics work.
    Graphics,
    /// Queue used for presentation to a surface.
    Surface,
    /// Queue specialised for compute work.
    Compute,
    /// Queue specialised for transfer work.
    Transfer,
}

/// One requested queue family: which family, how many queues, the flags
/// its command pool is created with, and the family's capability bits.
pub struct QueueInfo {
    /// Index of the queue family.
    pub queue_index: u32,
    /// Number of queues requested within the family.
    pub queue_count: u32,
    /// Creation flags for the family's command pool.
    pub pool_flags: u32,
    /// Capability bits of the family.
    pub flags: u32,
}

/// One provisioned family: its command pool and queue list are keyed by
/// the family index; the model records how many queues were retrieved.
pub struct FamilyQueues {
    /// Index of the queue family.
    pub family_index: u32,
    /// Number of queues retrieved from the family.
    pub queue_count: u32,
    /// Creation flags of the family's command pool.
    pub pool_flags: u32,
}

/// The category-to-family assignment produced by classification.
pub struct QueueAssignment {
    /// Family serving every kind of work, if one was requested.
    pub general: Option<u32>,
    /// Family for graphics work, if assigned.
    pub graphics: Option<u32>,
    /// Family for presentation, if assigned.
    pub surface: Option<u32>,
    /// Family for compute work, if assigned.
    pub compute: Option<u32>,
    /// Family for transfer work, if assigned.
    pub transfer: Option<u32>,
}

/// An assignment with no category resolved.
pub open spec fn empty_assignment() -> QueueAssignment {
    QueueAssignment { general: None, graphics: None, surface: None, compute: None, transfer: None }
}

/// Classification of a single requested family.  A family supporting
/// graphics, compute and transfer at once becomes the general family;
/// graphics without compute becomes the graphics family and doubles as
/// the presentation family; compute without graphics becomes the compute
/// family; any other family with transfer becomes the transfer family.
pub open spec fn classify_step(a: QueueAssignment, info: QueueInfo) -> QueueAssignment {
    if has_bits(info.flags, QUEUE_GRAPHICS | QUEUE_COMPUTE | QUEUE_TRANSFER) {
        QueueAssignment { general: Some(info.queue_index), ..a }
    } else if has_bits(info.flags, QUEUE_GRAPHICS) && !has_bits(info.flags, QUEUE_COMPUTE) {
        QueueAssignment { graphics: Some(info.queue_index), surface: Some(info.queue_index), ..a }
    } else if has_bits(info.flags, QUEUE_COMPUTE) && !has_bits(info.flags, QUEUE_GRAPHICS) {
        QueueAssignment { compute: Some(info.queue_index), ..a }
    } else if has_bits(info.flags, QUEUE_TRANSFER) {
        QueueAssignment { transfer: Some(info.queue_index), ..a }
    } else {
        a
    }
}

/// Classification of a request list, in order; a later family displaces
/// an earlier one in the same category.
pub open spec fn classify(infos: Seq<QueueInfo>) -> QueueAssignment
    decreases infos.len(),
{
    if infos.len() == 0 {
        empty_assignment()
    } else {
        classify_step(classify(infos.drop_last()), infos.last())
    }
}

/// Every category still unassigned falls back to the general family,
/// when a general family exists.
pub open spec fn with_fallback(a: QueueAssignment) -> QueueAssignment {
    match a.general {
        Some(g) => QueueAssignment {
            general: Some(g),
            graphics: if a.graphics is Some { a.graphics } else { Some(g) },
            surface: if a.surface is Some { a.surface } else { Some(g) },
            compute: if a.compute is Some { a.compute } else { Some(g) },
            transfer: if a.transfer is Some { a.transfer } else { Some(g) },
        },
        None => a,
    }
}

/// The full assignment for a request list: classification, then fallback.
pub open spec fn assignment_of(infos: Seq<QueueInfo>) -> QueueAssignment {
    with_fallback(classify(infos))
}

/// A queue, identified by its family and its position within the family.
pub struct QueueRef {
    /// Index of the queue family the queue belongs to.
    pub family_index: u32,
    /// Position of the queue within its family.
    pub queue_index: usize,
}

/// The provisioned queues of a logical device, with one command pool per
/// requested family and the category assignment over them.
pub struct DeviceQueues {
    /// The provisioned families, one entry per request, in request order.
    pub families: Vec<FamilyQueues>,
    /// Family serving every kind of work, if one was requested.
    pub general_idx: Option<u32>,
    /// Family for graphics work, if assigned.
    pub graphics_idx: Option<u32>,
    /// Family for presentation, if assigned.
    pub surface_idx: Option<u32>,
    /// Family for compute work, if assigned.
    pub compute_idx: Option<u32>,
    /// Family for transfer work, if assigned.
    pub transfer_idx: Option<u32>,
}

/// Whether a category's assignment, if any, names a provisioned family.
pub open spec fn points_into(families: Seq<FamilyQueues>, o: Option<u32>) -> bool {
    o matches Some(idx) ==> exists|f: int|
        0 <= f < families.len() && (#[trigger] families[f]).family_index == idx
}

/// Extending the provisioned families keeps every assignment valid.
proof fn lemma_points_into_push(fams: Seq<FamilyQueues>, x: FamilyQueues, o: Option<u32>)
    requires
        points_into(fams, o),
    ensures
        points_into(fams.push(x), o),
{
    if o is Some {
        let idx = o->0;
        let f = choose|f: int| 0 <= f < fams.len() && (#[trigger] fams[f]).family_index == idx;
        assert(fams.push(x)[f].family_index == idx);
    }
}

/// The expected contents of [`DeviceQueues`] for a request list.
pub open spec fn device_queues_spec(infos: Seq<QueueInfo>, q: DeviceQueues) -> bool {
    let a = assignment_of(infos);
    &&& q.families@.len() == infos.len()
    &&& forall|i: int| 0 <= i < infos.len() ==> (#[trigger] q.families@[i]) == (FamilyQueues {
        family_index: infos[i].queue_index,
        queue_count: infos[i].queue_count,
        pool_flags: infos[i].pool_flags,
    })
    &&& q.general_idx == a.general
    &&& q.graphics_idx == a.graphics
    &&& q.surface_idx == a.surface
    &&& q.compute_idx == a.compute
    &&& q.transfer_idx == a.transfer
}

impl DeviceQueues {
    /// Every assigned category names a provisioned family.
    pub open spec fn wf(&self) -> bool {
        &&& points_into(self.families@, self.general_idx)
        &&& points_into(self.families@, self.graphics_idx)
        &&& points_into(self.families@, self.surface_idx)
        &&& points_into(self.families@, self.compute_idx)
        &&& points_into(self.families@, self.transfer_idx)
    }

    /// The family a category resolves to: its specialised family when one
    /// was assigned, else the general family.  Presentation resolves to
    /// the family assigned to it — the graphics family doubles as the
    /// presentation family — with the same fallback to general.
    pub open spec fn resolved_family(&self, category: DeviceQueueCategory) -> Option<u32> {
        match category {
            DeviceQueueCategory::Compute => if self.compute_idx is Some { self.compute_idx } else { self.general_idx },
            DeviceQueueCategory::Graphics => if self.graphics_idx is Some { self.graphics_idx } else { self.general_idx },
            DeviceQueueCategory::Surface => if self.surface_idx is Some { self.surface_idx } else { self.general_idx },
            DeviceQueueCategory::Transfer => if self.transfer_idx is Some { self.transfer_idx } else { self.general_idx },
            DeviceQueueCategory::General => self.general_idx,
        }
    }

    /// Provision one command pool and queue list per requested family and
    /// classify the request list into the category assignment, with
    /// fallback to the general family for unassigned categories.  The
    /// family indices must be distinct, as the API requires of a queue
    /// create request.
    pub fn new(queueinfo: &Vec<QueueInfo>) -> (r: Self)
        requires
            forall|a: int, b: int| 0 <= a < b < queueinfo@.len()
                ==> (#[trigger] queueinfo@[a]).queue_index != (#[trigger] queueinfo@[b]).queue_index,
        ensures
            device_queues_spec(queueinfo@, r),
            r.wf(),
    {
        let mut families: Vec<FamilyQueues> = Vec::new();
        let mut general_idx: Option<u32> = None;
        let mut graphics_idx: Option<u32> = None;
        let mut surface_idx: Option<u32> = None;
        let mut compute_idx: Option<u32> = None;
        let mut transfer_idx: Option<u32> = None;

        let mut i: usize = 0;
        while i < queueinfo.len()
            invariant
                i <= queueinfo@.len(),
                families@.len() == i,
                forall|k: int| 0 <= k < i ==> (#[trigger] families@[k]) == (FamilyQueues {
                    family_index: queueinfo@[k].queue_index,
                    queue_count: queueinfo@[k].queue_count,
                    pool_flags: queueinfo@[k].pool_flags,
                }),
                classify(queueinfo@.take(i as int)) == (QueueAssignment {
                    general: general_idx,
                    graphics: graphics_idx,
                    surface: surface_idx,
                    compute: compute_idx,
                    transfer: transfer_idx,
                }),
                points_into(families@, general_idx),
                points_into(families@, graphics_idx),
                points_into(families@, surface_idx),
                points_into(families@, compute_idx),
                points_into(families@, transfer_idx),
            decreases queueinfo@.len() - i,
        {
            let info = &queueinfo[i];
            let ghost fams_before = families@;
            families.push(FamilyQueues {
                family_index: info.queue_index,
                queue_count: info.queue_count,
                pool_flags: info.pool_flags,
            });
            proof {
                let pushed = FamilyQueues {
                    family_index: queueinfo@[i as int].queue_index,
                    queue_count: queueinfo@[i as int].queue_count,
                    pool_flags: queueinfo@[i as int].pool_flags,
                };
                lemma_points_into_push(fams_before, pushed, general_idx);
                lemma_points_into_push(fams_before, pushed, graphics_idx);
                lemma_points_into_push(fams_before, pushed, surface_idx);
                lemma_points_into_push(fams_before, pushed, compute_idx);
                lemma_points_into_push(fams_before, pushed, transfer_idx);
                assert(families@[i as int].family_index == queueinfo@[i as int].queue_index);
            }
            let ghost pre = QueueAssignment {
                general: general_idx,
                graphics: graphics_idx,
                surface: surface_idx,
                compute: compute_idx,
                transfer: transfer_idx,
            };
            if contains_bits(info.flags, QUEUE_GRAPHICS | QUEUE_COMPUTE | QUEUE_TRANSFER) {
                general_idx = Some(info.queue_index);
            } else if contains_bits(info.flags, QUEUE_GRAPHICS)
                && !contains_bits(info.flags, QUEUE_COMPUTE) {
                graphics_idx = Some(info.queue_index);
                surface_idx = Some(info.queue_index);
            } else if contains_bits(info.flags, QUEUE_COMPUTE)
                && !contains_bits(info.flags, QUEUE_GRAPHICS) {
                compute_idx = Some(info.queue_index);
            } else if contains_bits(info.flags, QUEUE_TRANSFER) {
                transfer_idx = Some(info.queue_index);
            }
            proof {
                let post = QueueAssignment {
                    general: general_idx,
                    graphics: graphics_idx,
                    surface: surface_idx,
                    compute: compute_idx,
                    transfer: transfer_idx,
                };
                assert(post == classify_step(pre, queueinfo@[i as int]));
                assert(queueinfo@.take(i + 1).drop_last() =~= queueinfo@.take(i as int));
                assert(queueinfo@.take(i + 1).last() == queueinfo@[i as int]);
            }
            i = i + 1;
        }
        proof {
            assert(queueinfo@.take(queueinfo@.len() as int) =~= queueinfo@);
        }
        if let Some(g) = general_idx {
            if graphics_idx.is_none() {
                graphics_idx = Some(g);
            }
            if surface_idx.is_none() {
                surface_idx = Some(g);
            }
            if compute_idx.is_none() {
                compute_idx = Some(g);
            }
            if transfer_idx.is_none() {
                transfer_idx = Some(g);
            }
        }
        Self { families, general_idx, graphics_idx, surface_idx, compute_idx, transfer_idx }
    }

    /// Whether a category resolves to some family, specialised or
    /// general.
    pub fn has_category(&self, category: &DeviceQueueCategory) -> (r: bool)
        ensures
            r == (self.resolved_family(*category) is Some),
    {
        match category {
            DeviceQueueCategory::Compute => self.compute_idx.is_some() || self.general_idx.is_some(),
            DeviceQueueCategory::Graphics => self.graphics_idx.is_some()
                || self.general_idx.is_some(),
            DeviceQueueCategory::Surface => self.surface_idx.is_some()
                || self.general_idx.is_some(),
            DeviceQueueCategory::Transfer => self.transfer_idx.is_some()
                || self.general_idx.is_some(),
            _ => self.general_idx.is_some(),
        }
    }

    /// The command pool for a category: the pool of the family the
    /// category resolves to.
    pub fn get_pool(&self, category: &DeviceQueueCategory) -> (r: u32)
        requires
            self.resolved_family(*category) is Some,
        ensures
            Some(r) == self.resolved_family(*category),
    {
        match category {
            DeviceQueueCategory::Compute => {
                if let Some(idx) = self.compute_idx {
                    idx
                } else {
                    self.general_idx.unwrap()
                }
            },
            DeviceQueueCategory::Graphics => {
                if let Some(idx) = self.graphics_idx {
                    idx
                } else {
                    self.general_idx.unwrap()
                }
            },
            DeviceQueueCategory::Transfer => {
                if let Some(idx) = self.transfer_idx {
                    idx
                } else {
                    self.general_idx.unwrap()
                }
            },
            DeviceQueueCategory::Surface => {
                if let Some(idx) = self.surface_idx {
                    idx
                } else {
                    self.general_idx.unwrap()
                }
            },
            _ => self.general_idx.unwrap(),
        }
    }

    /// The queue at a position within the family a category resolves to.
    /// The position must lie within the queues provisioned for that
    /// family.
    pub fn get_queue(&self, category: &DeviceQueueCategory, idx: usize) -> (r: QueueRef)
        requires
            self.resolved_family(*category) is Some,
            forall|f: int| 0 <= f < self.families@.len()
                && (#[trigger] self.families@[f]).family_index
                    == self.resolved_family(*category).unwrap()
                ==> idx < self.families@[f].queue_count,
        ensures
            Some(r.family_index) == self.resolved_family(*category),
            r.queue_index == idx,
    {
        let family_index = self.get_pool(category);
        QueueRef { family_index, queue_index: idx }
    }

    /// The graphics queue at a position, drawn from the graphics family
    /// when one is assigned, else from the general family; absent when
    /// neither exists.
    pub fn get_graphics(&self, idx: usize) -> (r: Option<QueueRef>)
        ensures
            match r {
                Some(q) => {
                    &&& (self.graphics_idx is Some || self.general_idx is Some)
                    &&& Some(q.family_index) == (if self.graphics_idx is Some {
                        self.graphics_idx
                    } else {
                        self.general_idx
                    })
                    &&& q.queue_index == idx
                },
                None => self.graphics_idx is None && self.general_idx is None,
            },
    {
        if let Some(i) = self.graphics_idx {
            Some(QueueRef { family_index: i, queue_index: idx })
        } else if let Some(i) = self.general_idx {
            Some(QueueRef { family_index: i, queue_index: idx })
        } else {
            None
        }
    }

    /// The presentation queue at a position, drawn from the presentation
    /// family when one is assigned, else from the general family; absent
    /// when neither exists.
    pub fn get_present(&self, idx: usize) -> (r: Option<QueueRef>)
        ensures
            match r {
                Some(q) => {
                    &&& (self.surface_idx is Some || self.general_idx is Some)
                    &&& Some(q.family_index) == (if self.surface_idx is Some {
                        self.surface_idx
                    } else {
                        self.general_idx
                    })
                    &&& q.queue_index == idx
                },
                None => self.surface_idx is None && self.general_idx is None,
            },
    {
        if let Some(i) = self.surface_idx {
            Some(QueueRef { family_index: i, queue_index: idx })
        } else if let Some(i) = self.general_idx {
            Some(QueueRef { family_index: i, queue_index: idx })
        } else {
            None
        }
    }
}

/// When a request list contains a family able to do graphics, compute
/// and transfer at once, every category of the resulting assignment
/// resolves to some family: the requested categories are never left
/// unassigned.
pub proof fn lemma_general_family_resolves_all(infos: Seq<QueueInfo>, k: int)
    requires
        0 <= k < infos.len(),
        has_bits(infos[k].flags, QUEUE_GRAPHICS | QUEUE_COMPUTE | QUEUE_TRANSFER),
    ensures
        assignment_of(infos).general is Some,
        assignment_of(infos).graphics is Some,
        assignment_of(infos).surface is Some,
        assignment_of(infos).compute is Some,
        assignment_of(infos).transfer is Some,
{
    lemma_general_survives(infos, k);
}

/// When the queues of a constructed device were classified from a
/// request list holding a general-capable family, every category a
/// caller can ask for resolves to some family: no lookup is left
/// without a queue or a pool.
pub proof fn lemma_constructed_queues_resolve_every_category(
    q: DeviceQueues,
    infos: Seq<QueueInfo>,
    k: int,
)
    requires
        device_queues_spec(infos, q),
        0 <= k < infos.len(),
        has_bits(infos[k].flags, QUEUE_GRAPHICS | QUEUE_COMPUTE | QUEUE_TRANSFER),
    ensures
        q.resolved_family(DeviceQueueCategory::General) is Some,
        q.resolved_family(DeviceQueueCategory::Graphics) is Some,
        q.resolved_family(DeviceQueueCategory::Surface) is Some,
        q.resolved_family(DeviceQueueCategory::Compute) is Some,
        q.resolved_family(DeviceQueueCategory::Transfer) is Some,
{
    lemma_general_family_resolves_all(infos, k);
}

/// A general-capable family at position `k` leaves the general slot of
/// the raw classification assigned.
proof fn lemma_general_survives(infos: Seq<QueueInfo>, k: int)
    requires
        0 <= k < infos.len(),
        has_bits(infos[k].flags, QUEUE_GRAPHICS | QUEUE_COMPUTE | QUEUE_TRANSFER),
    ensures
        classify(infos).general is Some,
    decreases infos.len(),
{
    if k == infos.len() - 1 {
    } else {
        lemma_general_survives(infos.drop_last(), k);
    }
}

} // verus!
