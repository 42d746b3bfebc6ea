//! Physical-device selection: score enumerated devices against the
//! requested queue capabilities (and presentation support, when a surface
//! exists) and pick the first that can satisfy every requirement.

use vstd::prelude::*;
use crate::flags::has_bits;
use crate::flags::contains_bits;
use crate::queues::QueueInfo;
use crate::queues::DeviceQueues;
use crate::queues::device_queues_spec;

verus! {

/// What one queue family of a physical device offers: its capability
/// flags, how many queues it exposes, and whether it can present to the
/// surface under consideration (always `false` when there is no surface).
pub struct QueueFamilyProperties {
    /// Capability bits of the family.
    pub queue_flags: u32,
    /// Number of queues the family exposes.
    pub queue_count: u32,
    /// Whether the family can present to the requested surface.
    pub present_support: bool,
}

/// One enumerated physical device: the properties of its queue families.
pub struct PhysicalDeviceInfo {
    /// Queue family properties, indexed by family index.
    pub families: Vec<QueueFamilyProperties>,
}

/// Why device construction failed.
#[derive(Clone, Copy, PartialEq, Eq, Structural, Debug)]
pub enum DeviceError {
    /// No enumerated physical device satisfies every hard requirement.
    NoSuitableDevice,
}

/// Queue family indices a device exposes for rendering to a surface.
pub struct QueueFamilyIndices {
    /// Family with graphics support, if one was found.
    pub graphics: Option<u32>,
    /// Family with presentation support, if one was found.
    pub surface: Option<u32>,
}

/// Queue family indices grouped by speciality.
pub struct LogicalDeviceQueueIndices {
    /// Family with graphics support, if one was found.
    pub graphics: Option<u32>,
    /// Family with compute but not graphics support, if one was found.
    pub compute_only: Option<u32>,
    /// Family with transfer but neither graphics nor compute support,
    /// if one was found.
    pub transfer_only: Option<u32>,
}

/// Whether one queue family satisfies every requested capability set and,
/// if a surface is required, can present to it.
pub open spec fn family_satisfies(
    fam: QueueFamilyProperties,
    required: Seq<u32>,
    needs_surface: bool,
) -> bool {
    &&& forall|k: int| 0 <= k < required.len() ==> has_bits(fam.queue_flags, #[trigger] required[k])
    &&& (needs_surface ==> fam.present_support)
}

/// Whether some queue family of the device satisfies every requirement.
pub open spec fn device_satisfies(
    dev: PhysicalDeviceInfo,
    required: Seq<u32>,
    needs_surface: bool,
) -> bool {
    exists|j: int|
        0 <= j < dev.families@.len() && family_satisfies(#[trigger] dev.families@[j], required, needs_surface)
}

/// What device selection promises of its outcome: success names the
/// first capable device, and failure is the "no suitable device"
/// condition, reported exactly when no device qualifies.
pub open spec fn selection_post(
    devices: Seq<PhysicalDeviceInfo>,
    required: Seq<u32>,
    needs_surface: bool,
    r: Result<usize, DeviceError>,
) -> bool {
    match r {
        Ok(i) => {
            &&& i < devices.len()
            &&& device_satisfies(devices[i as int], required, needs_surface)
            &&& forall|k: int| 0 <= k < i
                ==> !device_satisfies(#[trigger] devices[k], required, needs_surface)
        },
        Err(e) => {
            &&& e == DeviceError::NoSuitableDevice
            &&& forall|k: int| 0 <= k < devices.len()
                ==> !device_satisfies(#[trigger] devices[k], required, needs_surface)
        },
    }
}

/// Pick the first enumerated physical device with a queue family that
/// satisfies every requested capability set (and presentation, when a
/// surface is required); fail with [`DeviceError::NoSuitableDevice`]
/// exactly when no device qualifies.
pub fn choose_physical_device(
    devices: &Vec<PhysicalDeviceInfo>,
    required: &Vec<u32>,
    needs_surface: bool,
) -> (r: Result<usize, DeviceError>)
    ensures
        selection_post(devices@, required@, needs_surface, r),
{
    let mut d: usize = 0;
    while d < devices.len()
        invariant
            d <= devices@.len(),
            forall|k: int| 0 <= k < d
                ==> !device_satisfies(#[trigger] devices@[k], required@, needs_surface),
        decreases devices@.len() - d,
    {
        let dev = &devices[d];
        let mut f: usize = 0;
        let mut found: bool = false;
        while f < dev.families.len() && !found
            invariant
                f <= dev.families@.len(),
                found ==> f > 0 && family_satisfies(dev.families@[f - 1], required@, needs_surface),
                !found ==> forall|j: int| 0 <= j < f
                    ==> !family_satisfies(#[trigger] dev.families@[j], required@, needs_surface),
            decreases dev.families@.len() - f + (if found { 0int } else { 1int }),
        {
            let fam = &dev.families[f];
            let mut support: bool = true;
            let mut c: usize = 0;
            while c < required.len()
                invariant
                    c <= required@.len(),
                    support == forall|k: int| 0 <= k < c
                        ==> has_bits(fam.queue_flags, #[trigger] required@[k]),
                decreases required@.len() - c,
            {
                support = support && contains_bits(fam.queue_flags, required[c]);
                c = c + 1;
            }
            if needs_surface {
                support = support && fam.present_support;
            }
            found = support;
            f = f + 1;
        }
        if found {
            return Ok(d);
        }
        d = d + 1;
    }
    Err(DeviceError::NoSuitableDevice)
}

/// When some enumerated device can satisfy every requested capability
/// set, any outcome device selection is allowed to produce is a success:
/// construction never fails while a capable device exists.
pub proof fn lemma_selection_succeeds_when_satisfiable(
    devices: Seq<PhysicalDeviceInfo>,
    required: Seq<u32>,
    needs_surface: bool,
    r: Result<usize, DeviceError>,
    i: int,
)
    requires
        selection_post(devices, required, needs_surface, r),
        0 <= i < devices.len(),
        device_satisfies(devices[i], required, needs_surface),
    ensures
        r is Ok,
{
}

/// When no enumerated device can satisfy the requested capability sets,
/// any outcome device selection is allowed to produce is the
/// "no suitable device" condition, never a different error.
pub proof fn lemma_unsatisfiable_yields_no_suitable_device(
    devices: Seq<PhysicalDeviceInfo>,
    required: Seq<u32>,
    needs_surface: bool,
    r: Result<usize, DeviceError>,
)
    requires
        selection_post(devices, required, needs_surface, r),
        forall|k: int| 0 <= k < devices.len()
            ==> !device_satisfies(#[trigger] devices[k], required, needs_surface),
    ensures
        r == Result::<usize, DeviceError>::Err(DeviceError::NoSuitableDevice),
{
}

/// Device construction succeeds whenever some enumerated device can
/// satisfy every requested capability set, and — when the selection
/// requested a family able to do graphics, compute and transfer at once
/// — every queue category of the built device resolves to a family, so
/// no queue or pool lookup is left unanswered.  The two hypotheses on
/// `r` are exactly what [`LogicalDeviceBuilder::build`] ensures of its
/// outcome.
pub proof fn lemma_construction_succeeds_and_resolves(
    devices: Seq<PhysicalDeviceInfo>,
    required: Seq<u32>,
    needs_surface: bool,
    selection: Seq<crate::queues::QueueInfo>,
    r: Result<LogicalDevice, DeviceError>,
    i: int,
    k: int,
)
    requires
        (r matches Ok(d) ==> device_queues_spec(selection, d.queues)),
        (match r {
            Ok(d) => selection_post(devices, required, needs_surface, Ok(d.physical_device)),
            Err(e) => selection_post(devices, required, needs_surface, Err(e)),
        }),
        0 <= i < devices.len(),
        device_satisfies(devices[i], required, needs_surface),
        0 <= k < selection.len(),
        has_bits(selection[k].flags, crate::flags::QUEUE_GRAPHICS | crate::flags::QUEUE_COMPUTE
            | crate::flags::QUEUE_TRANSFER),
    ensures
        r is Ok,
        r matches Ok(d) ==> {
            &&& d.queues.resolved_family(crate::queues::DeviceQueueCategory::General) is Some
            &&& d.queues.resolved_family(crate::queues::DeviceQueueCategory::Graphics) is Some
            &&& d.queues.resolved_family(crate::queues::DeviceQueueCategory::Surface) is Some
            &&& d.queues.resolved_family(crate::queues::DeviceQueueCategory::Compute) is Some
            &&& d.queues.resolved_family(crate::queues::DeviceQueueCategory::Transfer) is Some
        },
{
    if r is Err {
        assert(!device_satisfies(devices[i], required, needs_surface));
    }
    let d = r->Ok_0;
    crate::queues::lemma_constructed_queues_resolve_every_category(d.queues, selection, k);
}

/// Builder that accumulates the hard queue requirements for device
/// construction and then selects the device and classifies its queues.
pub struct LogicalDeviceBuilder {
    /// Capability sets that the chosen device must satisfy.
    pub queue_support: Vec<u32>,
    /// Whether a presentation surface was requested.
    pub has_window: bool,
    /// Whether the presentable-chain device extension was requested.
    pub wants_swapchain: bool,
}

/// The verified outcome of device construction: which enumerated device
/// was chosen and how its requested queues classify into categories.
pub struct LogicalDevice {
    /// Index of the chosen device in the enumeration order.
    pub physical_device: usize,
    /// Categorised queues, pools and fallback assignment.
    pub queues: DeviceQueues,
    /// Whether the device was built against a presentation surface.
    pub has_surface: bool,
}

impl LogicalDeviceBuilder {
    /// A builder with no requirements recorded.
    pub fn new() -> (r: Self)
        ensures
            r.queue_support@.len() == 0,
            !r.has_window,
            !r.wants_swapchain,
    {
        Self { queue_support: Vec::new(), has_window: false, wants_swapchain: false }
    }

    /// Request a presentation surface for the device.
    pub fn set_window(self) -> (r: Self)
        ensures
            r.has_window,
            r.queue_support@ == self.queue_support@,
            r.wants_swapchain == self.wants_swapchain,
    {
        Self { has_window: true, ..self }
    }

    /// Request the presentable-chain device extension.
    pub fn add_swapchain_extension(self) -> (r: Self)
        ensures
            r.wants_swapchain,
            r.queue_support@ == self.queue_support@,
            r.has_window == self.has_window,
    {
        Self { wants_swapchain: true, ..self }
    }

    /// Add one capability set that some family of the chosen device must
    /// satisfy in full.
    pub fn check_queue_support(self, flag: u32) -> (r: Self)
        ensures
            r.queue_support@ == self.queue_support@.push(flag),
            r.has_window == self.has_window,
            r.wants_swapchain == self.wants_swapchain,
    {
        let mut s = self;
        s.queue_support.push(flag);
        s
    }

    /// Choose the first capable device and classify the queues that the
    /// caller-supplied selection requested on it.  The selection's family
    /// indices must be distinct, as the API requires of a queue create
    /// request.
    pub fn build(
        self,
        devices: &Vec<PhysicalDeviceInfo>,
        selection: &Vec<QueueInfo>,
    ) -> (r: Result<LogicalDevice, DeviceError>)
        requires
            forall|a: int, b: int| 0 <= a < b < selection@.len()
                ==> (#[trigger] selection@[a]).queue_index != (#[trigger] selection@[b]).queue_index,
        ensures
            match r {
                Ok(d) => {
                    &&& selection_post(devices@, self.queue_support@, self.has_window,
                        Ok(d.physical_device))
                    &&& device_queues_spec(selection@, d.queues)
                    &&& d.queues.wf()
                    &&& d.has_surface == self.has_window
                },
                Err(e) => selection_post(devices@, self.queue_support@, self.has_window, Err(e)),
            },
    {
        let chosen = match choose_physical_device(devices, &self.queue_support, self.has_window) {
            Ok(i) => i,
            Err(e) => {
                return Err(e);
            },
        };
        let queues = DeviceQueues::new(selection);
        Ok(LogicalDevice { physical_device: chosen, queues, has_surface: self.has_window })
    }
}

} // verus!
