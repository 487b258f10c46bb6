//! Adapters, and in which order an instance lists them.

use crate::capabilities::{PrivateCapabilities, PrivateDisabilities, Settings};
use crate::instance::Instance;
use std::sync::Arc;
use vstd::prelude::*;

verus! {

/// What kind of processor an adapter is.
#[derive(Clone, Copy, Debug, PartialEq, Eq, Structural)]
pub enum DeviceType {
    Other,
    IntegratedGpu,
    DiscreteGpu,
    VirtualGpu,
    Cpu,
}

/// The graphics interface that an adapter is reached by.
#[derive(Clone, Copy, Debug, PartialEq, Eq, Structural)]
pub enum Backend {
    Noop,
    Vulkan,
    Metal,
    Dx12,
    Gl,
    BrowserWebGpu,
}

/// What an adapter tells about itself.
#[derive(Debug)]
pub struct AdapterInfo {
    pub name: String,
    pub vendor: u32,
    pub device: u32,
    pub device_type: DeviceType,
    pub driver: String,
    pub driver_info: String,
    pub backend: Backend,
}

/// What everything that stems from one adapter shares: the device `device`, and a timer `T` for
/// presentations.
pub struct AdapterShared<D, T> {
    pub device: D,
    pub disabilities: PrivateDisabilities,
    pub private_caps: PrivateCapabilities,
    pub settings: Settings,
    pub presentation_timer: T,
}

impl<D, T> AdapterShared<D, T> {
    /// The shared state of a device with what was found out about it, and default settings.
    pub fn new(
        device: D,
        private_caps: PrivateCapabilities,
        disabilities: PrivateDisabilities,
        presentation_timer: T,
    ) -> (shared: Self)
        ensures
            shared.device == device,
            shared.private_caps == private_caps,
            shared.disabilities == disabilities,
            shared.presentation_timer == presentation_timer,
            !shared.settings.retain_command_buffer_references,
    {
        AdapterShared {
            disabilities,
            private_caps,
            device,
            settings: Settings::default(),
            presentation_timer,
        }
    }
}

/// An adapter.
pub struct Adapter<D, T> {
    pub shared: Arc<AdapterShared<D, T>>,
}

/// A device, and what was read from it: its features `F` and capabilities `C`.
pub struct FoundDevice<D, T, F, C> {
    pub name: String,
    pub device: D,
    pub private_caps: PrivateCapabilities,
    pub disabilities: PrivateDisabilities,
    pub presentation_timer: T,
    pub device_type: DeviceType,
    pub features: F,
    pub capabilities: C,
}

/// An adapter as an instance lists it.
pub struct ExposedAdapter<D, T, F, C> {
    pub adapter: Adapter<D, T>,
    pub info: AdapterInfo,
    pub features: F,
    pub capabilities: C,
}

impl<D, T, F, C> ExposedAdapter<D, T, F, C> {
    /// The adapter is `found`, under its name and with all that was read from it.
    pub open spec fn exposes(self, found: FoundDevice<D, T, F, C>) -> bool {
        &&& self.info.name@ == found.name@
        &&& self.info.vendor == 0
        &&& self.info.device == 0
        &&& self.info.device_type == found.device_type
        &&& self.info.driver@ == Seq::<char>::empty()
        &&& self.info.driver_info@ == Seq::<char>::empty()
        &&& self.info.backend == Backend::Metal
        &&& self.features == found.features
        &&& self.capabilities == found.capabilities
        &&& self.adapter.shared.device == found.device
        &&& self.adapter.shared.private_caps == found.private_caps
        &&& self.adapter.shared.disabilities == found.disabilities
        &&& self.adapter.shared.presentation_timer == found.presentation_timer
        &&& !self.adapter.shared.settings.retain_command_buffer_references
    }

    /// The adapter of a device that was found.
    pub fn new(found: FoundDevice<D, T, F, C>) -> (exposed: Self)
        ensures
            exposed.exposes(found),
            exposed.info.name@ == found.name@,
            exposed.info.vendor == 0,
            exposed.info.device == 0,
            exposed.info.device_type == found.device_type,
            exposed.info.driver@.len() == 0,
            exposed.info.driver_info@.len() == 0,
            exposed.info.backend == Backend::Metal,
            exposed.features == found.features,
            exposed.capabilities == found.capabilities,
            exposed.adapter.shared.device == found.device,
            exposed.adapter.shared.private_caps == found.private_caps,
            exposed.adapter.shared.disabilities == found.disabilities,
            exposed.adapter.shared.presentation_timer == found.presentation_timer,
            !exposed.adapter.shared.settings.retain_command_buffer_references,
    {
        let shared = AdapterShared::new(
            found.device,
            found.private_caps,
            found.disabilities,
            found.presentation_timer,
        );
        ExposedAdapter {
            info: AdapterInfo {
                name: found.name,
                vendor: 0,
                device: 0,
                device_type: found.device_type,
                driver: String::new(),
                driver_info: String::new(),
                backend: Backend::Metal,
            },
            features: found.features,
            capabilities: found.capabilities,
            adapter: Adapter { shared: Arc::new(shared) },
        }
    }
}

/// What an adapter lists is what was read from its device, field by field, and what the backend
/// cannot tell is left empty.
pub proof fn law_listed_is_what_was_read<D, T, F, C>(
    exposed: ExposedAdapter<D, T, F, C>,
    found: FoundDevice<D, T, F, C>,
)
    requires
        exposed.exposes(found),
    ensures
        exposed.info.name@ == found.name@,
        exposed.info.vendor == 0,
        exposed.info.device == 0,
        exposed.info.device_type == found.device_type,
        exposed.info.driver@.len() == 0,
        exposed.info.driver_info@.len() == 0,
        exposed.info.backend == Backend::Metal,
        exposed.features == found.features,
        exposed.capabilities == found.capabilities,
        exposed.adapter.shared.device == found.device,
        exposed.adapter.shared.private_caps == found.private_caps,
        exposed.adapter.shared.disabilities == found.disabilities,
        exposed.adapter.shared.presentation_timer == found.presentation_timer,
        !exposed.adapter.shared.settings.retain_command_buffer_references,
{
}

/// Devices that differ in their type, in their name or in what they can do are listed differently.
pub proof fn law_listing_tells_devices_apart<D, T, F, C>(
    a: ExposedAdapter<D, T, F, C>,
    b: ExposedAdapter<D, T, F, C>,
    found_a: FoundDevice<D, T, F, C>,
    found_b: FoundDevice<D, T, F, C>,
)
    requires
        a.exposes(found_a),
        b.exposes(found_b),
    ensures
        a.info.device_type == b.info.device_type <==> found_a.device_type == found_b.device_type,
        a.info.name@ == b.info.name@ <==> found_a.name@ == found_b.name@,
        a.features == b.features <==> found_a.features == found_b.features,
        a.capabilities == b.capabilities <==> found_a.capabilities == found_b.capabilities,
        a.adapter.shared.device == b.adapter.shared.device <==> found_a.device == found_b.device,
{
}

/// Whether a device is of low power, and headless, as said.
pub open spec fn is_kind<D, T, F, C>(
    found: FoundDevice<D, T, F, C>,
    low_power: bool,
    headless: bool,
) -> bool {
    found.private_caps.low_power == low_power && found.private_caps.headless == headless
}

/// The devices with these two properties, in their order.
pub open spec fn of_kind<D, T, F, C>(
    found: Seq<FoundDevice<D, T, F, C>>,
    low_power: bool,
    headless: bool,
) -> Seq<FoundDevice<D, T, F, C>> {
    found.filter(|found: FoundDevice<D, T, F, C>| is_kind(found, low_power, headless))
}

/// The devices with those that are not low-power first and, among equals in that, those that are
/// not headless first; otherwise in their order.
pub open spec fn by_preference<D, T, F, C>(found: Seq<FoundDevice<D, T, F, C>>) -> Seq<
    FoundDevice<D, T, F, C>,
> {
    of_kind(found, false, false) + of_kind(found, false, true) + of_kind(found, true, false)
        + of_kind(found, true, true)
}

/// Sorting by preference neither loses nor adds a device.
pub proof fn law_preference_only_reorders<D, T, F, C>(found: Seq<FoundDevice<D, T, F, C>>)
    ensures
        by_preference(found).to_multiset() == found.to_multiset(),
    decreases found.len(),
{
    reveal(Seq::filter);
    if found.len() == 0 {
        assert(by_preference(found) =~= found);
    } else {
        let front = found.drop_last();
        let last = found.last();
        law_preference_only_reorders(front);
        let a = of_kind(front, false, false).len() as int;
        let b = a + of_kind(front, false, true).len();
        let c = b + of_kind(front, true, false).len();
        let d = c + of_kind(front, true, true).len();
        let place = match (last.private_caps.low_power, last.private_caps.headless) {
            (false, false) => a,
            (false, true) => b,
            (true, false) => c,
            (true, true) => d,
        };
        assert(by_preference(found) =~= by_preference(front).insert(place, last));
        vstd::seq_lib::to_multiset_insert(by_preference(front), place, last);
        vstd::seq_lib::to_multiset_build(front, last);
        assert(front.push(last) =~= found);
    }
}

/// No device comes after one that it is preferred over: one with less power does not come before
/// one with more, nor, with the same power, a headless one before one that is not headless.
pub proof fn law_preference_sorts<D, T, F, C>(
    found: Seq<FoundDevice<D, T, F, C>>,
    i: int,
    j: int,
)
    requires
        0 <= i < j < by_preference(found).len(),
    ensures
        ({
            let earlier = by_preference(found)[i].private_caps;
            let later = by_preference(found)[j].private_caps;
            &&& earlier.low_power ==> later.low_power
            &&& earlier.low_power == later.low_power && earlier.headless ==> later.headless
        }),
{
    broadcast use vstd::seq_lib::group_filter_ensures;

}

/// Sorting by preference leaves devices that are alike in power and in being headless in their
/// order.
pub proof fn law_preference_is_stable<D, T, F, C>(
    found: Seq<FoundDevice<D, T, F, C>>,
    low_power: bool,
    headless: bool,
)
    ensures
        of_kind(by_preference(found), low_power, headless) == of_kind(found, low_power, headless),
        by_preference(found).filter(
            |device: FoundDevice<D, T, F, C>|
                device.private_caps.low_power == low_power && device.private_caps.headless
                    == headless,
        ) == found.filter(
            |device: FoundDevice<D, T, F, C>|
                device.private_caps.low_power == low_power && device.private_caps.headless
                    == headless,
        ),
{
    assert((|found: FoundDevice<D, T, F, C>| is_kind(found, low_power, headless)) =~= (
    |device: FoundDevice<D, T, F, C>|
        device.private_caps.low_power == low_power && device.private_caps.headless == headless));
    let pred = |found: FoundDevice<D, T, F, C>| is_kind(found, low_power, headless);
    let a = of_kind(found, false, false);
    let b = of_kind(found, false, true);
    let c = of_kind(found, true, false);
    let d = of_kind(found, true, true);
    Seq::filter_distributes_over_add(a + b + c, d, pred);
    Seq::filter_distributes_over_add(a + b, c, pred);
    Seq::filter_distributes_over_add(a, b, pred);
    lemma_kinds_are_apart(found, false, false, low_power, headless);
    lemma_kinds_are_apart(found, false, true, low_power, headless);
    lemma_kinds_are_apart(found, true, false, low_power, headless);
    lemma_kinds_are_apart(found, true, true, low_power, headless);
    assert(of_kind(by_preference(found), low_power, headless) =~= of_kind(
        found,
        low_power,
        headless,
    ));
}

/// Of the devices of one kind, all are of that kind and none of another.
proof fn lemma_kinds_are_apart<D, T, F, C>(
    found: Seq<FoundDevice<D, T, F, C>>,
    low_power: bool,
    headless: bool,
    other_low_power: bool,
    other_headless: bool,
)
    ensures
        of_kind(of_kind(found, low_power, headless), other_low_power, other_headless) == if low_power
            == other_low_power && headless == other_headless {
            of_kind(found, low_power, headless)
        } else {
            Seq::empty()
        },
    decreases found.len(),
{
    reveal(Seq::filter);
    if found.len() > 0 {
        let front = found.drop_last();
        lemma_kinds_are_apart(front, low_power, headless, other_low_power, other_headless);
        if is_kind(found.last(), low_power, headless) {
            assert(of_kind(front, low_power, headless).push(found.last()).drop_last() =~= of_kind(
                front,
                low_power,
                headless,
            ));
        }
    }
}

/// Puts devices in the order of preference.
fn sort_by_preference<D, T, F, C>(found: Vec<FoundDevice<D, T, F, C>>) -> (sorted: Vec<
    FoundDevice<D, T, F, C>,
>)
    ensures
        sorted@ == by_preference(found@),
{
    let ghost all = found@;
    let mut sorted: Vec<FoundDevice<D, T, F, C>> = Vec::new();
    let mut headless: Vec<FoundDevice<D, T, F, C>> = Vec::new();
    let mut low_power: Vec<FoundDevice<D, T, F, C>> = Vec::new();
    let mut low_power_headless: Vec<FoundDevice<D, T, F, C>> = Vec::new();
    proof {
        reveal(Seq::filter);
        assert(all.take(0) =~= Seq::empty());
    }
    for device in it: found
        invariant
            it.seq() == all,
            sorted@ == of_kind(all.take(it.index()), false, false),
            headless@ == of_kind(all.take(it.index()), false, true),
            low_power@ == of_kind(all.take(it.index()), true, false),
            low_power_headless@ == of_kind(all.take(it.index()), true, true),
    {
        proof {
            reveal(Seq::filter);
            assert(all.take(it.index() + 1).drop_last() =~= all.take(it.index()));
        }
        match (device.private_caps.low_power, device.private_caps.headless) {
            (false, false) => sorted.push(device),
            (false, true) => headless.push(device),
            (true, false) => low_power.push(device),
            (true, true) => low_power_headless.push(device),
        }
    }
    assert(all.take(all.len() as int) =~= all);
    sorted.append(&mut headless);
    sorted.append(&mut low_power);
    sorted.append(&mut low_power_headless);
    sorted
}

impl Instance {
    /// The adapters of the devices that were found, in the order of preference.
    pub fn enumerate_adapters<D, T, F, C>(&self, found: Vec<FoundDevice<D, T, F, C>>) -> (adapters:
        Vec<ExposedAdapter<D, T, F, C>>)
        ensures
            adapters@.len() == found@.len(),
            adapters@.len() == by_preference(found@).len(),
            forall|i: int|
                0 <= i < adapters@.len() ==> (#[trigger] adapters@[i]).exposes(
                    by_preference(found@)[i],
                ),
            forall|i: int|
                #![trigger adapters@[i]]
                0 <= i < adapters@.len() ==> ({
                    let exposed = adapters@[i];
                    let device = by_preference(found@)[i];
                    &&& exposed.info.name@ == device.name@
                    &&& exposed.info.vendor == 0
                    &&& exposed.info.device == 0
                    &&& exposed.info.device_type == device.device_type
                    &&& exposed.info.driver@.len() == 0
                    &&& exposed.info.driver_info@.len() == 0
                    &&& exposed.info.backend == Backend::Metal
                    &&& exposed.features == device.features
                    &&& exposed.capabilities == device.capabilities
                    &&& exposed.adapter.shared.device == device.device
                    &&& exposed.adapter.shared.private_caps == device.private_caps
                    &&& exposed.adapter.shared.disabilities == device.disabilities
                    &&& exposed.adapter.shared.presentation_timer == device.presentation_timer
                    &&& !exposed.adapter.shared.settings.retain_command_buffer_references
                }),
            forall|i: int, j: int|
                #![trigger adapters@[i], adapters@[j]]
                0 <= i < j < adapters@.len() ==> ({
                    let earlier = adapters@[i].adapter.shared.private_caps;
                    let later = adapters@[j].adapter.shared.private_caps;
                    &&& earlier.low_power ==> later.low_power
                    &&& earlier.low_power == later.low_power && earlier.headless ==> later.headless
                }),
    {
        let ghost all = found@;
        let sorted = sort_by_preference(found);
        let ghost order = sorted@;
        proof {
            law_preference_only_reorders(all);
            vstd::seq_lib::to_multiset_len(all);
            vstd::seq_lib::to_multiset_len(order);
        }
        let mut adapters: Vec<ExposedAdapter<D, T, F, C>> = Vec::new();
        for device in it: sorted
            invariant
                it.seq() == order,
                adapters@.len() == it.index(),
                forall|i: int|
                    0 <= i < adapters@.len() ==> (#[trigger] adapters@[i]).exposes(order[i]),
        {
            adapters.push(ExposedAdapter::new(device));
        }
        assert forall|i: int, j: int|
            #![trigger adapters@[i], adapters@[j]]
            0 <= i < j < adapters@.len() implies ({
            let earlier = adapters@[i].adapter.shared.private_caps;
            let later = adapters@[j].adapter.shared.private_caps;
            &&& earlier.low_power ==> later.low_power
            &&& earlier.low_power == later.low_power && earlier.headless ==> later.headless
        }) by {
            law_preference_sorts(all, i, j);
            assert(adapters@[i].exposes(order[i]) && adapters@[j].exposes(order[j]));
        }
        adapters
    }
}

} // verus!
