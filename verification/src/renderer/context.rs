use vstd::prelude::*;
use vulkano::device::QueueFlags;

verus! {

// ---------------------------------------------------------------------------
// Physical device choice
// ---------------------------------------------------------------------------

/// The kinds of physical device Vulkan reports; `Unrecognized` stands for any
/// kind this library does not name.
#[derive(Clone, Copy, Debug, PartialEq, Eq, Structural)]
pub enum DeviceTypeKind {
    IntegratedGpu,
    DiscreteGpu,
    VirtualGpu,
    Cpu,
    Other,
    Unrecognized,
}

/// Preference order of device kinds: lower is better.
pub open spec fn spec_device_type_rank(kind: DeviceTypeKind) -> int {
    match kind {
        DeviceTypeKind::DiscreteGpu => 0,
        DeviceTypeKind::IntegratedGpu => 1,
        DeviceTypeKind::VirtualGpu => 2,
        DeviceTypeKind::Cpu => 3,
        DeviceTypeKind::Other => 4,
        DeviceTypeKind::Unrecognized => 5,
    }
}

/// The rank of a device kind: discrete before integrated before virtual
/// before CPU before other.
pub fn device_type_rank(kind: DeviceTypeKind) -> (rank: u32)
    ensures
        rank == spec_device_type_rank(kind),
{
    match kind {
        DeviceTypeKind::DiscreteGpu => 0,
        DeviceTypeKind::IntegratedGpu => 1,
        DeviceTypeKind::VirtualGpu => 2,
        DeviceTypeKind::Cpu => 3,
        DeviceTypeKind::Other => 4,
        DeviceTypeKind::Unrecognized => 5,
    }
}

/// What the renderer reads of a physical device.
#[derive(Clone, Copy, Debug, PartialEq, Eq, Structural)]
pub struct DeviceCandidate {
    /// The device supports every extension the renderer needs (the swapchain).
    pub supports_required_extensions: bool,
    pub device_type: DeviceTypeKind,
}

/// `index` is the device the renderer settles on: among the devices with the
/// required extensions, the first of least rank.
pub open spec fn is_chosen_device(devices: Seq<DeviceCandidate>, index: int) -> bool {
    &&& 0 <= index < devices.len()
    &&& devices[index].supports_required_extensions
    &&& forall|j: int|
        0 <= j < devices.len() && #[trigger] devices[j].supports_required_extensions
            ==> spec_device_type_rank(devices[index].device_type) <= spec_device_type_rank(devices[j].device_type)
    &&& forall|j: int|
        0 <= j < index && #[trigger] devices[j].supports_required_extensions
            ==> spec_device_type_rank(devices[j].device_type) > spec_device_type_rank(devices[index].device_type)
}

/// Whether some device has the required extensions.
pub open spec fn some_device_usable(devices: Seq<DeviceCandidate>) -> bool {
    exists|j: int| 0 <= j < devices.len() && #[trigger] devices[j].supports_required_extensions
}

/// Filters the devices by extension support and takes the first of least
/// rank, as `filter` then `min_by_key` do; `None` when no device qualifies.
pub fn select_physical_device(devices: &Vec<DeviceCandidate>) -> (chosen: Option<usize>)
    ensures
        chosen is None <==> !some_device_usable(devices@),
        chosen matches Some(i) ==> is_chosen_device(devices@, i as int),
{
    let mut best: Option<usize> = None;
    let mut best_rank: u32 = 0;
    let mut i: usize = 0;
    while i < devices.len()
        invariant
            i <= devices.len(),
            best is None <==> forall|j: int| 0 <= j < i ==> !(#[trigger] devices@[j].supports_required_extensions),
            best matches Some(b) ==> {
                &&& b < i
                &&& devices@[b as int].supports_required_extensions
                &&& best_rank == spec_device_type_rank(devices@[b as int].device_type)
                &&& forall|j: int| 0 <= j < i && #[trigger] devices@[j].supports_required_extensions
                    ==> best_rank <= spec_device_type_rank(devices@[j].device_type)
                &&& forall|j: int| 0 <= j < b && #[trigger] devices@[j].supports_required_extensions
                    ==> spec_device_type_rank(devices@[j].device_type) > best_rank
            },
        decreases devices.len() - i,
    {
        let d = devices[i];
        if d.supports_required_extensions {
            let rank: u32 = device_type_rank(d.device_type);
            match best {
                None => {
                    best = Some(i);
                    best_rank = rank;
                },
                Some(_) => {
                    if rank < best_rank {
                        best = Some(i);
                        best_rank = rank;
                    }
                },
            }
        }
        i = i + 1;
    }
    proof {
        if best is None {
            assert(!some_device_usable(devices@));
        }
    }
    best
}

/// The device choice is determined: two devices that both meet the choice
/// are the same device.
pub proof fn law_device_choice_unique(devices: Seq<DeviceCandidate>, i: int, k: int)
    requires
        is_chosen_device(devices, i),
        is_chosen_device(devices, k),
    ensures
        i == k,
{
    if i < k {
        assert(devices[i].supports_required_extensions);
    } else if k < i {
        assert(devices[k].supports_required_extensions);
    }
}

/// A discrete GPU with the required extensions always wins: whenever one
/// exists, the chosen device is a discrete GPU.
pub proof fn law_discrete_gpu_preferred(devices: Seq<DeviceCandidate>, i: int, d: int)
    requires
        is_chosen_device(devices, i),
        0 <= d < devices.len(),
        devices[d].supports_required_extensions,
        devices[d].device_type == DeviceTypeKind::DiscreteGpu,
    ensures
        devices[i].device_type == DeviceTypeKind::DiscreteGpu,
{
    assert(spec_device_type_rank(devices[i].device_type) <= spec_device_type_rank(devices[d].device_type));
}

/// Device kinds are preferred in the order discrete, integrated, virtual,
/// CPU, other, unrecognized, each strictly before the next.
pub proof fn law_device_type_order()
    ensures
        spec_device_type_rank(DeviceTypeKind::DiscreteGpu) < spec_device_type_rank(DeviceTypeKind::IntegratedGpu),
        spec_device_type_rank(DeviceTypeKind::IntegratedGpu) < spec_device_type_rank(DeviceTypeKind::VirtualGpu),
        spec_device_type_rank(DeviceTypeKind::VirtualGpu) < spec_device_type_rank(DeviceTypeKind::Cpu),
        spec_device_type_rank(DeviceTypeKind::Cpu) < spec_device_type_rank(DeviceTypeKind::Other),
        spec_device_type_rank(DeviceTypeKind::Other) < spec_device_type_rank(DeviceTypeKind::Unrecognized),
{
}

/// A device lacking the required extensions is never chosen, whatever its kind.
pub proof fn law_device_without_extensions_never_chosen(devices: Seq<DeviceCandidate>, i: int)
    requires
        0 <= i < devices.len(),
        !devices[i].supports_required_extensions,
    ensures
        !is_chosen_device(devices, i),
{
}

// ---------------------------------------------------------------------------
// Queue family choice
// ---------------------------------------------------------------------------

/// Vulkan's `VK_QUEUE_GRAPHICS_BIT`.
pub const QUEUE_GRAPHICS_BIT: u32 = 1;

/// What the renderer reads of a queue family.
#[derive(Clone, Copy, Debug, PartialEq, Eq, Structural)]
pub struct QueueFamilyCandidate {
    /// The family's capabilities, as Vulkan's `VkQueueFlags` bits.
    pub queue_flags: u32,
    /// The family can present to the window's surface.
    pub presentation_supported: bool,
}

/// A family the renderer can use: it does graphics and can present.
pub open spec fn queue_family_usable(family: QueueFamilyCandidate) -> bool {
    family.queue_flags & QUEUE_GRAPHICS_BIT == QUEUE_GRAPHICS_BIT && family.presentation_supported
}

/// Calls vulkano's `QueueFlags::contains` with `QueueFlags::GRAPHICS` on the
/// flags built from Vulkan's bits. Claimed: vulkano masks the bits with the
/// flags it knows (which include the graphics bit) and `contains` is
/// `bits & other == other`, so the result is whether the graphics bit is set.
#[verifier::external_body]
fn queue_flags_contain_graphics(queue_flags: u32) -> (graphics: bool)
    ensures
        graphics == (queue_flags & QUEUE_GRAPHICS_BIT == QUEUE_GRAPHICS_BIT),
{
    QueueFlags::from(ash::vk::QueueFlags::from_raw(queue_flags)).contains(QueueFlags::GRAPHICS)
}

/// The position of the first family that does graphics and can present, as
/// `position` does; `None` when there is none.
pub fn select_queue_family(families: &Vec<QueueFamilyCandidate>) -> (chosen: Option<usize>)
    ensures
        chosen is None <==> forall|j: int| 0 <= j < families@.len() ==> !queue_family_usable(#[trigger] families@[j]),
        chosen matches Some(i) ==> {
            &&& i < families@.len()
            &&& queue_family_usable(families@[i as int])
            &&& forall|j: int| 0 <= j < i ==> !queue_family_usable(#[trigger] families@[j])
        },
{
    let mut i: usize = 0;
    while i < families.len()
        invariant
            i <= families.len(),
            forall|j: int| 0 <= j < i ==> !queue_family_usable(#[trigger] families@[j]),
        decreases families.len() - i,
    {
        let f = families[i];
        if queue_flags_contain_graphics(f.queue_flags) && f.presentation_supported {
            return Some(i);
        }
        i = i + 1;
    }
    None
}


// ---------------------------------------------------------------------------
// Instance plan
// ---------------------------------------------------------------------------

/// The name of the Khronos validation layer.
pub const VALIDATION_LAYER_NAME: &'static str = "VK_LAYER_KHRONOS_validation";

/// The names of a list of layers.
pub open spec fn layer_names(layers: Seq<String>) -> Seq<Seq<char>> {
    layers.map_values(|layer: String| layer@)
}

/// Whether a layer name is the validation layer's.
pub open spec fn is_validation_layer(name: Seq<char>) -> bool {
    name == VALIDATION_LAYER_NAME@
}

/// The validation-layer test, as a predicate to filter names with.
pub open spec fn validation_layer_pred() -> spec_fn(Seq<char>) -> bool {
    |name: Seq<char>| is_validation_layer(name)
}

/// How the Vulkan instance is to be created.
pub struct InstancePlan {
    /// The layers to enable, in the order the loader listed them.
    pub enabled_layers: Vec<String>,
    /// Whether to enable the debug-utils instance extension.
    pub enable_debug_utils: bool,
    /// Whether to install a debug messenger that prints every message.
    pub create_debug_messenger: bool,
}

/// With validation on (debug builds), enables every available layer named
/// as the validation layer, the debug-utils extension and a messenger; with
/// validation off, none of them.
pub fn plan_instance(enable_validation: bool, available_layers: &Vec<String>) -> (plan: InstancePlan)
    ensures
        plan.enable_debug_utils == enable_validation,
        plan.create_debug_messenger == enable_validation,
        enable_validation ==> layer_names(plan.enabled_layers@) == layer_names(available_layers@).filter(
            validation_layer_pred(),
        ),
        !enable_validation ==> plan.enabled_layers@.len() == 0,
{
    let mut layers: Vec<String> = Vec::new();
    if enable_validation {
        let wanted: String = VALIDATION_LAYER_NAME.to_owned();
        let ghost pred = validation_layer_pred();
        let mut i: usize = 0;
        proof {
            reveal_with_fuel(Seq::<_>::filter, 1);
            assert(layer_names(available_layers@.take(0)) =~= Seq::<Seq<char>>::empty());
        }
        while i < available_layers.len()
            invariant
                i <= available_layers@.len(),
                wanted@ == VALIDATION_LAYER_NAME@,
                pred == validation_layer_pred(),
                layer_names(layers@) == layer_names(available_layers@.take(i as int)).filter(pred),
            decreases available_layers.len() - i,
        {
            proof {
                assert(layer_names(available_layers@.take(i + 1)).drop_last() =~= layer_names(
                    available_layers@.take(i as int),
                ));
                assert(layer_names(available_layers@.take(i + 1)).last() == available_layers@[i as int]@);
            }
            let matches = available_layers[i].eq(&wanted);
            proof {
                let all = layer_names(available_layers@.take(i + 1));
                reveal_with_fuel(Seq::<_>::filter, 1);
                assert(pred(all.last()) == matches);
                assert(all.filter(pred) == if pred(all.last()) {
                    all.drop_last().filter(pred).push(all.last())
                } else {
                    all.drop_last().filter(pred)
                });
            }
            if matches {
                let layer = available_layers[i].clone();
                let ghost before = layers@;
                layers.push(layer);
                proof {
                    assert(layer_names(layers@) =~= layer_names(before).push(available_layers@[i as int]@));
                }
            }
            i = i + 1;
        }
        proof {
            assert(available_layers@.take(available_layers@.len() as int) =~= available_layers@);
        }

    }
    InstancePlan {
        enabled_layers: layers,
        enable_debug_utils: enable_validation,
        create_debug_messenger: enable_validation,
    }
}


/// A family is usable exactly when its graphics bit (bit 0) is set and it can
/// present; no other bit matters.
pub proof fn law_queue_family_usable_means_graphics_and_present(family: QueueFamilyCandidate)
    ensures
        queue_family_usable(family) <==> (family.queue_flags % 2 == 1 && family.presentation_supported),
{
    let f = family.queue_flags;
    assert(f & 1 == 1 <==> f % 2 == 1) by (bit_vector);
}

/// Without validation no layer is enabled; with it, only layers named as the
/// validation layer are, and each such available layer is.
pub proof fn law_validation_layers_only(enable_validation: bool, available: Seq<String>, enabled: Seq<String>)
    requires
        enable_validation ==> layer_names(enabled) == layer_names(available).filter(validation_layer_pred()),
        !enable_validation ==> enabled.len() == 0,
    ensures
        forall|i: int| 0 <= i < enabled.len() ==> enable_validation && #[trigger] enabled[i]@ == VALIDATION_LAYER_NAME@,
        enable_validation ==> forall|i: int|
            0 <= i < available.len() && #[trigger] available[i]@ == VALIDATION_LAYER_NAME@
                ==> layer_names(enabled).contains(available[i]@),
{
    if enable_validation {
        let names = layer_names(available);
        names.filter_lemma(validation_layer_pred());
        assert forall|i: int| 0 <= i < enabled.len() implies #[trigger] enabled[i]@ == VALIDATION_LAYER_NAME@ by {
            assert(layer_names(enabled)[i] == enabled[i]@);
        }
        assert forall|i: int| 0 <= i < available.len() && #[trigger] available[i]@ == VALIDATION_LAYER_NAME@
            implies layer_names(enabled).contains(available[i]@) by {
            assert(names[i] == available[i]@);
        }
    }
}

} // verus!
