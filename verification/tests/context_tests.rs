use rust_cube::renderer::context::{
    device_type_rank, plan_instance, select_physical_device, select_queue_family, DeviceCandidate,
    DeviceTypeKind, QueueFamilyCandidate, VALIDATION_LAYER_NAME,
};

fn dev(ok: bool, kind: DeviceTypeKind) -> DeviceCandidate {
    DeviceCandidate { supports_required_extensions: ok, device_type: kind }
}

fn fam(flags: u32, present: bool) -> QueueFamilyCandidate {
    QueueFamilyCandidate { queue_flags: flags, presentation_supported: present }
}

#[test]
fn device_ranks() {
    assert_eq!(device_type_rank(DeviceTypeKind::DiscreteGpu), 0);
    assert_eq!(device_type_rank(DeviceTypeKind::IntegratedGpu), 1);
    assert_eq!(device_type_rank(DeviceTypeKind::VirtualGpu), 2);
    assert_eq!(device_type_rank(DeviceTypeKind::Cpu), 3);
    assert_eq!(device_type_rank(DeviceTypeKind::Other), 4);
    assert_eq!(device_type_rank(DeviceTypeKind::Unrecognized), 5);
}

#[test]
fn device_choice_skips_unsupported_and_prefers_rank() {
    let devices = vec![
        dev(true, DeviceTypeKind::Cpu),
        dev(false, DeviceTypeKind::DiscreteGpu),
        dev(true, DeviceTypeKind::IntegratedGpu),
        dev(true, DeviceTypeKind::VirtualGpu),
    ];
    assert_eq!(select_physical_device(&devices), Some(2));
}

#[test]
fn device_choice_first_among_equals() {
    let devices = vec![
        dev(true, DeviceTypeKind::Other),
        dev(true, DeviceTypeKind::DiscreteGpu),
        dev(true, DeviceTypeKind::DiscreteGpu),
    ];
    assert_eq!(select_physical_device(&devices), Some(1));
}

#[test]
fn device_choice_none_usable() {
    assert_eq!(select_physical_device(&vec![dev(false, DeviceTypeKind::DiscreteGpu)]), None);
    assert_eq!(select_physical_device(&vec![]), None);
}

#[test]
fn queue_family_needs_graphics_and_present() {
    let families = vec![fam(0b10, true), fam(0b1, false), fam(0b1011, true), fam(0b1, true)];
    assert_eq!(select_queue_family(&families), Some(2));
}

#[test]
fn queue_family_none() {
    let families = vec![fam(0b110, true), fam(0xffff_fffe, true), fam(0b1, false)];
    assert_eq!(select_queue_family(&families), None);
}

#[test]
fn queue_family_graphics_bit_among_unknown_bits() {
    assert_eq!(select_queue_family(&vec![fam(0xffff_ffff, true)]), Some(0));
}

#[test]
fn instance_plan_with_validation() {
    let layers = vec![
        String::from("VK_LAYER_LUNARG_api_dump"),
        String::from("VK_LAYER_KHRONOS_validation"),
        String::from("VK_LAYER_MESA_device_select"),
    ];
    let plan = plan_instance(true, &layers);
    assert_eq!(plan.enabled_layers, vec![String::from(VALIDATION_LAYER_NAME)]);
    assert!(plan.enable_debug_utils);
    assert!(plan.create_debug_messenger);
}

#[test]
fn instance_plan_validation_missing() {
    let layers = vec![String::from("VK_LAYER_LUNARG_api_dump")];
    let plan = plan_instance(true, &layers);
    assert!(plan.enabled_layers.is_empty());
    assert!(plan.enable_debug_utils);
}

#[test]
fn instance_plan_without_validation() {
    let layers = vec![String::from("VK_LAYER_KHRONOS_validation")];
    let plan = plan_instance(false, &layers);
    assert!(plan.enabled_layers.is_empty());
    assert!(!plan.enable_debug_utils);
    assert!(!plan.create_debug_messenger);
}
