use scop::{
    pick_physical_device, queue_create_requests, select_queue_families, DeviceClass, QueueFamily,
    RenderError,
};

fn family(queue_count: u32, graphics: bool, transfer: bool, present_support: bool) -> QueueFamily {
    QueueFamily { queue_count, graphics, transfer, present_support }
}

#[test]
fn device_pick_prefers_discrete() {
    let classes = vec![
        DeviceClass::Other,
        DeviceClass::IntegratedGpu,
        DeviceClass::DiscreteGpu,
        DeviceClass::VirtualGpu,
    ];
    assert_eq!(pick_physical_device(&classes).unwrap(), 2);
}

#[test]
fn device_pick_takes_first_of_equal_rank() {
    let classes = vec![
        DeviceClass::IntegratedGpu,
        DeviceClass::DiscreteGpu,
        DeviceClass::DiscreteGpu,
    ];
    assert_eq!(pick_physical_device(&classes).unwrap(), 1);
}

#[test]
fn device_pick_ranks_integrated_over_virtual() {
    let classes = vec![DeviceClass::VirtualGpu, DeviceClass::IntegratedGpu];
    assert_eq!(pick_physical_device(&classes).unwrap(), 1);
}

#[test]
fn device_pick_fails_on_empty_enumeration() {
    let classes: Vec<DeviceClass> = Vec::new();
    assert_eq!(
        pick_physical_device(&classes).unwrap_err(),
        RenderError::NoSuitableDevice
    );
}

#[test]
fn queue_selection_prefers_dedicated_transfer() {
    let families = vec![
        family(1, true, true, true),
        family(1, false, true, false),
    ];
    let s = select_queue_families(&families).unwrap();
    assert_eq!(s.graphics_family, 0);
    assert_eq!(s.transfer_family, 1);
}

#[test]
fn queue_selection_keeps_last_dedicated_transfer() {
    let families = vec![
        family(1, true, true, true),
        family(1, false, true, false),
        family(1, false, true, false),
    ];
    let s = select_queue_families(&families).unwrap();
    assert_eq!(s.transfer_family, 2);
}

#[test]
fn queue_selection_falls_back_to_first_transfer_capable() {
    let families = vec![
        family(1, true, true, true),
        family(1, true, true, true),
    ];
    let s = select_queue_families(&families).unwrap();
    assert_eq!(s.graphics_family, 1);
    assert_eq!(s.transfer_family, 0);
}

#[test]
fn queue_selection_requires_present_support_for_graphics() {
    let families = vec![
        family(1, true, true, false),
        family(1, true, true, true),
    ];
    let s = select_queue_families(&families).unwrap();
    assert_eq!(s.graphics_family, 1);
}

#[test]
fn queue_selection_ignores_empty_families() {
    let families = vec![
        family(0, true, true, true),
        family(1, true, true, true),
    ];
    let s = select_queue_families(&families).unwrap();
    assert_eq!(s.graphics_family, 1);
    assert_eq!(s.transfer_family, 1);
}

#[test]
fn queue_selection_fails_without_presenting_graphics_family() {
    let families = vec![family(1, false, true, true), family(1, true, false, false)];
    assert_eq!(
        select_queue_families(&families).unwrap_err(),
        RenderError::NoQueueFamily
    );
}

#[test]
fn queue_selection_fails_without_transfer_family() {
    let families = vec![family(1, true, false, true)];
    assert_eq!(
        select_queue_families(&families).unwrap_err(),
        RenderError::NoQueueFamily
    );
}

#[test]
fn queue_requests_deduplicate_a_shared_family() {
    assert_eq!(queue_create_requests(2, 2), vec![2]);
}

#[test]
fn queue_requests_list_both_distinct_families() {
    assert_eq!(queue_create_requests(0, 1), vec![0, 1]);
}
