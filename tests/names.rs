use rtcore::name::{device, instance};

#[test]
fn name_str_test() {
    let a = instance::Layer::KhronosValidation;
    println!("{}", a.as_ref());
    println!("{:?}", a);
}

#[test]
fn layer_names_round_trip() {
    assert_eq!(instance::Layer::LunargMonitor.as_ref(), "VK_LAYER_LUNARG_monitor");
    assert_eq!(
        instance::Layer::from_name("VK_LAYER_KHRONOS_validation"),
        Some(instance::Layer::KhronosValidation)
    );
    assert_eq!(instance::Layer::from_name("VK_LAYER_unknown"), None);
}

#[test]
fn extension_names_round_trip() {
    assert_eq!(instance::Extension::KhrXcbSurface.as_ref(), "VK_KHR_xcb_surface");
    assert_eq!(
        device::Extension::from_name("VK_KHR_ray_tracing_pipeline"),
        Some(device::Extension::KhrRayTracingPipeline)
    );
    assert_eq!(device::Extension::KhrSynchronization2.as_ref(), "VK_KHR_synchronization2");
    assert_eq!(device::Extension::from_name("VK_KHR_surface"), None);
}

#[test]
fn known_extensions_skip_unknown_names() {
    let reported = vec![
        "VK_KHR_swapchain".to_string(),
        "VK_NV_something_else".to_string(),
        "VK_KHR_ray_query".to_string(),
    ];
    assert_eq!(
        device::Extension::known(&reported),
        vec![device::Extension::KhrSwapchain, device::Extension::KhrRayQuery]
    );
    assert_eq!(instance::Layer::known(&reported), vec![]);
}
