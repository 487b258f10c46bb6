use metal_hal::{Instance, TargetOs, WindowHandle};

const MESSAGE: &str = "window handle Window(7) is not a Metal-compatible handle";

fn open(target: TargetOs, handle: WindowHandle<u32>) -> Result<u32, String> {
    Instance {}.create_surface(target, handle, "Window(7)").map_err(|error| error.message)
}

#[test]
fn an_instance_needs_nothing() {
    assert!(Instance::init().is_ok());
}

#[test]
fn views_of_their_own_system_are_taken() {
    assert_eq!(open(TargetOs::MacOs, WindowHandle::AppKit { ns_view: 7 }), Ok(7));
    assert_eq!(open(TargetOs::Ios, WindowHandle::UiKit { ui_view: 8 }), Ok(8));
    assert_eq!(open(TargetOs::VisionOs, WindowHandle::UiKit { ui_view: 9 }), Ok(9));
}

#[test]
fn other_windows_are_refused() {
    let refused = Err(MESSAGE.to_string());
    assert_eq!(open(TargetOs::MacOs, WindowHandle::UiKit { ui_view: 7 }), refused);
    assert_eq!(open(TargetOs::Ios, WindowHandle::AppKit { ns_view: 7 }), refused);
    assert_eq!(open(TargetOs::VisionOs, WindowHandle::AppKit { ns_view: 7 }), refused);
    assert_eq!(open(TargetOs::Other, WindowHandle::AppKit { ns_view: 7 }), refused);
    assert_eq!(open(TargetOs::Other, WindowHandle::UiKit { ui_view: 7 }), refused);
    for target in [TargetOs::MacOs, TargetOs::Ios, TargetOs::VisionOs, TargetOs::Other] {
        assert_eq!(open(target, WindowHandle::Other), refused);
    }
}
