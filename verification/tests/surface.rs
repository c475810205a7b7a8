use space_view::surface::{
    PresentMode, Recovery, RenderError, SurfaceCapabilities, SurfaceConfiguration, SurfaceError,
};

#[test]
fn lost_surface_is_reconfigured() {
    let class = SurfaceError::Lost.classify();
    assert_eq!(class, RenderError::SurfaceLost);
    assert_eq!(class.recovery(), Recovery::Reconfigure);
    assert!(!class.is_fatal());
}

#[test]
fn outdated_and_timeout_are_one_class_and_skip() {
    assert_eq!(SurfaceError::Outdated.classify(), RenderError::SurfaceOutdatedOrTimeout);
    assert_eq!(SurfaceError::Timeout.classify(), RenderError::SurfaceOutdatedOrTimeout);
    assert_eq!(RenderError::SurfaceOutdatedOrTimeout.recovery(), Recovery::Skip);
    assert!(!RenderError::SurfaceOutdatedOrTimeout.is_fatal());
}

#[test]
fn out_of_memory_is_fatal() {
    let class = SurfaceError::OutOfMemory.classify();
    assert_eq!(class, RenderError::SurfaceOutOfMemory);
    assert_eq!(class.recovery(), Recovery::Fatal);
    assert!(class.is_fatal());
}

#[test]
fn startup_and_construction_failures_are_fatal() {
    assert_eq!(RenderError::DeviceInit.recovery(), Recovery::Fatal);
    assert_eq!(RenderError::ResourceConstruction.recovery(), Recovery::Fatal);
    assert!(RenderError::DeviceInit.is_fatal());
    assert!(RenderError::ResourceConstruction.is_fatal());
}

#[test]
fn negotiation_takes_the_first_format_and_alpha_mode() {
    let capabilities = SurfaceCapabilities { formats: 3, alpha_modes: 2 };
    let config = SurfaceConfiguration::negotiate(capabilities, 800, 600);
    assert_eq!(
        config,
        Ok(SurfaceConfiguration {
            format: 0,
            alpha_mode: 0,
            width: 800,
            height: 600,
            present_mode: PresentMode::Fifo,
        })
    );
}

#[test]
fn negotiation_fails_without_a_format() {
    let capabilities = SurfaceCapabilities { formats: 0, alpha_modes: 2 };
    assert_eq!(
        SurfaceConfiguration::negotiate(capabilities, 800, 600),
        Err(RenderError::DeviceInit)
    );
}

#[test]
fn negotiation_fails_without_an_alpha_mode() {
    let capabilities = SurfaceCapabilities { formats: 1, alpha_modes: 0 };
    assert_eq!(
        SurfaceConfiguration::negotiate(capabilities, 800, 600),
        Err(RenderError::DeviceInit)
    );
}
