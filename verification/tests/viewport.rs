use viewport::events::{dispatch, Action, WindowEvent};
use viewport::{AcquireError, Configuration, Extent, ViewportError};

/// Negotiated parameters as an adapter would hand them out for an
/// 800x600 surface, built by hand so the pure configuration logic can be
/// exercised without a live device.
fn params_800_600() -> wgpu::SurfaceConfiguration {
    wgpu::SurfaceConfiguration {
        usage: wgpu::TextureUsages::RENDER_ATTACHMENT,
        format: wgpu::TextureFormat::Bgra8UnormSrgb,
        width: 800,
        height: 600,
        present_mode: wgpu::PresentMode::Fifo,
        desired_maximum_frame_latency: 2,
        alpha_mode: wgpu::CompositeAlphaMode::Auto,
        view_formats: Vec::new(),
    }
}

fn config_800_600() -> Configuration {
    Configuration {
        width: 800,
        height: 600,
        params: params_800_600(),
    }
}

#[test]
fn configuration_follows_resize() {
    let mut config = config_800_600();
    config.set_extent(Extent {
        width: 1024,
        height: 768,
    });
    assert_eq!(config.width, 1024);
    assert_eq!(config.height, 768);
}

#[test]
fn resize_keeps_negotiated_parameters() {
    let mut config = config_800_600();
    config.set_extent(Extent {
        width: 1024,
        height: 768,
    });
    assert_eq!(config.params, params_800_600());
}

#[test]
fn resize_twice_equals_resize_once() {
    let size = Extent {
        width: 1024,
        height: 768,
    };
    let mut once = config_800_600();
    once.set_extent(size);
    let mut twice = config_800_600();
    twice.set_extent(size);
    twice.set_extent(size);
    assert_eq!(once.width, twice.width);
    assert_eq!(once.height, twice.height);
    assert_eq!(once.params, twice.params);
}

#[test]
fn extent_reads_configured_size() {
    let mut config = config_800_600();
    assert_eq!(
        config.extent(),
        Extent {
            width: 800,
            height: 600,
        }
    );
    config.set_extent(Extent {
        width: 1024,
        height: 768,
    });
    assert_eq!(
        config.extent(),
        Extent {
            width: 1024,
            height: 768,
        }
    );
}

#[test]
fn drawable_extents() {
    let drawable = Extent {
        width: 1,
        height: 1,
    };
    let no_width = Extent {
        width: 0,
        height: 600,
    };
    let no_height = Extent {
        width: 800,
        height: 0,
    };
    let empty = Extent {
        width: 0,
        height: 0,
    };
    assert!(drawable.is_drawable());
    assert!(!no_width.is_drawable());
    assert!(!no_height.is_drawable());
    assert!(!empty.is_drawable());
}

#[test]
fn dispatch_resize_reconfigures_and_redraws() {
    let size = Extent {
        width: 1024,
        height: 768,
    };
    assert_eq!(
        dispatch(&WindowEvent::Resized(size)),
        Action::Reconfigure(size)
    );
}

#[test]
fn dispatch_redraw_renders() {
    assert_eq!(dispatch(&WindowEvent::RedrawRequested), Action::Render);
}

#[test]
fn dispatch_close_exits_without_rendering() {
    let action = dispatch(&WindowEvent::CloseRequested);
    assert_eq!(action, Action::Exit);
    assert_ne!(action, Action::Render);
    assert_ne!(action, Action::Reconfigure(Extent {
        width: 0,
        height: 0,
    }));
}

#[test]
fn dispatch_other_is_ignored() {
    assert_eq!(dispatch(&WindowEvent::Other), Action::Ignore);
}

#[test]
fn viewport_error_messages() {
    assert_eq!(
        ViewportError::SurfaceCreation.message(),
        "failed to create surface"
    );
    assert_eq!(
        ViewportError::EmptyExtent.message(),
        "window has no drawable area"
    );
    assert_eq!(
        ViewportError::NoDefaultConfiguration.message(),
        "no default surface configuration for this adapter"
    );
}

#[test]
fn acquire_error_messages() {
    assert_eq!(
        AcquireError::Timeout.message(),
        "timed out acquiring the next texture"
    );
    assert_eq!(AcquireError::Outdated.message(), "surface is outdated");
    assert_eq!(AcquireError::Lost.message(), "surface was lost");
    assert_eq!(
        AcquireError::OutOfMemory.message(),
        "out of memory acquiring a texture"
    );
}
