use robin_render::error_handler::{
    classify, default_policy, DeviceErrorHandler, ErrorKind, GpuFault, RenderError,
    RenderErrorPolicy,
};

fn oom(source: &str) -> GpuFault {
    GpuFault::OutOfMemory { source: source.to_string() }
}

#[test]
fn device_lost_wins_and_out_of_memory_is_discarded() {
    let mut handler = DeviceErrorHandler::new();
    handler.capture_uncaptured(oom("heap exhausted"));
    handler.capture_device_lost("driver reset".to_string());
    let first = handler.poll().expect("a fault is pending");
    assert_eq!(first.ty, ErrorKind::DeviceLost);
    assert_eq!(first.description, "driver reset");
    assert!(first.source.is_none());
    // Both slots were drained: the out-of-memory fault is gone, not queued.
    assert!(handler.poll().is_none());
}

#[test]
fn device_lost_wins_when_captured_first() {
    let mut handler = DeviceErrorHandler::new();
    handler.capture_device_lost("gone".to_string());
    handler.capture_uncaptured(GpuFault::Internal {
        source: "panic".to_string(),
        description: "internal".to_string(),
    });
    assert_eq!(handler.poll().unwrap().ty, ErrorKind::DeviceLost);
    assert!(handler.poll().is_none());
}

#[test]
fn first_uncaptured_fault_is_kept() {
    let mut handler = DeviceErrorHandler::new();
    handler.capture_uncaptured(GpuFault::Validation {
        source: "bad bind group".to_string(),
        description: "validation failed".to_string(),
    });
    handler.capture_uncaptured(oom("later"));
    let e = handler.poll().unwrap();
    assert_eq!(e.ty, ErrorKind::Validation);
    assert_eq!(e.description, "validation failed");
    assert_eq!(e.source.as_deref(), Some("bad bind group"));
    assert!(handler.poll().is_none());
}

#[test]
fn empty_handler_polls_nothing() {
    let mut handler = DeviceErrorHandler::new();
    assert!(!handler.has_device_lost());
    assert!(handler.poll().is_none());
}

#[test]
fn pending_device_loss_is_visible() {
    let mut handler = DeviceErrorHandler::new();
    handler.capture_device_lost("lost".to_string());
    assert!(handler.has_device_lost());
    handler.poll();
    assert!(!handler.has_device_lost());
    // A new window may report a loss again.
    handler.capture_device_lost("lost again".to_string());
    assert_eq!(handler.poll().unwrap().description, "lost again");
}

#[test]
fn classify_out_of_memory() {
    let e = classify(oom("vram"));
    assert_eq!(e.ty, ErrorKind::OutOfMemory);
    assert_eq!(e.description, "");
    assert_eq!(e.source.as_deref(), Some("vram"));
}

#[test]
fn classify_validation() {
    let e = classify(GpuFault::Validation {
        source: "cause".to_string(),
        description: "desc".to_string(),
    });
    assert_eq!(e.ty, ErrorKind::Validation);
    assert_eq!(e.description, "desc");
    assert_eq!(e.source.as_deref(), Some("cause"));
}

#[test]
fn classify_internal() {
    let e = classify(GpuFault::Internal {
        source: "cause".to_string(),
        description: "driver bug".to_string(),
    });
    assert_eq!(e.ty, ErrorKind::Internal);
    assert_eq!(e.description, "driver bug");
    assert_eq!(e.source.as_deref(), Some("cause"));
}

#[test]
fn default_policy_ignores() {
    let e = RenderError {
        ty: ErrorKind::DeviceLost,
        description: "x".to_string(),
        source: None,
    };
    assert_eq!(default_policy(&e), RenderErrorPolicy::Ignore);
}
