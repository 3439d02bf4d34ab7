use vulkan_bootstrap::app::{App, CreationOutcome, InstanceHandle};
use vulkan_bootstrap::events::{dispatch, Action, LoopEvent};
use vulkan_bootstrap::extensions::Platform;
use vulkan_bootstrap::instance::{build, BootstrapError};
use vulkan_bootstrap::version::Version;

fn names(list: &[&str]) -> Vec<String> {
    list.iter().map(|s| s.to_string()).collect()
}

#[test]
fn creation_outcome_drives_application() {
    let handle = InstanceHandle { id: 7 };
    let app = App::create(CreationOutcome::Created { instance: handle }).unwrap();
    assert!(app.is_ready());

    let err = App::create(CreationOutcome::Failed { code: -3 }).unwrap_err();
    assert_eq!(err, BootstrapError::InstanceCreation { code: -3 });
}

#[test]
fn render_is_an_idempotent_no_op_while_ready() {
    let handle = InstanceHandle { id: 11 };
    let mut app = App::create(CreationOutcome::Created { instance: handle }).unwrap();
    for _ in 0..10 {
        assert!(app.render().is_ok());
        assert!(app.is_ready());
    }
    // The instance handle was never mutated: destroy still releases it.
    assert_eq!(app.destroy().unwrap(), handle);
}

#[test]
fn destroy_releases_exactly_one_handle_per_lifecycle() {
    let handle = InstanceHandle { id: 42 };
    let mut app = App::create(CreationOutcome::Created { instance: handle }).unwrap();
    let mut released: Vec<InstanceHandle> = Vec::new();

    if let Ok(h) = app.destroy() {
        released.push(h);
    }
    assert!(!app.is_ready());

    // A second destroy is a reported programmer error and releases nothing.
    assert_eq!(app.destroy().unwrap_err(), BootstrapError::LifecycleViolation);
    // Render after destroy is the same programmer error.
    assert_eq!(app.render().unwrap_err(), BootstrapError::LifecycleViolation);

    assert_eq!(released, vec![handle]);
}

#[test]
fn dispatch_decisions() {
    assert_eq!(dispatch(&LoopEvent::AboutToWait), Action::RequestRedraw);
    assert_eq!(
        dispatch(&LoopEvent::RedrawRequested { exiting: false }),
        Action::Render
    );
    assert_eq!(
        dispatch(&LoopEvent::RedrawRequested { exiting: true }),
        Action::Ignore
    );
    assert_eq!(dispatch(&LoopEvent::CloseRequested), Action::DestroyAndExit);
    assert_eq!(dispatch(&LoopEvent::Other), Action::Ignore);
}

#[test]
fn event_loop_drives_lifecycle_once_through() {
    let mut app =
        App::create(CreationOutcome::Created { instance: InstanceHandle { id: 1 } }).unwrap();
    let mut exiting = false;
    let mut renders = 0;
    let mut releases = 0;
    let script = [
        LoopEvent::AboutToWait,
        LoopEvent::RedrawRequested { exiting: false },
        LoopEvent::Other,
        LoopEvent::RedrawRequested { exiting: false },
        LoopEvent::CloseRequested,
        // After the close request the dispatcher sees `exiting` set.
        LoopEvent::RedrawRequested { exiting: true },
    ];
    for event in script {
        let event = match event {
            LoopEvent::RedrawRequested { .. } => LoopEvent::RedrawRequested { exiting },
            other => other,
        };
        match dispatch(&event) {
            Action::RequestRedraw => {}
            Action::Render => {
                app.render().unwrap();
                renders += 1;
            }
            Action::DestroyAndExit => {
                exiting = true;
                app.destroy().unwrap();
                releases += 1;
            }
            Action::Ignore => {}
        }
    }
    assert_eq!(renders, 2);
    assert_eq!(releases, 1);
    assert!(!app.is_ready());
}

#[test]
fn scenario_without_validation_on_other_platform() {
    let available: Vec<String> = Vec::new();
    let window = names(&["surface_ext"]);
    let req = build(&available, false, &window, Version::new(1, 0, 0), Platform::Other).unwrap();
    assert_eq!(req.extensions, names(&["surface_ext"]));
    assert!(req.layers.is_empty());
    assert!(!req.flags.enumerate_portability);

    // The runtime accepts the request: the application reaches `Ready`.
    let outcome = CreationOutcome::Created { instance: InstanceHandle { id: 1 } };
    let app = App::create(outcome).unwrap();
    assert!(app.is_ready());
}

#[test]
fn scenario_with_validation_on_macos_at_threshold() {
    let available = names(&["VK_LAYER_KHRONOS_validation"]);
    let window = names(&["surface_ext"]);
    let req = build(&available, true, &window, Version::new(1, 3, 216), Platform::MacOs).unwrap();
    assert_eq!(
        req.extensions,
        names(&[
            "surface_ext",
            "VK_KHR_get_physical_device_properties2",
            "VK_KHR_portability_enumeration",
        ])
    );
    assert_eq!(req.layers, names(&["VK_LAYER_KHRONOS_validation"]));
    assert!(req.flags.enumerate_portability);
}
