use gpu_compute::setup::{advance, Event, SetupError, Stage};

fn run(mut stage: Stage, events: &[Event]) -> (Stage, bool) {
    let mut created = stage == Stage::CreateResources;
    for e in events {
        stage = advance(stage, *e);
        created |= stage == Stage::CreateResources;
    }
    (stage, created)
}

#[test]
fn setup_succeeds_with_a_compute_adapter() {
    let events = [
        Event::AdapterDiscovered { found: true },
        Event::CapabilitiesRead { compute_shaders: true },
        Event::DeviceRequested { granted: true },
    ];
    assert_eq!(run(Stage::FindAdapter, &events), (Stage::CreateResources, true));
    assert_eq!(advance(Stage::CreateResources, Event::ResourcesCreated), Stage::Done);
}

#[test]
fn missing_adapter_stops_before_resources() {
    let events = [
        Event::AdapterDiscovered { found: false },
        Event::AdapterDiscovered { found: true },
        Event::CapabilitiesRead { compute_shaders: true },
        Event::DeviceRequested { granted: true },
        Event::ResourcesCreated,
    ];
    assert_eq!(
        run(Stage::FindAdapter, &events),
        (Stage::Failed(SetupError::NoAdapter), false)
    );
}

#[test]
fn adapter_without_compute_stops_before_resources() {
    let events = [
        Event::AdapterDiscovered { found: true },
        Event::CapabilitiesRead { compute_shaders: false },
        Event::DeviceRequested { granted: true },
        Event::ResourcesCreated,
    ];
    assert_eq!(
        run(Stage::FindAdapter, &events),
        (Stage::Failed(SetupError::NoComputeShaders), false)
    );
}

#[test]
fn refused_device_stops_before_resources() {
    let events = [
        Event::AdapterDiscovered { found: true },
        Event::CapabilitiesRead { compute_shaders: true },
        Event::DeviceRequested { granted: false },
    ];
    assert_eq!(
        run(Stage::FindAdapter, &events),
        (Stage::Failed(SetupError::DeviceRequestFailed), false)
    );
}

#[test]
fn out_of_place_events_are_ignored() {
    assert_eq!(advance(Stage::FindAdapter, Event::ResourcesCreated), Stage::FindAdapter);
    assert_eq!(
        advance(Stage::CheckCapabilities, Event::DeviceRequested { granted: true }),
        Stage::CheckCapabilities
    );
    assert_eq!(
        advance(Stage::Done, Event::AdapterDiscovered { found: false }),
        Stage::Done
    );
}

#[test]
fn error_messages() {
    assert_eq!(
        SetupError::NoAdapter.message(),
        "No suitable GPU adapters found on the system"
    );
    assert_eq!(
        SetupError::NoComputeShaders.message(),
        "Adapter does not support compute shaders"
    );
    assert!(!SetupError::DeviceRequestFailed.message().is_empty());
}
