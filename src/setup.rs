use vstd::prelude::*;

verus! {

/// Why setting up the compute device failed. Every failure ends the run.
#[derive(Clone, Copy, Debug, PartialEq, Eq, Structural)]
pub enum SetupError {
    /// Adapter discovery found no adapter.
    NoAdapter,
    /// The adapter cannot run compute shaders.
    NoComputeShaders,
    /// The adapter refused to give a device.
    DeviceRequestFailed,
}

/// Where the setup of one dispatch stands.
#[derive(Clone, Copy, Debug, PartialEq, Eq, Structural)]
pub enum Stage {
    /// Waiting for adapter discovery.
    FindAdapter,
    /// Waiting for the adapter's capabilities.
    CheckCapabilities,
    /// Waiting for the device and its queue.
    RequestDevice,
    /// Device ready: shader, buffers, bindings, pipeline and commands are created.
    CreateResources,
    /// The command buffer is recorded.
    Done,
    /// Stopped for good; nothing more is created.
    Failed(SetupError),
}

/// What the outside work of a stage reported.
#[derive(Clone, Copy, Debug, PartialEq, Eq, Structural)]
pub enum Event {
    /// Adapter discovery ended; `found` tells whether it yielded an adapter.
    AdapterDiscovered { found: bool },
    /// The adapter's downlevel capabilities were read.
    CapabilitiesRead { compute_shaders: bool },
    /// The device request ended; `granted` tells whether it succeeded.
    DeviceRequested { granted: bool },
    /// All resources were created and the commands recorded.
    ResourcesCreated,
}

/// The stage after `event` arrives in `stage`. An event that does not belong to
/// the stage leaves it as it is.
pub open spec fn spec_advance(stage: Stage, event: Event) -> Stage {
    match (stage, event) {
        (Stage::FindAdapter, Event::AdapterDiscovered { found }) => if found {
            Stage::CheckCapabilities
        } else {
            Stage::Failed(SetupError::NoAdapter)
        },
        (Stage::CheckCapabilities, Event::CapabilitiesRead { compute_shaders }) => if compute_shaders {
            Stage::RequestDevice
        } else {
            Stage::Failed(SetupError::NoComputeShaders)
        },
        (Stage::RequestDevice, Event::DeviceRequested { granted }) => if granted {
            Stage::CreateResources
        } else {
            Stage::Failed(SetupError::DeviceRequestFailed)
        },
        (Stage::CreateResources, Event::ResourcesCreated) => Stage::Done,
        _ => stage,
    }
}

/// The stage reached from `stage` after `events`, in order.
pub open spec fn run(stage: Stage, events: Seq<Event>) -> Stage
    decreases events.len(),
{
    if events.len() == 0 {
        stage
    } else {
        run(spec_advance(stage, events[0]), events.drop_first())
    }
}

/// Whether a run from `stage` through `events` ever stands in `CreateResources`,
/// the one stage in which resources are created.
pub open spec fn reaches_creation(stage: Stage, events: Seq<Event>) -> bool
    decreases events.len(),
{
    if stage is CreateResources {
        true
    } else if events.len() == 0 {
        false
    } else {
        reaches_creation(spec_advance(stage, events[0]), events.drop_first())
    }
}

/// The next stage of setup once `event` has arrived in `stage`.
pub fn advance(stage: Stage, event: Event) -> (r: Stage)
    ensures
        r == spec_advance(stage, event),
{
    match (stage, event) {
        (Stage::FindAdapter, Event::AdapterDiscovered { found }) => if found {
            Stage::CheckCapabilities
        } else {
            Stage::Failed(SetupError::NoAdapter)
        },
        (Stage::CheckCapabilities, Event::CapabilitiesRead { compute_shaders }) => if compute_shaders {
            Stage::RequestDevice
        } else {
            Stage::Failed(SetupError::NoComputeShaders)
        },
        (Stage::RequestDevice, Event::DeviceRequested { granted }) => if granted {
            Stage::CreateResources
        } else {
            Stage::Failed(SetupError::DeviceRequestFailed)
        },
        (Stage::CreateResources, Event::ResourcesCreated) => Stage::Done,
        _ => stage,
    }
}

impl SetupError {
    /// A message that says what went wrong.
    pub fn message(&self) -> (r: &'static str)
        ensures
            r@ == match *self {
                SetupError::NoAdapter => "No suitable GPU adapters found on the system"@,
                SetupError::NoComputeShaders => "Adapter does not support compute shaders"@,
                SetupError::DeviceRequestFailed => "Failed to request a device from the adapter"@,
            },
    {
        match self {
            SetupError::NoAdapter => "No suitable GPU adapters found on the system",
            SetupError::NoComputeShaders => "Adapter does not support compute shaders",
            SetupError::DeviceRequestFailed => "Failed to request a device from the adapter",
        }
    }
}

/// A failed setup stays failed, whatever arrives after.
pub proof fn lemma_failure_is_final(e: SetupError, events: Seq<Event>)
    ensures
        run(Stage::Failed(e), events) == Stage::Failed(e),
        !reaches_creation(Stage::Failed(e), events),
    decreases events.len(),
{
    if events.len() > 0 {
        lemma_failure_is_final(e, events.drop_first());
    }
}

/// When discovery yields no adapter, or the adapter cannot run compute shaders,
/// setup fails with that error and never reaches the stage that creates
/// resources, whatever events follow.
pub proof fn lemma_no_resources_without_compute_adapter(rest: Seq<Event>)
    ensures
        run(Stage::FindAdapter, seq![Event::AdapterDiscovered { found: false }] + rest)
            == Stage::Failed(SetupError::NoAdapter),
        !reaches_creation(Stage::FindAdapter, seq![Event::AdapterDiscovered { found: false }] + rest),
        run(
            Stage::FindAdapter,
            seq![
                Event::AdapterDiscovered { found: true },
                Event::CapabilitiesRead { compute_shaders: false },
            ] + rest,
        ) == Stage::Failed(SetupError::NoComputeShaders),
        !reaches_creation(
            Stage::FindAdapter,
            seq![
                Event::AdapterDiscovered { found: true },
                Event::CapabilitiesRead { compute_shaders: false },
            ] + rest,
        ),
{
    let a = seq![Event::AdapterDiscovered { found: false }] + rest;
    assert(a.drop_first() =~= rest);
    lemma_failure_is_final(SetupError::NoAdapter, rest);
    let b = seq![
        Event::AdapterDiscovered { found: true },
        Event::CapabilitiesRead { compute_shaders: false },
    ] + rest;
    let b1 = b.drop_first();
    assert(b1[0] == Event::CapabilitiesRead { compute_shaders: false });
    assert(b1.drop_first() =~= rest);
    lemma_failure_is_final(SetupError::NoComputeShaders, rest);
    assert(run(Stage::CheckCapabilities, b1) == Stage::Failed(SetupError::NoComputeShaders));
    assert(!reaches_creation(Stage::CheckCapabilities, b1));
}

/// Resources are created only once discovery has found an adapter, the adapter
/// has shown compute-shader support and the device has been granted: a run from
/// any earlier stage reaches creation only through those events.
pub proof fn lemma_creation_needs_compute_device(stage: Stage, events: Seq<Event>)
    requires
        reaches_creation(stage, events),
    ensures
        stage is FindAdapter ==> events.contains(Event::AdapterDiscovered { found: true }),
        stage is FindAdapter || stage is CheckCapabilities ==> events.contains(
            Event::CapabilitiesRead { compute_shaders: true },
        ),
        stage is FindAdapter || stage is CheckCapabilities || stage is RequestDevice
            ==> events.contains(Event::DeviceRequested { granted: true }),
    decreases events.len(),
{
    if let Stage::Failed(e) = stage {
        lemma_failure_is_final(e, events);
    }
    if stage is FindAdapter || stage is CheckCapabilities || stage is RequestDevice {
        let next = spec_advance(stage, events[0]);
        let rest = events.drop_first();
        if let Stage::Failed(e) = next {
            lemma_failure_is_final(e, rest);
        }
        lemma_creation_needs_compute_device(next, rest);
        assert forall|x: Event| rest.contains(x) implies events.contains(x) by {
            let i = choose|i: int| 0 <= i < rest.len() && rest[i] == x;
            assert(events[i + 1] == x);
        }
        if next != stage {
            assert(events.contains(events[0])) by {
                assert(events[0] == events[0]);
            }
        }
    }
}

} // verus!
