use vstd::prelude::*;

use crate::aggregate::{build_for_input_capture, build_for_output_capture, AggregateDescriptor};
use crate::error::{check_property_read, check_status, property_read_result, status_result, HalError, SetupStep};
use crate::identity::parsed_uuid;
use crate::session::{tap_result, AggregateDeviceHandle, CaptureSession, CreateAggregateDeviceResult};
use crate::tap::{CATapDescription, TapHandle, TapMode};

verus! {

/// Where a capture setup stands.
#[derive(Clone, Copy, Debug, PartialEq, Eq, Structural)]
pub enum SetupPhase {
    CreatingTap,
    ReadingDefaultOutput,
    ReadingDeviceUid,
    CreatingAggregate,
    CreatingIoProc,
    StartingDevice,
    Running,
    Failed,
}

/// The host call that a capture setup asks for next.
#[derive(Clone, Copy, Debug, PartialEq, Eq, Structural)]
pub enum SetupAction {
    /// Submit the setup's tap description to the host.
    CreateProcessTap,
    /// Read the id of the system's default output device.
    ReadDefaultOutputDevice,
    /// Read the unique id string of a device.
    ReadDeviceUid { device_id: u32 },
    /// Submit the setup's aggregate descriptor to the host.
    CreateAggregateDevice,
    /// Register the I/O procedure on the aggregate device.
    CreateIoProc { device_id: u32 },
    /// Start the aggregate device's clock.
    StartDevice { device_id: u32 },
    /// Nothing is left to do: the device runs.
    Done,
    /// The setup failed; nothing more is asked of the host.
    Abort { error: HalError },
}

/// A call that releases an object a setup created on the host.
#[derive(Clone, Copy, Debug, PartialEq, Eq, Structural)]
pub enum TeardownAction {
    StopDevice { device_id: u32 },
    DestroyIoProc { device_id: u32 },
    DestroyAggregateDevice { device_id: u32 },
    DestroyProcessTap { tap_id: u32 },
}

/// The host's answer to the pending call.
pub enum HalEvent {
    TapCreated { status: i32, tap_id: u32, identity: String },
    DefaultOutputRead { status: i32, expected_size: u32, returned_size: u32, device_id: u32 },
    DeviceUidRead { status: i32, expected_size: u32, returned_size: u32, uid: String },
    AggregateCreated { status: i32, device_id: u32 },
    IoProcCreated { status: i32 },
    DeviceStarted { status: i32 },
}

/// The id of a device read from the host: the read must succeed with the
/// size asked for, and name an object.
pub open spec fn device_read_result(status: i32, expected: u32, returned: u32, device_id: u32) -> Result<
    u32,
    HalError,
> {
    match property_read_result(SetupStep::ReadDefaultOutputDevice, status, expected, returned) {
        Err(e) => Err(e),
        Ok(_) => if device_id == 0 {
            Err(HalError::UnknownObject { step: SetupStep::ReadDefaultOutputDevice })
        } else {
            Ok(device_id)
        },
    }
}

/// The setup of one capture graph, one host call at a time. The caller makes
/// the call that `next_action` names and hands its outcome to `on_event`.
pub struct CaptureSetup {
    pub phase: SetupPhase,
    pub session: CaptureSession,
    pub tap_description: CATapDescription,
    pub tap: Option<TapHandle>,
    pub output_device: u32,
    pub aggregate: Option<AggregateDescriptor>,
    pub aggregate_device: Option<AggregateDeviceHandle>,
    /// Whether the I/O procedure is registered on the aggregate device.
    pub io_proc_registered: bool,
    /// Whether the aggregate device's clock was started.
    pub device_started: bool,
    pub error: Option<HalError>,
}

impl CaptureSetup {
    pub open spec fn wf(&self) -> bool {
        &&& self.session.wf()
        &&& (self.phase == SetupPhase::ReadingDefaultOutput || self.phase == SetupPhase::ReadingDeviceUid)
            ==> (self.tap matches Some(h) && h.wf())
        &&& self.phase == SetupPhase::CreatingAggregate ==> self.aggregate is Some
        &&& (self.phase == SetupPhase::CreatingIoProc || self.phase == SetupPhase::StartingDevice
            || self.phase == SetupPhase::Running) ==> self.aggregate_device is Some
        &&& self.phase == SetupPhase::Failed ==> self.error is Some
        &&& self.created_wf()
        &&& (self.phase == SetupPhase::StartingDevice || self.phase == SetupPhase::Running)
            ==> self.io_proc_registered
        &&& self.phase == SetupPhase::Running ==> self.device_started
    }

    /// A started device has its I/O procedure, which sits on a live aggregate.
    pub open spec fn created_wf(&self) -> bool {
        &&& self.io_proc_registered ==> self.aggregate_device is Some
        &&& self.device_started ==> self.io_proc_registered
    }

    /// The release calls for what this setup created, the latest first.
    pub open spec fn teardown_seq(&self) -> Seq<TeardownAction> {
        (if self.device_started {
            seq![TeardownAction::StopDevice { device_id: self.aggregate_device->0.device_id }]
        } else {
            seq![]
        }) + (if self.io_proc_registered {
            seq![TeardownAction::DestroyIoProc { device_id: self.aggregate_device->0.device_id }]
        } else {
            seq![]
        }) + (if self.aggregate_device is Some {
            seq![TeardownAction::DestroyAggregateDevice { device_id: self.aggregate_device->0.device_id }]
        } else {
            seq![]
        }) + (if self.tap is Some {
            seq![TeardownAction::DestroyProcessTap { tap_id: self.tap->0.tap_id }]
        } else {
            seq![]
        })
    }

    /// The host call asked for in the current phase.
    pub open spec fn pending_action(&self) -> SetupAction {
        match self.phase {
            SetupPhase::CreatingTap => SetupAction::CreateProcessTap,
            SetupPhase::ReadingDefaultOutput => SetupAction::ReadDefaultOutputDevice,
            SetupPhase::ReadingDeviceUid => SetupAction::ReadDeviceUid { device_id: self.output_device },
            SetupPhase::CreatingAggregate => SetupAction::CreateAggregateDevice,
            SetupPhase::CreatingIoProc => SetupAction::CreateIoProc {
                device_id: self.aggregate_device->0.device_id,
            },
            SetupPhase::StartingDevice => SetupAction::StartDevice {
                device_id: self.aggregate_device->0.device_id,
            },
            SetupPhase::Running => SetupAction::Done,
            SetupPhase::Failed => SetupAction::Abort { error: self.error->0 },
        }
    }

    /// The step whose outcome the current phase waits for.
    pub open spec fn pending_step(&self) -> SetupStep {
        match self.phase {
            SetupPhase::CreatingTap => SetupStep::CreateProcessTap,
            SetupPhase::ReadingDefaultOutput => SetupStep::ReadDefaultOutputDevice,
            SetupPhase::ReadingDeviceUid => SetupStep::ReadDeviceUid,
            SetupPhase::CreatingAggregate => SetupStep::CreateAggregateDevice,
            SetupPhase::CreatingIoProc => SetupStep::CreateIoProc,
            _ => SetupStep::StartDevice,
        }
    }

    /// The host call to make next.
    pub fn next_action(&self) -> (r: SetupAction)
        requires
            self.wf(),
        ensures
            r == self.pending_action(),
    {
        match self.phase {
            SetupPhase::CreatingTap => SetupAction::CreateProcessTap,
            SetupPhase::ReadingDefaultOutput => SetupAction::ReadDefaultOutputDevice,
            SetupPhase::ReadingDeviceUid => SetupAction::ReadDeviceUid { device_id: self.output_device },
            SetupPhase::CreatingAggregate => SetupAction::CreateAggregateDevice,
            SetupPhase::CreatingIoProc => SetupAction::CreateIoProc {
                device_id: self.aggregate_device.unwrap().device_id,
            },
            SetupPhase::StartingDevice => SetupAction::StartDevice {
                device_id: self.aggregate_device.unwrap().device_id,
            },
            SetupPhase::Running => SetupAction::Done,
            SetupPhase::Failed => SetupAction::Abort { error: self.error.unwrap() },
        }
    }

    fn fail(&mut self, e: HalError)
        requires
            old(self).session.wf(),
            old(self).created_wf(),
        ensures
            final(self).wf(),
            final(self).phase == SetupPhase::Failed,
            final(self).error == Some(e),
            final(self).session == old(self).session,
            final(self).tap == old(self).tap,
            final(self).aggregate == old(self).aggregate,
            final(self).aggregate_device == old(self).aggregate_device,
            final(self).output_device == old(self).output_device,
            final(self).io_proc_registered == old(self).io_proc_registered,
            final(self).device_started == old(self).device_started,
    {
        self.phase = SetupPhase::Failed;
        self.error = Some(e);
    }

    /// Holds a descriptor for the aggregate factory step.
    fn enter_aggregate_step(&mut self, d: AggregateDescriptor)
        requires
            old(self).session.wf(),
            old(self).created_wf(),
        ensures
            final(self).wf(),
            final(self).phase == SetupPhase::CreatingAggregate,
            final(self).aggregate == Some(d),
            final(self).error == old(self).error,
            final(self).session == old(self).session,
            final(self).tap == old(self).tap,
            final(self).aggregate_device == old(self).aggregate_device,
            final(self).output_device == old(self).output_device,
            final(self).io_proc_registered == old(self).io_proc_registered,
            final(self).device_started == old(self).device_started,
    {
        self.aggregate = Some(d);
        self.phase = SetupPhase::CreatingAggregate;
    }

    /// The setup that captures the system's default output device: a mono
    /// tap of all system audio that excludes no process, fused with that
    /// device. It starts by creating the tap.
    pub fn new_output_capture(session: CaptureSession) -> (r: Self)
        requires
            session.wf(),
        ensures
            r.wf(),
            r.phase == SetupPhase::CreatingTap,
            r.session == session,
            r.tap_description.mode == TapMode::MonoGlobalExcluding,
            r.tap_description.processes@.len() == 0,
            r.tap_description.name@ == "platy-speaker-tap"@,
            r.tap is None,
            r.aggregate is None,
            r.aggregate_device is None,
            r.error is None,
    {
        let mut tap_description = CATapDescription::new_mono_global_tap_but_exclude(Vec::new());
        tap_description.set_name("platy-speaker-tap");
        CaptureSetup {
            phase: SetupPhase::CreatingTap,
            session,
            tap_description,
            tap: None,
            output_device: 0,
            aggregate: None,
            aggregate_device: None,
            io_proc_registered: false,
            device_started: false,
            error: None,
        }
    }

    /// The setup that passes the input device `input_uid` through a public
    /// aggregate with no taps. It starts at the aggregate factory step.
    pub fn new_input_capture(session: CaptureSession, input_uid: &str) -> (r: Self)
        requires
            session.wf(),
        ensures
            r.wf(),
            r.session == session,
            r.tap is None,
            r.aggregate_device is None,
            r.aggregate matches Some(d) && d.describes_input_capture(input_uid@),
            r.phase == SetupPhase::CreatingAggregate,
    {
        let mut r = CaptureSetup {
            phase: SetupPhase::CreatingAggregate,
            session,
            tap_description: CATapDescription::new_stereo_mixdown(Vec::new()),
            tap: None,
            output_device: 0,
            aggregate: None,
            aggregate_device: None,
            io_proc_registered: false,
            device_started: false,
            error: None,
        };
        let d = build_for_input_capture(input_uid);
        r.enter_aggregate_step(d);
        r
    }

    /// Takes the host's answer to the pending call and moves the setup on.
    /// A failed call, a failed size or identity check, or an answer to another call ends the
    /// setup with that error; a finished or failed setup stays as it is.
    /// Returns the call to make next.
    pub fn on_event(&mut self, ev: HalEvent) -> (r: SetupAction)
        requires
            old(self).wf(),
        ensures
            final(self).wf(),
            r == final(self).pending_action(),
            final(self).phase != SetupPhase::ReadingDefaultOutput ==> final(self).tap == old(self).tap,
            old(self).phase != SetupPhase::CreatingTap ==> final(self).tap == old(self).tap,
            final(self).phase != SetupPhase::CreatingIoProc ==> final(self).aggregate_device == old(
                self,
            ).aggregate_device,
            final(self).phase != SetupPhase::StartingDevice ==> final(self).io_proc_registered == old(
                self,
            ).io_proc_registered,
            final(self).phase != SetupPhase::Running ==> final(self).device_started == old(
                self,
            ).device_started,
            (old(self).phase == SetupPhase::Running || old(self).phase == SetupPhase::Failed) ==> (
            final(self).phase == old(self).phase && final(self).error == old(self).error
                && final(self).aggregate_device == old(self).aggregate_device),
            old(self).phase == SetupPhase::CreatingTap ==> match ev {
                HalEvent::TapCreated { status, tap_id, identity } => match tap_result(
                    status,
                    tap_id,
                    parsed_uuid(identity@),
                ) {
                    Ok(u) => {
                        &&& final(self).phase == SetupPhase::ReadingDefaultOutput
                        &&& final(self).tap matches Some(h)
                        &&& h.tap_id == tap_id
                        &&& h.identity == u
                        &&& final(self).session.tap_texts() == old(self).session.tap_texts().push(
                            h.identity_text@,
                        )
                    },
                    Err(e) => final(self).phase == SetupPhase::Failed && final(self).error == Some(e),
                },
                _ => final(self).phase == SetupPhase::Failed && final(self).error == Some(
                    HalError::OutOfOrder { pending: SetupStep::CreateProcessTap },
                ),
            },
            old(self).phase == SetupPhase::ReadingDefaultOutput ==> match ev {
                HalEvent::DefaultOutputRead { status, expected_size, returned_size, device_id } => match device_read_result(
                    status,
                    expected_size,
                    returned_size,
                    device_id,
                ) {
                    Ok(id) => final(self).phase == SetupPhase::ReadingDeviceUid
                        && final(self).output_device == id && final(self).tap == old(self).tap,
                    Err(e) => final(self).phase == SetupPhase::Failed && final(self).error == Some(e),
                },
                _ => final(self).phase == SetupPhase::Failed && final(self).error == Some(
                    HalError::OutOfOrder { pending: SetupStep::ReadDefaultOutputDevice },
                ),
            },
            old(self).phase == SetupPhase::ReadingDeviceUid ==> match ev {
                HalEvent::DeviceUidRead { status, expected_size, returned_size, uid } => match property_read_result(
                    SetupStep::ReadDeviceUid,
                    status,
                    expected_size,
                    returned_size,
                ) {
                    Ok(_) => {
                        &&& final(self).aggregate matches Some(d)
                        &&& d.describes_output_capture(old(self).tap->0.identity_text@, uid@)
                        &&& final(self).phase == SetupPhase::CreatingAggregate
                    },
                    Err(e) => final(self).phase == SetupPhase::Failed && final(self).error == Some(e),
                },
                _ => final(self).phase == SetupPhase::Failed && final(self).error == Some(
                    HalError::OutOfOrder { pending: SetupStep::ReadDeviceUid },
                ),
            },
            old(self).phase == SetupPhase::CreatingAggregate ==> match ev {
                HalEvent::AggregateCreated { status, device_id } => match old(
                    self,
                ).session.aggregate_creation(&old(self).aggregate->0, status, device_id) {
                    Ok(h) => {
                        &&& final(self).phase == SetupPhase::CreatingIoProc
                        &&& final(self).aggregate_device == Some(h)
                        &&& final(self).session.aggregate_uids() == old(
                            self,
                        ).session.aggregate_uids().push(old(self).aggregate->0.uid@)
                    },
                    Err(e) => final(self).phase == SetupPhase::Failed && final(self).error == Some(e),
                },
                _ => final(self).phase == SetupPhase::Failed && final(self).error == Some(
                    HalError::OutOfOrder { pending: SetupStep::CreateAggregateDevice },
                ),
            },
            old(self).phase == SetupPhase::CreatingIoProc ==> match ev {
                HalEvent::IoProcCreated { status } => match status_result(SetupStep::CreateIoProc, status) {
                    Ok(_) => final(self).phase == SetupPhase::StartingDevice
                        && final(self).aggregate_device == old(self).aggregate_device
                        && final(self).io_proc_registered,
                    Err(e) => final(self).phase == SetupPhase::Failed && final(self).error == Some(e),
                },
                _ => final(self).phase == SetupPhase::Failed && final(self).error == Some(
                    HalError::OutOfOrder { pending: SetupStep::CreateIoProc },
                ),
            },
            old(self).phase == SetupPhase::StartingDevice ==> match ev {
                HalEvent::DeviceStarted { status } => match status_result(SetupStep::StartDevice, status) {
                    Ok(_) => final(self).phase == SetupPhase::Running
                        && final(self).aggregate_device == old(self).aggregate_device
                        && final(self).device_started,
                    Err(e) => final(self).phase == SetupPhase::Failed && final(self).error == Some(e),
                },
                _ => final(self).phase == SetupPhase::Failed && final(self).error == Some(
                    HalError::OutOfOrder { pending: SetupStep::StartDevice },
                ),
            },
    {
        match self.phase {
            SetupPhase::CreatingTap => match ev {
                HalEvent::TapCreated { status, tap_id, identity } => {
                    match self.session.finish_process_tap(status, tap_id, identity.as_str()) {
                        Ok(h) => {
                            self.tap = Some(h);
                            self.phase = SetupPhase::ReadingDefaultOutput;
                        },
                        Err(e) => self.fail(e),
                    }
                },
                _ => self.fail(HalError::OutOfOrder { pending: SetupStep::CreateProcessTap }),
            },
            SetupPhase::ReadingDefaultOutput => match ev {
                HalEvent::DefaultOutputRead { status, expected_size, returned_size, device_id } => {
                    match check_property_read(
                        SetupStep::ReadDefaultOutputDevice,
                        status,
                        expected_size,
                        returned_size,
                    ) {
                        Ok(_) => {
                            if device_id == 0 {
                                self.fail(
                                    HalError::UnknownObject { step: SetupStep::ReadDefaultOutputDevice },
                                );
                            } else {
                                self.output_device = device_id;
                                self.phase = SetupPhase::ReadingDeviceUid;
                            }
                        },
                        Err(e) => self.fail(e),
                    }
                },
                _ => self.fail(HalError::OutOfOrder { pending: SetupStep::ReadDefaultOutputDevice }),
            },
            SetupPhase::ReadingDeviceUid => match ev {
                HalEvent::DeviceUidRead { status, expected_size, returned_size, uid } => {
                    match check_property_read(
                        SetupStep::ReadDeviceUid,
                        status,
                        expected_size,
                        returned_size,
                    ) {
                        Ok(_) => {
                            let built = match &self.tap {
                                Some(h) => Some(build_for_output_capture(h, uid.as_str())),
                                None => None,
                            };
                            match built {
                                Some(d) => self.enter_aggregate_step(d),
                                None => self.fail(
                                    HalError::OutOfOrder { pending: SetupStep::CreateProcessTap },
                                ),
                            }
                        },
                        Err(e) => self.fail(e),
                    }
                },
                _ => self.fail(HalError::OutOfOrder { pending: SetupStep::ReadDeviceUid }),
            },
            SetupPhase::CreatingAggregate => match ev {
                HalEvent::AggregateCreated { status, device_id } => {
                    let created = match &self.aggregate {
                        Some(d) => self.session.finish_aggregate(d, status, device_id),
                        None => Err(HalError::OutOfOrder { pending: SetupStep::CreateAggregateDevice }),
                    };
                    match created {
                        Ok(h) => {
                            self.aggregate_device = Some(h);
                            self.phase = SetupPhase::CreatingIoProc;
                        },
                        Err(e) => self.fail(e),
                    }
                },
                _ => self.fail(HalError::OutOfOrder { pending: SetupStep::CreateAggregateDevice }),
            },
            SetupPhase::CreatingIoProc => match ev {
                HalEvent::IoProcCreated { status } => match check_status(SetupStep::CreateIoProc, status) {
                    Ok(_) => {
                        self.io_proc_registered = true;
                        self.phase = SetupPhase::StartingDevice;
                    },
                    Err(e) => self.fail(e),
                },
                _ => self.fail(HalError::OutOfOrder { pending: SetupStep::CreateIoProc }),
            },
            SetupPhase::StartingDevice => match ev {
                HalEvent::DeviceStarted { status } => match check_status(SetupStep::StartDevice, status) {
                    Ok(_) => {
                        self.device_started = true;
                        self.phase = SetupPhase::Running;
                    },
                    Err(e) => self.fail(e),
                },
                _ => self.fail(HalError::OutOfOrder { pending: SetupStep::StartDevice }),
            },
            SetupPhase::Running => {},
            SetupPhase::Failed => {},
        }
        self.next_action()
    }

    /// The release calls for everything this setup created, whether it runs
    /// or stopped partway: the device is stopped, then the I/O procedure,
    /// the aggregate device and the tap are destroyed, each only where it was
    /// created.
    pub fn teardown(&self) -> (r: Vec<TeardownAction>)
        requires
            self.wf(),
        ensures
            r@ == self.teardown_seq(),
    {
        let mut r: Vec<TeardownAction> = Vec::new();
        match self.aggregate_device {
            Some(a) => {
                if self.device_started {
                    r.push(TeardownAction::StopDevice { device_id: a.device_id });
                }
                if self.io_proc_registered {
                    r.push(TeardownAction::DestroyIoProc { device_id: a.device_id });
                }
                r.push(TeardownAction::DestroyAggregateDevice { device_id: a.device_id });
            },
            None => {},
        }
        match &self.tap {
            Some(h) => {
                r.push(TeardownAction::DestroyProcessTap { tap_id: h.tap_id });
            },
            None => {},
        }
        assert(r@ =~= self.teardown_seq());
        r
    }

    /// The tap and the aggregate device that this setup created, once both
    /// exist.
    pub fn created(&self) -> (r: Option<CreateAggregateDeviceResult>)
        ensures
            r == (if self.tap is Some && self.aggregate_device is Some {
                Some(
                    CreateAggregateDeviceResult {
                        tap_id: self.tap->0.tap_id,
                        aggregate_device_id: self.aggregate_device->0.device_id,
                    },
                )
            } else {
                None
            }),
    {
        match (&self.tap, self.aggregate_device) {
            (Some(h), Some(a)) => Some(
                CreateAggregateDeviceResult { tap_id: h.tap_id, aggregate_device_id: a.device_id },
            ),
            _ => None,
        }
    }
}

} // verus!
