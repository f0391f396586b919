use vstd::prelude::*;

use crate::aggregate::AggregateDescriptor;
use crate::error::{HalError, SetupStep};

use crate::identity::{is_hyphenated_hex_text, lower_hex_text, parsed_uuid, TapUuid};
use crate::tap::TapHandle;

verus! {

/// A live aggregate device: the host's object id.
#[derive(Clone, Copy, Debug, PartialEq, Eq, Structural)]
pub struct AggregateDeviceHandle {
    pub device_id: u32,
}

/// The objects that capturing an output device creates: its tap and the
/// aggregate device that fuses the tap with the device.
#[derive(Clone, Copy, Debug, PartialEq, Eq, Structural)]
pub struct CreateAggregateDeviceResult {
    pub tap_id: u32,
    pub aggregate_device_id: u32,
}

/// An aggregate device that this session registered with the host.
pub struct AggregateRecord {
    pub uid: String,
    pub device_id: u32,
}

/// What a capture session has created on the host: its taps and its
/// aggregate devices.
pub struct CaptureSession {
    pub taps: Vec<TapHandle>,
    pub aggregates: Vec<AggregateRecord>,
}

/// The host's id for no object at all (its "unknown object" id). A call that
/// reports success but hands this id back has created nothing.
pub open spec fn unknown_object_id() -> u32 {
    0
}

/// The outcome of creating a tap, from the host's status, the object id it
/// handed back and the identity it reported.
pub open spec fn tap_result(status: i32, tap_id: u32, identity: Option<u128>) -> Result<
    TapUuid,
    HalError,
> {
    if status != 0 {
        Err(HalError::Status { step: SetupStep::CreateProcessTap, status })
    } else if tap_id == unknown_object_id() {
        Err(HalError::UnknownObject { step: SetupStep::CreateProcessTap })
    } else {
        match identity {
            Some(v) => Ok(TapUuid { value: v }),
            None => Err(HalError::InvalidIdentity),
        }
    }
}

/// The outcome of creating an aggregate device from the host's status and
/// the object id it handed back.
pub open spec fn aggregate_host_result(status: i32, device_id: u32) -> Result<
    AggregateDeviceHandle,
    HalError,
> {
    if status != 0 {
        Err(HalError::Status { step: SetupStep::CreateAggregateDevice, status })
    } else if device_id == unknown_object_id() {
        Err(HalError::UnknownObject { step: SetupStep::CreateAggregateDevice })
    } else {
        Ok(AggregateDeviceHandle { device_id })
    }
}

impl CaptureSession {
    pub open spec fn wf(&self) -> bool {
        forall|i: int| 0 <= i < self.taps@.len() ==> (#[trigger] self.taps@[i]).wf()
    }

    /// The identity texts of the taps this session created.
    pub open spec fn tap_texts(&self) -> Seq<Seq<char>> {
        self.taps@.map_values(|t: TapHandle| t.identity_text@)
    }

    /// The unique ids of the aggregates this session registered.
    pub open spec fn aggregate_uids(&self) -> Seq<Seq<char>> {
        self.aggregates@.map_values(|a: AggregateRecord| a.uid@)
    }

    /// A session that has created nothing yet.
    pub fn new() -> (r: Self)
        ensures
            r.wf(),
            r.taps@.len() == 0,
            r.aggregates@.len() == 0,
    {
        CaptureSession { taps: Vec::new(), aggregates: Vec::new() }
    }

    /// The whole outcome of the aggregate factory step. The descriptor's
    /// consistency (sub-devices present, tap references, a unique id) is left
    /// to the host, which checks it at creation: the outcome is its answer.
    pub open spec fn aggregate_creation(
        &self,
        d: &AggregateDescriptor,
        status: i32,
        device_id: u32,
    ) -> Result<AggregateDeviceHandle, HalError> {
        aggregate_host_result(status, device_id)
    }

    /// Records the host's answer to a tap creation: its status, the object id
    /// it handed back and the identity text read from the live tap. On success
    /// the tap joins the session, under the hyphenated text of its identity.
    pub fn finish_process_tap(&mut self, status: i32, tap_id: u32, reported_identity: &str) -> (r:
        Result<TapHandle, HalError>)
        requires
            old(self).wf(),
        ensures
            final(self).wf(),
            final(self).aggregates@ == old(self).aggregates@,
            match tap_result(status, tap_id, parsed_uuid(reported_identity@)) {
                Ok(u) => {
                    &&& r matches Ok(h)
                    &&& h.tap_id == tap_id
                    &&& h.identity == u
                    &&& h.wf()
                    &&& is_hyphenated_hex_text(reported_identity@) ==> h.identity_text@
                        == lower_hex_text(reported_identity@)
                    &&& final(self).tap_texts() == old(self).tap_texts().push(h.identity_text@)
                },
                Err(e) => {
                    &&& r == Err::<TapHandle, HalError>(e)
                    &&& final(self).taps@ == old(self).taps@
                },
            },
    {
        if status != 0 {
            return Err(HalError::Status { step: SetupStep::CreateProcessTap, status });
        }
        if tap_id == 0 {
            return Err(HalError::UnknownObject { step: SetupStep::CreateProcessTap });
        }
        let identity = match TapUuid::parse(reported_identity) {
            Some(u) => u,
            None => {
                return Err(HalError::InvalidIdentity);
            },
        };
        let identity_text = identity.to_hyphenated();
        let kept = TapHandle { tap_id, identity, identity_text: identity_text.clone() };
        self.taps.push(kept);
        let h = TapHandle { tap_id, identity, identity_text };
        proof {
            assert(self.tap_texts() =~= old(self).tap_texts().push(h.identity_text@));
        }
        Ok(h)
    }

    /// Records the host's answer to an aggregate creation: on success the
    /// aggregate's unique id is registered, on failure nothing changes.
    pub fn finish_aggregate(&mut self, d: &AggregateDescriptor, status: i32, device_id: u32) -> (r:
        Result<AggregateDeviceHandle, HalError>)
        ensures
            r == aggregate_host_result(status, device_id),
            r == old(self).aggregate_creation(d, status, device_id),
            final(self).taps@ == old(self).taps@,
            r is Ok ==> final(self).aggregate_uids() == old(self).aggregate_uids().push(d.uid@),
            r is Err ==> final(self).aggregates@ == old(self).aggregates@,
    {
        if status != 0 {
            return Err(HalError::Status { step: SetupStep::CreateAggregateDevice, status });
        }
        if device_id == 0 {
            return Err(HalError::UnknownObject { step: SetupStep::CreateAggregateDevice });
        }
        self.aggregates.push(AggregateRecord { uid: d.uid.clone(), device_id });
        proof {
            assert(self.aggregate_uids() =~= old(self).aggregate_uids().push(d.uid@));
        }
        Ok(AggregateDeviceHandle { device_id })
    }
}

/// An aggregate that names a tap this session never created is still handed
/// to the host at the aggregate factory step (building its descriptor cannot
/// fail), and the outcome is the host's answer: a refusal comes back with the
/// host's status code.
pub proof fn lemma_unknown_tap_left_to_host(
    s: CaptureSession,
    d: AggregateDescriptor,
    j: int,
    status: i32,
    device_id: u32,
)
    requires
        0 <= j < d.taps@.len(),
        !s.tap_texts().contains(d.taps@[j].tap_uid@),
    ensures
        s.aggregate_creation(&d, status, device_id) == aggregate_host_result(status, device_id),
        status != 0 ==> s.aggregate_creation(&d, status, device_id) == Err::<
            AggregateDeviceHandle,
            HalError,
        >(HalError::Status { step: SetupStep::CreateAggregateDevice, status }),
{
}

/// Once an aggregate is registered, a second one with the same unique id that
/// the host refuses yields the host's error and no handle, and registers
/// nothing.
pub proof fn lemma_duplicate_uid_refused(
    s: CaptureSession,
    d1: AggregateDescriptor,
    status1: i32,
    id1: u32,
    d2: AggregateDescriptor,
    status2: i32,
    id2: u32,
)
    requires
        s.aggregate_creation(&d1, status1, id1) is Ok,
        d2.uid@ == d1.uid@,
        status2 != 0,
    ensures
        s.aggregate_creation(&d2, status2, id2) == Err::<AggregateDeviceHandle, HalError>(
            HalError::Status { step: SetupStep::CreateAggregateDevice, status: status2 },
        ),
{
}

/// An aggregate with no sub-device, which the host refuses, never yields a
/// handle: the factory step returns the host's error.
pub proof fn lemma_empty_sub_devices_refused(
    s: CaptureSession,
    d: AggregateDescriptor,
    status: i32,
    device_id: u32,
)
    requires
        d.sub_devices@.len() == 0,
        status != 0,
    ensures
        s.aggregate_creation(&d, status, device_id) == Err::<AggregateDeviceHandle, HalError>(
            HalError::Status { step: SetupStep::CreateAggregateDevice, status },
        ),
{
}

} // verus!
