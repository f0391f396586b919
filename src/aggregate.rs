use vstd::prelude::*;
use vstd::string::*;

use crate::tap::TapHandle;

verus! {

/// One physical device folded into an aggregate, by its stable unique id.
pub struct SubDeviceSpec {
    pub uid: String,
}

/// One tap folded into an aggregate, by the text of its identity.
pub struct TapSpec {
    pub tap_uid: String,
    pub drift_compensation: bool,
}

/// The keys of the host's aggregate device description.
#[derive(Clone, Copy, Debug, PartialEq, Eq, Structural)]
pub enum DescriptorKey {
    Name,
    Uid,
    MainSubDevice,
    MasterSubDevice,
    IsPrivate,
    TapAutoStart,
    SubDeviceList,
    TapList,
}

/// The configuration of an aggregate device, consumed once by its creation.
pub struct AggregateDescriptor {
    pub name: String,
    pub uid: String,
    /// The sub-device whose clock drives a tap-bearing aggregate.
    pub main_sub_device: Option<String>,
    /// The sub-device whose clock drives a plain aggregate.
    pub master_sub_device: Option<String>,
    pub is_private: bool,
    pub tap_auto_start: Option<bool>,
    pub sub_devices: Vec<SubDeviceSpec>,
    pub taps: Vec<TapSpec>,
}

/// The name of the aggregate that captures an output device.
pub open spec fn output_aggregate_name() -> Seq<char> {
    "Platy Speaker"@
}

/// The unique id of the aggregate that captures an output device.
pub open spec fn output_aggregate_uid() -> Seq<char> {
    "platy-speaker-uid"@
}

/// The name of the aggregate that captures an input device.
pub open spec fn input_aggregate_name() -> Seq<char> {
    "Platy Microphone"@
}

/// The unique id of the aggregate that captures an input device.
pub open spec fn input_aggregate_uid() -> Seq<char> {
    "platy-microphone-uid"@
}

impl AggregateDescriptor {
    /// The unique ids of the sub-devices, in order.
    pub open spec fn sub_device_uids(&self) -> Seq<Seq<char>> {
        self.sub_devices@.map_values(|s: SubDeviceSpec| s.uid@)
    }

    /// The identity texts of the taps, in order.
    pub open spec fn tap_uids(&self) -> Seq<Seq<char>> {
        self.taps@.map_values(|t: TapSpec| t.tap_uid@)
    }

    /// The private, auto-starting aggregate that captures the output device
    /// `output_uid` through the tap `tap_uid`: the device is the only
    /// sub-device and drives the clock, and no tap has drift compensation.
    pub open spec fn describes_output_capture(&self, tap_uid: Seq<char>, output_uid: Seq<char>) -> bool {
        &&& self.name@ == output_aggregate_name()
        &&& self.uid@ == output_aggregate_uid()
        &&& self.main_sub_device matches Some(m) && m@ == output_uid
        &&& self.master_sub_device is None
        &&& self.is_private
        &&& self.tap_auto_start == Some(true)
        &&& self.sub_device_uids() == seq![output_uid]
        &&& self.tap_uids() == seq![tap_uid]
        &&& forall|i: int| 0 <= i < self.taps@.len() ==> !(#[trigger] self.taps@[i]).drift_compensation
    }

    /// The public pass-through aggregate of the input device `input_uid`, with
    /// no taps: the device is the only sub-device and drives the clock under
    /// both roles.
    pub open spec fn describes_input_capture(&self, input_uid: Seq<char>) -> bool {
        &&& self.name@ == input_aggregate_name()
        &&& self.uid@ == input_aggregate_uid()
        &&& self.main_sub_device matches Some(m) && m@ == input_uid
        &&& self.master_sub_device matches Some(m) && m@ == input_uid
        &&& !self.is_private
        &&& self.tap_auto_start is None
        &&& self.sub_device_uids() == seq![input_uid]
        &&& self.taps@.len() == 0
    }

    /// The keys that the host description holds, in the order they are written.
    pub open spec fn key_seq(&self) -> Seq<DescriptorKey> {
        seq![DescriptorKey::Name, DescriptorKey::Uid]
            + (if self.main_sub_device is Some { seq![DescriptorKey::MainSubDevice] } else { seq![] })
            + (if self.master_sub_device is Some { seq![DescriptorKey::MasterSubDevice] } else { seq![] })
            + seq![DescriptorKey::IsPrivate]
            + (if self.tap_auto_start is Some { seq![DescriptorKey::TapAutoStart] } else { seq![] })
            + seq![DescriptorKey::SubDeviceList]
            + (if self.taps@.len() > 0 { seq![DescriptorKey::TapList] } else { seq![] })
    }

    /// The keys of the host description, in order: name and unique id, the
    /// clock-driving sub-device under each role that is set, the privacy flag,
    /// the tap auto-start flag where set, the sub-device list, and the tap list
    /// where there are taps.
    pub fn keys(&self) -> (r: Vec<DescriptorKey>)
        ensures
            r@ == self.key_seq(),
    {
        let mut r: Vec<DescriptorKey> = Vec::new();
        r.push(DescriptorKey::Name);
        r.push(DescriptorKey::Uid);
        if self.main_sub_device.is_some() {
            r.push(DescriptorKey::MainSubDevice);
        }
        if self.master_sub_device.is_some() {
            r.push(DescriptorKey::MasterSubDevice);
        }
        r.push(DescriptorKey::IsPrivate);
        if self.tap_auto_start.is_some() {
            r.push(DescriptorKey::TapAutoStart);
        }
        r.push(DescriptorKey::SubDeviceList);
        if self.taps.len() > 0 {
            r.push(DescriptorKey::TapList);
        }
        assert(r@ =~= self.key_seq());
        r
    }
}

/// A private, auto-starting aggregate that captures an output device through
/// a tap: the device is the only sub-device and drives the clock, and the tap,
/// which shares that clock, runs without drift compensation.
pub fn build_for_output_capture(tap: &TapHandle, output_uid: &str) -> (r: AggregateDescriptor)
    ensures
        r.describes_output_capture(tap.identity_text@, output_uid@),
{
    let mut sub_devices: Vec<SubDeviceSpec> = Vec::new();
    sub_devices.push(SubDeviceSpec { uid: String::from_str(output_uid) });
    let mut taps: Vec<TapSpec> = Vec::new();
    taps.push(TapSpec { tap_uid: tap.identity_text.clone(), drift_compensation: false });
    let r = AggregateDescriptor {
        name: String::from_str("Platy Speaker"),
        uid: String::from_str("platy-speaker-uid"),
        main_sub_device: Some(String::from_str(output_uid)),
        master_sub_device: None,
        is_private: true,
        tap_auto_start: Some(true),
        sub_devices,
        taps,
    };
    assert(r.sub_device_uids() =~= seq![output_uid@]);
    assert(r.tap_uids() =~= seq![tap.identity_text@]);
    r
}

/// A public pass-through aggregate of an input device, with no taps: the device
/// is the only sub-device and drives the clock under both roles.
pub fn build_for_input_capture(input_uid: &str) -> (r: AggregateDescriptor)
    ensures
        r.describes_input_capture(input_uid@),
{
    let mut sub_devices: Vec<SubDeviceSpec> = Vec::new();
    sub_devices.push(SubDeviceSpec { uid: String::from_str(input_uid) });
    let r = AggregateDescriptor {
        name: String::from_str("Platy Microphone"),
        uid: String::from_str("platy-microphone-uid"),
        main_sub_device: Some(String::from_str(input_uid)),
        master_sub_device: Some(String::from_str(input_uid)),
        is_private: false,
        tap_auto_start: None,
        sub_devices,
        taps: Vec::new(),
    };
    assert(r.sub_device_uids() =~= seq![input_uid@]);
    r
}

} // verus!
