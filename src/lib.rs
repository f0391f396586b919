//! Building blocks for a virtual audio capture graph: a non-destructive process
//! tap fused with a physical device into one aggregate device.
//!
//! The library holds the descriptors, the checks made on each host answer and
//! the order of the setup sequence. The host calls themselves are made by the
//! caller, which hands their outcomes back as plain values.

mod aggregate;
mod error;
mod identity;
mod session;
mod setup;
mod tap;

pub use aggregate::{
    build_for_input_capture, build_for_output_capture, input_aggregate_name, input_aggregate_uid,
    output_aggregate_name, output_aggregate_uid, AggregateDescriptor, DescriptorKey, SubDeviceSpec,
    TapSpec,
};
pub use error::{
    check_property_read, check_status, property_read_result, status_result, HalError, SetupStep,
};
pub use identity::{
    hex_digit, hyphenated_text, hyphens_before, is_hex_char, is_hyphenated_hex_text,
    is_hyphenated_uuid_text, lower_hex_char, lower_hex_text, lemma_hyphenated_text_syntax,
    nibble, parsed_uuid, pow16, TapUuid,
};
pub use session::{
    aggregate_host_result, lemma_duplicate_uid_refused, lemma_empty_sub_devices_refused,
    lemma_unknown_tap_left_to_host, tap_result, unknown_object_id, AggregateDeviceHandle, AggregateRecord, CaptureSession,
    CreateAggregateDeviceResult,
};
pub use setup::{device_read_result, CaptureSetup, HalEvent, SetupAction, SetupPhase,
    TeardownAction,
};
pub use tap::{lemma_tap_identity_round_trip, CATapDescription, CATapMuteBehavior, TapHandle, TapMode};
