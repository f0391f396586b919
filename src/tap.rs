use vstd::prelude::*;
use vstd::string::*;

use crate::identity::{
    hyphenated_text, is_hyphenated_uuid_text, lemma_hyphenated_text_syntax, parsed_uuid, TapUuid,
};

verus! {

/// What the host does to the tapped audio on its normal path.
#[derive(Clone, Copy, Debug, PartialEq, Eq, Structural)]
pub enum CATapMuteBehavior {
    /// The tapped audio still plays.
    Unmuted,
    /// The tapped audio is silenced on its normal path.
    Muted,
    /// The tapped audio is silenced only while a client reads the tap.
    MutedWhenTapped,
}

/// Which audio a tap takes in.
#[derive(Clone, Copy, Debug, PartialEq, Eq, Structural)]
pub enum TapMode {
    /// Only the listed processes, mixed to stereo.
    StereoMixdown,
    /// All system audio but the listed processes, mixed to mono.
    MonoGlobalExcluding,
}

/// The description of a process tap, built before it is submitted to the host.
///
/// The identity is `None` until a caller asks for one: the host then assigns
/// it, and the identity of the live tap is read back after creation.
pub struct CATapDescription {
    pub mode: TapMode,
    pub processes: Vec<i32>,
    pub name: String,
    pub mute_behavior: CATapMuteBehavior,
    pub uuid: Option<TapUuid>,
}

impl CATapDescription {
    /// The set of process ids named by the description.
    pub open spec fn process_set(&self) -> Set<i32> {
        self.processes@.to_set()
    }

    /// A tap of the combined stereo output of the given processes.
    pub fn new_stereo_mixdown(processes: Vec<i32>) -> (r: Self)
        ensures
            r.mode == TapMode::StereoMixdown,
            r.processes@ == processes@,
            r.name@ == Seq::<char>::empty(),
            r.mute_behavior == CATapMuteBehavior::Unmuted,
            r.uuid is None,
    {
        CATapDescription {
            mode: TapMode::StereoMixdown,
            processes,
            name: String::new(),
            mute_behavior: CATapMuteBehavior::Unmuted,
            uuid: None,
        }
    }

    /// A mono tap of all system audio except that of the given processes.
    pub fn new_mono_global_tap_but_exclude(processes: Vec<i32>) -> (r: Self)
        ensures
            r.mode == TapMode::MonoGlobalExcluding,
            r.processes@ == processes@,
            r.process_set() == processes@.to_set(),
            r.name@ == Seq::<char>::empty(),
            r.mute_behavior == CATapMuteBehavior::Unmuted,
            r.uuid is None,
    {
        CATapDescription {
            mode: TapMode::MonoGlobalExcluding,
            processes,
            name: String::new(),
            mute_behavior: CATapMuteBehavior::Unmuted,
            uuid: None,
        }
    }

    /// Sets the name that the host shows for the tap.
    pub fn set_name(&mut self, name: &str)
        ensures
            final(self).name@ == name@,
            final(self).mode == old(self).mode,
            final(self).processes@ == old(self).processes@,
            final(self).mute_behavior == old(self).mute_behavior,
            final(self).uuid == old(self).uuid,
    {
        self.name = String::from_str(name);
    }

    /// Asks for a given identity; the host may still assign another.
    pub fn set_uuid(&mut self, uuid: TapUuid)
        ensures
            final(self).uuid == Some(uuid),
            final(self).mode == old(self).mode,
            final(self).processes@ == old(self).processes@,
            final(self).name@ == old(self).name@,
            final(self).mute_behavior == old(self).mute_behavior,
    {
        self.uuid = Some(uuid);
    }

    /// The identity asked for, if any. The identity of a live tap is the one
    /// read back after creation.
    pub fn get_uuid(&self) -> (r: Option<TapUuid>)
        ensures
            r == self.uuid,
    {
        self.uuid
    }

    /// Sets what the host does to the tapped audio.
    pub fn set_mute_behavior(&mut self, behavior: CATapMuteBehavior)
        ensures
            final(self).mute_behavior == behavior,
            final(self).mode == old(self).mode,
            final(self).processes@ == old(self).processes@,
            final(self).name@ == old(self).name@,
            final(self).uuid == old(self).uuid,
    {
        self.mute_behavior = behavior;
    }

    /// Whether the process list names the processes left out (rather than
    /// the ones taken in).
    pub fn is_exclusive(&self) -> (r: bool)
        ensures
            r == (self.mode == TapMode::MonoGlobalExcluding),
    {
        match self.mode {
            TapMode::MonoGlobalExcluding => true,
            TapMode::StereoMixdown => false,
        }
    }
}


/// A live tap: the host's object id and the identity read back from it.
pub struct TapHandle {
    pub tap_id: u32,
    pub identity: TapUuid,
    /// The hyphenated text of `identity`, which aggregates use to name the tap.
    pub identity_text: String,
}

impl TapHandle {
    /// The text names the identity, and reads back as it.
    pub open spec fn wf(&self) -> bool {
        &&& self.identity_text@ == hyphenated_text(self.identity.value)
        &&& parsed_uuid(self.identity_text@) == Some(self.identity.value)
    }
}

/// The identity of a live tap is always a well-formed identifier: its text
/// has the hyphenated lower-case syntax, and reads back as the same
/// identifier, which writes out as the same text.
pub proof fn lemma_tap_identity_round_trip(h: TapHandle)
    requires
        h.wf(),
    ensures
        is_hyphenated_uuid_text(h.identity_text@),
        parsed_uuid(h.identity_text@) matches Some(v) && v == h.identity.value
            && hyphenated_text(v) == h.identity_text@,
{
    lemma_hyphenated_text_syntax(h.identity.value);
}

} // verus!
