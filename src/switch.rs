use vstd::prelude::*;

use crate::device::{name_matches, name_view};
use crate::player::{
    after_switch, PlaybackSnapshot, PlayerState, ReloadRequest, SwitchCommit, SwitchError,
    SwitchPlan,
};

verus! {

/// Where a device switch stands: each stage waits for the answer to one
/// action of the audio backend.
#[derive(Clone, Copy, Debug, PartialEq, Eq, Structural)]
pub enum SwitchStage {
    /// Waiting for the host's device list.
    ListingDevices,
    /// Waiting for the new output stream.
    BuildingStream,
    /// Waiting for the old sink's state to be read and the old sink stopped.
    StoppingOldSink,
    /// Waiting for the new sink on the new stream.
    BuildingSink,
    /// Waiting for the new sink to take the old one's place.
    Installing,
    /// Waiting for the playback side to reload the track.
    Reloading,
    /// Over; nothing more is asked.
    Finished,
}

/// What the audio backend reports back.
#[derive(Clone, Debug)]
pub enum SwitchEvent {
    /// The names of the host's output devices (absent where unreadable).
    DevicesListed(Vec<Option<String>>),
    EnumerationFailed(String),
    StreamBuilt,
    StreamFailed(String),
    /// The old sink was read and stopped.
    OldSinkStopped(PlaybackSnapshot),
    SinkBuilt,
    SinkFailed(String),
    /// The new sink is active with the restored settings, the new stream is
    /// kept and the released one dropped.
    Installed,
    Reloaded,
    ReloadFailed(String),
}

/// What the audio backend is asked to do next.
#[derive(Debug)]
pub enum SwitchAction {
    ListDevices,
    /// Build the output stream on the device at this position of the listing.
    BuildStream { device_index: usize, exclusive_mode: bool },
    /// Read whether the old sink plays and its volume, then stop it.
    SnapshotAndStopOldSink,
    /// Build a new sink on the new stream.
    BuildSink,
    /// Make the new sink the active one and apply the commit's settings.
    Install(SwitchCommit),
    /// Have the playback side reload this track on the new sink.
    Reload(ReloadRequest),
    /// The switch is over, with this outcome.
    Finish(Result<(), SwitchError>),
    /// The event did not answer the pending action and changed nothing; that
    /// action still stands.
    Ignored,
}

/// One device switch in progress.
#[derive(Clone, Debug, PartialEq, Eq)]
pub struct SwitchSession {
    pub stage: SwitchStage,
    /// The target device.
    pub device_name: String,
    /// Where playback is to resume (bit pattern of the `f32` seconds).
    pub time_hint: Option<u32>,
    pub plan: Option<SwitchPlan>,
    pub snapshot: Option<PlaybackSnapshot>,
    pub reload: Option<ReloadRequest>,
}

/// The event that answers the action pending in `stage`.
pub open spec fn answers(stage: SwitchStage, event: SwitchEvent) -> bool {
    match event {
        SwitchEvent::DevicesListed(_) | SwitchEvent::EnumerationFailed(_) => stage
            == SwitchStage::ListingDevices,
        SwitchEvent::StreamBuilt | SwitchEvent::StreamFailed(_) => stage
            == SwitchStage::BuildingStream,
        SwitchEvent::OldSinkStopped(_) => stage == SwitchStage::StoppingOldSink,
        SwitchEvent::SinkBuilt | SwitchEvent::SinkFailed(_) => stage == SwitchStage::BuildingSink,
        SwitchEvent::Installed => stage == SwitchStage::Installing,
        SwitchEvent::Reloaded | SwitchEvent::ReloadFailed(_) => stage == SwitchStage::Reloading,
    }
}

/// A copy of a reload request.
fn copy_request(req: &ReloadRequest) -> (r: ReloadRequest)
    ensures
        r == *req,
{
    ReloadRequest { path: req.path.clone(), at_time: req.at_time }
}

impl SwitchSession {
    /// What each stage needs in hand: a resolved plan for the target once
    /// the device is found, the old sink's state once it is stopped, and the
    /// track to reload while reloading.
    pub open spec fn wf(&self) -> bool {
        &&& (self.stage == SwitchStage::BuildingStream || self.stage == SwitchStage::StoppingOldSink
            || self.stage == SwitchStage::BuildingSink) ==> self.plan is Some
            && self.plan->0.device_name@ == self.device_name@
        &&& self.stage == SwitchStage::BuildingSink ==> self.snapshot is Some
        &&& self.stage == SwitchStage::Reloading ==> self.reload is Some
    }

    /// Starts switching the output to `device_name`, to resume playback at
    /// `time_hint`; the host's devices are listed first. [`Self::step`] then
    /// takes each answer of the audio backend: the switch commits the target
    /// when the new sink is built, restores on it what was read off the old
    /// sink, and reloads a loaded track at `time_hint`.
    pub fn set_audio_device(device_name: String, time_hint: Option<u32>) -> (r: (
        SwitchSession,
        SwitchAction,
    ))
        ensures
            r.0.wf(),
            r.0.stage == SwitchStage::ListingDevices,
            r.0.device_name == device_name,
            r.0.time_hint == time_hint,
            r.0.plan is None,
            r.0.snapshot is None,
            r.0.reload is None,
            r.1 is ListDevices,
    {
        (
            SwitchSession {
                stage: SwitchStage::ListingDevices,
                device_name,
                time_hint,
                plan: None,
                snapshot: None,
                reload: None,
            },
            SwitchAction::ListDevices,
        )
    }

    /// Takes the backend's answer and says what to do next. The player state
    /// changes only when the new sink is built, and then as an installed
    /// switch: a failure before that leaves it as it was (an old sink that
    /// was stopped stays stopped), and a failed reload does not undo it. An
    /// event that does not answer the pending action changes nothing and is
    /// ignored.
    pub fn step(&mut self, state: &mut PlayerState, event: SwitchEvent) -> (r: SwitchAction)
        requires
            old(self).wf(),
        ensures
            final(self).wf(),
            final(self).device_name == old(self).device_name,
            final(self).time_hint == old(self).time_hint,
            !(event is DevicesListed) ==> final(self).plan == old(self).plan,
            !(event is OldSinkStopped) ==> final(self).snapshot == old(self).snapshot,
            !(event is SinkBuilt) ==> final(self).reload == old(self).reload,
            final(state)@.exclusive_mode == old(state)@.exclusive_mode,
            !answers(old(self).stage, event) ==> *final(self) == *old(self) && final(state)@ == old(
                state,
            )@ && r is Ignored,
            !(old(self).stage == SwitchStage::BuildingSink && event is SinkBuilt) ==> final(state)@
                == old(state)@,
            answers(old(self).stage, event) ==> match event {
                SwitchEvent::DevicesListed(names) => match r {
                    SwitchAction::BuildStream { device_index, exclusive_mode } => {
                        &&& final(self).stage == SwitchStage::BuildingStream
                        &&& final(self).plan == Some(
                            SwitchPlan {
                                device_index,
                                device_name: old(self).device_name,
                                exclusive_mode,
                            },
                        )
                        &&& device_index < names@.len()
                        &&& name_matches(name_view(names@[device_index as int]), old(self).device_name@)
                        &&& forall|j: int|
                            0 <= j < device_index ==> !name_matches(
                                #[trigger] name_view(names@[j]),
                                old(self).device_name@,
                            )
                        &&& exclusive_mode == old(state)@.exclusive_mode
                    },
                    SwitchAction::Finish(Err(e)) => {
                        &&& final(self).stage == SwitchStage::Finished
                        &&& e == SwitchError::DeviceNotFound(old(self).device_name)
                        &&& forall|j: int|
                            0 <= j < names@.len() ==> !name_matches(
                                #[trigger] name_view(names@[j]),
                                old(self).device_name@,
                            )
                    },
                    _ => false,
                },
                SwitchEvent::EnumerationFailed(m) => final(self).stage == SwitchStage::Finished && r
                    == SwitchAction::Finish(Err(SwitchError::Enumeration(m))),
                SwitchEvent::StreamBuilt => final(self).stage == SwitchStage::StoppingOldSink
                    && r is SnapshotAndStopOldSink,
                SwitchEvent::StreamFailed(m) => final(self).stage == SwitchStage::Finished && r
                    == SwitchAction::Finish(Err(SwitchError::StreamCreation(m))),
                SwitchEvent::OldSinkStopped(snap) => final(self).stage == SwitchStage::BuildingSink
                    && final(self).snapshot == Some(snap) && r is BuildSink,
                SwitchEvent::SinkBuilt => {
                    &&& final(self).stage == SwitchStage::Installing
                    &&& final(state)@ == after_switch(old(state)@, old(self).device_name@)
                    &&& match r {
                        SwitchAction::Install(c) => {
                            &&& final(self).reload == c.reload
                            &&& c.new_generation == final(state)@.sink_generation
                            &&& c.released_generation == old(state)@.sink_generation
                            &&& c.restore == old(self).snapshot->0
                            &&& match c.reload {
                                Some(req) => old(state)@.current_path == Some(req.path@)
                                    && req.at_time == old(self).time_hint,
                                None => old(state)@.current_path is None,
                            }
                        },
                        _ => false,
                    }
                },
                SwitchEvent::SinkFailed(m) => final(self).stage == SwitchStage::Finished && r
                    == SwitchAction::Finish(Err(SwitchError::SinkCreation(m))),
                SwitchEvent::Installed => match old(self).reload {
                    Some(req) => final(self).stage == SwitchStage::Reloading && r
                        == SwitchAction::Reload(req),
                    None => final(self).stage == SwitchStage::Finished && r
                        == SwitchAction::Finish(Ok(())),
                },
                SwitchEvent::Reloaded => final(self).stage == SwitchStage::Finished && r
                    == SwitchAction::Finish(Ok(())),
                SwitchEvent::ReloadFailed(m) => final(self).stage == SwitchStage::Finished && r
                    == SwitchAction::Finish(Err(SwitchError::PlaybackReload(m))),
            },
    {
        match self.stage {
            SwitchStage::ListingDevices => match event {
                SwitchEvent::DevicesListed(names) => {
                    match state.resolve_target(&names, &self.device_name) {
                        Ok(plan) => {
                            let action = SwitchAction::BuildStream {
                                device_index: plan.device_index,
                                exclusive_mode: plan.exclusive_mode,
                            };
                            self.plan = Some(plan);
                            self.stage = SwitchStage::BuildingStream;
                            action
                        },
                        Err(e) => {
                            self.stage = SwitchStage::Finished;
                            SwitchAction::Finish(Err(e))
                        },
                    }
                },
                SwitchEvent::EnumerationFailed(m) => {
                    self.stage = SwitchStage::Finished;
                    SwitchAction::Finish(Err(SwitchError::Enumeration(m)))
                },
                _ => SwitchAction::Ignored,
            },
            SwitchStage::BuildingStream => match event {
                SwitchEvent::StreamBuilt => {
                    self.stage = SwitchStage::StoppingOldSink;
                    SwitchAction::SnapshotAndStopOldSink
                },
                SwitchEvent::StreamFailed(m) => {
                    self.stage = SwitchStage::Finished;
                    SwitchAction::Finish(Err(SwitchError::StreamCreation(m)))
                },
                _ => SwitchAction::Ignored,
            },
            SwitchStage::StoppingOldSink => match event {
                SwitchEvent::OldSinkStopped(snap) => {
                    self.snapshot = Some(snap);
                    self.stage = SwitchStage::BuildingSink;
                    SwitchAction::BuildSink
                },
                _ => SwitchAction::Ignored,
            },
            SwitchStage::BuildingSink => match event {
                SwitchEvent::SinkBuilt => {
                    let before = match self.snapshot {
                        Some(s) => s,
                        None => PlaybackSnapshot { is_playing: false, volume_bits: 0 },
                    };
                    match &self.plan {
                        Some(plan) => {
                            let commit = state.install_sink(plan, before, self.time_hint);
                            self.reload = match &commit.reload {
                                Some(req) => Some(copy_request(req)),
                                None => None,
                            };
                            self.stage = SwitchStage::Installing;
                            SwitchAction::Install(commit)
                        },
                        None => SwitchAction::Ignored,
                    }
                },
                SwitchEvent::SinkFailed(m) => {
                    self.stage = SwitchStage::Finished;
                    SwitchAction::Finish(Err(SwitchError::SinkCreation(m)))
                },
                _ => SwitchAction::Ignored,
            },
            SwitchStage::Installing => match event {
                SwitchEvent::Installed => match &self.reload {
                    Some(req) => {
                        let action = SwitchAction::Reload(copy_request(req));
                        self.stage = SwitchStage::Reloading;
                        action
                    },
                    None => {
                        self.stage = SwitchStage::Finished;
                        SwitchAction::Finish(Ok(()))
                    },
                },
                _ => SwitchAction::Ignored,
            },
            SwitchStage::Reloading => match event {
                SwitchEvent::Reloaded => {
                    self.stage = SwitchStage::Finished;
                    SwitchAction::Finish(Ok(()))
                },
                SwitchEvent::ReloadFailed(m) => {
                    self.stage = SwitchStage::Finished;
                    SwitchAction::Finish(Err(SwitchError::PlaybackReload(m)))
                },
                _ => SwitchAction::Ignored,
            },
            SwitchStage::Finished => SwitchAction::Ignored,
        }
    }
}

} // verus!
