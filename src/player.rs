use vstd::prelude::*;

use crate::device::{
    find_device, mode_label, mode_status, name_matches, name_view, spec_mode_status,
    AudioDeviceInfo, DeviceInfoView,
};
use crate::switch::{SwitchSession, SwitchStage};

verus! {

/// Why a device operation failed.
#[derive(Clone, Debug, PartialEq, Eq)]
pub enum SwitchError {
    /// The host could not list its output devices.
    Enumeration(String),
    /// No output device has the given name.
    DeviceNotFound(String),
    /// The device's default configuration could not be read, or its output
    /// stream could not be opened.
    StreamCreation(String),
    /// The new sink could not be built on a stream that was opened.
    SinkCreation(String),
    /// The playback side failed to reload the current track.
    PlaybackReload(String),
}

/// What is read off a sink before it is replaced: whether it was playing, and
/// its volume (the bit pattern of the sink's `f32` volume, carried unchanged).
#[derive(Clone, Copy, Debug, PartialEq, Eq, Structural)]
pub struct PlaybackSnapshot {
    pub is_playing: bool,
    pub volume_bits: u32,
}

/// The process-wide player state. The sink itself lives with the audio
/// backend; the state names the active one by its generation number, which
/// changes on every replacement.
#[derive(Clone, Debug)]
pub struct PlayerState {
    pub sink_generation: u64,
    pub current_device_name: String,
    pub current_path: Option<String>,
    pub exclusive_mode: bool,
}

/// The mathematical content of a [`PlayerState`].
pub struct PlayerView {
    pub sink_generation: u64,
    pub current_device_name: Seq<char>,
    pub current_path: Option<Seq<char>>,
    pub exclusive_mode: bool,
}

impl View for PlayerState {
    type V = PlayerView;

    open spec fn view(&self) -> PlayerView {
        PlayerView {
            sink_generation: self.sink_generation,
            current_device_name: self.current_device_name@,
            current_path: name_view(self.current_path),
            exclusive_mode: self.exclusive_mode,
        }
    }
}

/// The generation that follows `g` (wrapping: it always differs from `g`).
pub open spec fn next_generation(g: u64) -> u64 {
    if g == u64::MAX {
        0
    } else {
        (g + 1) as u64
    }
}

/// The state after a new sink, built on the device named `device`, has been
/// installed: a new sink generation and the new current device; the loaded
/// track and the preference are kept.
pub open spec fn after_switch(s: PlayerView, device: Seq<char>) -> PlayerView {
    PlayerView {
        sink_generation: next_generation(s.sink_generation),
        current_device_name: device,
        current_path: s.current_path,
        exclusive_mode: s.exclusive_mode,
    }
}

/// The descriptor of the current device, given the host's default device
/// name and the live probe result of the current device.
pub open spec fn current_descriptor(
    s: PlayerView,
    default_name: Option<Seq<char>>,
    supports_low_latency: bool,
) -> DeviceInfoView {
    DeviceInfoView {
        name: s.current_device_name,
        is_default: default_name == Some(s.current_device_name),
        supports_exclusive_mode: supports_low_latency,
        is_exclusive_mode: s.exclusive_mode,
        audio_mode_status: mode_label(spec_mode_status(s.exclusive_mode)),
    }
}

/// A resolved device switch, ready for its stream to be built.
#[derive(Clone, Debug, PartialEq, Eq)]
pub struct SwitchPlan {
    /// Position of the target among the enumerated devices.
    pub device_index: usize,
    /// Name of the target device.
    pub device_name: String,
    /// The low-latency preference to build the stream with.
    pub exclusive_mode: bool,
}

/// A request to the playback side to load a track again and play it.
#[derive(Clone, Debug, PartialEq, Eq)]
pub struct ReloadRequest {
    pub path: String,
    /// Where to resume: the bit pattern of the `f32` position in seconds, or
    /// absent for the last known position.
    pub at_time: Option<u32>,
}

/// What the audio backend does once a new sink is installed.
#[derive(Clone, Debug)]
pub struct SwitchCommit {
    /// The generation of the new, now active sink.
    pub new_generation: u64,
    /// The generation of the replaced sink; its stream is released now that
    /// the new sink has taken over.
    pub released_generation: u64,
    /// Volume and play/pause state to apply to the new sink.
    pub restore: PlaybackSnapshot,
    /// The track to reload on the new sink, if one was loaded.
    pub reload: Option<ReloadRequest>,
}

/// What a change of the low-latency preference asks for.
#[derive(Clone, Debug, PartialEq, Eq)]
pub enum ToggleOutcome {
    /// The preference already had that value: nothing was done.
    Unchanged,
    /// Only the preference changed; nothing is loaded, so no stream is rebuilt.
    FlagOnly,
    /// The preference changed and a track is loaded: the stream on the
    /// current device is rebuilt by this switch session to that device, which
    /// is started and waits for the host's device list.
    Rebuild(SwitchSession),
}

impl PlayerState {
    /// The state at start-up: the host's default device, nothing loaded, the
    /// standard mode, and the first sink.
    pub fn new(default_device_name: String) -> (r: PlayerState)
        ensures
            r@ == (PlayerView {
                sink_generation: 0,
                current_device_name: default_device_name@,
                current_path: None,
                exclusive_mode: false,
            }),
    {
        PlayerState {
            sink_generation: 0,
            current_device_name: default_device_name,
            current_path: None,
            exclusive_mode: false,
        }
    }

    /// Records the track that the playback side has loaded (absent: none).
    pub fn set_current_path(&mut self, path: Option<String>)
        ensures
            final(self)@ == (PlayerView { current_path: name_view(path), ..old(self)@ }),
    {
        self.current_path = path;
    }

    /// The stored low-latency preference.
    pub fn get_exclusive_mode(&self) -> (r: bool)
        ensures
            r == self@.exclusive_mode,
    {
        self.exclusive_mode
    }

    /// Resolves the target of a switch among the enumerated devices, with the
    /// stored preference. Fails with `DeviceNotFound` exactly when no device
    /// has that name; the state is not touched either way.
    pub fn resolve_target(&self, names: &Vec<Option<String>>, device_name: &String) -> (r: Result<
        SwitchPlan,
        SwitchError,
    >)
        ensures
            match r {
                Ok(plan) => {
                    &&& plan.device_index < names@.len()
                    &&& name_matches(name_view(names@[plan.device_index as int]), device_name@)
                    &&& forall|j: int|
                        0 <= j < plan.device_index ==> !name_matches(
                            #[trigger] name_view(names@[j]),
                            device_name@,
                        )
                    &&& plan.device_name == *device_name
                    &&& plan.exclusive_mode == self@.exclusive_mode
                },
                Err(e) => {
                    &&& e == SwitchError::DeviceNotFound(*device_name)
                    &&& forall|j: int|
                        0 <= j < names@.len() ==> !name_matches(
                            #[trigger] name_view(names@[j]),
                            device_name@,
                        )
                },
            },
    {
        match find_device(names, device_name) {
            Some(i) => Ok(
                SwitchPlan {
                    device_index: i,
                    device_name: device_name.clone(),
                    exclusive_mode: self.exclusive_mode,
                },
            ),
            None => Err(SwitchError::DeviceNotFound(device_name.clone())),
        }
    }

    /// Installs the sink built for `plan` as the active one. `before` is what
    /// was read off the old sink before it was stopped; `time_hint` is where
    /// the caller wants playback to resume. The new sink gets the old volume
    /// and play/pause state, the current device becomes the plan's device,
    /// and a loaded track is reloaded at `time_hint`.
    pub fn install_sink(
        &mut self,
        plan: &SwitchPlan,
        before: PlaybackSnapshot,
        time_hint: Option<u32>,
    ) -> (r: SwitchCommit)
        ensures
            final(self)@ == after_switch(old(self)@, plan.device_name@),
            r.new_generation == final(self)@.sink_generation,
            r.released_generation == old(self)@.sink_generation,
            r.new_generation != r.released_generation,
            r.restore == before,
            match r.reload {
                Some(req) => old(self)@.current_path == Some(req.path@) && req.at_time == time_hint,
                None => old(self)@.current_path is None,
            },
    {
        let released = self.sink_generation;
        let next: u64 = if released == u64::MAX {
            0
        } else {
            released + 1
        };
        self.sink_generation = next;
        self.current_device_name = plan.device_name.clone();
        let reload = match &self.current_path {
            Some(p) => Some(ReloadRequest { path: p.clone(), at_time: time_hint }),
            None => None,
        };
        SwitchCommit { new_generation: next, released_generation: released, restore: before, reload }
    }

    /// Changes the low-latency preference. Asking for the value already
    /// stored changes nothing. Otherwise the preference is stored; if a track
    /// is loaded, a switch to the current device is started, which rebuilds
    /// the stream with the new preference and resumes at `time_hint`. How that
    /// switch ends (and that a failure of it keeps the stored preference) is
    /// the contract of [`SwitchSession::step`].
    pub fn toggle_exclusive_mode(&mut self, enabled: bool, time_hint: Option<u32>) -> (r:
        ToggleOutcome)
        ensures
            old(self)@.exclusive_mode == enabled ==> final(self)@ == old(self)@ && r
                == ToggleOutcome::Unchanged,
            old(self)@.exclusive_mode != enabled ==> final(self)@ == (PlayerView {
                exclusive_mode: enabled,
                ..old(self)@
            }) && match r {
                ToggleOutcome::Rebuild(session) => {
                    &&& old(self)@.current_path is Some
                    &&& session.wf()
                    &&& session.stage == SwitchStage::ListingDevices
                    &&& session.device_name == old(self).current_device_name
                    &&& session.time_hint == time_hint
                    &&& session.plan is None
                    &&& session.snapshot is None
                    &&& session.reload is None
                },
                ToggleOutcome::FlagOnly => old(self)@.current_path is None,
                ToggleOutcome::Unchanged => false,
            },
    {
        if self.exclusive_mode == enabled {
            return ToggleOutcome::Unchanged;
        }
        self.exclusive_mode = enabled;
        match &self.current_path {
            Some(_) => {
                let (session, _action) = SwitchSession::set_audio_device(
                    self.current_device_name.clone(),
                    time_hint,
                );
                ToggleOutcome::Rebuild(session)
            },
            None => ToggleOutcome::FlagOnly,
        }
    }

    /// Describes the current device, looked up among the host's enumerated
    /// devices. Fails with `DeviceNotFound` (naming the current device)
    /// exactly when no enumerated device has its name. `supports_low_latency`
    /// is the live probe result of the device that [`find_device`] finds.
    pub fn get_current_audio_device(
        &self,
        names: &Vec<Option<String>>,
        default_name: &Option<String>,
        supports_low_latency: bool,
    ) -> (r: Result<AudioDeviceInfo, SwitchError>)
        ensures
            match r {
                Ok(d) => {
                    &&& d@ == current_descriptor(
                        self@,
                        name_view(*default_name),
                        supports_low_latency,
                    )
                    &&& exists|j: int|
                        0 <= j < names@.len() && name_matches(
                            #[trigger] name_view(names@[j]),
                            self@.current_device_name,
                        )
                },
                Err(e) => {
                    &&& e == SwitchError::DeviceNotFound(self.current_device_name)
                    &&& forall|j: int|
                        0 <= j < names@.len() ==> !name_matches(
                            #[trigger] name_view(names@[j]),
                            self@.current_device_name,
                        )
                },
            },
    {
        match find_device(names, &self.current_device_name) {
            None => Err(SwitchError::DeviceNotFound(self.current_device_name.clone())),
            Some(i) => {
                proof {
                    assert(name_matches(name_view(names@[i as int]), self@.current_device_name));
                }
                let is_default = match default_name {
                    Some(d) => *d == self.current_device_name,
                    None => false,
                };
                let status = mode_status(self.exclusive_mode, supports_low_latency);
                Ok(
                    AudioDeviceInfo {
                        name: self.current_device_name.clone(),
                        is_default,
                        supports_exclusive_mode: supports_low_latency,
                        is_exclusive_mode: self.exclusive_mode,
                        audio_mode_status: status.label(),
                    },
                )
            },
        }
    }
}

/// After a switch to `device` is installed, the current device reported is
/// `device`; the preference and the loaded track are kept, and the sink
/// generation differs from the one before.
pub proof fn lemma_switch_reports_target(
    s: PlayerView,
    device: Seq<char>,
    default_name: Option<Seq<char>>,
    supports_low_latency: bool,
)
    ensures
        current_descriptor(after_switch(s, device), default_name, supports_low_latency).name
            == device,
        after_switch(s, device).exclusive_mode == s.exclusive_mode,
        after_switch(s, device).current_path == s.current_path,
        after_switch(s, device).sink_generation != s.sink_generation,
{
}

} // verus!
