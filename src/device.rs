use vstd::prelude::*;

verus! {

/// The label reported for the stream mode that was asked for.
#[derive(Clone, Copy, Debug, PartialEq, Eq, Structural)]
pub enum ModeStatus {
    /// A shared stream with the host's default buffer.
    Standard,
    /// A shared stream asked for with a reduced buffer (low latency).
    Optimized,
}

/// The stream factory's decision table: the label follows the preference
/// alone; the probe result never changes it, and the stream built is the
/// shared one either way.
pub open spec fn spec_mode_status(exclusive_requested: bool) -> ModeStatus {
    if exclusive_requested {
        ModeStatus::Optimized
    } else {
        ModeStatus::Standard
    }
}

/// The text of a mode label.
pub open spec fn mode_label(m: ModeStatus) -> Seq<char> {
    match m {
        ModeStatus::Standard => "standard"@,
        ModeStatus::Optimized => "optimized"@,
    }
}

impl ModeStatus {
    /// The label as text: "standard" or "optimized".
    pub fn label(&self) -> (r: String)
        ensures
            r@ == mode_label(*self),
    {
        match self {
            ModeStatus::Standard => "standard".to_string(),
            ModeStatus::Optimized => "optimized".to_string(),
        }
    }
}

/// Picks the stream mode from the user's preference and the probe result.
pub fn mode_status(exclusive_requested: bool, supports_low_latency: bool) -> (r: ModeStatus)
    ensures
        r == spec_mode_status(exclusive_requested),
{
    if exclusive_requested && supports_low_latency {
        ModeStatus::Optimized
    } else if exclusive_requested {
        // best effort: the device did not confirm support, the mode is still requested
        ModeStatus::Optimized
    } else {
        ModeStatus::Standard
    }
}

/// One output device as reported to the user interface.
#[derive(Clone, Debug)]
pub struct AudioDeviceInfo {
    /// The device's name, its only identifier.
    pub name: String,
    /// Whether the host reports this device as its default output.
    pub is_default: bool,
    /// Whether a small-buffer probe stream could be opened on the device.
    pub supports_exclusive_mode: bool,
    /// Whether the low-latency preference is in effect for this device.
    pub is_exclusive_mode: bool,
    /// "standard" or "optimized".
    pub audio_mode_status: String,
}

/// The mathematical content of an [`AudioDeviceInfo`].
pub struct DeviceInfoView {
    pub name: Seq<char>,
    pub is_default: bool,
    pub supports_exclusive_mode: bool,
    pub is_exclusive_mode: bool,
    pub audio_mode_status: Seq<char>,
}

impl View for AudioDeviceInfo {
    type V = DeviceInfoView;

    open spec fn view(&self) -> DeviceInfoView {
        DeviceInfoView {
            name: self.name@,
            is_default: self.is_default,
            supports_exclusive_mode: self.supports_exclusive_mode,
            is_exclusive_mode: self.is_exclusive_mode,
            audio_mode_status: self.audio_mode_status@,
        }
    }
}

/// The text of an optional name.
pub open spec fn name_view(o: Option<String>) -> Option<Seq<char>> {
    match o {
        Some(s) => Some(s@),
        None => None,
    }
}

/// Whether `name` equals the host's default device name (absent: never).
pub open spec fn is_default_name(default_name: Option<Seq<char>>, name: Seq<char>) -> bool {
    default_name == Some(name)
}

/// The descriptor listed for one named device.
pub open spec fn listed_descriptor(
    name: Seq<char>,
    default_name: Option<Seq<char>>,
    probe: bool,
) -> DeviceInfoView {
    DeviceInfoView {
        name,
        is_default: is_default_name(default_name, name),
        supports_exclusive_mode: probe,
        is_exclusive_mode: false,
        audio_mode_status: mode_label(ModeStatus::Standard),
    }
}

/// The listing of the host's devices, in host order: a device without a
/// readable name is skipped, every other one gets its descriptor.
pub open spec fn listed_devices(
    names: Seq<Option<Seq<char>>>,
    default_name: Option<Seq<char>>,
    probes: Seq<bool>,
) -> Seq<DeviceInfoView>
    decreases names.len(),
{
    if names.len() == 0 {
        Seq::empty()
    } else {
        let prev = listed_devices(names.drop_last(), default_name, probes);
        match names.last() {
            Some(n) => prev.push(listed_descriptor(n, default_name, probes[names.len() - 1])),
            None => prev,
        }
    }
}

/// The views of a sequence of descriptors.
pub open spec fn infos_view(v: Seq<AudioDeviceInfo>) -> Seq<DeviceInfoView> {
    v.map_values(|d: AudioDeviceInfo| d@)
}

/// The views of a sequence of optional names.
pub open spec fn names_view(v: Seq<Option<String>>) -> Seq<Option<Seq<char>>> {
    v.map_values(|o: Option<String>| name_view(o))
}

/// Builds the device listing from what the host reported: each device's
/// name (absent where it could not be read), the default device's name, and
/// the probe result of each device.
pub fn get_audio_devices(
    names: &Vec<Option<String>>,
    default_name: &Option<String>,
    probes: &Vec<bool>,
) -> (r: Vec<AudioDeviceInfo>)
    requires
        probes@.len() == names@.len(),
    ensures
        infos_view(r@) == listed_devices(names_view(names@), name_view(*default_name), probes@),
{
    let mut out: Vec<AudioDeviceInfo> = Vec::new();
    let mut i: usize = 0;
    while i < names.len()
        invariant
            i <= names@.len(),
            probes@.len() == names@.len(),
            infos_view(out@) == listed_devices(
                names_view(names@).subrange(0, i as int),
                name_view(*default_name),
                probes@,
            ),
        decreases names@.len() - i,
    {
        let ghost before = out@;
        proof {
            assert(names_view(names@).subrange(0, i + 1).drop_last() =~= names_view(
                names@,
            ).subrange(0, i as int));
        }
        match &names[i] {
            Some(n) => {
                let is_default = match default_name {
                    Some(d) => *d == *n,
                    None => false,
                };
                let status = ModeStatus::Standard.label();
                out.push(
                    AudioDeviceInfo {
                        name: n.clone(),
                        is_default,
                        supports_exclusive_mode: probes[i],
                        is_exclusive_mode: false,
                        audio_mode_status: status,
                    },
                );
                proof {
                    assert(infos_view(out@) =~= infos_view(before).push(out@.last()@));
                }
            },
            None => {},
        }
        i = i + 1;
    }
    proof {
        assert(names_view(names@).subrange(0, names@.len() as int) =~= names_view(names@));
    }
    out
}

/// Whether a device name equals `target`.
pub open spec fn name_matches(name: Option<Seq<char>>, target: Seq<char>) -> bool {
    name == Some(target)
}

/// Looks a device up by exact name among the enumerated devices; the first
/// match is taken.
pub fn find_device(names: &Vec<Option<String>>, target: &String) -> (r: Option<usize>)
    ensures
        match r {
            Some(i) => i < names@.len() && name_matches(name_view(names@[i as int]), target@)
                && forall|j: int|
                0 <= j < i ==> !name_matches(#[trigger] name_view(names@[j]), target@),
            None => forall|j: int|
                0 <= j < names@.len() ==> !name_matches(#[trigger] name_view(names@[j]), target@),
        },
{
    let mut i: usize = 0;
    while i < names.len()
        invariant
            i <= names@.len(),
            forall|j: int| 0 <= j < i ==> !name_matches(#[trigger] name_view(names@[j]), target@),
        decreases names@.len() - i,
    {
        match &names[i] {
            Some(n) => {
                if *n == *target {
                    return Some(i);
                }
            },
            None => {},
        }
        i = i + 1;
    }
    None
}

/// Every name in the listing is the readable name of some host device, and
/// its default flag is decided by that name.
proof fn lemma_listed_from_host(
    names: Seq<Option<Seq<char>>>,
    default_name: Option<Seq<char>>,
    probes: Seq<bool>,
)
    ensures
        listed_devices(names, default_name, probes).len() <= names.len(),
        forall|k: int|
            0 <= k < listed_devices(names, default_name, probes).len() ==> {
                let d = #[trigger] listed_devices(names, default_name, probes)[k];
                &&& exists|j: int| 0 <= j < names.len() && names[j] == Some(d.name)
                &&& d.is_default == is_default_name(default_name, d.name)
            },
    decreases names.len(),
{
    if names.len() > 0 {
        let prev_names = names.drop_last();
        lemma_listed_from_host(prev_names, default_name, probes);
        let l = listed_devices(names, default_name, probes);
        let p = listed_devices(prev_names, default_name, probes);
        assert forall|k: int| 0 <= k < l.len() implies {
            let d = #[trigger] l[k];
            &&& exists|j: int| 0 <= j < names.len() && names[j] == Some(d.name)
            &&& d.is_default == is_default_name(default_name, d.name)
        } by {
            if k < p.len() {
                let d = p[k];
                let j = choose|j: int| 0 <= j < prev_names.len() && prev_names[j] == Some(d.name);
                assert(names[j] == Some(d.name));
            } else {
                assert(names[names.len() - 1] == Some(l[k].name));
            }
        }
    }
}

/// The host's readable device names are pairwise distinct.
pub open spec fn distinct_names(names: Seq<Option<Seq<char>>>) -> bool {
    forall|i: int, j: int|
        0 <= i < j < names.len() && (#[trigger] names[i]).is_some() ==> names[i] != #[trigger] names[j]
}

/// A listing never holds two descriptors with the same name, and at most one
/// of its descriptors is marked as the default, whenever the host's readable
/// device names are distinct (device names are the host's identifiers).
pub proof fn lemma_listing_unique(
    names: Seq<Option<Seq<char>>>,
    default_name: Option<Seq<char>>,
    probes: Seq<bool>,
)
    requires
        distinct_names(names),
    ensures
        forall|i: int, j: int|
            0 <= i < j < listed_devices(names, default_name, probes).len()
                ==> (#[trigger] listed_devices(names, default_name, probes)[i]).name
                != (#[trigger] listed_devices(names, default_name, probes)[j]).name,
        forall|i: int, j: int|
            0 <= i < listed_devices(names, default_name, probes).len()
                && 0 <= j < listed_devices(names, default_name, probes).len()
                && (#[trigger] listed_devices(names, default_name, probes)[i]).is_default
                && (#[trigger] listed_devices(names, default_name, probes)[j]).is_default ==> i == j,
    decreases names.len(),
{
    let l = listed_devices(names, default_name, probes);
    if names.len() > 0 {
        let prev_names = names.drop_last();
        assert(distinct_names(prev_names)) by {
            assert forall|i: int, j: int|
                0 <= i < j < prev_names.len() && (#[trigger] prev_names[i]).is_some() implies
                prev_names[i] != #[trigger] prev_names[j] by {
                assert(names[i] == prev_names[i] && names[j] == prev_names[j]);
            }
        }
        lemma_listing_unique(prev_names, default_name, probes);
        lemma_listed_from_host(prev_names, default_name, probes);
        let p = listed_devices(prev_names, default_name, probes);
        assert forall|i: int, j: int| 0 <= i < j < l.len() implies (#[trigger] l[i]).name
            != (#[trigger] l[j]).name by {
            if j >= p.len() {
                let last = names.len() - 1;
                let d = p[i];
                let k = choose|k: int| 0 <= k < prev_names.len() && prev_names[k] == Some(d.name);
                assert(names[k] == Some(d.name));
                assert(names[last] == Some(l[j].name));
                assert(names[k] != names[last]);
            }
        }
        assert forall|i: int, j: int|
            0 <= i < l.len() && 0 <= j < l.len() && (#[trigger] l[i]).is_default
                && (#[trigger] l[j]).is_default implies i == j by {
            lemma_listed_from_host(names, default_name, probes);
            if i != j {
                assert(l[i].name == l[j].name);
                if i < j {
                    assert(l[i].name != l[j].name);
                } else {
                    assert(l[j].name != l[i].name);
                }
            }
        }
    }
}

} // verus!
