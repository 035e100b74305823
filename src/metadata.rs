use vstd::prelude::*;

use std::collections::VecDeque;

use base64::Engine;

use crate::device::name_view;

verus! {

/// What is known of one track.
#[derive(Clone, Debug, PartialEq, Eq)]
pub struct TrackMetadata {
    pub path: String,
    pub name: String,
    pub title: Option<String>,
    pub artist: Option<String>,
    pub album: Option<String>,
    /// Playing time in whole milliseconds.
    pub duration_ms: Option<u64>,
    /// The cover picture as a `data:` URL.
    pub cover: Option<String>,
    pub bitrate: Option<u32>,
    pub sample_rate: Option<u32>,
    pub channels: Option<u8>,
}

impl TrackMetadata {
    /// A track known by its path and file name alone.
    pub fn new(path: String, name: String) -> (r: TrackMetadata)
        ensures
            r == (TrackMetadata {
                path,
                name,
                title: None,
                artist: None,
                album: None,
                duration_ms: None,
                cover: None,
                bitrate: None,
                sample_rate: None,
                channels: None,
            }),
    {
        TrackMetadata {
            path,
            name,
            title: None,
            artist: None,
            album: None,
            duration_ms: None,
            cover: None,
            bitrate: None,
            sample_rate: None,
            channels: None,
        }
    }

    pub fn with_title(self, title: Option<String>) -> (r: TrackMetadata)
        ensures
            r == (TrackMetadata { title, ..self }),
    {
        TrackMetadata { title, ..self }
    }

    pub fn with_artist(self, artist: Option<String>) -> (r: TrackMetadata)
        ensures
            r == (TrackMetadata { artist, ..self }),
    {
        TrackMetadata { artist, ..self }
    }

    pub fn with_album(self, album: Option<String>) -> (r: TrackMetadata)
        ensures
            r == (TrackMetadata { album, ..self }),
    {
        TrackMetadata { album, ..self }
    }

    pub fn with_duration(self, duration_ms: Option<u64>) -> (r: TrackMetadata)
        ensures
            r == (TrackMetadata { duration_ms, ..self }),
    {
        TrackMetadata { duration_ms, ..self }
    }

    pub fn with_cover(self, cover: Option<String>) -> (r: TrackMetadata)
        ensures
            r == (TrackMetadata { cover, ..self }),
    {
        TrackMetadata { cover, ..self }
    }

    pub fn with_bitrate(self, bitrate: Option<u32>) -> (r: TrackMetadata)
        ensures
            r == (TrackMetadata { bitrate, ..self }),
    {
        TrackMetadata { bitrate, ..self }
    }

    pub fn with_sample_rate(self, sample_rate: Option<u32>) -> (r: TrackMetadata)
        ensures
            r == (TrackMetadata { sample_rate, ..self }),
    {
        TrackMetadata { sample_rate, ..self }
    }

    pub fn with_channels(self, channels: Option<u8>) -> (r: TrackMetadata)
        ensures
            r == (TrackMetadata { channels, ..self }),
    {
        TrackMetadata { channels, ..self }
    }
}

/// A named, ordered list of tracks.
#[derive(Clone, Debug)]
pub struct Playlist {
    pub name: String,
    pub files: Vec<TrackMetadata>,
}

impl Playlist {
    pub fn new(name: String) -> (r: Playlist)
        ensures
            r.name == name,
            r.files@ == Seq::<TrackMetadata>::empty(),
    {
        Playlist { name, files: Vec::new() }
    }

    /// Appends a track at the end.
    pub fn add_track(&mut self, track: TrackMetadata)
        ensures
            final(self).name == old(self).name,
            final(self).files@ == old(self).files@.push(track),
    {
        self.files.push(track);
    }

    pub fn track_count(&self) -> (r: usize)
        ensures
            r == self.files@.len(),
    {
        self.files.len()
    }

    pub fn is_empty(&self) -> (r: bool)
        ensures
            r == (self.files@.len() == 0),
    {
        self.files.len() == 0
    }

    /// The track at `index`, if there is one.
    pub fn get_track(&self, index: usize) -> (r: Option<&TrackMetadata>)
        ensures
            index < self.files@.len() ==> r == Some(&self.files@[index as int]),
            index >= self.files@.len() ==> r is None,
    {
        if index < self.files.len() {
            Some(&self.files[index])
        } else {
            None
        }
    }

    /// The track at `index` for changing in place, if there is one.
    pub fn get_track_mut(&mut self, index: usize) -> (r: Option<&mut TrackMetadata>)
        ensures
            final(self).name == old(self).name,
            index < old(self).files@.len() ==> r is Some && *(r->0) == old(self).files@[index as int]
                && final(self).files@ == old(self).files@.update(index as int, *final(r->0)),
            index >= old(self).files@.len() ==> r is None && final(self).files@ == old(self).files@,
    {
        if index < self.files.len() {
            Some(&mut self.files[index])
        } else {
            None
        }
    }

    /// Removes the track at `index` and returns it; the rest keep their order.
    pub fn remove_track(&mut self, index: usize) -> (r: Option<TrackMetadata>)
        ensures
            final(self).name == old(self).name,
            index < old(self).files@.len() ==> r == Some(old(self).files@[index as int])
                && final(self).files@ == old(self).files@.remove(index as int),
            index >= old(self).files@.len() ==> r is None && final(self).files@ == old(
                self,
            ).files@,
    {
        if index < self.files.len() {
            Some(self.files.remove(index))
        } else {
            None
        }
    }

    /// Removes every track.
    pub fn clear(&mut self)
        ensures
            final(self).name == old(self).name,
            final(self).files@ == Seq::<TrackMetadata>::empty(),
    {
        self.files.clear();
    }
}

/// The standard (padded) base64 text of `data`.
pub uninterp spec fn base64_standard(data: Seq<u8>) -> Seq<char>;

/// Relies on base64's `Engine::encode` with the `STANDARD` engine: the padded
/// standard-alphabet text of the bytes, four characters for each started
/// group of three bytes (`encoded_len` with padding). It panics only when
/// the output length overflows `usize`, which the bound on the input rules out.
#[verifier::external_body]
fn encode_base64(data: &Vec<u8>) -> (r: String)
    requires
        data@.len() <= usize::MAX / 2,
    ensures
        r@ == base64_standard(data@),
        r@.len() == 4 * ((data@.len() + 2) / 3),
{
    base64::engine::general_purpose::STANDARD.encode(data)
}

/// `s` with every `from` replaced by `to`.
pub open spec fn replace_char(s: Seq<char>, from: char, to: char) -> Seq<char> {
    s.map_values(|c: char| if c == from { to } else { c })
}

/// Relies on `str::replace` with a `char` pattern: every occurrence of `from`
/// is replaced by the text of `to`.
#[verifier::external_body]
pub(crate) fn replace_all(s: &str, from: char, to: char) -> (r: String)
    ensures
        r@ == replace_char(s@, from, to),
{
    s.replace(from, &to.to_string())
}

/// The audio properties read from a file.
#[derive(Clone, Copy, Debug)]
pub struct AudioProperties {
    /// Playing time in whole milliseconds.
    pub duration_ms: u64,
    pub bitrate: Option<u32>,
    pub sample_rate: Option<u32>,
    pub channels: Option<u8>,
}

/// An embedded picture: its MIME type, if the tag names one, and its bytes.
#[derive(Clone, Debug)]
pub struct Picture {
    pub mime_type: Option<String>,
    pub data: Vec<u8>,
}

/// The fields read from a file's primary tag.
#[derive(Clone, Debug)]
pub struct TagFields {
    pub title: Option<String>,
    pub artist: Option<String>,
    pub album: Option<String>,
    /// The first picture of the tag.
    pub picture: Option<Picture>,
}

/// The MIME type used for a picture whose tag names none.
pub open spec fn picture_mime(mime_type: Option<Seq<char>>) -> Seq<char> {
    match mime_type {
        Some(m) => m,
        None => "image/jpeg"@,
    }
}

/// The `data:` URL of a picture, from its MIME type and its base64 text.
pub open spec fn data_url(mime: Seq<char>, encoded: Seq<char>) -> Seq<char> {
    "data:"@ + mime + ";base64,"@ + encoded
}

/// Builds the `data:` URL of a picture from its MIME type (absent: JPEG) and
/// the base64 text of its bytes.
pub fn cover_data_url(mime_type: &Option<String>, encoded: &String) -> (r: String)
    ensures
        r@ == data_url(picture_mime(name_view(*mime_type)), encoded@),
{
    let mut url = String::from_str("data:");
    match mime_type {
        Some(m) => url.append(m.as_str()),
        None => url.append("image/jpeg"),
    }
    url.append(";base64,");
    url.append(encoded.as_str());
    url
}

/// The title shown for a track: the tag's title, or the file name where the
/// tag has none or an empty one.
pub open spec fn shown_title(title: Option<Seq<char>>, file_name: Seq<char>) -> Seq<char> {
    match title {
        Some(t) => if t.len() == 0 {
            file_name
        } else {
            t
        },
        None => file_name,
    }
}

/// The cover of a track: the `data:` URL of the tag's first picture.
pub open spec fn cover_of(tag: Option<TagFields>) -> Option<Seq<char>> {
    match tag {
        Some(t) => match t.picture {
            Some(p) => Some(data_url(picture_mime(name_view(p.mime_type)), base64_standard(p.data@))),
            None => None,
        },
        None => None,
    }
}

/// The bound under which a picture can be encoded.
pub open spec fn picture_fits(tag: Option<TagFields>) -> bool {
    match tag {
        Some(t) => match t.picture {
            Some(p) => p.data@.len() <= usize::MAX / 2,
            None => true,
        },
        None => true,
    }
}

/// Assembles a track's metadata from what was read off the file at `path`:
/// its file name, its audio properties and its primary tag, if any. The path
/// is kept with `\` separators; a zero duration counts as unknown; the title
/// falls back to the file name; the cover is the first picture as a `data:` URL.
pub fn assemble_track_metadata(
    path: &String,
    file_name: String,
    props: &AudioProperties,
    tag: Option<TagFields>,
) -> (r: TrackMetadata)
    requires
        picture_fits(tag),
    ensures
        r.path@ == replace_char(path@, '/', '\\'),
        r.name@ == file_name@,
        r.duration_ms == (if props.duration_ms > 0 {
            Some(props.duration_ms)
        } else {
            None
        }),
        r.bitrate == props.bitrate,
        r.sample_rate == props.sample_rate,
        r.channels == props.channels,
        name_view(r.title) == Some(shown_title(
            match tag {
                Some(t) => name_view(t.title),
                None => None,
            },
            file_name@,
        )),
        name_view(r.artist) == match tag {
            Some(t) => name_view(t.artist),
            None => None,
        },
        name_view(r.album) == match tag {
            Some(t) => name_view(t.album),
            None => None,
        },
        name_view(r.cover) == cover_of(tag),
{
    let normalized = replace_all(path.as_str(), '/', '\\');
    let duration_ms = if props.duration_ms > 0 {
        Some(props.duration_ms)
    } else {
        None
    };
    let mut meta = TrackMetadata::new(normalized, file_name)
        .with_duration(duration_ms)
        .with_bitrate(props.bitrate)
        .with_sample_rate(props.sample_rate)
        .with_channels(props.channels);
    match tag {
        Some(t) => {
            let cover = match &t.picture {
                Some(p) => {
                    let encoded = encode_base64(&p.data);
                    Some(cover_data_url(&p.mime_type, &encoded))
                },
                None => None,
            };
            meta = meta.with_title(t.title).with_artist(t.artist).with_album(t.album).with_cover(
                cover,
            );
        },
        None => {},
    }
    let needs_fallback = match &meta.title {
        Some(t) => t.as_str().is_empty(),
        None => true,
    };
    if needs_fallback {
        let name = meta.name.clone();
        meta = meta.with_title(Some(name));
    }
    meta
}

/// A track found by a scan, with the name of the folder that holds it.
#[derive(Clone, Debug)]
pub struct FolderTrack {
    pub folder: String,
    pub track: TrackMetadata,
}

/// The tracks of `s` that lie in `folder`, in scan order.
pub open spec fn tracks_in(s: Seq<FolderTrack>, folder: Seq<char>) -> Seq<TrackMetadata>
    decreases s.len(),
{
    if s.len() == 0 {
        Seq::empty()
    } else {
        let prev = tracks_in(s.drop_last(), folder);
        if s.last().folder@ == folder {
            prev.push(s.last().track)
        } else {
            prev
        }
    }
}

/// The position of the playlist named `folder`, if there is one.
fn find_playlist(lists: &Vec<Playlist>, folder: &String) -> (r: Option<usize>)
    ensures
        match r {
            Some(k) => k < lists@.len() && lists@[k as int].name@ == folder@,
            None => forall|k: int| 0 <= k < lists@.len() ==> (#[trigger] lists@[k]).name@ != folder@,
        },
{
    let mut k: usize = 0;
    while k < lists.len()
        invariant
            k <= lists@.len(),
            forall|j: int| 0 <= j < k ==> (#[trigger] lists@[j]).name@ != folder@,
        decreases lists@.len() - k,
    {
        if lists[k].name == *folder {
            return Some(k);
        }
        k = k + 1;
    }
    None
}

/// Groups scanned tracks into one playlist per folder, named after it. Each
/// playlist holds exactly the tracks of its folder, in scan order; every
/// folder that holds a track gets a playlist, and no two share a name.
/// (The code keeps the order in which folders first appear; the contract
/// does not state it.)
pub fn folder_playlists(tracks: Vec<FolderTrack>) -> (r: Vec<Playlist>)
    ensures
        forall|k: int|
            0 <= k < r@.len() ==> (#[trigger] r@[k]).files@ == tracks_in(tracks@, r@[k].name@)
                && r@[k].files@.len() > 0,
        forall|a: int, b: int|
            0 <= a < b < r@.len() ==> (#[trigger] r@[a]).name@ != (#[trigger] r@[b]).name@,
        forall|j: int|
            0 <= j < tracks@.len() ==> exists|k: int|
                0 <= k < r@.len() && (#[trigger] r@[k]).name@ == (#[trigger] tracks@[j]).folder@,
{
    let ghost orig = tracks@;
    let mut rest = tracks;
    let mut queue: VecDeque<FolderTrack> = VecDeque::new();
    while rest.len() > 0
        invariant
            rest@ + queue@ == orig,
        decreases rest@.len(),
    {
        let t = rest.pop().unwrap();
        queue.push_front(t);
        proof {
            assert(rest@ + queue@ =~= orig);
        }
    }
    proof {
        assert(queue@ =~= orig);
    }
    let mut out: Vec<Playlist> = Vec::new();
    let ghost mut i: int = 0;
    while queue.len() > 0
        invariant
            0 <= i <= orig.len(),
            queue@ == orig.subrange(i, orig.len() as int),
            forall|k: int|
                0 <= k < out@.len() ==> (#[trigger] out@[k]).files@ == tracks_in(
                    orig.subrange(0, i),
                    out@[k].name@,
                ) && out@[k].files@.len() > 0,
            forall|a: int, b: int|
                0 <= a < b < out@.len() ==> (#[trigger] out@[a]).name@ != (#[trigger] out@[b]).name@,
            forall|j: int|
                0 <= j < i ==> exists|k: int|
                    0 <= k < out@.len() && (#[trigger] out@[k]).name@ == (#[trigger] orig[j]).folder@,
        decreases queue@.len(),
    {
        let ghost before = out@;
        let ghost done = orig.subrange(0, i);
        let ghost next = orig.subrange(0, i + 1);
        let t = queue.pop_front().unwrap();
        proof {
            assert(t == orig[i]);
            assert(next.drop_last() =~= done);
            assert(next.last() == t);
        }
        let FolderTrack { folder, track } = t;
        match find_playlist(&out, &folder) {
            Some(k) => {
                out[k].add_track(track);
                proof {
                    assert forall|m: int| 0 <= m < out@.len() implies (#[trigger] out@[m]).files@
                        == tracks_in(next, out@[m].name@) && out@[m].files@.len() > 0 by {
                        if m != k {
                            assert(out@[m] == before[m]);
                        }
                    }
                    assert forall|j: int| 0 <= j < i + 1 implies exists|m: int|
                        0 <= m < out@.len() && (#[trigger] out@[m]).name@ == (
                        #[trigger] orig[j]).folder@ by {
                        if j < i {
                            let m = choose|m: int|
                                0 <= m < before.len() && (#[trigger] before[m]).name@ == orig[j].folder@;
                            assert(out@[m].name@ == before[m].name@);
                        } else {
                            assert(out@[k as int].name@ == orig[j].folder@);
                        }
                    }
                }
            },
            None => {
                proof {
                    assert forall|j: int| 0 <= j < i implies (#[trigger] orig[j]).folder@
                        != folder@ by {
                        let m = choose|m: int|
                            0 <= m < before.len() && (#[trigger] before[m]).name@ == orig[j].folder@;
                    }
                    lemma_tracks_in_absent(done, folder@);
                }
                let mut p = Playlist::new(folder);
                p.add_track(track);
                out.push(p);
                proof {
                    assert forall|m: int| 0 <= m < out@.len() implies (#[trigger] out@[m]).files@
                        == tracks_in(next, out@[m].name@) && out@[m].files@.len() > 0 by {
                        if m < before.len() {
                            assert(out@[m] == before[m]);
                        }
                    }
                    assert forall|j: int| 0 <= j < i + 1 implies exists|m: int|
                        0 <= m < out@.len() && (#[trigger] out@[m]).name@ == (
                        #[trigger] orig[j]).folder@ by {
                        if j < i {
                            let m = choose|m: int|
                                0 <= m < before.len() && (#[trigger] before[m]).name@ == orig[j].folder@;
                            assert(out@[m] == before[m]);
                        } else {
                            assert(out@[before.len() as int].name@ == orig[j].folder@);
                        }
                    }
                }
            },
        }
        proof {
            i = i + 1;
        }
    }
    proof {
        assert(orig.subrange(0, orig.len() as int) =~= orig);
    }
    out
}

/// A folder that no track lies in has no tracks.
proof fn lemma_tracks_in_absent(s: Seq<FolderTrack>, folder: Seq<char>)
    requires
        forall|j: int| 0 <= j < s.len() ==> (#[trigger] s[j]).folder@ != folder,
    ensures
        tracks_in(s, folder) == Seq::<TrackMetadata>::empty(),
    decreases s.len(),
{
    if s.len() > 0 {
        assert forall|j: int| 0 <= j < s.drop_last().len() implies (
        #[trigger] s.drop_last()[j]).folder@ != folder by {
            assert(s.drop_last()[j] == s[j]);
        }
        lemma_tracks_in_absent(s.drop_last(), folder);
        assert(s.last().folder@ != folder);
    }
}

} // verus!
