//! Pre-configured download profiles and their resolution into flags.
//!
//! Presets are organised along two axes, download source and download type:
//! single, batch, playlist and channel, each for video and for audio.

use vstd::prelude::*;
use vstd::string::*;
use crate::download_mode::{DownloadSource, DownloadType, Quality};
use crate::flags::{all_flags, flag_registry, flags_view, Flag, FlagView};
use crate::text::str_equal;

verus! {

// ------------------------------------------------------------------
// Types
// ------------------------------------------------------------------

/// A named, pre-configured download profile: a download type, source,
/// quality level and a set of flags, selected together with one click.
#[derive(Debug, Clone, PartialEq)]
pub struct Preset {
    /// Stable unique identifier.
    pub id: &'static str,
    /// Human-readable display name.
    pub label: &'static str,
    /// Brief description shown in the card subtitle.
    pub description: &'static str,
    /// Emoji icon for the preset card.
    pub icon: &'static str,
    /// Whether this preset downloads video or extracts audio.
    pub download_type: DownloadType,
    /// URL source and output folder organisation strategy.
    pub download_source: DownloadSource,
    /// Video resolution cap (ignored for audio presets).
    pub quality: Quality,
    /// Flag strings to activate, matched against [`Flag::flag`].
    pub flag_keys: Vec<&'static str>,
}

/// The mathematical value of a [`Preset`].
pub struct PresetView {
    pub id: Seq<char>,
    pub label: Seq<char>,
    pub description: Seq<char>,
    pub icon: Seq<char>,
    pub download_type: DownloadType,
    pub download_source: DownloadSource,
    pub quality: Quality,
    pub flag_keys: Seq<Seq<char>>,
}

/// The character sequences of a sequence of string slices.
pub open spec fn keys_view(ks: Seq<&'static str>) -> Seq<Seq<char>> {
    ks.map_values(|k: &'static str| k@)
}

impl View for Preset {
    type V = PresetView;

    open spec fn view(&self) -> PresetView {
        PresetView {
            id: self.id@,
            label: self.label@,
            description: self.description@,
            icon: self.icon@,
            download_type: self.download_type,
            download_source: self.download_source,
            quality: self.quality,
            flag_keys: keys_view(self.flag_keys@),
        }
    }
}

/// The views of a sequence of presets.
pub open spec fn presets_view(ps: Seq<Preset>) -> Seq<PresetView> {
    ps.map_values(|p: Preset| p@)
}

// ------------------------------------------------------------------
// Specifications
// ------------------------------------------------------------------

/// Flags shared by all video download presets.
pub open spec fn video_base() -> Seq<Seq<char>> {
    seq![
        "--embed-thumbnail"@,
        "--add-metadata"@,
        "--embed-chapters"@,
        "--embed-info-json"@,
        "--embed-subs"@,
        "--merge-output-format mp4"@,
        "--no-overwrites"@,
        "--continue"@,
    ]
}

/// Flags shared by all audio extraction presets.
pub open spec fn audio_base() -> Seq<Seq<char>> {
    seq![
        "--extract-audio"@,
        "--audio-format mp3"@,
        "--audio-quality 0"@,
        "--embed-thumbnail"@,
        "--add-metadata"@,
        "--embed-chapters"@,
        "--embed-info-json"@,
        "--no-overwrites"@,
        "--continue"@,
    ]
}

/// The built-in presets in display order: four video presets, then four audio presets.
pub open spec fn preset_catalog() -> Seq<PresetView> {
    seq![
        PresetView {
            id: "single_video"@,
            label: "Single Video"@,
            description: "One video at 1080p with metadata, chapters & thumbnail"@,
            icon: "🎬"@,
            download_type: DownloadType::Video,
            download_source: DownloadSource::Single,
            quality: Quality::HD1080,
            flag_keys: video_base(),
        },
        PresetView {
            id: "batch_video"@,
            label: "Batch Videos"@,
            description: "Videos from a .txt file — one URL per line"@,
            icon: "📄"@,
            download_type: DownloadType::Video,
            download_source: DownloadSource::Batch,
            quality: Quality::HD1080,
            flag_keys: video_base(),
        },
        PresetView {
            id: "video_playlist"@,
            label: "Video Playlist"@,
            description: "Full playlist sorted into Playlists/@uploader/title/"@,
            icon: "📋"@,
            download_type: DownloadType::Video,
            download_source: DownloadSource::Playlist,
            quality: Quality::HD1080,
            flag_keys: seq!["--yes-playlist"@] + video_base(),
        },
        PresetView {
            id: "channel_video"@,
            label: "Channel Videos"@,
            description: "Archive entire channel sorted into Channels/@uploader/"@,
            icon: "📺"@,
            download_type: DownloadType::Video,
            download_source: DownloadSource::Channel,
            quality: Quality::HD1080,
            flag_keys: video_base(),
        },
        PresetView {
            id: "single_audio"@,
            label: "Single Audio"@,
            description: "Extract audio as MP3 with metadata, chapters & thumbnail"@,
            icon: "🎵"@,
            download_type: DownloadType::Audio,
            download_source: DownloadSource::Single,
            quality: Quality::HD1080,
            flag_keys: audio_base(),
        },
        PresetView {
            id: "batch_audio"@,
            label: "Batch Audio"@,
            description: "Extract audio from each URL in a .txt batch file"@,
            icon: "📄"@,
            download_type: DownloadType::Audio,
            download_source: DownloadSource::Batch,
            quality: Quality::HD1080,
            flag_keys: audio_base(),
        },
        PresetView {
            id: "audio_playlist"@,
            label: "Audio Playlist"@,
            description: "Extract all audio from a playlist into Playlists/@uploader/"@,
            icon: "🎧"@,
            download_type: DownloadType::Audio,
            download_source: DownloadSource::Playlist,
            quality: Quality::HD1080,
            flag_keys: seq!["--yes-playlist"@] + audio_base(),
        },
        PresetView {
            id: "channel_audio"@,
            label: "Channel Audio"@,
            description: "Extract all audio from a channel into Channels/@uploader/"@,
            icon: "📻"@,
            download_type: DownloadType::Audio,
            download_source: DownloadSource::Channel,
            quality: Quality::HD1080,
            flag_keys: audio_base(),
        },
    ]
}

/// The first flag of `registry` whose flag string is `key`, if any.
pub open spec fn find_flag(registry: Seq<FlagView>, key: Seq<char>) -> Option<FlagView>
    decreases registry.len(),
{
    if registry.len() == 0 {
        None
    } else if registry[0].flag == key {
        Some(registry[0])
    } else {
        find_flag(registry.drop_first(), key)
    }
}

/// For each key in order, the first flag of `registry` with that flag string;
/// keys that match no flag are skipped.
pub open spec fn resolve_keys(keys: Seq<Seq<char>>, registry: Seq<FlagView>) -> Seq<FlagView>
    decreases keys.len(),
{
    if keys.len() == 0 {
        seq![]
    } else {
        let rest = resolve_keys(keys.drop_last(), registry);
        match find_flag(registry, keys.last()) {
            Some(f) => rest.push(f),
            None => rest,
        }
    }
}

/// The presets of `ps` whose download type is `t`, in the order in which they come.
pub open spec fn of_type(ps: Seq<PresetView>, t: DownloadType) -> Seq<PresetView>
    decreases ps.len(),
{
    if ps.len() == 0 {
        seq![]
    } else if ps.last().download_type == t {
        of_type(ps.drop_last(), t).push(ps.last())
    } else {
        of_type(ps.drop_last(), t)
    }
}

pub open spec fn opt_flag_view(o: Option<Flag>) -> Option<FlagView> {
    match o {
        Some(f) => Some(f@),
        None => None,
    }
}

// ------------------------------------------------------------------
// Operations
// ------------------------------------------------------------------

fn video_base_flag_keys() -> (r: Vec<&'static str>)
    ensures
        keys_view(r@) == video_base(),
{
    let r = vec![
        "--embed-thumbnail",
        "--add-metadata",
        "--embed-chapters",
        "--embed-info-json",
        "--embed-subs",
        "--merge-output-format mp4",
        "--no-overwrites",
        "--continue",
    ];
    assert(keys_view(r@) =~= video_base());
    r
}

fn audio_base_flag_keys() -> (r: Vec<&'static str>)
    ensures
        keys_view(r@) == audio_base(),
{
    let r = vec![
        "--extract-audio",
        "--audio-format mp3",
        "--audio-quality 0",
        "--embed-thumbnail",
        "--add-metadata",
        "--embed-chapters",
        "--embed-info-json",
        "--no-overwrites",
        "--continue",
    ];
    assert(keys_view(r@) =~= audio_base());
    r
}

/// The base keys with `"--yes-playlist"` put in front.
fn playlist_keys(base: Vec<&'static str>) -> (r: Vec<&'static str>)
    ensures
        keys_view(r@) == seq!["--yes-playlist"@] + keys_view(base@),
{
    let mut keys = base;
    keys.insert(0, "--yes-playlist");
    assert(keys_view(keys@) =~= seq!["--yes-playlist"@] + keys_view(base@));
    keys
}

/// Returns all eight built-in presets in display order: four video presets,
/// then four audio presets.
pub fn all_presets() -> (r: Vec<Preset>)
    ensures
        presets_view(r@) == preset_catalog(),
{
    let playlist_video_keys = playlist_keys(video_base_flag_keys());
    let playlist_audio_keys = playlist_keys(audio_base_flag_keys());
    let single_video = Preset {
        id: "single_video",
        label: "Single Video",
        description: "One video at 1080p with metadata, chapters & thumbnail",
        icon: "🎬",
        download_type: DownloadType::Video,
        download_source: DownloadSource::Single,
        quality: Quality::HD1080,
        flag_keys: video_base_flag_keys(),
    };
    let batch_video = Preset {
        id: "batch_video",
        label: "Batch Videos",
        description: "Videos from a .txt file — one URL per line",
        icon: "📄",
        download_type: DownloadType::Video,
        download_source: DownloadSource::Batch,
        quality: Quality::HD1080,
        flag_keys: video_base_flag_keys(),
    };
    let video_playlist = Preset {
        id: "video_playlist",
        label: "Video Playlist",
        description: "Full playlist sorted into Playlists/@uploader/title/",
        icon: "📋",
        download_type: DownloadType::Video,
        download_source: DownloadSource::Playlist,
        quality: Quality::HD1080,
        flag_keys: playlist_video_keys,
    };
    let channel_video = Preset {
        id: "channel_video",
        label: "Channel Videos",
        description: "Archive entire channel sorted into Channels/@uploader/",
        icon: "📺",
        download_type: DownloadType::Video,
        download_source: DownloadSource::Channel,
        quality: Quality::HD1080,
        flag_keys: video_base_flag_keys(),
    };
    let single_audio = Preset {
        id: "single_audio",
        label: "Single Audio",
        description: "Extract audio as MP3 with metadata, chapters & thumbnail",
        icon: "🎵",
        download_type: DownloadType::Audio,
        download_source: DownloadSource::Single,
        quality: Quality::HD1080,
        flag_keys: audio_base_flag_keys(),
    };
    let batch_audio = Preset {
        id: "batch_audio",
        label: "Batch Audio",
        description: "Extract audio from each URL in a .txt batch file",
        icon: "📄",
        download_type: DownloadType::Audio,
        download_source: DownloadSource::Batch,
        quality: Quality::HD1080,
        flag_keys: audio_base_flag_keys(),
    };
    let audio_playlist = Preset {
        id: "audio_playlist",
        label: "Audio Playlist",
        description: "Extract all audio from a playlist into Playlists/@uploader/",
        icon: "🎧",
        download_type: DownloadType::Audio,
        download_source: DownloadSource::Playlist,
        quality: Quality::HD1080,
        flag_keys: playlist_audio_keys,
    };
    let channel_audio = Preset {
        id: "channel_audio",
        label: "Channel Audio",
        description: "Extract all audio from a channel into Channels/@uploader/",
        icon: "📻",
        download_type: DownloadType::Audio,
        download_source: DownloadSource::Channel,
        quality: Quality::HD1080,
        flag_keys: audio_base_flag_keys(),
    };
    let r = vec![
        single_video,
        batch_video,
        video_playlist,
        channel_video,
        single_audio,
        batch_audio,
        audio_playlist,
        channel_audio,
    ];
    assert(presets_view(r@) =~= preset_catalog());
    r
}

/// Returns the default preset shown on first launch: the first built-in preset.
pub fn default_preset() -> (r: Preset)
    ensures
        r@ == preset_catalog()[0],
{
    let mut presets = all_presets();
    assert(presets@.len() == preset_catalog().len());
    presets.remove(0)
}

/// The first flag of `all` whose flag string is `key`, if any.
fn find_by_key(all: &Vec<Flag>, key: &str) -> (r: Option<Flag>)
    ensures
        opt_flag_view(r) == find_flag(flags_view(all@), key@),
{
    let n = all.len();
    let mut j: usize = 0;
    assert(flags_view(all@).skip(0) =~= flags_view(all@));
    while j < n
        invariant
            n == all@.len(),
            j <= n,
            find_flag(flags_view(all@), key@) == find_flag(flags_view(all@).skip(j as int), key@),
        decreases n - j,
    {
        let f = all[j];
        let ghost rest = flags_view(all@).skip(j as int);
        assert(rest[0] == f@);
        assert(rest.drop_first() =~= flags_view(all@).skip(j + 1));
        if str_equal(f.flag, key) {
            return Some(f);
        }
        j = j + 1;
    }
    assert(flags_view(all@).skip(n as int) =~= Seq::<FlagView>::empty());
    None
}

/// Resolves a preset's flag keys into actual [`Flag`] values, in key order.
///
/// Each key is looked up in the flag registry ([`all_flags`]); unrecognised
/// keys are silently skipped.
pub fn resolve_preset_flags(preset: &Preset) -> (r: Vec<Flag>)
    ensures
        flags_view(r@) == resolve_keys(preset@.flag_keys, flag_registry()),
{
    let all = all_flags();
    let keys = &preset.flag_keys;
    let n = keys.len();
    let mut out: Vec<Flag> = Vec::new();
    let mut i: usize = 0;
    assert(keys_view(keys@).take(0) =~= Seq::<Seq<char>>::empty());
    assert(flags_view(out@) =~= Seq::<FlagView>::empty());
    while i < n
        invariant
            n == keys@.len(),
            i <= n,
            flags_view(all@) == flag_registry(),
            keys@ == preset.flag_keys@,
            flags_view(out@) == resolve_keys(keys_view(keys@).take(i as int), flag_registry()),
        decreases n - i,
    {
        let key = keys[i];
        let ghost prefix = keys_view(keys@).take(i + 1);
        assert(prefix.drop_last() =~= keys_view(keys@).take(i as int));
        assert(prefix.last() == key@);
        match find_by_key(&all, key) {
            Some(f) => {
                let ghost before = out@;
                out.push(f);
                assert(flags_view(out@) =~= flags_view(before).push(f@));
            },
            None => {},
        }
        i = i + 1;
    }
    assert(keys_view(keys@).take(n as int) =~= keys_view(keys@));
    out
}

/// Keeps the presets of `presets` whose download type is `download_type`, in order.
pub fn presets_of_type(presets: Vec<Preset>, download_type: DownloadType) -> (r: Vec<Preset>)
    ensures
        presets_view(r@) == of_type(presets_view(presets@), download_type),
{
    let ghost all = presets_view(presets@);
    let mut rest = presets;
    let mut out: Vec<Preset> = Vec::new();
    let ghost mut taken: int = 0;
    assert(all.take(0) =~= Seq::<PresetView>::empty());
    assert(presets_view(out@) =~= Seq::<PresetView>::empty());
    assert(presets_view(rest@) =~= all.skip(0));
    while rest.len() > 0
        invariant
            0 <= taken <= all.len(),
            presets_view(rest@) == all.skip(taken),
            presets_view(out@) == of_type(all.take(taken), download_type),
        decreases rest.len(),
    {
        let ghost rest_before = rest@;
        assert(presets_view(rest_before).len() == rest_before.len());
        assert(taken < all.len());
        let p = rest.remove(0);
        proof {
            assert(presets_view(rest_before)[0] == p@);
            assert(all.take(taken + 1).drop_last() =~= all.take(taken));
            assert(all.take(taken + 1).last() == p@);
            assert forall|k: int| 0 <= k < rest@.len() implies presets_view(rest@)[k] == all.skip(
                taken + 1,
            )[k] by {
                assert(rest@[k] == rest_before[k + 1]);
                assert(presets_view(rest_before)[k + 1] == all.skip(taken)[k + 1]);
            }
            assert(presets_view(rest@) =~= all.skip(taken + 1));
        }
        if p.download_type == download_type {
            let ghost before = out@;
            out.push(p);
            assert(presets_view(out@) =~= presets_view(before).push(p@));
        }
        proof {
            taken = taken + 1;
        }
    }
    assert(all.take(taken) =~= all);
    out
}

// ------------------------------------------------------------------
// Laws
// ------------------------------------------------------------------

/// The position of a built-in preset id in the catalog, read off its length
/// and one of its characters (-1 for strings of no catalog id length).
pub open spec fn catalog_position(s: Seq<char>) -> int {
    if s.len() == 0 {
        -1
    } else if s.len() == 11 {
        if s[6] == 'v' { 1 } else { 5 }
    } else if s.len() == 12 {
        if s[7] == 'v' { 0 } else { 4 }
    } else if s.len() == 13 {
        if s[8] == 'v' { 3 } else { 7 }
    } else if s.len() == 14 {
        if s[0] == 'v' { 2 } else { 6 }
    } else {
        -1
    }
}

proof fn lemma_catalog_entry(i: int)
    requires
        0 <= i < preset_catalog().len(),
    ensures
        catalog_position(preset_catalog()[i].id) == i,
{
    reveal_strlit("single_video");
    reveal_strlit("batch_video");
    reveal_strlit("video_playlist");
    reveal_strlit("channel_video");
    reveal_strlit("single_audio");
    reveal_strlit("batch_audio");
    reveal_strlit("audio_playlist");
    reveal_strlit("channel_audio");
    if i == 0 {
    } else if i == 1 {
    } else if i == 2 {
    } else if i == 3 {
    } else if i == 4 {
    } else if i == 5 {
    } else if i == 6 {
    } else if i == 7 {
    }
}

/// The built-in presets have pairwise distinct ids.
pub proof fn lemma_preset_ids_distinct()
    ensures
        forall|i: int, j: int|
            0 <= i < preset_catalog().len() && 0 <= j < preset_catalog().len() && i != j
                ==> preset_catalog()[i].id != preset_catalog()[j].id,
{
    assert forall|i: int, j: int|
        0 <= i < preset_catalog().len() && 0 <= j < preset_catalog().len() && i != j
            implies preset_catalog()[i].id != preset_catalog()[j].id by {
        lemma_catalog_entry(i);
        lemma_catalog_entry(j);
    }
}

/// The download sources in the order in which each group of presets lists them.
pub open spec fn source_order() -> Seq<DownloadSource> {
    seq![DownloadSource::Single, DownloadSource::Batch, DownloadSource::Playlist, DownloadSource::Channel]
}

/// The catalog is the full source-by-type matrix: eight presets, the first four
/// for video and the last four for audio, each group listing single, batch,
/// playlist and channel in that order, all capped at 1080p.
pub proof fn lemma_catalog_matrix()
    ensures
        preset_catalog().len() == 8,
        forall|i: int| 0 <= i < 4 ==> {
            &&& (#[trigger] preset_catalog()[i]).download_type == DownloadType::Video
            &&& preset_catalog()[i].download_source == source_order()[i]
        },
        forall|i: int| 4 <= i < 8 ==> {
            &&& (#[trigger] preset_catalog()[i]).download_type == DownloadType::Audio
            &&& preset_catalog()[i].download_source == source_order()[i - 4]
        },
        forall|i: int| 0 <= i < 8 ==> (#[trigger] preset_catalog()[i]).quality == Quality::HD1080,
{
}

/// `key` is the flag string of some registry flag.
pub open spec fn key_registered(key: Seq<char>, registry: Seq<FlagView>) -> bool {
    exists|j: int| 0 <= j < registry.len() && #[trigger] registry[j].flag == key
}

/// Every key in `keys` is the flag string of some registry flag.
pub open spec fn keys_registered(keys: Seq<Seq<char>>, registry: Seq<FlagView>) -> bool {
    forall|k: int| 0 <= k < keys.len() ==> key_registered(#[trigger] keys[k], registry)
}

/// Looking up a registered key finds a flag with that flag string.
pub proof fn lemma_find_registered(registry: Seq<FlagView>, key: Seq<char>, j: int)
    requires
        0 <= j < registry.len(),
        registry[j].flag == key,
    ensures
        find_flag(registry, key) is Some,
        find_flag(registry, key)->0.flag == key,
    decreases registry.len(),
{
    if registry[0].flag != key {
        assert(registry.drop_first()[j - 1] == registry[j]);
        lemma_find_registered(registry.drop_first(), key, j - 1);
    }
}

/// When every key is registered, resolving yields one flag per key, in key
/// order, each carrying its key as flag string.
pub proof fn lemma_resolve_registered(keys: Seq<Seq<char>>, registry: Seq<FlagView>)
    requires
        keys_registered(keys, registry),
    ensures
        resolve_keys(keys, registry).len() == keys.len(),
        forall|k: int| 0 <= k < keys.len() ==> (#[trigger] resolve_keys(keys, registry)[k]).flag == keys[k],
    decreases keys.len(),
{
    if keys.len() > 0 {
        let init = keys.drop_last();
        assert forall|k: int| 0 <= k < init.len() implies key_registered(init[k], registry) by {
            assert(init[k] == keys[k]);
        }
        lemma_resolve_registered(init, registry);
        assert(key_registered(keys[keys.len() - 1], registry));
        let j = choose|j: int| 0 <= j < registry.len() && #[trigger] registry[j].flag == keys[keys.len() - 1];
        lemma_find_registered(registry, keys.last(), j);
    }
}

proof fn lemma_video_base_registered()
    ensures
        keys_registered(video_base(), flag_registry()),
        keys_registered(seq!["--yes-playlist"@] + video_base(), flag_registry()),
{
    assert forall|k: int| 0 <= k < video_base().len() implies key_registered(video_base()[k], flag_registry()) by {
        if k == 0 {
            assert(flag_registry()[4].flag == video_base()[0]);
        } else if k == 1 {
            assert(flag_registry()[3].flag == video_base()[1]);
        } else if k == 2 {
            assert(flag_registry()[5].flag == video_base()[2]);
        } else if k == 3 {
            assert(flag_registry()[6].flag == video_base()[3]);
        } else if k == 4 {
            assert(flag_registry()[14].flag == video_base()[4]);
        } else if k == 5 {
            assert(flag_registry()[9].flag == video_base()[5]);
        } else if k == 6 {
            assert(flag_registry()[23].flag == video_base()[6]);
        } else if k == 7 {
            assert(flag_registry()[24].flag == video_base()[7]);
        }
    }
    let keys = seq!["--yes-playlist"@] + video_base();
    assert forall|k: int| 0 <= k < keys.len() implies key_registered(keys[k], flag_registry()) by {
        if k == 0 {
            assert(flag_registry()[0].flag == keys[0]);
        } else {
            assert(keys[k] == video_base()[k - 1]);
        }
    }
}

proof fn lemma_audio_base_registered()
    ensures
        keys_registered(audio_base(), flag_registry()),
        keys_registered(seq!["--yes-playlist"@] + audio_base(), flag_registry()),
{
    assert forall|k: int| 0 <= k < audio_base().len() implies key_registered(audio_base()[k], flag_registry()) by {
        if k == 0 {
            assert(flag_registry()[16].flag == audio_base()[0]);
        } else if k == 1 {
            assert(flag_registry()[17].flag == audio_base()[1]);
        } else if k == 2 {
            assert(flag_registry()[19].flag == audio_base()[2]);
        } else if k == 3 {
            assert(flag_registry()[4].flag == audio_base()[3]);
        } else if k == 4 {
            assert(flag_registry()[3].flag == audio_base()[4]);
        } else if k == 5 {
            assert(flag_registry()[5].flag == audio_base()[5]);
        } else if k == 6 {
            assert(flag_registry()[6].flag == audio_base()[6]);
        } else if k == 7 {
            assert(flag_registry()[23].flag == audio_base()[7]);
        } else if k == 8 {
            assert(flag_registry()[24].flag == audio_base()[8]);
        }
    }
    let keys = seq!["--yes-playlist"@] + audio_base();
    assert forall|k: int| 0 <= k < keys.len() implies key_registered(keys[k], flag_registry()) by {
        if k == 0 {
            assert(flag_registry()[0].flag == keys[0]);
        } else {
            assert(keys[k] == audio_base()[k - 1]);
        }
    }
}

/// Every flag key of every built-in preset names a registry flag, so resolving
/// a built-in preset skips nothing: it yields one flag per key, in key order,
/// each with that key as its flag string.
pub proof fn lemma_catalog_keys_resolve(i: int)
    requires
        0 <= i < preset_catalog().len(),
    ensures
        keys_registered(preset_catalog()[i].flag_keys, flag_registry()),
        resolve_keys(preset_catalog()[i].flag_keys, flag_registry()).len() == preset_catalog()[i].flag_keys.len(),
        forall|k: int| 0 <= k < preset_catalog()[i].flag_keys.len() ==>
            (#[trigger] resolve_keys(preset_catalog()[i].flag_keys, flag_registry())[k]).flag == preset_catalog()[i].flag_keys[k],
{
    lemma_video_base_registered();
    lemma_audio_base_registered();
    lemma_resolve_registered(preset_catalog()[i].flag_keys, flag_registry());
}

} // verus!
