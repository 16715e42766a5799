use nomnom::download_mode::{DownloadSource, DownloadType, Quality};
use nomnom::flags::FlagCategory;
use nomnom::presets::{all_presets, default_preset, presets_of_type, resolve_preset_flags, Preset};

const VIDEO_BASE: [&str; 8] = [
    "--embed-thumbnail",
    "--add-metadata",
    "--embed-chapters",
    "--embed-info-json",
    "--embed-subs",
    "--merge-output-format mp4",
    "--no-overwrites",
    "--continue",
];

const AUDIO_BASE: [&str; 9] = [
    "--extract-audio",
    "--audio-format mp3",
    "--audio-quality 0",
    "--embed-thumbnail",
    "--add-metadata",
    "--embed-chapters",
    "--embed-info-json",
    "--no-overwrites",
    "--continue",
];

#[test]
fn eight_presets_in_display_order() {
    let presets = all_presets();
    let ids: Vec<&str> = presets.iter().map(|p| p.id).collect();
    assert_eq!(
        ids,
        vec![
            "single_video",
            "batch_video",
            "video_playlist",
            "channel_video",
            "single_audio",
            "batch_audio",
            "audio_playlist",
            "channel_audio",
        ]
    );
}

#[test]
fn presets_form_the_source_by_type_matrix() {
    let presets = all_presets();
    let sources = [
        DownloadSource::Single,
        DownloadSource::Batch,
        DownloadSource::Playlist,
        DownloadSource::Channel,
    ];
    for (i, p) in presets.iter().enumerate() {
        let expected_type = if i < 4 { DownloadType::Video } else { DownloadType::Audio };
        assert_eq!(p.download_type, expected_type);
        assert_eq!(p.download_source, sources[i % 4]);
        assert_eq!(p.quality, Quality::HD1080);
    }
}

#[test]
fn preset_ids_are_unique() {
    let presets = all_presets();
    for (i, a) in presets.iter().enumerate() {
        for (j, b) in presets.iter().enumerate() {
            if i != j {
                assert_ne!(a.id, b.id);
            }
        }
    }
}

#[test]
fn preset_texts() {
    let presets = all_presets();
    assert_eq!(presets[0].label, "Single Video");
    assert_eq!(
        presets[0].description,
        "One video at 1080p with metadata, chapters & thumbnail"
    );
    assert_eq!(presets[0].icon, "🎬");
    assert_eq!(presets[6].label, "Audio Playlist");
    assert_eq!(presets[6].icon, "🎧");
    assert_eq!(presets[7].icon, "📻");
}

#[test]
fn preset_flag_keys() {
    let presets = all_presets();
    assert_eq!(presets[0].flag_keys, VIDEO_BASE.to_vec());
    assert_eq!(presets[1].flag_keys, VIDEO_BASE.to_vec());
    let mut playlist = vec!["--yes-playlist"];
    playlist.extend(VIDEO_BASE);
    assert_eq!(presets[2].flag_keys, playlist);
    assert_eq!(presets[3].flag_keys, VIDEO_BASE.to_vec());
    assert_eq!(presets[4].flag_keys, AUDIO_BASE.to_vec());
    assert_eq!(presets[5].flag_keys, AUDIO_BASE.to_vec());
    let mut playlist = vec!["--yes-playlist"];
    playlist.extend(AUDIO_BASE);
    assert_eq!(presets[6].flag_keys, playlist);
    assert_eq!(presets[7].flag_keys, AUDIO_BASE.to_vec());
}

#[test]
fn default_preset_is_single_video() {
    let p = default_preset();
    assert_eq!(p, all_presets()[0]);
    assert_eq!(p.id, "single_video");
    assert_eq!(p.download_type, DownloadType::Video);
    assert_eq!(p.download_source, DownloadSource::Single);
}

#[test]
fn every_builtin_key_resolves_in_order() {
    for p in all_presets() {
        let flags = resolve_preset_flags(&p);
        let names: Vec<&str> = flags.iter().map(|f| f.flag).collect();
        assert_eq!(names, p.flag_keys);
    }
}

#[test]
fn resolving_gives_registry_flags() {
    let flags = resolve_preset_flags(&all_presets()[6]);
    assert_eq!(flags[0].flag, "--yes-playlist");
    assert_eq!(flags[0].category, FlagCategory::Playlist);
    assert_eq!(flags[2].label, "Format: MP3");
    assert_eq!(flags[2].description, "Set audio output format to MP3");
}

#[test]
fn unknown_keys_are_skipped() {
    let p = Preset {
        id: "custom",
        label: "Custom",
        description: "",
        icon: "",
        download_type: DownloadType::Video,
        download_source: DownloadSource::Single,
        quality: Quality::Best,
        flag_keys: vec!["--nope", "--verbose", "--audio-format", "--continue", "--verbose"],
    };
    let names: Vec<&str> = resolve_preset_flags(&p).iter().map(|f| f.flag).collect();
    assert_eq!(names, vec!["--verbose", "--continue", "--verbose"]);
    let empty = Preset { flag_keys: vec![], ..p };
    assert!(resolve_preset_flags(&empty).is_empty());
}

#[test]
fn presets_split_by_type() {
    let video: Vec<&str> = presets_of_type(all_presets(), DownloadType::Video)
        .iter()
        .map(|p| p.id)
        .collect();
    let audio: Vec<&str> = presets_of_type(all_presets(), DownloadType::Audio)
        .iter()
        .map(|p| p.id)
        .collect();
    assert_eq!(video, vec!["single_video", "batch_video", "video_playlist", "channel_video"]);
    assert_eq!(audio, vec!["single_audio", "batch_audio", "audio_playlist", "channel_audio"]);
    assert!(presets_of_type(Vec::new(), DownloadType::Audio).is_empty());
}
