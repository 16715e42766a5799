use nomnom::flags::{all_categories, all_flags, flags_in_category, Flag, FlagCategory};

#[test]
fn registry_has_every_flag_in_order() {
    let flags = all_flags();
    assert_eq!(flags.len(), 30);
    assert_eq!(flags[0].flag, "--yes-playlist");
    assert_eq!(flags[0].label, "Yes Playlist");
    assert_eq!(flags[0].description, "Download entire playlist if URL points to one");
    assert_eq!(flags[0].category, FlagCategory::Playlist);
    assert_eq!(flags[11].flag, "--remux-video mp4");
    assert_eq!(flags[11].label, "Remux → MP4");
    assert_eq!(flags[22].flag, "--proxy socks5://127.0.0.1:1080");
    assert_eq!(flags[22].category, FlagCategory::Network);
    assert_eq!(flags[28].flag, "--sponsorblock-remove all");
    assert_eq!(flags[28].label, "SponsorBlock");
    assert_eq!(flags[28].category, FlagCategory::Misc);
    assert_eq!(flags[29].flag, "--no-mtime");
    assert_eq!(flags[29].label, "No mtime");
    assert_eq!(flags[29].category, FlagCategory::Misc);
}

#[test]
fn registry_flag_strings_are_distinct_options() {
    let flags = all_flags();
    for (i, a) in flags.iter().enumerate() {
        assert!(a.flag.starts_with("--"));
        for (j, b) in flags.iter().enumerate() {
            if i != j {
                assert_ne!(a.flag, b.flag);
            }
        }
    }
}

#[test]
fn category_labels() {
    assert_eq!(FlagCategory::Playlist.label(), "📋 Playlist");
    assert_eq!(FlagCategory::Metadata.label(), "🏷️  Metadata");
    assert_eq!(FlagCategory::Format.label(), "🎞️  Format");
    assert_eq!(FlagCategory::Subtitles.label(), "💬 Subtitles");
    assert_eq!(FlagCategory::Audio.label(), "🎵 Audio");
    assert_eq!(FlagCategory::Network.label(), "🌐 Network");
    assert_eq!(FlagCategory::Misc.label(), "⚙️  Misc");
}

#[test]
fn categories_are_listed_once_in_order() {
    let cats = all_categories();
    assert_eq!(
        cats,
        vec![
            FlagCategory::Playlist,
            FlagCategory::Metadata,
            FlagCategory::Format,
            FlagCategory::Subtitles,
            FlagCategory::Audio,
            FlagCategory::Network,
            FlagCategory::Misc,
        ]
    );
}

#[test]
fn grouping_by_category_shows_every_flag_once_in_order() {
    let flags = all_flags();
    let mut regrouped: Vec<Flag> = Vec::new();
    let counts: Vec<usize> = all_categories()
        .into_iter()
        .map(|c| {
            let group = flags_in_category(&flags, c);
            for f in &group {
                assert_eq!(f.category, c);
            }
            regrouped.extend(group.iter().copied());
            group.len()
        })
        .collect();
    assert_eq!(counts, vec![3, 6, 3, 4, 4, 3, 7]);
    assert_eq!(regrouped, flags);
}

#[test]
fn category_filter_keeps_order() {
    let flags = all_flags();
    let audio = flags_in_category(&flags, FlagCategory::Audio);
    let names: Vec<&str> = audio.iter().map(|f| f.flag).collect();
    assert_eq!(
        names,
        vec!["--extract-audio", "--audio-format mp3", "--audio-format m4a", "--audio-quality 0"]
    );
    assert!(flags_in_category(&[], FlagCategory::Misc).is_empty());
}

#[test]
fn flag_equality_compares_every_field() {
    let a = Flag {
        flag: "--x",
        label: "X",
        description: "d",
        category: FlagCategory::Misc,
    };
    let same = Flag {
        flag: "--x",
        label: "X",
        description: "d",
        category: FlagCategory::Misc,
    };
    let other_label = Flag { label: "Y", ..a };
    let other_category = Flag { category: FlagCategory::Audio, ..a };
    assert_eq!(a, same);
    assert_ne!(a, other_label);
    assert_ne!(a, other_category);
}
