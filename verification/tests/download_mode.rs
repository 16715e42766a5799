use nomnom::download_mode::{DownloadSource, DownloadType, Quality};

#[test]
fn download_type_labels() {
    assert_eq!(DownloadType::Video.label(), "📹 Video");
    assert_eq!(DownloadType::Audio.label(), "🎵 Audio");
    assert_ne!(DownloadType::Video.label(), DownloadType::Audio.label());
}

#[test]
fn download_source_labels_and_icons() {
    assert_eq!(DownloadSource::Single.label(), "Single URL");
    assert_eq!(DownloadSource::Batch.label(), "Batch File");
    assert_eq!(DownloadSource::Playlist.label(), "Playlist");
    assert_eq!(DownloadSource::Channel.label(), "Channel");
    assert_eq!(DownloadSource::Single.icon(), "🔗");
    assert_eq!(DownloadSource::Batch.icon(), "📄");
    assert_eq!(DownloadSource::Playlist.icon(), "📋");
    assert_eq!(DownloadSource::Channel.icon(), "📺");
}

#[test]
fn source_labels_are_distinct() {
    let all = [
        DownloadSource::Single,
        DownloadSource::Batch,
        DownloadSource::Playlist,
        DownloadSource::Channel,
    ];
    for a in all.iter() {
        for b in all.iter() {
            if a != b {
                assert_ne!(a.label(), b.label());
                assert_ne!(a.icon(), b.icon());
            }
        }
    }
}

#[test]
fn only_batch_needs_no_url() {
    assert!(DownloadSource::Single.needs_url());
    assert!(!DownloadSource::Batch.needs_url());
    assert!(DownloadSource::Playlist.needs_url());
    assert!(DownloadSource::Channel.needs_url());
}

#[test]
fn output_template_single_and_batch() {
    let expected = "/home/u/Downloads/%(title)s - [%(uploader)s - %(upload_date>%b %d %Y)s].%(ext)s";
    assert_eq!(DownloadSource::Single.output_template("/home/u/Downloads"), expected);
    assert_eq!(DownloadSource::Batch.output_template("/home/u/Downloads"), expected);
}

#[test]
fn output_template_playlist() {
    assert_eq!(
        DownloadSource::Playlist.output_template("/data"),
        "/data/Playlists/@%(uploader)s/%(playlist_title)s/%(playlist_index)03d - %(title)s - [%(upload_date>%b %Y)s].%(ext)s"
    );
}

#[test]
fn output_template_channel() {
    assert_eq!(
        DownloadSource::Channel.output_template("/data"),
        "/data/Channels/@%(uploader)s/%(title)s - [%(upload_date>%b %Y)s].%(ext)s"
    );
}

#[test]
fn output_template_ignores_trailing_slashes() {
    for source in [
        DownloadSource::Single,
        DownloadSource::Batch,
        DownloadSource::Playlist,
        DownloadSource::Channel,
    ] {
        let plain = source.output_template("/data/videos");
        assert_eq!(source.output_template("/data/videos/"), plain);
        assert_eq!(source.output_template("/data/videos///"), plain);
    }
}

#[test]
fn output_template_root_and_empty_directory() {
    assert_eq!(
        DownloadSource::Channel.output_template("/"),
        "/Channels/@%(uploader)s/%(title)s - [%(upload_date>%b %Y)s].%(ext)s"
    );
    assert_eq!(
        DownloadSource::Single.output_template(""),
        "/%(title)s - [%(uploader)s - %(upload_date>%b %d %Y)s].%(ext)s"
    );
}

#[test]
fn output_template_keeps_inner_slashes_and_unicode() {
    assert_eq!(
        DownloadSource::Channel.output_template("/tmp/ü//x/"),
        "/tmp/ü//x/Channels/@%(uploader)s/%(title)s - [%(upload_date>%b %Y)s].%(ext)s"
    );
}

#[test]
fn quality_labels_and_formats() {
    assert_eq!(Quality::Best.label(), "Best");
    assert_eq!(Quality::HD1080.label(), "1080p");
    assert_eq!(Quality::HD720.label(), "720p");
    assert_eq!(Quality::SD480.label(), "480p");
    assert_eq!(Quality::Best.format_string(), "bestvideo+bestaudio/best");
    assert_eq!(
        Quality::HD1080.format_string(),
        "bestvideo[height<=1080]+bestaudio/best[height<=1080]"
    );
    assert_eq!(
        Quality::HD720.format_string(),
        "bestvideo[height<=720]+bestaudio/best[height<=720]"
    );
    assert_eq!(
        Quality::SD480.format_string(),
        "bestvideo[height<=480]+bestaudio/best[height<=480]"
    );
}

#[test]
fn defaults() {
    assert_eq!(DownloadType::default(), DownloadType::Video);
    assert_eq!(DownloadSource::default(), DownloadSource::Single);
    assert_eq!(Quality::default(), Quality::HD1080);
}
