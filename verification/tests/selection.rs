use nomnom::download_mode::{DownloadSource, DownloadType, Quality};
use nomnom::flags::all_flags;
use nomnom::presets::{all_presets, default_preset, resolve_preset_flags};
use nomnom::runner::{build_command_string, download_args};
use nomnom::selection::{default_output_dir, Selection};

#[test]
fn first_launch_uses_the_default_preset() {
    let s = Selection::initial();
    assert_eq!(s.download_type, DownloadType::Video);
    assert_eq!(s.download_source, DownloadSource::Single);
    assert_eq!(s.quality, Quality::HD1080);
    assert_eq!(s.active_preset, Some(default_preset()));
    assert_eq!(s.active_flags, resolve_preset_flags(&default_preset()));
    assert!(!s.is_custom());
}

#[test]
fn choosing_a_preset_applies_all_its_settings() {
    let mut s = Selection::initial();
    let p = all_presets()[6].clone();
    s.choose_preset(p.clone());
    assert_eq!(s.download_type, DownloadType::Audio);
    assert_eq!(s.download_source, DownloadSource::Playlist);
    assert_eq!(s.quality, Quality::HD1080);
    assert_eq!(s.active_flags, resolve_preset_flags(&p));
    assert!(s.is_preset_active(&p));
    assert!(!s.is_preset_active(&all_presets()[0]));
}

#[test]
fn custom_mode_clears_preset_and_flags() {
    let mut s = Selection::initial();
    s.choose_custom();
    assert!(s.is_custom());
    assert!(s.active_flags.is_empty());
    assert_eq!(s.download_type, DownloadType::Video);
    assert!(!s.is_preset_active(&default_preset()));
}

#[test]
fn manual_choices_switch_to_custom() {
    let mut s = Selection::initial();
    let flags = s.active_flags.clone();
    s.set_download_type(DownloadType::Audio);
    assert!(s.is_custom());
    assert_eq!(s.download_type, DownloadType::Audio);
    assert_eq!(s.active_flags, flags);

    let mut s = Selection::initial();
    s.set_download_source(DownloadSource::Channel);
    assert!(s.is_custom());
    assert_eq!(s.download_source, DownloadSource::Channel);

    let mut s = Selection::initial();
    s.set_quality(Quality::SD480);
    assert!(s.is_custom());
    assert_eq!(s.quality, Quality::SD480);
}

#[test]
fn toggling_flips_membership_and_twice_restores() {
    let mut s = Selection::initial();
    let before = s.active_flags.clone();
    let verbose = all_flags()[26];
    assert!(!s.is_flag_active(&verbose));
    s.toggle_flag(verbose);
    assert!(s.is_flag_active(&verbose));
    assert_eq!(s.active_flags.last(), Some(&verbose));
    s.toggle_flag(verbose);
    assert!(!s.is_flag_active(&verbose));
    assert_eq!(s.active_flags, before);
    assert!(!s.is_custom());
}

#[test]
fn toggling_an_active_flag_removes_every_copy() {
    let mut s = Selection::initial();
    let first = s.active_flags[0];
    s.active_flags.push(first);
    s.toggle_flag(first);
    assert!(!s.is_flag_active(&first));
    assert_eq!(s.active_flags.len(), resolve_preset_flags(&default_preset()).len() - 1);
}

#[test]
fn download_request_carries_the_choices_and_active_flags() {
    let mut s = Selection::initial();
    s.choose_custom();
    s.set_download_type(DownloadType::Audio);
    s.toggle_flag(all_flags()[17]);
    let r = s.download_request("https://a", "", "", "/dl");
    assert_eq!(r.url, "https://a");
    assert_eq!(r.download_type, DownloadType::Audio);
    assert_eq!(r.download_source, DownloadSource::Single);
    assert_eq!(r.quality, Quality::HD1080);
    assert_eq!(r.extra_flags, s.active_flags);
    assert_eq!(
        build_command_string(&r),
        "yt-dlp --remote-components ejs:github -x --audio-format mp3 -o \"/dl/%(title)s - [%(uploader)s - %(upload_date>%b %d %Y)s].%(ext)s\" \"https://a\""
    );
    assert_eq!(
        download_args(&r),
        vec![
            "--remote-components",
            "ejs:github",
            "-x",
            "--audio-format",
            "mp3",
            "-o",
            "/dl/%(title)s - [%(uploader)s - %(upload_date>%b %d %Y)s].%(ext)s",
            "https://a",
        ]
    );
}

#[test]
fn download_request_keeps_batch_and_archive_files() {
    let mut s = Selection::initial();
    s.set_download_source(DownloadSource::Batch);
    let r = s.download_request("", "/l.txt", "/a.txt", "/dl");
    assert_eq!(r.batch_file, "/l.txt");
    assert_eq!(r.archive_file, "/a.txt");
    assert_eq!(r.output_dir, "/dl");
    let args = download_args(&r);
    assert_eq!(&args[args.len() - 4..], ["--download-archive", "/a.txt", "--batch-file", "/l.txt"]);
}

#[test]
fn output_directory_default() {
    assert_eq!(default_output_dir(Some("/home/u/Downloads".to_string())), "/home/u/Downloads");
    assert_eq!(default_output_dir(None), ".");
}
