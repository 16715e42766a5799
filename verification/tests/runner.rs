use nomnom::flags::{all_flags, Flag, FlagCategory};
use nomnom::download_mode::{DownloadSource, DownloadType, Quality};
use nomnom::runner::{
    build_command_string, command_args, download_args, download_shell_args, raw_shell_args,
    shell_program, Console, DownloadRequest, KillOutcome, WaitOutcome,
};

fn flag(s: &'static str) -> Flag {
    Flag { flag: s, label: "", description: "", category: FlagCategory::Misc }
}

fn request(url: &str, flags: Vec<Flag>) -> DownloadRequest {
    DownloadRequest {
        url: url.to_string(),
        batch_file: String::new(),
        archive_file: String::new(),
        download_type: DownloadType::Video,
        download_source: DownloadSource::Single,
        quality: Quality::HD1080,
        output_dir: "/home/user/Downloads/".to_string(),
        extra_flags: flags,
    }
}

const SINGLE_TEMPLATE: &str =
    "/home/user/Downloads/%(title)s - [%(uploader)s - %(upload_date>%b %d %Y)s].%(ext)s";

#[test]
fn preview_with_blank_url_is_a_placeholder() {
    let flags = vec![flag("--verbose")];
    assert_eq!(build_command_string(&request("", flags.clone())), "yt-dlp [url] ...");
    assert_eq!(build_command_string(&request("  \t\n", flags.clone())), "yt-dlp [url] ...");
    assert_eq!(build_command_string(&request("\u{3000}\u{a0}", flags)), "yt-dlp [url] ...");
}

#[test]
fn batch_preview_needs_a_batch_file() {
    let mut r = request("https://ignored", vec![]);
    r.download_source = DownloadSource::Batch;
    assert_eq!(build_command_string(&r), "yt-dlp [url] ...");
    r.batch_file = "/tmp/urls.txt".to_string();
    assert!(build_command_string(&r).ends_with(" --batch-file \"/tmp/urls.txt\""));
}

#[test]
fn video_preview_is_the_full_command() {
    let r = request("https://youtube.com/watch?v=abc", vec![flag("--add-metadata"), flag("--audio-format mp3")]);
    assert_eq!(
        build_command_string(&r),
        format!(
            "yt-dlp --remote-components ejs:github -f \"bestvideo[height<=1080]+bestaudio/best[height<=1080]\" --add-metadata --audio-format mp3 -o \"{}\" \"https://youtube.com/watch?v=abc\"",
            SINGLE_TEMPLATE
        )
    );
}

#[test]
fn video_arguments() {
    let r = request("https://x", vec![flag("--audio-format mp3"), flag("--continue"), flag("  --a \t b  ")]);
    assert_eq!(
        download_args(&r),
        vec![
            "--remote-components",
            "ejs:github",
            "-f",
            "bestvideo[height<=1080]+bestaudio/best[height<=1080]",
            "--audio-format",
            "mp3",
            "--continue",
            "--a",
            "b",
            "-o",
            SINGLE_TEMPLATE,
            "https://x",
        ]
    );
}

#[test]
fn audio_playlist_arguments_with_archive() {
    let mut r = request("https://list", vec![flag("--audio-format mp3")]);
    r.download_type = DownloadType::Audio;
    r.download_source = DownloadSource::Playlist;
    r.quality = Quality::SD480;
    r.output_dir = "/d".to_string();
    r.archive_file = "/d/archive.txt".to_string();
    assert_eq!(
        download_args(&r),
        vec![
            "--remote-components",
            "ejs:github",
            "-x",
            "--audio-format",
            "mp3",
            "-o",
            "/d/Playlists/@%(uploader)s/%(playlist_title)s/%(playlist_index)03d - %(title)s - [%(upload_date>%b %Y)s].%(ext)s",
            "--download-archive",
            "/d/archive.txt",
            "https://list",
        ]
    );
}

#[test]
fn blank_archive_is_left_out_and_batch_reads_its_file() {
    let mut r = request("https://ignored", vec![]);
    r.archive_file = "   ".to_string();
    r.download_source = DownloadSource::Batch;
    r.batch_file = "urls.txt".to_string();
    r.quality = Quality::Best;
    let args = download_args(&r);
    assert!(!args.iter().any(|a| a == "--download-archive"));
    assert!(!args.iter().any(|a| a == "https://ignored"));
    assert_eq!(&args[2..4], ["-f", "bestvideo+bestaudio/best"]);
    assert_eq!(&args[args.len() - 2..], ["--batch-file", "urls.txt"]);
}

#[test]
fn command_args_mark_values_for_quoting() {
    let r = request("u", vec![flag("--x")]);
    let marked: Vec<(String, bool)> = command_args(&r).into_iter().map(|a| (a.text, a.quoted)).collect();
    let quoted: Vec<&str> = marked.iter().filter(|(_, q)| *q).map(|(t, _)| t.as_str()).collect();
    assert_eq!(
        quoted,
        vec!["bestvideo[height<=1080]+bestaudio/best[height<=1080]", SINGLE_TEMPLATE, "u"]
    );
    let texts: Vec<String> = marked.into_iter().map(|(t, _)| t).collect();
    assert_eq!(texts, download_args(&r));
}

/// Splits like a shell that knows double quotes only.
fn shell_words(s: &str) -> Vec<String> {
    let mut out = Vec::new();
    let mut word = String::new();
    let (mut in_word, mut quoted) = (false, false);
    for c in s.chars() {
        if quoted {
            if c == '"' { quoted = false } else { word.push(c) }
        } else if c == '"' {
            in_word = true;
            quoted = true;
        } else if c.is_whitespace() {
            if in_word {
                out.push(std::mem::take(&mut word));
                in_word = false;
            }
        } else {
            word.push(c);
            in_word = true;
        }
    }
    if in_word {
        out.push(word);
    }
    out
}

#[test]
fn preview_is_the_command_that_runs() {
    for t in [DownloadType::Video, DownloadType::Audio] {
        for s in [DownloadSource::Single, DownloadSource::Batch, DownloadSource::Playlist, DownloadSource::Channel] {
            let mut r = request("https://a.b/c?d=e", all_flags());
            r.download_type = t;
            r.download_source = s;
            r.batch_file = "/my urls.txt".to_string();
            r.archive_file = "/my archive.txt".to_string();
            let mut expected = vec!["yt-dlp".to_string()];
            expected.extend(download_args(&r));
            assert_eq!(shell_words(&build_command_string(&r)), expected);
        }
    }
}

#[test]
fn shell_arguments() {
    let args = download_shell_args(vec!["a b".to_string(), "$HOME".to_string()]);
    assert_eq!(args, vec!["-i", "-c", "yt-dlp \"$@\"", "bash", "a b", "$HOME"]);
    assert_eq!(raw_shell_args("yt-dlp -F x"), vec!["-i", "-c", "yt-dlp -F x"]);
}

#[test]
fn shell_choice() {
    assert_eq!(shell_program(Some("/usr/bin/zsh".to_string())), "/usr/bin/zsh");
    assert_eq!(shell_program(None), "/bin/bash");
}

#[test]
fn successful_download_log() {
    let mut c = Console::new();
    c.output_line("old".to_string());
    c.begin_download();
    assert!(c.is_running);
    assert_eq!(c.log_lines, vec!["▶ Starting download…"]);
    c.output_line("[download] 50%".to_string());
    c.error_line("WARNING: slow");
    c.download_finished(WaitOutcome::Succeeded);
    assert!(!c.is_running);
    assert_eq!(
        c.log_lines,
        vec!["▶ Starting download…", "[download] 50%", "⚠ WARNING: slow", "✔ Download complete!"]
    );
}

#[test]
fn spawn_failure_log() {
    let mut c = Console::new();
    c.begin_download();
    c.spawn_failed("No such file or directory (os error 2)");
    assert!(!c.is_running);
    assert_eq!(
        c.log_lines,
        vec![
            "▶ Starting download…",
            "✗ Failed to spawn yt-dlp: No such file or directory (os error 2)",
            "  Make sure yt-dlp is installed and in your PATH.",
        ]
    );
}

#[test]
fn failed_and_broken_waits_are_reported() {
    let mut c = Console::new();
    c.begin_download();
    c.download_finished(WaitOutcome::Failed("exit status: 1".to_string()));
    assert_eq!(c.log_lines[1], "✗ yt-dlp exited with: exit status: 1");
    assert!(!c.is_running);

    let mut c = Console::new();
    c.begin_download();
    c.download_finished(WaitOutcome::WaitError("interrupted".to_string()));
    assert_eq!(c.log_lines[1], "✗ Wait error: interrupted");
    assert!(!c.is_running);

    let mut c = Console::new();
    c.begin_download();
    c.download_finished(WaitOutcome::Detached);
    assert_eq!(c.log_lines.len(), 1);
    assert!(!c.is_running);
}

#[test]
fn cancelled_download_is_not_reported_as_failed() {
    let mut c = Console::new();
    c.begin_download();
    c.cancel(KillOutcome::Killed);
    assert!(!c.is_running);
    c.download_finished(WaitOutcome::Failed("signal: 9 (SIGKILL)".to_string()));
    assert_eq!(c.log_lines, vec!["▶ Starting download…", "⛔ Download canceled by user."]);
}

#[test]
fn cancel_outcomes() {
    let mut c = Console::new();
    c.is_running = true;
    c.cancel(KillOutcome::NoChild);
    assert!(c.log_lines.is_empty());
    assert!(!c.is_running);
    c.cancel(KillOutcome::KillFailed("permission denied".to_string()));
    assert_eq!(c.log_lines, vec!["✗ Failed to kill process: permission denied"]);
}

#[test]
fn raw_command_log() {
    let mut c = Console::new();
    c.output_line("kept".to_string());
    assert!(c.begin_raw("yt-dlp --version"));
    assert!(c.is_running);
    c.output_line("2024.01.01".to_string());
    c.raw_finished();
    assert!(!c.is_running);
    assert_eq!(c.log_lines, vec!["kept", "$ yt-dlp --version", "2024.01.01"]);
}

#[test]
fn blank_raw_command_is_not_run() {
    let mut c = Console::new();
    assert!(!c.begin_raw("   "));
    assert!(!c.is_running);
    assert_eq!(c.log_lines, vec!["$    "]);
}

#[test]
fn raw_spawn_failure() {
    let mut c = Console::new();
    assert!(c.begin_raw("x"));
    c.raw_spawn_failed("boom");
    assert!(!c.is_running);
    assert_eq!(c.log_lines, vec!["$ x", "✗ boom"]);
}

#[test]
fn raw_command_is_refused_while_running() {
    let mut c = Console::new();
    c.begin_download();
    assert!(!c.begin_raw("yt-dlp --version"));
    assert!(c.is_running);
    assert_eq!(c.log_lines, vec!["▶ Starting download…"]);
    c.download_finished(WaitOutcome::Succeeded);
    assert!(c.begin_raw("yt-dlp --version"));
}
