//! The three axes that drive every yt-dlp invocation: download type,
//! download source and video quality.

use vstd::prelude::*;
use vstd::string::*;
use crate::text::{trim_end_slashes, without_trailing_slashes};

verus! {

// ------------------------------------------------------------------
// Types
// ------------------------------------------------------------------

/// Whether to download a merged video stream or extract audio only.
#[derive(Debug, Clone, Copy, PartialEq, Eq, Structural, Hash)]
pub enum DownloadType {
    /// Download video + audio merged into a container (MP4 by default).
    Video,
    /// Extract audio only.
    Audio,
}

/// The origin of URLs and how output files are organised on disk.
#[derive(Debug, Clone, Copy, PartialEq, Eq, Structural, Hash)]
pub enum DownloadSource {
    /// A single URL typed or pasted by the user.
    Single,
    /// A plain-text file with one URL per line.
    Batch,
    /// A playlist URL; files go to `Playlists/@uploader/playlist/`.
    Playlist,
    /// A channel URL; files go to `Channels/@uploader/`.
    Channel,
}

/// Video resolution cap; ignored for audio downloads.
#[derive(Debug, Clone, Copy, PartialEq, Eq, Structural, Hash)]
pub enum Quality {
    /// No height cap.
    Best,
    /// Cap at 1080p.
    HD1080,
    /// Cap at 720p.
    HD720,
    /// Cap at 480p.
    SD480,
}

// ------------------------------------------------------------------
// Specifications
// ------------------------------------------------------------------

pub open spec fn download_type_label(t: DownloadType) -> Seq<char> {
    match t {
        DownloadType::Video => "📹 Video"@,
        DownloadType::Audio => "🎵 Audio"@,
    }
}

pub open spec fn download_source_label(s: DownloadSource) -> Seq<char> {
    match s {
        DownloadSource::Single => "Single URL"@,
        DownloadSource::Batch => "Batch File"@,
        DownloadSource::Playlist => "Playlist"@,
        DownloadSource::Channel => "Channel"@,
    }
}

pub open spec fn download_source_icon(s: DownloadSource) -> Seq<char> {
    match s {
        DownloadSource::Single => "🔗"@,
        DownloadSource::Batch => "📄"@,
        DownloadSource::Playlist => "📋"@,
        DownloadSource::Channel => "📺"@,
    }
}

/// The part of the `-o` template that follows the chosen directory.
pub open spec fn output_template_tail(s: DownloadSource) -> Seq<char> {
    match s {
        DownloadSource::Single | DownloadSource::Batch =>
            "/%(title)s - [%(uploader)s - %(upload_date>%b %d %Y)s].%(ext)s"@,
        DownloadSource::Playlist =>
            "/Playlists/@%(uploader)s/%(playlist_title)s/%(playlist_index)03d - %(title)s - [%(upload_date>%b %Y)s].%(ext)s"@,
        DownloadSource::Channel =>
            "/Channels/@%(uploader)s/%(title)s - [%(upload_date>%b %Y)s].%(ext)s"@,
    }
}

/// The yt-dlp `-o` template for files of source `s` saved under `base_dir`:
/// the directory without trailing slashes, then the source's layout.
pub open spec fn output_template_for(s: DownloadSource, base_dir: Seq<char>) -> Seq<char> {
    without_trailing_slashes(base_dir) + output_template_tail(s)
}

pub open spec fn quality_label(q: Quality) -> Seq<char> {
    match q {
        Quality::Best => "Best"@,
        Quality::HD1080 => "1080p"@,
        Quality::HD720 => "720p"@,
        Quality::SD480 => "480p"@,
    }
}

/// The yt-dlp `-f` format selector of a quality level.
pub open spec fn quality_format(q: Quality) -> Seq<char> {
    match q {
        Quality::Best => "bestvideo+bestaudio/best"@,
        Quality::HD1080 => "bestvideo[height<=1080]+bestaudio/best[height<=1080]"@,
        Quality::HD720 => "bestvideo[height<=720]+bestaudio/best[height<=720]"@,
        Quality::SD480 => "bestvideo[height<=480]+bestaudio/best[height<=480]"@,
    }
}

// ------------------------------------------------------------------
// Defaults
// ------------------------------------------------------------------

impl Default for DownloadType {
    /// Video is the default download type.
    fn default() -> (r: Self)
        ensures
            r == DownloadType::Video,
    {
        DownloadType::Video
    }
}

impl Default for DownloadSource {
    /// A single URL is the default source.
    fn default() -> (r: Self)
        ensures
            r == DownloadSource::Single,
    {
        DownloadSource::Single
    }
}

impl Default for Quality {
    /// 1080p is the default quality cap.
    fn default() -> (r: Self)
        ensures
            r == Quality::HD1080,
    {
        Quality::HD1080
    }
}

// ------------------------------------------------------------------
// Operations
// ------------------------------------------------------------------

impl DownloadType {
    /// Returns a short display label with emoji.
    pub fn label(&self) -> (r: &'static str)
        ensures
            r@ == download_type_label(*self),
    {
        match self {
            DownloadType::Video => "📹 Video",
            DownloadType::Audio => "🎵 Audio",
        }
    }
}

impl DownloadSource {
    /// Returns a short display label.
    pub fn label(&self) -> (r: &'static str)
        ensures
            r@ == download_source_label(*self),
    {
        match self {
            DownloadSource::Single => "Single URL",
            DownloadSource::Batch => "Batch File",
            DownloadSource::Playlist => "Playlist",
            DownloadSource::Channel => "Channel",
        }
    }

    /// Returns an emoji icon for compact display.
    pub fn icon(&self) -> (r: &'static str)
        ensures
            r@ == download_source_icon(*self),
    {
        match self {
            DownloadSource::Single => "🔗",
            DownloadSource::Batch => "📄",
            DownloadSource::Playlist => "📋",
            DownloadSource::Channel => "📺",
        }
    }

    /// Returns `true` when this source uses a typed/pasted URL rather than a batch file.
    pub fn needs_url(&self) -> (r: bool)
        ensures
            r == !(*self is Batch),
    {
        match self {
            DownloadSource::Batch => false,
            _ => true,
        }
    }

    /// Builds the yt-dlp `-o` output template for this source type under `base_dir`.
    pub fn output_template(&self, base_dir: &str) -> (r: String)
        ensures
            r@ == output_template_for(*self, base_dir@),
    {
        let dir = trim_end_slashes(base_dir);
        let mut out = String::from_str(dir);
        match self {
            DownloadSource::Single | DownloadSource::Batch => {
                out.append("/%(title)s - [%(uploader)s - %(upload_date>%b %d %Y)s].%(ext)s");
            },
            DownloadSource::Playlist => {
                out.append(
                    "/Playlists/@%(uploader)s/%(playlist_title)s/%(playlist_index)03d - %(title)s - [%(upload_date>%b %Y)s].%(ext)s",
                );
            },
            DownloadSource::Channel => {
                out.append("/Channels/@%(uploader)s/%(title)s - [%(upload_date>%b %Y)s].%(ext)s");
            },
        }
        out
    }
}

impl Quality {
    /// Returns a short display label (e.g. `"1080p"`).
    pub fn label(&self) -> (r: &'static str)
        ensures
            r@ == quality_label(*self),
    {
        match self {
            Quality::Best => "Best",
            Quality::HD1080 => "1080p",
            Quality::HD720 => "720p",
            Quality::SD480 => "480p",
        }
    }

    /// Returns the yt-dlp `-f` format selector for this quality level.
    pub fn format_string(&self) -> (r: &'static str)
        ensures
            r@ == quality_format(*self),
    {
        match self {
            Quality::Best => "bestvideo+bestaudio/best",
            Quality::HD1080 => "bestvideo[height<=1080]+bestaudio/best[height<=1080]",
            Quality::HD720 => "bestvideo[height<=720]+bestaudio/best[height<=720]",
            Quality::SD480 => "bestvideo[height<=480]+bestaudio/best[height<=480]",
        }
    }
}

// ------------------------------------------------------------------
// Laws
// ------------------------------------------------------------------

/// Trailing slashes on the chosen directory make no difference to the template:
/// `output_template(dir)` and `output_template(dir + "/")` are the same string.
pub proof fn lemma_output_template_ignores_trailing_slash(s: DownloadSource, base_dir: Seq<char>)
    ensures
        output_template_for(s, base_dir.push('/')) == output_template_for(s, base_dir),
{
    assert(base_dir.push('/').drop_last() =~= base_dir);
}

/// The two download types have distinct labels.
pub proof fn lemma_download_type_labels_distinct(a: DownloadType, b: DownloadType)
    requires
        a != b,
    ensures
        download_type_label(a) != download_type_label(b),
{
    reveal_strlit("📹 Video");
    reveal_strlit("🎵 Audio");
    assert(download_type_label(DownloadType::Video)[0] != download_type_label(DownloadType::Audio)[0]);
}

/// The four download sources have pairwise distinct labels and icons.
pub proof fn lemma_download_source_labels_distinct(a: DownloadSource, b: DownloadSource)
    requires
        a != b,
    ensures
        download_source_label(a) != download_source_label(b),
        download_source_icon(a) != download_source_icon(b),
{
    reveal_strlit("Single URL");
    reveal_strlit("Batch File");
    reveal_strlit("Playlist");
    reveal_strlit("Channel");
    reveal_strlit("🔗");
    reveal_strlit("📄");
    reveal_strlit("📋");
    reveal_strlit("📺");
    assert(download_source_label(a)[0] != download_source_label(b)[0]);
    assert(download_source_icon(a)[0] != download_source_icon(b)[0]);
}

/// The four quality levels have pairwise distinct labels and format selectors.
pub proof fn lemma_quality_labels_distinct(a: Quality, b: Quality)
    requires
        a != b,
    ensures
        quality_label(a) != quality_label(b),
        quality_format(a) != quality_format(b),
{
    reveal_strlit("Best");
    reveal_strlit("1080p");
    reveal_strlit("720p");
    reveal_strlit("480p");
    reveal_strlit("bestvideo+bestaudio/best");
    reveal_strlit("bestvideo[height<=1080]+bestaudio/best[height<=1080]");
    reveal_strlit("bestvideo[height<=720]+bestaudio/best[height<=720]");
    reveal_strlit("bestvideo[height<=480]+bestaudio/best[height<=480]");
    assert(quality_label(a)[0] != quality_label(b)[0]);
    assert(quality_format(a).len() != quality_format(b).len() || quality_format(a)[18] != quality_format(b)[18]);
}

} // verus!
