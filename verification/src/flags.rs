//! The registry of yt-dlp flags known to the application, and their
//! grouping into categories.

use vstd::prelude::*;
use vstd::string::*;
use vstd::std_specs::cmp::PartialEqSpecImpl;
use crate::text::{has_prefix, str_equal};

verus! {

// ------------------------------------------------------------------
// Types
// ------------------------------------------------------------------

/// Logical category for grouping flags.
#[derive(Debug, Clone, Copy, PartialEq, Eq, Structural, Hash)]
pub enum FlagCategory {
    /// Flags controlling playlist download behavior.
    Playlist,
    /// Flags for embedding or writing metadata.
    Metadata,
    /// Flags controlling output container format.
    Format,
    /// Flags for subtitle download and embedding.
    Subtitles,
    /// Flags for audio extraction and format.
    Audio,
    /// Flags for proxy, SSL, and geo-restriction handling.
    Network,
    /// Miscellaneous flags that don't fit other categories.
    Misc,
}

/// A single yt-dlp CLI flag with associated display metadata.
#[derive(Debug, Clone, Copy)]
pub struct Flag {
    /// CLI flag string as passed to yt-dlp, e.g. `"--yes-playlist"`; it may
    /// hold several words, e.g. `"--audio-format mp3"`.
    pub flag: &'static str,
    /// Human-readable label displayed on the toggle button.
    pub label: &'static str,
    /// Detailed description shown as a tooltip.
    pub description: &'static str,
    /// Category used for visual grouping.
    pub category: FlagCategory,
}

/// The mathematical value of a [`Flag`]: its strings as character sequences.
pub struct FlagView {
    pub flag: Seq<char>,
    pub label: Seq<char>,
    pub description: Seq<char>,
    pub category: FlagCategory,
}

impl View for Flag {
    type V = FlagView;

    open spec fn view(&self) -> FlagView {
        FlagView {
            flag: self.flag@,
            label: self.label@,
            description: self.description@,
            category: self.category,
        }
    }
}

/// The views of a sequence of flags.
pub open spec fn flags_view(fs: Seq<Flag>) -> Seq<FlagView> {
    fs.map_values(|f: Flag| f@)
}

impl PartialEq for Flag {
    /// Two flags are equal when all their fields are.
    fn eq(&self, other: &Self) -> (r: bool) {
        str_equal(self.flag, other.flag) && str_equal(self.label, other.label) && str_equal(
            self.description,
            other.description,
        ) && self.category == other.category
    }
}

impl PartialEqSpecImpl for Flag {
    open spec fn obeys_eq_spec() -> bool {
        true
    }

    open spec fn eq_spec(&self, other: &Flag) -> bool {
        self@ == other@
    }
}

// ------------------------------------------------------------------
// Specifications
// ------------------------------------------------------------------

pub open spec fn category_label(c: FlagCategory) -> Seq<char> {
    match c {
        FlagCategory::Playlist => "📋 Playlist"@,
        FlagCategory::Metadata => "🏷️  Metadata"@,
        FlagCategory::Format => "🎞️  Format"@,
        FlagCategory::Subtitles => "💬 Subtitles"@,
        FlagCategory::Audio => "🎵 Audio"@,
        FlagCategory::Network => "🌐 Network"@,
        FlagCategory::Misc => "⚙️  Misc"@,
    }
}

/// The order in which categories are presented.
pub open spec fn category_order() -> Seq<FlagCategory> {
    seq![
        FlagCategory::Playlist,
        FlagCategory::Metadata,
        FlagCategory::Format,
        FlagCategory::Subtitles,
        FlagCategory::Audio,
        FlagCategory::Network,
        FlagCategory::Misc,
    ]
}

/// Every flag known to the application, in display order.
pub open spec fn flag_registry() -> Seq<FlagView> {
    seq![
        FlagView {
            flag: "--yes-playlist"@,
            label: "Yes Playlist"@,
            description: "Download entire playlist if URL points to one"@,
            category: FlagCategory::Playlist,
        },
        FlagView {
            flag: "--no-playlist"@,
            label: "No Playlist"@,
            description: "Download only single video even if part of a playlist"@,
            category: FlagCategory::Playlist,
        },
        FlagView {
            flag: "--playlist-reverse"@,
            label: "Reverse Playlist"@,
            description: "Download playlist in reverse order"@,
            category: FlagCategory::Playlist,
        },
        FlagView {
            flag: "--add-metadata"@,
            label: "Add Metadata"@,
            description: "Write metadata tags to the video file"@,
            category: FlagCategory::Metadata,
        },
        FlagView {
            flag: "--embed-thumbnail"@,
            label: "Embed Thumbnail"@,
            description: "Embed the video thumbnail as cover art in the file"@,
            category: FlagCategory::Metadata,
        },
        FlagView {
            flag: "--embed-chapters"@,
            label: "Embed Chapters"@,
            description: "Add chapter markers from the video description to the file"@,
            category: FlagCategory::Metadata,
        },
        FlagView {
            flag: "--embed-info-json"@,
            label: "Embed Info JSON"@,
            description: "Embed the full video metadata JSON as a file attachment"@,
            category: FlagCategory::Metadata,
        },
        FlagView {
            flag: "--write-description"@,
            label: "Write Description"@,
            description: "Save video description to a .description file"@,
            category: FlagCategory::Metadata,
        },
        FlagView {
            flag: "--write-info-json"@,
            label: "Write Info JSON"@,
            description: "Save video metadata to a .info.json file on disk"@,
            category: FlagCategory::Metadata,
        },
        FlagView {
            flag: "--merge-output-format mp4"@,
            label: "Force MP4"@,
            description: "Merge output into an MP4 container"@,
            category: FlagCategory::Format,
        },
        FlagView {
            flag: "--merge-output-format mkv"@,
            label: "Force MKV"@,
            description: "Merge output into an MKV container"@,
            category: FlagCategory::Format,
        },
        FlagView {
            flag: "--remux-video mp4"@,
            label: "Remux → MP4"@,
            description: "Remux the video into mp4 without re-encoding"@,
            category: FlagCategory::Format,
        },
        FlagView {
            flag: "--write-subs"@,
            label: "Write Subs"@,
            description: "Download subtitle files to disk"@,
            category: FlagCategory::Subtitles,
        },
        FlagView {
            flag: "--write-auto-subs"@,
            label: "Auto Subs"@,
            description: "Download auto-generated subtitles"@,
            category: FlagCategory::Subtitles,
        },
        FlagView {
            flag: "--embed-subs"@,
            label: "Embed Subs"@,
            description: "Embed subtitles directly into the video file"@,
            category: FlagCategory::Subtitles,
        },
        FlagView {
            flag: "--sub-langs en"@,
            label: "English Subs"@,
            description: "Restrict subtitle download to English only"@,
            category: FlagCategory::Subtitles,
        },
        FlagView {
            flag: "--extract-audio"@,
            label: "Extract Audio"@,
            description: "Convert video to audio-only output"@,
            category: FlagCategory::Audio,
        },
        FlagView {
            flag: "--audio-format mp3"@,
            label: "Format: MP3"@,
            description: "Set audio output format to MP3"@,
            category: FlagCategory::Audio,
        },
        FlagView {
            flag: "--audio-format m4a"@,
            label: "Format: M4A"@,
            description: "Set audio output format to M4A"@,
            category: FlagCategory::Audio,
        },
        FlagView {
            flag: "--audio-quality 0"@,
            label: "Best Audio Quality"@,
            description: "Use best audio quality (0 = best for VBR encoders)"@,
            category: FlagCategory::Audio,
        },
        FlagView {
            flag: "--no-check-certificates"@,
            label: "Skip SSL Check"@,
            description: "Bypass SSL certificate verification"@,
            category: FlagCategory::Network,
        },
        FlagView {
            flag: "--geo-bypass"@,
            label: "Geo Bypass"@,
            description: "Bypass geographic restrictions via fake X-Forwarded-For"@,
            category: FlagCategory::Network,
        },
        FlagView {
            flag: "--proxy socks5://127.0.0.1:1080"@,
            label: "Use Proxy"@,
            description: "Route traffic through local SOCKS5 proxy on port 1080"@,
            category: FlagCategory::Network,
        },
        FlagView {
            flag: "--no-overwrites"@,
            label: "No Overwrites"@,
            description: "Skip download if output file already exists"@,
            category: FlagCategory::Misc,
        },
        FlagView {
            flag: "--continue"@,
            label: "Continue"@,
            description: "Resume partially downloaded files"@,
            category: FlagCategory::Misc,
        },
        FlagView {
            flag: "--no-part"@,
            label: "No .part Files"@,
            description: "Do not use .part files — write directly to final filename"@,
            category: FlagCategory::Misc,
        },
        FlagView {
            flag: "--verbose"@,
            label: "Verbose"@,
            description: "Print verbose debug output to the log"@,
            category: FlagCategory::Misc,
        },
        FlagView {
            flag: "--restrict-filenames"@,
            label: "Restrict Filenames"@,
            description: "Use only ASCII characters in output filenames"@,
            category: FlagCategory::Misc,
        },
        FlagView {
            flag: "--sponsorblock-remove all"@,
            label: "SponsorBlock"@,
            description: "Remove sponsored segments using SponsorBlock data"@,
            category: FlagCategory::Misc,
        },
        FlagView {
            flag: "--no-mtime"@,
            label: "No mtime"@,
            description: "Do not set the file modification time from the server"@,
            category: FlagCategory::Misc,
        },
    ]
}

/// The flags of `fs` whose category is `c`, in the order in which they come.
pub open spec fn in_category(fs: Seq<FlagView>, c: FlagCategory) -> Seq<FlagView>
    decreases fs.len(),
{
    if fs.len() == 0 {
        seq![]
    } else if fs.last().category == c {
        in_category(fs.drop_last(), c).push(fs.last())
    } else {
        in_category(fs.drop_last(), c)
    }
}

// ------------------------------------------------------------------
// Operations
// ------------------------------------------------------------------

impl FlagCategory {
    /// Returns the display label with emoji prefix.
    pub fn label(&self) -> (r: &'static str)
        ensures
            r@ == category_label(*self),
    {
        match self {
            FlagCategory::Playlist => "📋 Playlist",
            FlagCategory::Metadata => "🏷️  Metadata",
            FlagCategory::Format => "🎞️  Format",
            FlagCategory::Subtitles => "💬 Subtitles",
            FlagCategory::Audio => "🎵 Audio",
            FlagCategory::Network => "🌐 Network",
            FlagCategory::Misc => "⚙️  Misc",
        }
    }
}

/// Returns the categories in the order in which they are presented.
pub fn all_categories() -> (r: Vec<FlagCategory>)
    ensures
        r@ == category_order(),
{
    vec![
        FlagCategory::Playlist,
        FlagCategory::Metadata,
        FlagCategory::Format,
        FlagCategory::Subtitles,
        FlagCategory::Audio,
        FlagCategory::Network,
        FlagCategory::Misc,
    ]
}

/// Returns all available yt-dlp flags known to the application.
///
/// This is the single source of truth for flag definitions.
pub fn all_flags() -> (r: Vec<Flag>)
    ensures
        flags_view(r@) == flag_registry(),
{
    let r = vec![
        Flag {
            flag: "--yes-playlist",
            label: "Yes Playlist",
            description: "Download entire playlist if URL points to one",
            category: FlagCategory::Playlist,
        },
        Flag {
            flag: "--no-playlist",
            label: "No Playlist",
            description: "Download only single video even if part of a playlist",
            category: FlagCategory::Playlist,
        },
        Flag {
            flag: "--playlist-reverse",
            label: "Reverse Playlist",
            description: "Download playlist in reverse order",
            category: FlagCategory::Playlist,
        },
        Flag {
            flag: "--add-metadata",
            label: "Add Metadata",
            description: "Write metadata tags to the video file",
            category: FlagCategory::Metadata,
        },
        Flag {
            flag: "--embed-thumbnail",
            label: "Embed Thumbnail",
            description: "Embed the video thumbnail as cover art in the file",
            category: FlagCategory::Metadata,
        },
        Flag {
            flag: "--embed-chapters",
            label: "Embed Chapters",
            description: "Add chapter markers from the video description to the file",
            category: FlagCategory::Metadata,
        },
        Flag {
            flag: "--embed-info-json",
            label: "Embed Info JSON",
            description: "Embed the full video metadata JSON as a file attachment",
            category: FlagCategory::Metadata,
        },
        Flag {
            flag: "--write-description",
            label: "Write Description",
            description: "Save video description to a .description file",
            category: FlagCategory::Metadata,
        },
        Flag {
            flag: "--write-info-json",
            label: "Write Info JSON",
            description: "Save video metadata to a .info.json file on disk",
            category: FlagCategory::Metadata,
        },
        Flag {
            flag: "--merge-output-format mp4",
            label: "Force MP4",
            description: "Merge output into an MP4 container",
            category: FlagCategory::Format,
        },
        Flag {
            flag: "--merge-output-format mkv",
            label: "Force MKV",
            description: "Merge output into an MKV container",
            category: FlagCategory::Format,
        },
        Flag {
            flag: "--remux-video mp4",
            label: "Remux → MP4",
            description: "Remux the video into mp4 without re-encoding",
            category: FlagCategory::Format,
        },
        Flag {
            flag: "--write-subs",
            label: "Write Subs",
            description: "Download subtitle files to disk",
            category: FlagCategory::Subtitles,
        },
        Flag {
            flag: "--write-auto-subs",
            label: "Auto Subs",
            description: "Download auto-generated subtitles",
            category: FlagCategory::Subtitles,
        },
        Flag {
            flag: "--embed-subs",
            label: "Embed Subs",
            description: "Embed subtitles directly into the video file",
            category: FlagCategory::Subtitles,
        },
        Flag {
            flag: "--sub-langs en",
            label: "English Subs",
            description: "Restrict subtitle download to English only",
            category: FlagCategory::Subtitles,
        },
        Flag {
            flag: "--extract-audio",
            label: "Extract Audio",
            description: "Convert video to audio-only output",
            category: FlagCategory::Audio,
        },
        Flag {
            flag: "--audio-format mp3",
            label: "Format: MP3",
            description: "Set audio output format to MP3",
            category: FlagCategory::Audio,
        },
        Flag {
            flag: "--audio-format m4a",
            label: "Format: M4A",
            description: "Set audio output format to M4A",
            category: FlagCategory::Audio,
        },
        Flag {
            flag: "--audio-quality 0",
            label: "Best Audio Quality",
            description: "Use best audio quality (0 = best for VBR encoders)",
            category: FlagCategory::Audio,
        },
        Flag {
            flag: "--no-check-certificates",
            label: "Skip SSL Check",
            description: "Bypass SSL certificate verification",
            category: FlagCategory::Network,
        },
        Flag {
            flag: "--geo-bypass",
            label: "Geo Bypass",
            description: "Bypass geographic restrictions via fake X-Forwarded-For",
            category: FlagCategory::Network,
        },
        Flag {
            flag: "--proxy socks5://127.0.0.1:1080",
            label: "Use Proxy",
            description: "Route traffic through local SOCKS5 proxy on port 1080",
            category: FlagCategory::Network,
        },
        Flag {
            flag: "--no-overwrites",
            label: "No Overwrites",
            description: "Skip download if output file already exists",
            category: FlagCategory::Misc,
        },
        Flag {
            flag: "--continue",
            label: "Continue",
            description: "Resume partially downloaded files",
            category: FlagCategory::Misc,
        },
        Flag {
            flag: "--no-part",
            label: "No .part Files",
            description: "Do not use .part files — write directly to final filename",
            category: FlagCategory::Misc,
        },
        Flag {
            flag: "--verbose",
            label: "Verbose",
            description: "Print verbose debug output to the log",
            category: FlagCategory::Misc,
        },
        Flag {
            flag: "--restrict-filenames",
            label: "Restrict Filenames",
            description: "Use only ASCII characters in output filenames",
            category: FlagCategory::Misc,
        },
        Flag {
            flag: "--sponsorblock-remove all",
            label: "SponsorBlock",
            description: "Remove sponsored segments using SponsorBlock data",
            category: FlagCategory::Misc,
        },
        Flag {
            flag: "--no-mtime",
            label: "No mtime",
            description: "Do not set the file modification time from the server",
            category: FlagCategory::Misc,
        },
    ];
    assert(flags_view(r@) =~= flag_registry());
    r
}

/// Returns the flags of `flags` that belong to `category`, keeping their order.
pub fn flags_in_category(flags: &[Flag], category: FlagCategory) -> (r: Vec<Flag>)
    ensures
        flags_view(r@) == in_category(flags_view(flags@), category),
{
    let mut out: Vec<Flag> = Vec::new();
    let n = flags.len();
    let mut i: usize = 0;
    assert(flags_view(flags@).take(0) =~= Seq::<FlagView>::empty());
    assert(flags_view(out@) =~= Seq::<FlagView>::empty());
    while i < n
        invariant
            n == flags@.len(),
            i <= n,
            flags_view(out@) == in_category(flags_view(flags@).take(i as int), category),
        decreases n - i,
    {
        let f = flags[i];
        let ghost prefix = flags_view(flags@).take(i + 1);
        assert(prefix.drop_last() =~= flags_view(flags@).take(i as int));
        assert(prefix.last() == f@);
        if f.category == category {
            let ghost before = out@;
            out.push(f);
            assert(flags_view(out@) =~= flags_view(before).push(f@));
        }
        i = i + 1;
    }
    assert(flags_view(flags@).take(n as int) =~= flags_view(flags@));
    out
}

// ------------------------------------------------------------------
// Laws
// ------------------------------------------------------------------

/// Each category is presented exactly once: the presentation order lists
/// every category, and no category twice.
pub proof fn lemma_category_order_complete(c: FlagCategory)
    ensures
        category_order().contains(c),
        category_order().no_duplicates(),
{
    let o = category_order();
    match c {
        FlagCategory::Playlist => assert(o[0] == c),
        FlagCategory::Metadata => assert(o[1] == c),
        FlagCategory::Format => assert(o[2] == c),
        FlagCategory::Subtitles => assert(o[3] == c),
        FlagCategory::Audio => assert(o[4] == c),
        FlagCategory::Network => assert(o[5] == c),
        FlagCategory::Misc => assert(o[6] == c),
    }
}

/// The categories have pairwise distinct labels.
pub proof fn lemma_category_labels_distinct(a: FlagCategory, b: FlagCategory)
    requires
        a != b,
    ensures
        category_label(a) != category_label(b),
{
    reveal_strlit("📋 Playlist");
    reveal_strlit("🏷️  Metadata");
    reveal_strlit("🎞️  Format");
    reveal_strlit("💬 Subtitles");
    reveal_strlit("🎵 Audio");
    reveal_strlit("🌐 Network");
    reveal_strlit("⚙️  Misc");
    assert(category_label(a)[0] != category_label(b)[0]);
}

/// The flags of `fs` grouped by the categories of `cats`: first those of
/// `cats[0]`, then those of `cats[1]`, and so on.
pub open spec fn grouped_by(fs: Seq<FlagView>, cats: Seq<FlagCategory>) -> Seq<FlagView>
    decreases cats.len(),
{
    if cats.len() == 0 {
        seq![]
    } else {
        in_category(fs, cats[0]) + grouped_by(fs, cats.drop_first())
    }
}

proof fn lemma_in_category_concat(p: Seq<FlagView>, q: Seq<FlagView>, c: FlagCategory)
    ensures
        in_category(p + q, c) == in_category(p, c) + in_category(q, c),
    decreases q.len(),
{
    if q.len() == 0 {
        assert(p + q =~= p);
        assert(in_category(p, c) + Seq::<FlagView>::empty() =~= in_category(p, c));
    } else {
        assert((p + q).drop_last() =~= p + q.drop_last());
        assert((p + q).last() == q.last());
        lemma_in_category_concat(p, q.drop_last(), c);
        if q.last().category == c {
            assert(in_category(p, c) + in_category(q.drop_last(), c).push(q.last()) =~= (
            in_category(p, c) + in_category(q.drop_last(), c)).push(q.last()));
        }
    }
}

proof fn lemma_in_category_uniform(s: Seq<FlagView>, c: FlagCategory)
    ensures
        (forall|i: int| 0 <= i < s.len() ==> (#[trigger] s[i]).category == c) ==> in_category(s, c) == s,
        (forall|i: int| 0 <= i < s.len() ==> (#[trigger] s[i]).category != c) ==> in_category(s, c)
            == Seq::<FlagView>::empty(),
    decreases s.len(),
{
    if s.len() > 0 {
        lemma_in_category_uniform(s.drop_last(), c);
        assert(s.last() == s[s.len() - 1]);
        if forall|i: int| 0 <= i < s.len() ==> (#[trigger] s[i]).category == c {
            assert(forall|i: int| 0 <= i < s.drop_last().len() ==> (#[trigger] s.drop_last()[i]).category == s[i].category);
            assert(s.drop_last().push(s.last()) =~= s);
        }
        if forall|i: int| 0 <= i < s.len() ==> (#[trigger] s[i]).category != c {
            assert(forall|i: int| 0 <= i < s.drop_last().len() ==> (#[trigger] s.drop_last()[i]).category == s[i].category);
        }
    }
}

/// The registry split at the boundaries between categories.
spec fn registry_block(k: int) -> Seq<FlagView> {
    let bounds = seq![0int, 3, 9, 12, 16, 20, 23, 30];
    flag_registry().subrange(bounds[k], bounds[k + 1])
}

proof fn lemma_registry_blocks()
    ensures
        flag_registry() == registry_block(0) + registry_block(1) + registry_block(2) + registry_block(3)
            + registry_block(4) + registry_block(5) + registry_block(6),
        forall|k: int, i: int| 0 <= k < 7 && 0 <= i < registry_block(k).len() ==>
            (#[trigger] registry_block(k)[i]).category == category_order()[k],
{
    assert(flag_registry() =~= registry_block(0) + registry_block(1) + registry_block(2) + registry_block(3)
        + registry_block(4) + registry_block(5) + registry_block(6));
}

/// Grouping the registry by category, in presentation order, shows every
/// flag exactly once and in registry order: the registry is already sorted
/// by category.
pub proof fn lemma_grouping_keeps_registry()
    ensures
        grouped_by(flag_registry(), category_order()) == flag_registry(),
{
    lemma_registry_blocks();
    let b = |k: int| registry_block(k);
    let o = category_order();
    assert forall|k: int, c: FlagCategory| 0 <= k < 7 implies
        #[trigger] in_category(registry_block(k), c) == (if c == o[k] { registry_block(k) } else { Seq::<FlagView>::empty() }) by {
        lemma_in_category_uniform(registry_block(k), c);
        if c != o[k] {
            assert forall|i: int| 0 <= i < registry_block(k).len() implies (#[trigger] registry_block(k)[i]).category != c by {}
        }
    }
    let r = flag_registry();
    assert forall|c: FlagCategory| #![trigger in_category(r, c)] in_category(r, c) == in_category(b(0), c)
        + in_category(b(1), c) + in_category(b(2), c) + in_category(b(3), c) + in_category(b(4), c)
        + in_category(b(5), c) + in_category(b(6), c) by {
        lemma_in_category_concat(b(0) + b(1) + b(2) + b(3) + b(4) + b(5), b(6), c);
        lemma_in_category_concat(b(0) + b(1) + b(2) + b(3) + b(4), b(5), c);
        lemma_in_category_concat(b(0) + b(1) + b(2) + b(3), b(4), c);
        lemma_in_category_concat(b(0) + b(1) + b(2), b(3), c);
        lemma_in_category_concat(b(0) + b(1), b(2), c);
        lemma_in_category_concat(b(0), b(1), c);
    }
    let e = Seq::<FlagView>::empty();
    assert(in_category(r, o[0]) =~= b(0) + e + e + e + e + e + e);
    assert(in_category(r, o[1]) =~= e + b(1) + e + e + e + e + e);
    assert(in_category(r, o[2]) =~= e + e + b(2) + e + e + e + e);
    assert(in_category(r, o[3]) =~= e + e + e + b(3) + e + e + e);
    assert(in_category(r, o[4]) =~= e + e + e + e + b(4) + e + e);
    assert(in_category(r, o[5]) =~= e + e + e + e + e + b(5) + e);
    assert(in_category(r, o[6]) =~= e + e + e + e + e + e + b(6));
    let o1 = o.drop_first();
    let o2 = o1.drop_first();
    let o3 = o2.drop_first();
    let o4 = o3.drop_first();
    let o5 = o4.drop_first();
    let o6 = o5.drop_first();
    let o7 = o6.drop_first();
    assert(grouped_by(r, o7) =~= e);
    assert(grouped_by(r, o6) =~= b(6));
    assert(grouped_by(r, o5) =~= b(5) + b(6));
    assert(grouped_by(r, o4) =~= b(4) + (b(5) + b(6)));
    assert(grouped_by(r, o3) =~= b(3) + (b(4) + (b(5) + b(6))));
    assert(grouped_by(r, o2) =~= b(2) + (b(3) + (b(4) + (b(5) + b(6)))));
    assert(grouped_by(r, o1) =~= b(1) + (b(2) + (b(3) + (b(4) + (b(5) + b(6))))));
    assert(grouped_by(r, o) =~= b(0) + (b(1) + (b(2) + (b(3) + (b(4) + (b(5) + b(6)))))));
    assert(grouped_by(r, o) =~= b(0) + b(1) + b(2) + b(3) + b(4) + b(5) + b(6));
}

/// The position of a registry flag string in the registry, read off its length
/// and at most two of its characters (-1 for strings of no registered length).
pub open spec fn registry_position(s: Seq<char>) -> int {
    if s.len() == 0 {
        -1
    } else if s.len() == 9 {
        if s[2] == 'n' { 25 } else { 26 }
    } else if s.len() == 10 {
        if s[2] == 'c' { 24 } else { 29 }
    } else if s.len() == 12 {
        if s[2] == 'w' { 12 } else if s[2] == 'e' { 14 } else { 21 }
    } else if s.len() == 13 {
        1
    } else if s.len() == 14 {
        if s[2] == 'y' { 0 } else if s[2] == 'a' { 3 } else { 15 }
    } else if s.len() == 15 {
        if s[2] == 'e' { 16 } else { 23 }
    } else if s.len() == 16 {
        5
    } else if s.len() == 17 {
        if s[8] == 't' { 4 } else if s[8] == 'i' { if s[2] == 'e' { 6 } else { 8 } } else if s[8] == 'v' { 11 } else if s[8] == 'a' { 13 } else { 19 }
    } else if s.len() == 18 {
        if s[16] == 's' { 2 } else if s[16] == 'p' { 17 } else { 18 }
    } else if s.len() == 19 {
        7
    } else if s.len() == 20 {
        27
    } else if s.len() == 23 {
        20
    } else if s.len() == 25 {
        if s[23] == 'p' { 9 } else if s[23] == 'k' { 10 } else { 28 }
    } else if s.len() == 31 {
        22
    } else {
        -1
    }
}

/// Each registry flag string is a command-line option (it starts with `--`)
/// and sits at the registry position that [`registry_position`] reads off it.
proof fn lemma_registry_entry(i: int)
    requires
        0 <= i < flag_registry().len(),
    ensures
        registry_position(flag_registry()[i].flag) == i,
        has_prefix(flag_registry()[i].flag, "--"@),
{
    reveal_strlit("--");
    reveal_strlit("--yes-playlist");
    reveal_strlit("--no-playlist");
    reveal_strlit("--playlist-reverse");
    reveal_strlit("--add-metadata");
    reveal_strlit("--embed-thumbnail");
    reveal_strlit("--embed-chapters");
    reveal_strlit("--embed-info-json");
    reveal_strlit("--write-description");
    reveal_strlit("--write-info-json");
    reveal_strlit("--merge-output-format mp4");
    reveal_strlit("--merge-output-format mkv");
    reveal_strlit("--remux-video mp4");
    reveal_strlit("--write-subs");
    reveal_strlit("--write-auto-subs");
    reveal_strlit("--embed-subs");
    reveal_strlit("--sub-langs en");
    reveal_strlit("--extract-audio");
    reveal_strlit("--audio-format mp3");
    reveal_strlit("--audio-format m4a");
    reveal_strlit("--audio-quality 0");
    reveal_strlit("--no-check-certificates");
    reveal_strlit("--geo-bypass");
    reveal_strlit("--proxy socks5://127.0.0.1:1080");
    reveal_strlit("--no-overwrites");
    reveal_strlit("--continue");
    reveal_strlit("--no-part");
    reveal_strlit("--verbose");
    reveal_strlit("--restrict-filenames");
    reveal_strlit("--sponsorblock-remove all");
    reveal_strlit("--no-mtime");
    if i == 0 {
        assert(flag_registry()[0].flag.subrange(0, 2) =~= "--"@);
    } else if i == 1 {
        assert(flag_registry()[1].flag.subrange(0, 2) =~= "--"@);
    } else if i == 2 {
        assert(flag_registry()[2].flag.subrange(0, 2) =~= "--"@);
    } else if i == 3 {
        assert(flag_registry()[3].flag.subrange(0, 2) =~= "--"@);
    } else if i == 4 {
        assert(flag_registry()[4].flag.subrange(0, 2) =~= "--"@);
    } else if i == 5 {
        assert(flag_registry()[5].flag.subrange(0, 2) =~= "--"@);
    } else if i == 6 {
        assert(flag_registry()[6].flag.subrange(0, 2) =~= "--"@);
    } else if i == 7 {
        assert(flag_registry()[7].flag.subrange(0, 2) =~= "--"@);
    } else if i == 8 {
        assert(flag_registry()[8].flag.subrange(0, 2) =~= "--"@);
    } else if i == 9 {
        assert(flag_registry()[9].flag.subrange(0, 2) =~= "--"@);
    } else if i == 10 {
        assert(flag_registry()[10].flag.subrange(0, 2) =~= "--"@);
    } else if i == 11 {
        assert(flag_registry()[11].flag.subrange(0, 2) =~= "--"@);
    } else if i == 12 {
        assert(flag_registry()[12].flag.subrange(0, 2) =~= "--"@);
    } else if i == 13 {
        assert(flag_registry()[13].flag.subrange(0, 2) =~= "--"@);
    } else if i == 14 {
        assert(flag_registry()[14].flag.subrange(0, 2) =~= "--"@);
    } else if i == 15 {
        assert(flag_registry()[15].flag.subrange(0, 2) =~= "--"@);
    } else if i == 16 {
        assert(flag_registry()[16].flag.subrange(0, 2) =~= "--"@);
    } else if i == 17 {
        assert(flag_registry()[17].flag.subrange(0, 2) =~= "--"@);
    } else if i == 18 {
        assert(flag_registry()[18].flag.subrange(0, 2) =~= "--"@);
    } else if i == 19 {
        assert(flag_registry()[19].flag.subrange(0, 2) =~= "--"@);
    } else if i == 20 {
        assert(flag_registry()[20].flag.subrange(0, 2) =~= "--"@);
    } else if i == 21 {
        assert(flag_registry()[21].flag.subrange(0, 2) =~= "--"@);
    } else if i == 22 {
        assert(flag_registry()[22].flag.subrange(0, 2) =~= "--"@);
    } else if i == 23 {
        assert(flag_registry()[23].flag.subrange(0, 2) =~= "--"@);
    } else if i == 24 {
        assert(flag_registry()[24].flag.subrange(0, 2) =~= "--"@);
    } else if i == 25 {
        assert(flag_registry()[25].flag.subrange(0, 2) =~= "--"@);
    } else if i == 26 {
        assert(flag_registry()[26].flag.subrange(0, 2) =~= "--"@);
    } else if i == 27 {
        assert(flag_registry()[27].flag.subrange(0, 2) =~= "--"@);
    } else if i == 28 {
        assert(flag_registry()[28].flag.subrange(0, 2) =~= "--"@);
    } else if i == 29 {
        assert(flag_registry()[29].flag.subrange(0, 2) =~= "--"@);
    }
}

/// The flag strings of the registry are pairwise distinct, so each one
/// identifies its flag, and every one of them is a command-line option
/// (it starts with `--`).
pub proof fn lemma_registry_flags_distinct()
    ensures
        forall|i: int, j: int|
            0 <= i < flag_registry().len() && 0 <= j < flag_registry().len() && i != j
                ==> flag_registry()[i].flag != flag_registry()[j].flag,
        forall|i: int| 0 <= i < flag_registry().len() ==> has_prefix(#[trigger] flag_registry()[i].flag, "--"@),
{
    assert forall|i: int, j: int|
        0 <= i < flag_registry().len() && 0 <= j < flag_registry().len() && i != j
            implies flag_registry()[i].flag != flag_registry()[j].flag by {
        lemma_registry_entry(i);
        lemma_registry_entry(j);
    }
    assert forall|i: int| 0 <= i < flag_registry().len() implies has_prefix(#[trigger] flag_registry()[i].flag, "--"@) by {
        lemma_registry_entry(i);
    }
}

/// The option string that each flag's label names, label by label, as the
/// flags are documented to the user.
pub open spec fn documented_flag_strings() -> Seq<(Seq<char>, Seq<char>)> {
    seq![
        ("Yes Playlist"@, "--yes-playlist"@),
        ("No Playlist"@, "--no-playlist"@),
        ("Reverse Playlist"@, "--playlist-reverse"@),
        ("Add Metadata"@, "--add-metadata"@),
        ("Embed Thumbnail"@, "--embed-thumbnail"@),
        ("Embed Chapters"@, "--embed-chapters"@),
        ("Embed Info JSON"@, "--embed-info-json"@),
        ("Write Description"@, "--write-description"@),
        ("Write Info JSON"@, "--write-info-json"@),
        ("Force MP4"@, "--merge-output-format mp4"@),
        ("Force MKV"@, "--merge-output-format mkv"@),
        ("Remux → MP4"@, "--remux-video mp4"@),
        ("Write Subs"@, "--write-subs"@),
        ("Auto Subs"@, "--write-auto-subs"@),
        ("Embed Subs"@, "--embed-subs"@),
        ("English Subs"@, "--sub-langs en"@),
        ("Extract Audio"@, "--extract-audio"@),
        ("Format: MP3"@, "--audio-format mp3"@),
        ("Format: M4A"@, "--audio-format m4a"@),
        ("Best Audio Quality"@, "--audio-quality 0"@),
        ("Skip SSL Check"@, "--no-check-certificates"@),
        ("Geo Bypass"@, "--geo-bypass"@),
        ("Use Proxy"@, "--proxy socks5://127.0.0.1:1080"@),
        ("No Overwrites"@, "--no-overwrites"@),
        ("Continue"@, "--continue"@),
        ("No .part Files"@, "--no-part"@),
        ("Verbose"@, "--verbose"@),
        ("Restrict Filenames"@, "--restrict-filenames"@),
        ("SponsorBlock"@, "--sponsorblock-remove all"@),
        ("No mtime"@, "--no-mtime"@),
    ]
}

/// Every flag of the registry passes yt-dlp the option that its label names
/// (the flag labelled "English Subs" passes `--sub-langs en`, and so on), and
/// every documented option is in the registry.
pub proof fn lemma_registry_flags_are_documented()
    ensures
        forall|i: int| 0 <= i < flag_registry().len() ==> documented_flag_strings().contains(
            (#[trigger] flag_registry()[i].label, flag_registry()[i].flag),
        ),
        forall|j: int| 0 <= j < documented_flag_strings().len() ==> exists|i: int|
            0 <= i < flag_registry().len() && #[trigger] flag_registry()[i].label
                == (#[trigger] documented_flag_strings()[j]).0 && flag_registry()[i].flag
                == documented_flag_strings()[j].1,
{
    let r = flag_registry();
    let d = documented_flag_strings();
    assert(r.len() == d.len());
    assert forall|i: int| 0 <= i < r.len() implies d.contains((#[trigger] r[i].label, r[i].flag)) by {
        assert(d[i] == (r[i].label, r[i].flag));
    }
    assert forall|j: int| 0 <= j < d.len() implies exists|i: int|
        0 <= i < r.len() && #[trigger] r[i].label == (#[trigger] d[j]).0 && r[i].flag == d[j].1 by {
        assert(d[j] == (r[j].label, r[j].flag));
    }
}

} // verus!
