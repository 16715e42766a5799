//! The user's current choices: download type, source, quality, the active
//! preset (none in custom mode) and the active flags.

use vstd::prelude::*;
use vstd::string::*;
use crate::download_mode::{DownloadSource, DownloadType, Quality};
use crate::flags::{flag_registry, flags_view, Flag, FlagView};
use crate::presets::{default_preset, preset_catalog, resolve_keys, resolve_preset_flags, Preset, PresetView};
use crate::runner::{DownloadRequest, DownloadRequestView};
use crate::text::str_equal;

verus! {

// ------------------------------------------------------------------
// Types
// ------------------------------------------------------------------

/// The user's current download configuration.
pub struct Selection {
    /// Video or audio.
    pub download_type: DownloadType,
    /// Single URL, batch file, playlist or channel.
    pub download_source: DownloadSource,
    /// Video resolution cap.
    pub quality: Quality,
    /// The preset the configuration came from; `None` in custom mode.
    pub active_preset: Option<Preset>,
    /// The flags passed to yt-dlp.
    pub active_flags: Vec<Flag>,
}

/// The mathematical value of a [`Selection`].
pub struct SelectionView {
    pub download_type: DownloadType,
    pub download_source: DownloadSource,
    pub quality: Quality,
    pub active_preset: Option<PresetView>,
    pub active_flags: Seq<FlagView>,
}

pub open spec fn opt_preset_view(p: Option<Preset>) -> Option<PresetView> {
    match p {
        Some(p) => Some(p@),
        None => None,
    }
}

impl View for Selection {
    type V = SelectionView;

    open spec fn view(&self) -> SelectionView {
        SelectionView {
            download_type: self.download_type,
            download_source: self.download_source,
            quality: self.quality,
            active_preset: opt_preset_view(self.active_preset),
            active_flags: flags_view(self.active_flags@),
        }
    }
}

// ------------------------------------------------------------------
// Specifications
// ------------------------------------------------------------------

/// `fs` with every occurrence of `f` removed.
pub open spec fn without_flag(fs: Seq<FlagView>, f: FlagView) -> Seq<FlagView>
    decreases fs.len(),
{
    if fs.len() == 0 {
        seq![]
    } else if fs.last() == f {
        without_flag(fs.drop_last(), f)
    } else {
        without_flag(fs.drop_last(), f).push(fs.last())
    }
}

/// Toggling `f`: removed (every occurrence) when active, appended otherwise.
pub open spec fn toggled(fs: Seq<FlagView>, f: FlagView) -> Seq<FlagView> {
    if fs.contains(f) {
        without_flag(fs, f)
    } else {
        fs.push(f)
    }
}

/// The configuration on first launch: the default preset, applied.
pub open spec fn initial_selection() -> SelectionView {
    SelectionView {
        download_type: DownloadType::Video,
        download_source: DownloadSource::Single,
        quality: Quality::HD1080,
        active_preset: Some(preset_catalog()[0]),
        active_flags: resolve_keys(preset_catalog()[0].flag_keys, flag_registry()),
    }
}

/// Choosing preset `p`: its type, source, quality and resolved flags.
pub open spec fn with_preset(s: SelectionView, p: PresetView) -> SelectionView {
    SelectionView {
        download_type: p.download_type,
        download_source: p.download_source,
        quality: p.quality,
        active_preset: Some(p),
        active_flags: resolve_keys(p.flag_keys, flag_registry()),
    }
}

/// Custom mode: no preset and no flags.
pub open spec fn with_custom(s: SelectionView) -> SelectionView {
    SelectionView { active_preset: None, active_flags: seq![], ..s }
}

/// A manual choice of download type leaves custom mode on.
pub open spec fn with_download_type(s: SelectionView, t: DownloadType) -> SelectionView {
    SelectionView { download_type: t, active_preset: None, ..s }
}

/// A manual choice of download source leaves custom mode on.
pub open spec fn with_download_source(s: SelectionView, d: DownloadSource) -> SelectionView {
    SelectionView { download_source: d, active_preset: None, ..s }
}

/// A manual choice of quality leaves custom mode on.
pub open spec fn with_quality(s: SelectionView, q: Quality) -> SelectionView {
    SelectionView { quality: q, active_preset: None, ..s }
}

/// Toggling a flag changes the active flags only.
pub open spec fn with_toggled_flag(s: SelectionView, f: FlagView) -> SelectionView {
    SelectionView { active_flags: toggled(s.active_flags, f), ..s }
}

/// The type, source and quality are those of the active preset, if any.
pub open spec fn settings_follow_preset(s: SelectionView) -> bool {
    match s.active_preset {
        Some(p) => s.download_type == p.download_type && s.download_source == p.download_source
            && s.quality == p.quality,
        None => true,
    }
}

// ------------------------------------------------------------------
// Operations
// ------------------------------------------------------------------

impl Selection {
    /// The configuration on first launch: the default preset with its flags.
    pub fn initial() -> (r: Selection)
        ensures
            r@ == initial_selection(),
    {
        let preset = default_preset();
        let flags = resolve_preset_flags(&preset);
        Selection {
            download_type: DownloadType::default(),
            download_source: DownloadSource::default(),
            quality: Quality::default(),
            active_preset: Some(preset),
            active_flags: flags,
        }
    }

    /// Applies `preset`: its type, source, quality and flags become active.
    pub fn choose_preset(&mut self, preset: Preset)
        ensures
            final(self)@ == with_preset(old(self)@, preset@),
    {
        let flags = resolve_preset_flags(&preset);
        self.active_flags = flags;
        self.download_type = preset.download_type;
        self.download_source = preset.download_source;
        self.quality = preset.quality;
        self.active_preset = Some(preset);
    }

    /// Switches to custom mode: no preset, no flags.
    pub fn choose_custom(&mut self)
        ensures
            final(self)@ == with_custom(old(self)@),
    {
        self.active_preset = None;
        self.active_flags = Vec::new();
        assert(flags_view(self.active_flags@) =~= Seq::<FlagView>::empty());
    }

    /// Chooses the download type by hand, which switches to custom mode.
    pub fn set_download_type(&mut self, download_type: DownloadType)
        ensures
            final(self)@ == with_download_type(old(self)@, download_type),
    {
        self.download_type = download_type;
        self.active_preset = None;
    }

    /// Chooses the download source by hand, which switches to custom mode.
    pub fn set_download_source(&mut self, download_source: DownloadSource)
        ensures
            final(self)@ == with_download_source(old(self)@, download_source),
    {
        self.download_source = download_source;
        self.active_preset = None;
    }

    /// Chooses the quality by hand, which switches to custom mode.
    pub fn set_quality(&mut self, quality: Quality)
        ensures
            final(self)@ == with_quality(old(self)@, quality),
    {
        self.quality = quality;
        self.active_preset = None;
    }

    /// Whether `flag` is among the active flags.
    pub fn is_flag_active(&self, flag: &Flag) -> (r: bool)
        ensures
            r == self@.active_flags.contains(flag@),
    {
        let n = self.active_flags.len();
        let mut i: usize = 0;
        while i < n
            invariant
                n == self.active_flags@.len(),
                i <= n,
                forall|k: int| 0 <= k < i ==> flags_view(self.active_flags@)[k] != flag@,
            decreases n - i,
        {
            if self.active_flags[i] == *flag {
                assert(flags_view(self.active_flags@)[i as int] == flag@);
                return true;
            }
            i = i + 1;
        }
        false
    }

    /// Toggles `flag`: every occurrence is removed when it is active,
    /// otherwise it is appended.
    pub fn toggle_flag(&mut self, flag: Flag)
        ensures
            final(self)@ == with_toggled_flag(old(self)@, flag@),
    {
        if self.is_flag_active(&flag) {
            let ghost all = flags_view(self.active_flags@);
            let n = self.active_flags.len();
            let mut kept: Vec<Flag> = Vec::new();
            let mut i: usize = 0;
            assert(all.take(0) =~= Seq::<FlagView>::empty());
            assert(flags_view(kept@) =~= Seq::<FlagView>::empty());
            while i < n
                invariant
                    n == self.active_flags@.len(),
                    all == flags_view(self.active_flags@),
                    i <= n,
                    flags_view(kept@) == without_flag(all.take(i as int), flag@),
                decreases n - i,
            {
                let f = self.active_flags[i];
                assert(all.take(i + 1).drop_last() =~= all.take(i as int));
                assert(all.take(i + 1).last() == f@);
                if f != flag {
                    let ghost before = kept@;
                    kept.push(f);
                    assert(flags_view(kept@) =~= flags_view(before).push(f@));
                }
                i = i + 1;
            }
            assert(all.take(n as int) =~= all);
            self.active_flags = kept;
        } else {
            let ghost before = self.active_flags@;
            self.active_flags.push(flag);
            assert(flags_view(self.active_flags@) =~= flags_view(before).push(flag@));
        }
    }

    /// Whether `preset` is the active preset (presets are told apart by id).
    pub fn is_preset_active(&self, preset: &Preset) -> (r: bool)
        ensures
            r == (match self@.active_preset {
                Some(p) => p.id == preset@.id,
                None => false,
            }),
    {
        match &self.active_preset {
            Some(p) => str_equal(p.id, preset.id),
            None => false,
        }
    }

    /// Whether no preset is active (custom mode).
    pub fn is_custom(&self) -> (r: bool)
        ensures
            r == (self@.active_preset is None),
    {
        self.active_preset.is_none()
    }

    /// The download of `url` (or, for a batch download, of the URLs in
    /// `batch_file`) into `output_dir`, with the chosen type, source,
    /// quality and flags, and with `archive_file` as download archive.
    pub fn download_request(
        &self,
        url: &str,
        batch_file: &str,
        archive_file: &str,
        output_dir: &str,
    ) -> (r: DownloadRequest)
        ensures
            r@ == (DownloadRequestView {
                url: url@,
                batch_file: batch_file@,
                archive_file: archive_file@,
                download_type: self@.download_type,
                download_source: self@.download_source,
                quality: self@.quality,
                output_dir: output_dir@,
                extra_flags: self@.active_flags,
            }),
    {
        let n = self.active_flags.len();
        let mut flags: Vec<Flag> = Vec::new();
        let mut i: usize = 0;
        while i < n
            invariant
                n == self.active_flags@.len(),
                i <= n,
                flags@ == self.active_flags@.take(i as int),
            decreases n - i,
        {
            flags.push(self.active_flags[i]);
            assert(flags@ =~= self.active_flags@.take(i + 1));
            i = i + 1;
        }
        assert(self.active_flags@.take(n as int) =~= self.active_flags@);
        DownloadRequest {
            url: String::from_str(url),
            batch_file: String::from_str(batch_file),
            archive_file: String::from_str(archive_file),
            download_type: self.download_type,
            download_source: self.download_source,
            quality: self.quality,
            output_dir: String::from_str(output_dir),
            extra_flags: flags,
        }
    }
}

/// The output directory on first launch: the user's download directory when
/// the system names one, otherwise the current directory `"."`.
pub fn default_output_dir(download_dir: Option<String>) -> (r: String)
    ensures
        r@ == (match download_dir {
            Some(d) => d@,
            None => "."@,
        }),
{
    match download_dir {
        Some(d) => d,
        None => String::from_str("."),
    }
}

// ------------------------------------------------------------------
// Laws
// ------------------------------------------------------------------

/// Removing a flag that is not present changes nothing.
pub proof fn lemma_without_absent_flag(fs: Seq<FlagView>, f: FlagView)
    requires
        !fs.contains(f),
    ensures
        without_flag(fs, f) == fs,
    decreases fs.len(),
{
    if fs.len() > 0 {
        assert(!fs.drop_last().contains(f)) by {
            if fs.drop_last().contains(f) {
                let k = choose|k: int| 0 <= k < fs.drop_last().len() && fs.drop_last()[k] == f;
                assert(fs[k] == f);
            }
        }
        lemma_without_absent_flag(fs.drop_last(), f);
        assert(fs.last() != f) by {
            assert(fs[fs.len() - 1] == fs.last());
        }
        assert(fs.drop_last().push(fs.last()) =~= fs);
    }
}

/// Removing `f` keeps exactly the other flags.
pub proof fn lemma_without_flag_contains(fs: Seq<FlagView>, f: FlagView, g: FlagView)
    ensures
        without_flag(fs, f).contains(g) <==> (g != f && fs.contains(g)),
    decreases fs.len(),
{
    if fs.len() > 0 {
        let init = fs.drop_last();
        lemma_without_flag_contains(init, f, g);
        assert(fs =~= init.push(fs.last()));
        if fs.contains(g) && g != f && !init.contains(g) {
            let k = choose|k: int| 0 <= k < fs.len() && fs[k] == g;
            if k < init.len() {
                assert(init[k] == g);
            }
            assert(fs.last() == g);
        }
        if init.contains(g) {
            let k = choose|k: int| 0 <= k < init.len() && init[k] == g;
            assert(fs[k] == g);
        }
        if fs.last() != f {
            let w = without_flag(init, f);
            if w.push(fs.last()).contains(g) && !w.contains(g) {
                let k = choose|k: int| 0 <= k < w.push(fs.last()).len() && w.push(fs.last())[k] == g;
                if k < w.len() {
                    assert(w[k] == g);
                }
            }
            if w.contains(g) {
                let k = choose|k: int| 0 <= k < w.len() && w[k] == g;
                assert(w.push(fs.last())[k] == g);
            }
            assert(w.push(fs.last())[w.len() as int] == fs.last());
        }
    }
}

/// Toggling a flag flips whether it is active and leaves every other flag as it was.
pub proof fn lemma_toggle_flips_membership(fs: Seq<FlagView>, f: FlagView, g: FlagView)
    ensures
        toggled(fs, f).contains(f) == !fs.contains(f),
        g != f ==> (toggled(fs, f).contains(g) == fs.contains(g)),
{
    lemma_without_flag_contains(fs, f, f);
    lemma_without_flag_contains(fs, f, g);
    if !fs.contains(f) {
        assert(fs.push(f)[fs.len() as int] == f);
        if fs.push(f).contains(g) && g != f {
            let k = choose|k: int| 0 <= k < fs.push(f).len() && fs.push(f)[k] == g;
            assert(fs[k] == g);
        }
        if fs.contains(g) {
            let k = choose|k: int| 0 <= k < fs.len() && fs[k] == g;
            assert(fs.push(f)[k] == g);
        }
    }
}

/// Toggling an inactive flag twice restores the active flags exactly.
pub proof fn lemma_toggle_twice_restores(fs: Seq<FlagView>, f: FlagView)
    requires
        !fs.contains(f),
    ensures
        toggled(toggled(fs, f), f) == fs,
{
    assert(fs.push(f)[fs.len() as int] == f);
    assert(fs.push(f).drop_last() =~= fs);
    lemma_without_absent_flag(fs, f);
}

/// The type, source and quality always agree with the active preset: on
/// first launch, and after every operation on the configuration.
pub proof fn lemma_settings_follow_preset(
    s: SelectionView,
    p: PresetView,
    t: DownloadType,
    d: DownloadSource,
    q: Quality,
    f: FlagView,
)
    requires
        settings_follow_preset(s),
    ensures
        settings_follow_preset(initial_selection()),
        settings_follow_preset(with_preset(s, p)),
        settings_follow_preset(with_custom(s)),
        settings_follow_preset(with_download_type(s, t)),
        settings_follow_preset(with_download_source(s, d)),
        settings_follow_preset(with_quality(s, q)),
        settings_follow_preset(with_toggled_flag(s, f)),
{
}

/// Choosing the download type, the source or the quality by hand changes
/// that one setting and leaves custom mode on; the other two settings and
/// every active flag stay as they were.
pub proof fn lemma_manual_choice_changes_one_setting(
    s: SelectionView,
    t: DownloadType,
    d: DownloadSource,
    q: Quality,
)
    ensures
        with_download_type(s, t).download_type == t,
        with_download_type(s, t).download_source == s.download_source,
        with_download_type(s, t).quality == s.quality,
        with_download_type(s, t).active_preset is None,
        with_download_type(s, t).active_flags == s.active_flags,
        with_download_source(s, d).download_source == d,
        with_download_source(s, d).download_type == s.download_type,
        with_download_source(s, d).quality == s.quality,
        with_download_source(s, d).active_preset is None,
        with_download_source(s, d).active_flags == s.active_flags,
        with_quality(s, q).quality == q,
        with_quality(s, q).download_type == s.download_type,
        with_quality(s, q).download_source == s.download_source,
        with_quality(s, q).active_preset is None,
        with_quality(s, q).active_flags == s.active_flags,
{
}

/// Switching to custom mode drops the preset and every flag, and keeps the
/// download type, source and quality the user had.
pub proof fn lemma_custom_keeps_settings(s: SelectionView)
    ensures
        with_custom(s).download_type == s.download_type,
        with_custom(s).download_source == s.download_source,
        with_custom(s).quality == s.quality,
        with_custom(s).active_preset is None,
        with_custom(s).active_flags.len() == 0,
{
}

} // verus!
