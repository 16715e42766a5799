//! Building yt-dlp command lines, and the log and running state of a download.
//!
//! The process itself is spawned and read by the caller; this module decides
//! what is run and what the log shows for every event of a run.

use vstd::prelude::*;
use vstd::string::*;
use crate::download_mode::{output_template_for, quality_format, DownloadSource, DownloadType, Quality};
use crate::flags::{flags_view, Flag, FlagView};
use crate::text::{is_blank, is_blank_str, is_white_space, split_words, words_of_each};

verus! {

// ------------------------------------------------------------------
// Command lines
// ------------------------------------------------------------------

/// A download as the user configured it.
pub struct DownloadRequest {
    /// The URL typed or pasted by the user (used unless the source is a batch file).
    pub url: String,
    /// Path of a text file with one URL per line (used when the source is a batch file).
    pub batch_file: String,
    /// Path of a yt-dlp download archive; blank means no archive.
    pub archive_file: String,
    /// Video or audio.
    pub download_type: DownloadType,
    /// Where the URLs come from, and how files are laid out on disk.
    pub download_source: DownloadSource,
    /// Video resolution cap (not used for audio).
    pub quality: Quality,
    /// The directory the files are saved under.
    pub output_dir: String,
    /// The flags chosen by preset or by hand.
    pub extra_flags: Vec<Flag>,
}

/// The mathematical value of a [`DownloadRequest`].
pub struct DownloadRequestView {
    pub url: Seq<char>,
    pub batch_file: Seq<char>,
    pub archive_file: Seq<char>,
    pub download_type: DownloadType,
    pub download_source: DownloadSource,
    pub quality: Quality,
    pub output_dir: Seq<char>,
    pub extra_flags: Seq<FlagView>,
}

impl View for DownloadRequest {
    type V = DownloadRequestView;

    open spec fn view(&self) -> DownloadRequestView {
        DownloadRequestView {
            url: self.url@,
            batch_file: self.batch_file@,
            archive_file: self.archive_file@,
            download_type: self.download_type,
            download_source: self.download_source,
            quality: self.quality,
            output_dir: self.output_dir@,
            extra_flags: flags_view(self.extra_flags@),
        }
    }
}

/// One argument of a yt-dlp command line, and whether the command preview
/// shows it in double quotes (the values taken from the request are quoted,
/// option names and flag words are not).
pub struct CommandArg {
    pub text: String,
    pub quoted: bool,
}

impl View for CommandArg {
    type V = (Seq<char>, bool);

    open spec fn view(&self) -> (Seq<char>, bool) {
        (self.text@, self.quoted)
    }
}

pub open spec fn args_view(args: Seq<CommandArg>) -> Seq<(Seq<char>, bool)> {
    args.map_values(|a: CommandArg| a@)
}

/// The flag strings of a sequence of flags.
pub open spec fn flag_strings(fs: Seq<FlagView>) -> Seq<Seq<char>> {
    fs.map_values(|f: FlagView| f.flag)
}

/// Words shown without quotes.
pub open spec fn plain_parts(ws: Seq<Seq<char>>) -> Seq<(Seq<char>, bool)> {
    ws.map_values(|w: Seq<char>| (w, false))
}

/// What a download reads: the batch file for a batch download, otherwise the URL.
pub open spec fn request_target(r: DownloadRequestView) -> Seq<char> {
    if r.download_source is Batch {
        r.batch_file
    } else {
        r.url
    }
}

/// The yt-dlp command line of a download, argument by argument:
/// - `--remote-components ejs:github`, which lets yt-dlp fetch its scripts;
/// - for video, `-f` and the quality's format selector; for audio, `-x`;
/// - every word of every chosen flag;
/// - `-o` and the source's output template under the output directory;
/// - `--download-archive` and the archive file, unless that path is blank;
/// - `--batch-file` and the batch file for a batch download, otherwise the URL.
pub open spec fn request_parts(r: DownloadRequestView) -> Seq<(Seq<char>, bool)> {
    seq![("--remote-components"@, false), ("ejs:github"@, false)] + (match r.download_type {
        DownloadType::Video => seq![("-f"@, false), (quality_format(r.quality), true)],
        DownloadType::Audio => seq![("-x"@, false)],
    }) + plain_parts(words_of_each(flag_strings(r.extra_flags))) + seq![
        ("-o"@, false),
        (output_template_for(r.download_source, r.output_dir), true),
    ] + (if is_blank(r.archive_file) {
        seq![]
    } else {
        seq![("--download-archive"@, false), (r.archive_file, true)]
    }) + (if r.download_source is Batch {
        seq![("--batch-file"@, false), (r.batch_file, true)]
    } else {
        seq![(r.url, true)]
    })
}

/// The texts of the parts of a command line.
pub open spec fn part_texts(ps: Seq<(Seq<char>, bool)>) -> Seq<Seq<char>> {
    ps.map_values(|p: (Seq<char>, bool)| p.0)
}

/// The arguments handed to yt-dlp for a download.
pub open spec fn download_argv(r: DownloadRequestView) -> Seq<Seq<char>> {
    part_texts(request_parts(r))
}

/// How a part is shown in the preview: in double quotes when marked so.
pub open spec fn shown(p: (Seq<char>, bool)) -> Seq<char> {
    if p.1 {
        "\""@ + p.0 + "\""@
    } else {
        p.0
    }
}

/// `yt-dlp` followed by each part, shown, after a single space.
pub open spec fn command_line(ps: Seq<(Seq<char>, bool)>) -> Seq<char>
    decreases ps.len(),
{
    if ps.len() == 0 {
        "yt-dlp"@
    } else {
        command_line(ps.drop_last()) + " "@ + shown(ps.last())
    }
}

/// The command line shown to the user before a download: the command that
/// the download runs, or a placeholder while there is nothing to download.
pub open spec fn command_preview(r: DownloadRequestView) -> Seq<char> {
    if is_blank(request_target(r)) {
        "yt-dlp [url] ..."@
    } else {
        command_line(request_parts(r))
    }
}

/// The shell arguments that run yt-dlp with `args` as its positional
/// parameters, each passed as its own element.
pub open spec fn download_shell_argv(args: Seq<Seq<char>>) -> Seq<Seq<char>> {
    seq!["-i"@, "-c"@, "yt-dlp \"$@\""@, "bash"@] + args
}

/// The shell arguments that run a raw command line.
pub open spec fn raw_shell_argv(raw: Seq<char>) -> Seq<Seq<char>> {
    seq!["-i"@, "-c"@, raw]
}

/// Appends one argument.
fn push_arg(args: &mut Vec<CommandArg>, text: String, quoted: bool)
    ensures
        args_view(final(args)@) == args_view(old(args)@).push((text@, quoted)),
{
    let ghost before = args@;
    args.push(CommandArg { text, quoted });
    assert(args_view(args@) =~= args_view(before).push((text@, quoted)));
}

/// Every word of every flag, in order.
fn flag_words(flags: &[Flag]) -> (r: Vec<String>)
    ensures
        r.deep_view() == words_of_each(flag_strings(flags_view(flags@))),
{
    let ghost names = flag_strings(flags_view(flags@));
    let mut out: Vec<String> = Vec::new();
    let n = flags.len();
    let mut i: usize = 0;
    assert(names.take(0) =~= Seq::<Seq<char>>::empty());
    assert(out.deep_view() =~= Seq::<Seq<char>>::empty());
    while i < n
        invariant
            n == flags@.len(),
            names == flag_strings(flags_view(flags@)),
            i <= n,
            out.deep_view() == words_of_each(names.take(i as int)),
        decreases n - i,
    {
        let ghost prefix = names.take(i + 1);
        assert(prefix.drop_last() =~= names.take(i as int));
        assert(prefix.last() == flags@[i as int].flag@);
        let mut pieces = split_words(flags[i].flag);
        let ghost before = out.deep_view();
        let ghost added = pieces.deep_view();
        out.append(&mut pieces);
        assert(out.deep_view() =~= before + added);
        i = i + 1;
    }
    assert(names.take(n as int) =~= names);
    out
}

/// The arguments of a download, each marked with how the preview shows it.
pub fn command_args(req: &DownloadRequest) -> (r: Vec<CommandArg>)
    ensures
        args_view(r@) == request_parts(req@),
{
    let ghost r = req@;
    let mut args: Vec<CommandArg> = Vec::new();
    assert(args_view(args@) =~= Seq::<(Seq<char>, bool)>::empty());
    push_arg(&mut args, String::from_str("--remote-components"), false);
    push_arg(&mut args, String::from_str("ejs:github"), false);
    let ghost a1 = args_view(args@);
    match req.download_type {
        DownloadType::Video => {
            push_arg(&mut args, String::from_str("-f"), false);
            push_arg(&mut args, String::from_str(req.quality.format_string()), true);
        },
        DownloadType::Audio => {
            push_arg(&mut args, String::from_str("-x"), false);
        },
    }
    let ghost a2 = args_view(args@);
    let words = flag_words(req.extra_flags.as_slice());
    let ghost ws = words.deep_view();
    let m = words.len();
    let mut k: usize = 0;
    assert(ws.take(0) =~= Seq::<Seq<char>>::empty());
    assert(a2 + plain_parts(ws.take(0)) =~= a2);
    while k < m
        invariant
            m == words@.len(),
            ws == words.deep_view(),
            k <= m,
            args_view(args@) == a2 + plain_parts(ws.take(k as int)),
        decreases m - k,
    {
        let w = words[k].clone();
        push_arg(&mut args, w, false);
        assert(plain_parts(ws.take(k + 1)) =~= plain_parts(ws.take(k as int)).push((ws[k as int], false)));
        k = k + 1;
    }
    assert(ws.take(m as int) =~= ws);
    let ghost a3 = args_view(args@);
    push_arg(&mut args, String::from_str("-o"), false);
    push_arg(&mut args, req.download_source.output_template(req.output_dir.as_str()), true);
    let ghost a4 = args_view(args@);
    if !is_blank_str(req.archive_file.as_str()) {
        push_arg(&mut args, String::from_str("--download-archive"), false);
        push_arg(&mut args, req.archive_file.clone(), true);
    }
    let ghost a5 = args_view(args@);
    match req.download_source {
        DownloadSource::Batch => {
            push_arg(&mut args, String::from_str("--batch-file"), false);
            push_arg(&mut args, req.batch_file.clone(), true);
        },
        _ => {
            push_arg(&mut args, req.url.clone(), true);
        },
    }
    assert(args_view(args@) =~= request_parts(r));
    args
}

/// Builds the arguments handed to yt-dlp for a download.
///
/// Each flag may hold several words (e.g. `"--audio-format mp3"`); every word
/// becomes an argument of its own.
pub fn download_args(req: &DownloadRequest) -> (r: Vec<String>)
    ensures
        r.deep_view() == download_argv(req@),
{
    let args = command_args(req);
    let ghost ps = args_view(args@);
    let n = args.len();
    let mut out: Vec<String> = Vec::new();
    let mut i: usize = 0;
    assert(out.deep_view() =~= part_texts(ps.take(0)));
    while i < n
        invariant
            n == args@.len(),
            ps == args_view(args@),
            i <= n,
            out.deep_view() == part_texts(ps.take(i as int)),
        decreases n - i,
    {
        let ghost before = out.deep_view();
        let t = args[i].text.clone();
        out.push(t);
        assert(ps[i as int] == args@[i as int]@);
        assert(out.deep_view() =~= before.push(t@));
        assert(part_texts(ps.take(i + 1)) =~= part_texts(ps.take(i as int)).push(ps[i as int].0));
        assert(out.deep_view() =~= part_texts(ps.take(i + 1)));
        i = i + 1;
    }
    assert(ps.take(n as int) =~= ps);
    out
}

/// Builds the command string shown to the user before a download: the
/// exact command that the download runs, with every value from the request
/// in double quotes, or the placeholder `"yt-dlp [url] ..."` while the URL
/// (the batch file, for a batch download) is blank.
pub fn build_command_string(req: &DownloadRequest) -> (r: String)
    ensures
        r@ == command_preview(req@),
{
    let target = match req.download_source {
        DownloadSource::Batch => req.batch_file.as_str(),
        _ => req.url.as_str(),
    };
    if is_blank_str(target) {
        return String::from_str("yt-dlp [url] ...");
    }
    let args = command_args(req);
    let ghost ps = args_view(args@);
    let n = args.len();
    let mut s = String::from_str("yt-dlp");
    let mut i: usize = 0;
    assert(ps.take(0) =~= Seq::<(Seq<char>, bool)>::empty());
    while i < n
        invariant
            n == args@.len(),
            ps == args_view(args@),
            i <= n,
            s@ == command_line(ps.take(i as int)),
        decreases n - i,
    {
        assert(ps.take(i + 1).drop_last() =~= ps.take(i as int));
        assert(ps.take(i + 1).last() == args@[i as int]@);
        s.append(" ");
        if args[i].quoted {
            s.append("\"");
            s.append(args[i].text.as_str());
            s.append("\"");
        } else {
            s.append(args[i].text.as_str());
        }
        i = i + 1;
    }
    assert(ps.take(n as int) =~= ps);
    s
}

/// Builds the shell arguments that run yt-dlp with `args`.
///
/// The command text is fixed; the arguments reach yt-dlp as the shell's
/// positional parameters, so none of them is parsed by the shell.
pub fn download_shell_args(args: Vec<String>) -> (r: Vec<String>)
    ensures
        r.deep_view() == download_shell_argv(args.deep_view()),
{
    let mut out: Vec<String> = vec![
        String::from_str("-i"),
        String::from_str("-c"),
        String::from_str("yt-dlp \"$@\""),
        String::from_str("bash"),
    ];
    let ghost head = out.deep_view();
    let ghost tail = args.deep_view();
    let mut rest = args;
    out.append(&mut rest);
    assert(out.deep_view() =~= head + tail);
    assert(head =~= seq!["-i"@, "-c"@, "yt-dlp \"$@\""@, "bash"@]);
    out
}

/// Builds the shell arguments that run the raw command line `raw`.
pub fn raw_shell_args(raw: &str) -> (r: Vec<String>)
    ensures
        r.deep_view() == raw_shell_argv(raw@),
{
    let out: Vec<String> = vec![String::from_str("-i"), String::from_str("-c"), String::from_str(raw)];
    assert(out.deep_view() =~= raw_shell_argv(raw@));
    out
}

/// The shell that runs commands: the one named by the environment, else `/bin/bash`.
pub fn shell_program(from_environment: Option<String>) -> (r: String)
    ensures
        r@ == (match from_environment {
            Some(s) => s@,
            None => "/bin/bash"@,
        }),
{
    match from_environment {
        Some(s) => s,
        None => String::from_str("/bin/bash"),
    }
}

// ------------------------------------------------------------------
// How a shell reads the preview
// ------------------------------------------------------------------

/// Where a shell is in splitting a command line into words.
pub struct ScanState {
    /// The words completed so far.
    pub done: Seq<Seq<char>>,
    /// The characters of the word being read.
    pub word: Seq<char>,
    /// Whether a word is being read.
    pub in_word: bool,
    /// Whether the reader is between double quotes.
    pub quoted: bool,
}

/// One character read by the shell: double quotes open and close a quoted
/// stretch and are dropped; white space outside quotes ends a word; every
/// other character belongs to the current word.
pub open spec fn scan_step(st: ScanState, c: char) -> ScanState {
    if st.quoted {
        if c == '"' {
            ScanState { quoted: false, ..st }
        } else {
            ScanState { word: st.word.push(c), ..st }
        }
    } else if c == '"' {
        ScanState { in_word: true, quoted: true, ..st }
    } else if is_white_space(c) {
        if st.in_word {
            ScanState { done: st.done.push(st.word), word: seq![], in_word: false, quoted: false }
        } else {
            st
        }
    } else {
        ScanState { word: st.word.push(c), in_word: true, ..st }
    }
}

/// The state after reading `s` from `st`.
pub open spec fn scan(s: Seq<char>, st: ScanState) -> ScanState
    decreases s.len(),
{
    if s.len() == 0 {
        st
    } else {
        scan(s.drop_first(), scan_step(st, s[0]))
    }
}

pub open spec fn scan_start() -> ScanState {
    ScanState { done: seq![], word: seq![], in_word: false, quoted: false }
}

/// The words a POSIX shell makes of a command line that uses double quotes
/// and no other quoting or expansion.
pub open spec fn shell_words(s: Seq<char>) -> Seq<Seq<char>> {
    let st = scan(s, scan_start());
    if st.in_word {
        st.done.push(st.word)
    } else {
        st.done
    }
}

/// An argument that reaches the shell unchanged through its preview: it holds
/// no double quote, and, when shown without quotes, it is a non-empty run of
/// characters that are not white space.
pub open spec fn previews_faithfully(p: (Seq<char>, bool)) -> bool {
    &&& forall|k: int| 0 <= k < p.0.len() ==> p.0[k] != '"'
    &&& !p.1 ==> p.0.len() > 0 && forall|k: int| 0 <= k < p.0.len() ==> !is_white_space(#[trigger] p.0[k])
}

proof fn lemma_scan_concat(a: Seq<char>, b: Seq<char>, st: ScanState)
    ensures
        scan(a + b, st) == scan(b, scan(a, st)),
    decreases a.len(),
{
    if a.len() == 0 {
        assert(a + b =~= b);
    } else {
        assert((a + b).drop_first() =~= a.drop_first() + b);
        assert((a + b)[0] == a[0]);
        lemma_scan_concat(a.drop_first(), b, scan_step(st, a[0]));
    }
}

/// Reading characters that neither open nor close quotes nor (outside quotes)
/// end the word adds them to the word.
proof fn lemma_scan_ordinary(t: Seq<char>, st: ScanState)
    requires
        st.in_word,
        forall|k: int| 0 <= k < t.len() ==> t[k] != '"',
        !st.quoted ==> forall|k: int| 0 <= k < t.len() ==> !is_white_space(#[trigger] t[k]),
    ensures
        scan(t, st) == (ScanState { word: st.word + t, ..st }),
    decreases t.len(),
{
    if t.len() == 0 {
        assert(st.word + t =~= st.word);
    } else {
        let next = ScanState { word: st.word.push(t[0]), ..st };
        assert(scan_step(st, t[0]) == next);
        assert forall|k: int| 0 <= k < t.drop_first().len() implies t.drop_first()[k] != '"' by {
            assert(t.drop_first()[k] == t[k + 1]);
        }
        if !st.quoted {
            assert forall|k: int| 0 <= k < t.drop_first().len() implies !is_white_space(
                #[trigger] t.drop_first()[k],
            ) by {
                assert(t.drop_first()[k] == t[k + 1]);
            }
        }
        lemma_scan_ordinary(t.drop_first(), next);
        assert(st.word.push(t[0]) + t.drop_first() =~= st.word + t);
    }
}

/// Reading a space and then a faithfully previewed argument, after a word,
/// completes that word and leaves the argument as the word being read.
proof fn lemma_scan_part(done: Seq<Seq<char>>, word: Seq<char>, p: (Seq<char>, bool))
    requires
        previews_faithfully(p),
    ensures
        scan(" "@ + shown(p), ScanState { done, word, in_word: true, quoted: false }) == (ScanState {
            done: done.push(word),
            word: p.0,
            in_word: true,
            quoted: false,
        }),
{
    reveal_strlit(" ");
    reveal_strlit("\"");
    let st = ScanState { done, word, in_word: true, quoted: false };
    let after_space = ScanState { done: done.push(word), word: seq![], in_word: false, quoted: false };
    assert(" "@ =~= seq![' ']);
    assert(is_white_space(' '));
    lemma_scan_concat(seq![' '], shown(p), st);
    assert(seq![' '].drop_first() =~= Seq::<char>::empty());
    assert(seq![' '][0] == ' ');
    assert(scan_step(st, ' ') == after_space);
    assert(scan(Seq::<char>::empty(), after_space) == after_space);
    assert(scan(seq![' '], st) == after_space);
    let t = p.0;
    if p.1 {
        assert("\""@ =~= seq!['"']);
        let opened = ScanState { in_word: true, quoted: true, ..after_space };
        lemma_scan_concat(seq!['"'] + t, seq!['"'], after_space);
        lemma_scan_concat(seq!['"'], t, after_space);
        assert(seq!['"'].drop_first() =~= Seq::<char>::empty());
        assert(seq!['"'][0] == '"');
        assert(scan_step(after_space, '"') == opened);
        assert(scan(Seq::<char>::empty(), opened) == opened);
        assert(scan(seq!['"'], after_space) == opened);
        lemma_scan_ordinary(t, opened);
        assert(Seq::<char>::empty() + t =~= t);
        let read = ScanState { word: t, ..opened };
        assert(scan_step(read, '"') == ScanState { quoted: false, ..read });
        assert(scan(Seq::<char>::empty(), ScanState { quoted: false, ..read }) == ScanState { quoted: false, ..read });
        assert(scan(seq!['"'], read) == ScanState { quoted: false, ..read });
        assert(shown(p) =~= seq!['"'] + t + seq!['"']);
    } else {
        let first = ScanState { word: seq![t[0]], in_word: true, ..after_space };
        assert(!is_white_space(t[0]));
        assert(scan_step(after_space, t[0]) == first);
        assert forall|k: int| 0 <= k < t.drop_first().len() implies t.drop_first()[k] != '"' by {
            assert(t.drop_first()[k] == t[k + 1]);
        }
        assert forall|k: int| 0 <= k < t.drop_first().len() implies !is_white_space(
            #[trigger] t.drop_first()[k],
        ) by {
            assert(t.drop_first()[k] == t[k + 1]);
        }
        lemma_scan_ordinary(t.drop_first(), first);
        assert(seq![t[0]] + t.drop_first() =~= t);
    }
}

/// The state after reading the command line of `ps`: every earlier word
/// done, the last one still being read.
proof fn lemma_scan_command_line(ps: Seq<(Seq<char>, bool)>)
    requires
        forall|i: int| 0 <= i < ps.len() ==> previews_faithfully(#[trigger] ps[i]),
    ensures
        scan(command_line(ps), scan_start()) == (ScanState {
            done: (seq!["yt-dlp"@] + part_texts(ps)).drop_last(),
            word: (seq!["yt-dlp"@] + part_texts(ps)).last(),
            in_word: true,
            quoted: false,
        }),
    decreases ps.len(),
{
    let all = seq!["yt-dlp"@] + part_texts(ps);
    if ps.len() == 0 {
        reveal_strlit("yt-dlp");
        let name = "yt-dlp"@;
        assert(name =~= seq!['y', 't', '-', 'd', 'l', 'p']);
        let first = ScanState { word: seq!['y'], in_word: true, ..scan_start() };
        assert(scan_step(scan_start(), 'y') == first);
        let rest = name.drop_first();
        assert(rest =~= seq!['t', '-', 'd', 'l', 'p']);
        assert forall|k: int| 0 <= k < rest.len() implies rest[k] != '"' && !is_white_space(
            #[trigger] rest[k],
        ) by {
            if k == 0 {
            } else if k == 1 {
            } else if k == 2 {
            } else if k == 3 {
            } else {
            }
        }
        lemma_scan_ordinary(rest, first);
        assert(seq!['y'] + rest =~= name);
        assert(all =~= seq![name]);
        assert(all.drop_last() =~= Seq::<Seq<char>>::empty());
    } else {
        let init = ps.drop_last();
        assert forall|i: int| 0 <= i < init.len() implies previews_faithfully(#[trigger] init[i]) by {
            assert(init[i] == ps[i]);
        }
        lemma_scan_command_line(init);
        let before = seq!["yt-dlp"@] + part_texts(init);
        assert(command_line(ps) =~= command_line(init) + (" "@ + shown(ps.last())));
        lemma_scan_concat(command_line(init), " "@ + shown(ps.last()), scan_start());
        assert(previews_faithfully(ps[ps.len() - 1]));
        lemma_scan_part(before.drop_last(), before.last(), ps.last());
        assert(before.drop_last().push(before.last()) =~= before);
        assert(all =~= before.push(ps.last().0));
        assert(all.drop_last() =~= before);
    }
}

/// The command preview is the command that runs: when every argument
/// previews faithfully (no argument holds a double quote, and every unquoted
/// one is a non-empty run of non-white-space characters), the words a shell
/// makes of the preview are `yt-dlp` followed by exactly the arguments that
/// the download hands to yt-dlp, in the same order.
pub proof fn lemma_preview_is_the_command(r: DownloadRequestView)
    requires
        !is_blank(request_target(r)),
        forall|i: int| 0 <= i < request_parts(r).len() ==> previews_faithfully(
            #[trigger] request_parts(r)[i],
        ),
    ensures
        shell_words(command_preview(r)) == seq!["yt-dlp"@] + download_argv(r),
{
    let ps = request_parts(r);
    lemma_scan_command_line(ps);
    let all = seq!["yt-dlp"@] + part_texts(ps);
    assert(all.drop_last().push(all.last()) =~= all);
}

proof fn lemma_part_texts_add(a: Seq<(Seq<char>, bool)>, b: Seq<(Seq<char>, bool)>)
    ensures
        part_texts(a + b) == part_texts(a) + part_texts(b),
{
    assert(part_texts(a + b) =~= part_texts(a) + part_texts(b));
}

/// The arguments of a download, split where the archive option goes: the
/// arguments before it, the archive option and its file when the archive path
/// is not blank, then the URL or batch file.
proof fn lemma_download_argv_layout(r: DownloadRequestView)
    ensures
        download_argv(r) == seq!["--remote-components"@, "ejs:github"@] + (match r.download_type {
            DownloadType::Video => seq!["-f"@, quality_format(r.quality)],
            DownloadType::Audio => seq!["-x"@],
        }) + words_of_each(flag_strings(r.extra_flags)) + seq![
            "-o"@,
            output_template_for(r.download_source, r.output_dir),
        ] + (if is_blank(r.archive_file) {
            Seq::<Seq<char>>::empty()
        } else {
            seq!["--download-archive"@, r.archive_file]
        }) + (if r.download_source is Batch {
            seq!["--batch-file"@, r.batch_file]
        } else {
            seq![r.url]
        }),
{
    let a = seq![("--remote-components"@, false), ("ejs:github"@, false)];
    let b: Seq<(Seq<char>, bool)> = match r.download_type {
        DownloadType::Video => seq![("-f"@, false), (quality_format(r.quality), true)],
        DownloadType::Audio => seq![("-x"@, false)],
    };
    let ws = words_of_each(flag_strings(r.extra_flags));
    let c = plain_parts(ws);
    let d = seq![("-o"@, false), (output_template_for(r.download_source, r.output_dir), true)];
    let e: Seq<(Seq<char>, bool)> = if is_blank(r.archive_file) {
        seq![]
    } else {
        seq![("--download-archive"@, false), (r.archive_file, true)]
    };
    let f: Seq<(Seq<char>, bool)> = if r.download_source is Batch {
        seq![("--batch-file"@, false), (r.batch_file, true)]
    } else {
        seq![(r.url, true)]
    };
    assert(request_parts(r) == a + b + c + d + e + f);
    lemma_part_texts_add(a + b + c + d + e, f);
    lemma_part_texts_add(a + b + c + d, e);
    lemma_part_texts_add(a + b + c, d);
    lemma_part_texts_add(a + b, c);
    lemma_part_texts_add(a, b);
    assert(part_texts(a) =~= seq!["--remote-components"@, "ejs:github"@]);
    assert(part_texts(c) =~= ws);
    assert(part_texts(d) =~= seq!["-o"@, output_template_for(r.download_source, r.output_dir)]);
    match r.download_type {
        DownloadType::Video => assert(part_texts(b) =~= seq!["-f"@, quality_format(r.quality)]),
        DownloadType::Audio => assert(part_texts(b) =~= seq!["-x"@]),
    }
    if is_blank(r.archive_file) {
        assert(part_texts(e) =~= Seq::<Seq<char>>::empty());
    } else {
        assert(part_texts(e) =~= seq!["--download-archive"@, r.archive_file]);
    }
    if r.download_source is Batch {
        assert(part_texts(f) =~= seq!["--batch-file"@, r.batch_file]);
    } else {
        assert(part_texts(f) =~= seq![r.url]);
    }
}

/// The download archive is used for every source: when its path is not
/// blank, the arguments hold `--download-archive` immediately followed by the
/// path; when it is blank, no argument is `--download-archive` (unless a
/// chosen flag, the URL or the batch file spells that option itself).
pub proof fn lemma_archive_is_passed(r: DownloadRequestView)
    ensures
        !is_blank(r.archive_file) ==> exists|i: int|
            0 <= i && i + 1 < download_argv(r).len() && #[trigger] download_argv(r)[i]
                == "--download-archive"@ && download_argv(r)[i + 1] == r.archive_file,
        is_blank(r.archive_file) && !words_of_each(flag_strings(r.extra_flags)).contains(
            "--download-archive"@,
        ) && r.url != "--download-archive"@ && r.batch_file != "--download-archive"@
            ==> !download_argv(r).contains("--download-archive"@),
{
    lemma_download_argv_layout(r);
    let argv = download_argv(r);
    let ws = words_of_each(flag_strings(r.extra_flags));
    let tmpl = output_template_for(r.download_source, r.output_dir);
    let lb: int = match r.download_type {
        DownloadType::Video => 2,
        DownloadType::Audio => 1,
    };
    let k = 2 + lb + ws.len() + 2;
    if !is_blank(r.archive_file) {
        assert(argv[k] == "--download-archive"@ && argv[k + 1] == r.archive_file);
    }
    if is_blank(r.archive_file) && !ws.contains("--download-archive"@) && r.url != "--download-archive"@
        && r.batch_file != "--download-archive"@ {
        reveal_strlit("--download-archive");
        reveal_strlit("--remote-components");
        reveal_strlit("ejs:github");
        reveal_strlit("-f");
        reveal_strlit("-x");
        reveal_strlit("-o");
        reveal_strlit("--batch-file");
        reveal_strlit("bestvideo+bestaudio/best");
        reveal_strlit("bestvideo[height<=1080]+bestaudio/best[height<=1080]");
        reveal_strlit("bestvideo[height<=720]+bestaudio/best[height<=720]");
        reveal_strlit("bestvideo[height<=480]+bestaudio/best[height<=480]");
        reveal_strlit("/%(title)s - [%(uploader)s - %(upload_date>%b %d %Y)s].%(ext)s");
        reveal_strlit(
            "/Playlists/@%(uploader)s/%(playlist_title)s/%(playlist_index)03d - %(title)s - [%(upload_date>%b %Y)s].%(ext)s",
        );
        reveal_strlit("/Channels/@%(uploader)s/%(title)s - [%(upload_date>%b %Y)s].%(ext)s");
        assert(tmpl.len() > 18);
        assert(quality_format(r.quality).len() > 18);
        let n = 2 + lb + ws.len();
        assert forall|i: int| 0 <= i < argv.len() implies argv[i] != "--download-archive"@ by {
            if i < 2 + lb {
                assert(argv[i].len() != 18);
            } else if i < n {
                assert(argv[i] == ws[i - 2 - lb]);
            } else if i == n {
                assert(argv[i] == "-o"@);
            } else if i == n + 1 {
                assert(argv[i] == tmpl);
            } else if r.download_source is Batch {
                if i == n + 2 {
                    assert(argv[i] == "--batch-file"@);
                } else {
                    assert(argv[i] == r.batch_file);
                }
            } else {
                assert(argv[i] == r.url);
            }
        }
    }
}

/// `yt-dlp`, then a space, then the first part as shown.
proof fn lemma_command_line_start(ps: Seq<(Seq<char>, bool)>)
    requires
        ps.len() >= 1,
        shown(ps[0]).len() >= 1,
    ensures
        command_line(ps).len() >= 8,
        command_line(ps)[7] == shown(ps[0])[0],
    decreases ps.len(),
{
    reveal_strlit("yt-dlp");
    reveal_strlit(" ");
    let pre = command_line(ps.drop_last());
    assert(command_line(ps) == pre + " "@ + shown(ps.last()));
    if ps.len() > 1 {
        assert(ps.drop_last()[0] == ps[0]);
        lemma_command_line_start(ps.drop_last());
        assert((pre + " "@ + shown(ps.last()))[7] == pre[7]);
    } else {
        assert(ps.drop_last().len() == 0);
        assert(pre == "yt-dlp"@);
        assert(ps.last() == ps[0]);
        assert((pre + " "@ + shown(ps.last()))[7] == shown(ps[0])[0]);
    }
}

/// The placeholder stands in for the command exactly while there is nothing
/// to download: for a batch download while the batch file is blank, for every
/// other source (single URL, playlist or channel) while the URL is blank.
/// Otherwise the preview is the full command line.
pub proof fn lemma_placeholder_only_without_target(r: DownloadRequestView)
    ensures
        !(r.download_source is Batch) ==> (command_preview(r) == "yt-dlp [url] ..."@ <==> is_blank(
            r.url,
        )),
        r.download_source is Batch ==> (command_preview(r) == "yt-dlp [url] ..."@ <==> is_blank(
            r.batch_file,
        )),
        !(r.download_source is Batch) && !is_blank(r.url) ==> command_preview(r) == command_line(
            request_parts(r),
        ),
        r.download_source is Batch && !is_blank(r.batch_file) ==> command_preview(r) == command_line(
            request_parts(r),
        ),
{
    let ps = request_parts(r);
    reveal_strlit("--remote-components");
    reveal_strlit("yt-dlp [url] ...");
    assert(ps[0] == ("--remote-components"@, false));
    lemma_command_line_start(ps);
    assert(command_line(ps)[7] == '-');
    assert(command_line(ps) != "yt-dlp [url] ..."@);
}

// ------------------------------------------------------------------
// The log and running state of a run
// ------------------------------------------------------------------

/// How waiting for a finished process ended.
pub enum WaitOutcome {
    /// The process was no longer in the shared slot: the user stopped it.
    Detached,
    /// The process exited successfully.
    Succeeded,
    /// The process exited unsuccessfully; the exit status as text.
    Failed(String),
    /// Waiting failed; the error as text.
    WaitError(String),
}

/// What a request to stop the running process found and did.
pub enum KillOutcome {
    /// No process was running.
    NoChild,
    /// The process was sent a kill signal.
    Killed,
    /// Killing the process failed; the error as text.
    KillFailed(String),
}

/// The lines shown in the log panel and whether a command is running.
pub struct Console {
    /// Log lines, oldest first.
    pub log_lines: Vec<String>,
    /// Whether a download or raw command is in progress.
    pub is_running: bool,
}

/// The mathematical value of a [`Console`].
pub struct ConsoleView {
    pub lines: Seq<Seq<char>>,
    pub running: bool,
}

impl View for Console {
    type V = ConsoleView;

    open spec fn view(&self) -> ConsoleView {
        ConsoleView { lines: self.log_lines.deep_view(), running: self.is_running }
    }
}

/// A download starts with a fresh log.
pub open spec fn after_begin_download(c: ConsoleView) -> ConsoleView {
    ConsoleView { lines: seq!["▶ Starting download…"@], running: true }
}

/// yt-dlp could not be started.
pub open spec fn after_spawn_failure(c: ConsoleView, error: Seq<char>) -> ConsoleView {
    ConsoleView {
        lines: c.lines + seq![
            "✗ Failed to spawn yt-dlp: "@ + error,
            "  Make sure yt-dlp is installed and in your PATH."@,
        ],
        running: false,
    }
}

/// A line of standard output is shown as it is.
pub open spec fn after_output(c: ConsoleView, line: Seq<char>) -> ConsoleView {
    ConsoleView { lines: c.lines.push(line), running: c.running }
}

/// A line of standard error is shown behind a warning sign.
pub open spec fn after_error_output(c: ConsoleView, line: Seq<char>) -> ConsoleView {
    ConsoleView { lines: c.lines.push("⚠ "@ + line), running: c.running }
}

/// The lines that report how a download ended. A failed exit is only
/// reported while the download still counts as running, so a download the
/// user stopped is not reported as failed.
pub open spec fn wait_report(c: ConsoleView, outcome: WaitOutcome) -> Seq<Seq<char>> {
    match outcome {
        WaitOutcome::Detached => seq![],
        WaitOutcome::Succeeded => seq!["✔ Download complete!"@],
        WaitOutcome::Failed(status) => if c.running {
            seq!["✗ yt-dlp exited with: "@ + status@]
        } else {
            seq![]
        },
        WaitOutcome::WaitError(e) => seq!["✗ Wait error: "@ + e@],
    }
}

/// A download ended.
pub open spec fn after_download_end(c: ConsoleView, outcome: WaitOutcome) -> ConsoleView {
    ConsoleView { lines: c.lines + wait_report(c, outcome), running: false }
}

/// The lines that report a stop request.
pub open spec fn cancel_report(outcome: KillOutcome) -> Seq<Seq<char>> {
    match outcome {
        KillOutcome::NoChild => seq![],
        KillOutcome::Killed => seq!["⛔ Download canceled by user."@],
        KillOutcome::KillFailed(e) => seq!["✗ Failed to kill process: "@ + e@],
    }
}

/// The user asked to stop the running process.
pub open spec fn after_cancel(c: ConsoleView, outcome: KillOutcome) -> ConsoleView {
    ConsoleView { lines: c.lines + cancel_report(outcome), running: false }
}

/// A raw command is refused while another command runs (the terminal panel
/// is disabled then); otherwise it is echoed behind `$ `, and a blank command
/// is not run.
pub open spec fn after_begin_raw(c: ConsoleView, raw: Seq<char>) -> ConsoleView {
    if c.running {
        c
    } else {
        ConsoleView { lines: c.lines.push("$ "@ + raw), running: !is_blank(raw) }
    }
}

/// The shell for a raw command could not be started.
pub open spec fn after_raw_spawn_failure(c: ConsoleView, error: Seq<char>) -> ConsoleView {
    ConsoleView { lines: c.lines.push("✗ "@ + error), running: false }
}

/// A raw command ended; its exit status is not reported.
pub open spec fn after_raw_end(c: ConsoleView) -> ConsoleView {
    ConsoleView { lines: c.lines, running: false }
}

impl Console {
    /// An empty log with nothing running.
    pub fn new() -> (r: Console)
        ensures
            r@.lines == Seq::<Seq<char>>::empty(),
            !r@.running,
    {
        let r = Console { log_lines: Vec::new(), is_running: false };
        assert(r@.lines =~= Seq::<Seq<char>>::empty());
        r
    }

    /// A download starts: the log is cleared and shows the start line.
    pub fn begin_download(&mut self)
        ensures
            final(self)@ == after_begin_download(old(self)@),
    {
        self.is_running = true;
        self.log_lines.clear();
        self.log_lines.push(String::from_str("▶ Starting download…"));
        assert(self.log_lines.deep_view() =~= seq!["▶ Starting download…"@]);
    }

    /// yt-dlp could not be started; `error` describes why.
    pub fn spawn_failed(&mut self, error: &str)
        ensures
            final(self)@ == after_spawn_failure(old(self)@, error@),
    {
        let ghost before = self.log_lines.deep_view();
        let mut first = String::from_str("✗ Failed to spawn yt-dlp: ");
        first.append(error);
        self.log_lines.push(first);
        self.log_lines.push(String::from_str("  Make sure yt-dlp is installed and in your PATH."));
        self.is_running = false;
        assert(self.log_lines.deep_view() =~= before + seq![
            "✗ Failed to spawn yt-dlp: "@ + error@,
            "  Make sure yt-dlp is installed and in your PATH."@,
        ]);
    }

    /// A line of the process's standard output.
    pub fn output_line(&mut self, line: String)
        ensures
            final(self)@ == after_output(old(self)@, line@),
    {
        let ghost before = self.log_lines.deep_view();
        self.log_lines.push(line);
        assert(self.log_lines.deep_view() =~= before.push(line@));
    }

    /// A line of the process's standard error.
    pub fn error_line(&mut self, line: &str)
        ensures
            final(self)@ == after_error_output(old(self)@, line@),
    {
        let ghost before = self.log_lines.deep_view();
        let mut shown = String::from_str("⚠ ");
        shown.append(line);
        self.log_lines.push(shown);
        assert(self.log_lines.deep_view() =~= before.push("⚠ "@ + line@));
    }

    /// A download ended as `outcome` says.
    pub fn download_finished(&mut self, outcome: WaitOutcome)
        ensures
            final(self)@ == after_download_end(old(self)@, outcome),
    {
        let ghost before = self.log_lines.deep_view();
        let ghost report = wait_report(self@, outcome);
        match outcome {
            WaitOutcome::Detached => {},
            WaitOutcome::Succeeded => {
                self.log_lines.push(String::from_str("✔ Download complete!"));
            },
            WaitOutcome::Failed(status) => {
                if self.is_running {
                    let mut shown = String::from_str("✗ yt-dlp exited with: ");
                    shown.append(status.as_str());
                    self.log_lines.push(shown);
                }
            },
            WaitOutcome::WaitError(e) => {
                let mut shown = String::from_str("✗ Wait error: ");
                shown.append(e.as_str());
                self.log_lines.push(shown);
            },
        }
        self.is_running = false;
        assert(self.log_lines.deep_view() =~= before + report);
    }

    /// The user asked to stop the running process; `outcome` says what the
    /// stop request found and did. Nothing is running afterwards.
    pub fn cancel(&mut self, outcome: KillOutcome)
        ensures
            final(self)@ == after_cancel(old(self)@, outcome),
    {
        let ghost before = self.log_lines.deep_view();
        let ghost report = cancel_report(outcome);
        match outcome {
            KillOutcome::NoChild => {},
            KillOutcome::Killed => {
                self.log_lines.push(String::from_str("⛔ Download canceled by user."));
            },
            KillOutcome::KillFailed(e) => {
                let mut shown = String::from_str("✗ Failed to kill process: ");
                shown.append(e.as_str());
                self.log_lines.push(shown);
            },
        }
        self.is_running = false;
        assert(self.log_lines.deep_view() =~= before + report);
    }

    /// A raw command line is about to run. While another command runs it is
    /// refused and nothing changes; otherwise it is echoed to the log. Returns
    /// whether it should be started (not while running, and not when blank).
    pub fn begin_raw(&mut self, raw: &str) -> (start: bool)
        ensures
            final(self)@ == after_begin_raw(old(self)@, raw@),
            start == (!old(self)@.running && !is_blank(raw@)),
    {
        if self.is_running {
            return false;
        }
        let ghost before = self.log_lines.deep_view();
        self.is_running = true;
        let mut shown = String::from_str("$ ");
        shown.append(raw);
        self.log_lines.push(shown);
        assert(self.log_lines.deep_view() =~= before.push("$ "@ + raw@));
        if is_blank_str(raw) {
            self.is_running = false;
            return false;
        }
        true
    }

    /// The shell for a raw command could not be started; `error` says why.
    pub fn raw_spawn_failed(&mut self, error: &str)
        ensures
            final(self)@ == after_raw_spawn_failure(old(self)@, error@),
    {
        let ghost before = self.log_lines.deep_view();
        let mut shown = String::from_str("✗ ");
        shown.append(error);
        self.log_lines.push(shown);
        self.is_running = false;
        assert(self.log_lines.deep_view() =~= before.push("✗ "@ + error@));
    }

    /// A raw command ended.
    pub fn raw_finished(&mut self)
        ensures
            final(self)@ == after_raw_end(old(self)@),
    {
        self.is_running = false;
    }
}

// ------------------------------------------------------------------
// Laws
// ------------------------------------------------------------------

/// A download that the user stopped is not reported as failed: after a stop
/// request, an unsuccessful exit adds no line to the log.
pub proof fn lemma_stopped_download_not_reported_failed(
    c: ConsoleView,
    kill: KillOutcome,
    status: String,
)
    ensures
        after_download_end(after_cancel(c, kill), WaitOutcome::Failed(status)).lines == after_cancel(
            c,
            kill,
        ).lines,
{
    assert(after_cancel(c, kill).lines + seq![] =~= after_cancel(c, kill).lines);
}

/// Only the start of a download replaces the log; every other event keeps
/// the lines already shown and adds after them.
pub proof fn lemma_log_is_append_only(
    c: ConsoleView,
    line: Seq<char>,
    error: Seq<char>,
    wait: WaitOutcome,
    kill: KillOutcome,
)
    ensures
        c.lines.is_prefix_of(after_spawn_failure(c, error).lines),
        c.lines.is_prefix_of(after_output(c, line).lines),
        c.lines.is_prefix_of(after_error_output(c, line).lines),
        c.lines.is_prefix_of(after_download_end(c, wait).lines),
        c.lines.is_prefix_of(after_cancel(c, kill).lines),
        c.lines.is_prefix_of(after_begin_raw(c, line).lines),
        c.lines.is_prefix_of(after_raw_spawn_failure(c, error).lines),
        c.lines.is_prefix_of(after_raw_end(c).lines),
        after_begin_download(c).lines.len() == 1,
{
}

/// Every event that ends a run, and every stop request, leaves nothing running.
pub proof fn lemma_run_end_clears_running(
    c: ConsoleView,
    error: Seq<char>,
    wait: WaitOutcome,
    kill: KillOutcome,
)
    ensures
        !after_spawn_failure(c, error).running,
        !after_download_end(c, wait).running,
        !after_cancel(c, kill).running,
        !after_raw_spawn_failure(c, error).running,
        !after_raw_end(c).running,
{
}


} // verus!
