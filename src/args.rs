use vstd::prelude::*;

verus! {

pub open spec fn word_views(v: Seq<String>) -> Seq<Seq<char>> {
    v.map_values(|s: String| s@)
}

/// Options given to every run of the tool: a 15-second socket timeout, no
/// certificate checks, IPv4 only.
pub open spec fn connection_words() -> Seq<Seq<char>> {
    seq![
        "--socket-timeout"@,
        "15"@,
        "--no-check-certificate"@,
        "--force-ipv4"@,
    ]
}

/// The words of a metadata-only run: the connection options and a flat
/// playlist listing.
pub open spec fn metadata_words() -> Seq<Seq<char>> {
    connection_words() + seq!["--flat-playlist"@]
}

pub open spec fn audio_words() -> Seq<Seq<char>> {
    seq!["--extract-audio"@, "--audio-format"@, "mp3"@, "--audio-quality"@, "0"@]
}

/// The format selector: best video and best audio merged, or the best single
/// combined stream.
pub open spec fn format_selector(best_quality: bool) -> Seq<char> {
    if best_quality {
        "bestvideo+bestaudio/best"@
    } else {
        "best"@
    }
}

pub open spec fn container(preferred_format: Option<String>) -> Seq<char> {
    match preferred_format {
        Some(f) => f@,
        None => "mp4"@,
    }
}

pub open spec fn video_words(best_quality: bool, preferred_format: Option<String>) -> Seq<
    Seq<char>,
> {
    seq![
        "--format"@,
        format_selector(best_quality),
        "--merge-output-format"@,
        container(preferred_format),
    ]
}

pub open spec fn subtitle_words(download_subtitles: bool) -> Seq<Seq<char>> {
    if download_subtitles {
        seq![
            "--write-sub"@,
            "--write-auto-sub"@,
            "--sub-format"@,
            "srt"@,
            "--embed-subs"@,
            "--sub-lang"@,
            "ja,en"@,
        ]
    } else {
        seq![]
    }
}

/// The words of a download run, in order: connection options and verbose
/// output; audio extraction to MP3 at top quality, or a format selector merged
/// into the container; subtitle options when asked for; then `-o` and the
/// output path.
pub open spec fn download_words(
    audio_only: bool,
    best_quality: bool,
    download_subtitles: bool,
    preferred_format: Option<String>,
    output_path: Seq<char>,
) -> Seq<Seq<char>> {
    connection_words() + seq!["--verbose"@] + (if audio_only {
        audio_words()
    } else {
        video_words(best_quality, preferred_format)
    }) + subtitle_words(download_subtitles) + seq!["-o"@, output_path]
}

fn push_word(v: &mut Vec<String>, w: &str)
    ensures
        word_views(final(v)@) == word_views(old(v)@).push(w@),
{
    let ghost start = v@;
    v.push(String::from_str(w));
    assert(word_views(v@) =~= word_views(start).push(w@));
}

fn push_connection_words(v: &mut Vec<String>)
    ensures
        word_views(final(v)@) == word_views(old(v)@) + connection_words(),
{
    let ghost start = word_views(v@);
    push_word(v, "--socket-timeout");
    push_word(v, "15");
    push_word(v, "--no-check-certificate");
    push_word(v, "--force-ipv4");
    assert(word_views(v@) =~= start + connection_words());
}

/// The options of a metadata-only run of the tool.
pub fn metadata_args() -> (r: Vec<String>)
    ensures
        word_views(r@) == metadata_words(),
{
    let mut v: Vec<String> = Vec::new();
    push_connection_words(&mut v);
    push_word(&mut v, "--flat-playlist");
    assert(word_views(v@) =~= metadata_words());
    v
}

/// The options of a download run of the tool, from the request's flags and the
/// resolved output path.
pub fn download_args(
    audio_only: bool,
    best_quality: bool,
    download_subtitles: bool,
    preferred_format: &Option<String>,
    output_path: &str,
) -> (r: Vec<String>)
    ensures
        word_views(r@) == download_words(
            audio_only,
            best_quality,
            download_subtitles,
            *preferred_format,
            output_path@,
        ),
{
    let mut v: Vec<String> = Vec::new();
    push_connection_words(&mut v);
    push_word(&mut v, "--verbose");
    let ghost head = word_views(v@);
    if audio_only {
        push_word(&mut v, "--extract-audio");
        push_word(&mut v, "--audio-format");
        push_word(&mut v, "mp3");
        push_word(&mut v, "--audio-quality");
        push_word(&mut v, "0");
        assert(word_views(v@) =~= head + audio_words());
    } else {
        push_word(&mut v, "--format");
        if best_quality {
            push_word(&mut v, "bestvideo+bestaudio/best");
        } else {
            push_word(&mut v, "best");
        }
        push_word(&mut v, "--merge-output-format");
        match preferred_format {
            Some(f) => push_word(&mut v, f.as_str()),
            None => push_word(&mut v, "mp4"),
        }
        assert(word_views(v@) =~= head + video_words(best_quality, *preferred_format));
    }
    let ghost mid = word_views(v@);
    if download_subtitles {
        push_word(&mut v, "--write-sub");
        push_word(&mut v, "--write-auto-sub");
        push_word(&mut v, "--sub-format");
        push_word(&mut v, "srt");
        push_word(&mut v, "--embed-subs");
        push_word(&mut v, "--sub-lang");
        push_word(&mut v, "ja,en");
    }
    assert(word_views(v@) =~= mid + subtitle_words(download_subtitles));
    push_word(&mut v, "-o");
    push_word(&mut v, output_path);
    assert(word_views(v@) =~= download_words(
        audio_only,
        best_quality,
        download_subtitles,
        *preferred_format,
        output_path@,
    ));
    v
}

/// An audio-only download extracts audio, and no word before the output path
/// asks for a merged video container, a format selector or the video stream.
pub proof fn lemma_audio_download_words(
    best_quality: bool,
    download_subtitles: bool,
    preferred_format: Option<String>,
    output_path: Seq<char>,
)
    ensures
        ({
            let w = download_words(
                true,
                best_quality,
                download_subtitles,
                preferred_format,
                output_path,
            );
            &&& w.contains("--extract-audio"@)
            &&& w.last() == output_path
            &&& w[w.len() - 2] == "-o"@
            &&& forall|i: int|
                0 <= i < w.len() - 1 ==> #[trigger] w[i] != "--merge-output-format"@ && w[i]
                    != "--format"@ && w[i] != "bestvideo+bestaudio/best"@
        }),
{
    reveal_strlit("--socket-timeout");
    reveal_strlit("15");
    reveal_strlit("--no-check-certificate");
    reveal_strlit("--force-ipv4");
    reveal_strlit("--verbose");
    reveal_strlit("--extract-audio");
    reveal_strlit("--audio-format");
    reveal_strlit("mp3");
    reveal_strlit("--audio-quality");
    reveal_strlit("0");
    reveal_strlit("--write-sub");
    reveal_strlit("--write-auto-sub");
    reveal_strlit("--sub-format");
    reveal_strlit("srt");
    reveal_strlit("--embed-subs");
    reveal_strlit("--sub-lang");
    reveal_strlit("ja,en");
    reveal_strlit("-o");
    reveal_strlit("--merge-output-format");
    reveal_strlit("--format");
    reveal_strlit("bestvideo+bestaudio/best");
    let w = download_words(true, best_quality, download_subtitles, preferred_format, output_path);
    assert(w[5] == "--extract-audio"@);
    assert forall|i: int| 0 <= i < w.len() - 1 implies #[trigger] w[i] != "--merge-output-format"@
        && w[i] != "--format"@ && w[i] != "bestvideo+bestaudio/best"@ by {
        assert(w[i].len() != 21 && w[i].len() != 8 && w[i].len() != 24);
    }
}

} // verus!
