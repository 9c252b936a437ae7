//! Verifying that a stream plays: which check to run, and what its output
//! amounts to.
use vstd::prelude::*;
use vstd::utf8::{decode_utf8, valid_utf8};

use crate::text::{
    begins, contains, first_word, lowered, occurs, owned, second_word, texts, to_lower, two_words,
};

verus! {

/// What `String::from_utf8_lossy` makes of bytes.
pub uninterp spec fn lossy_text(bytes: Seq<u8>) -> Seq<char>;

/// `String::from_utf8_lossy`: the text that the bytes encode where they are
/// valid UTF-8; what stands for an invalid stretch is named, not stated.
#[verifier::external_body]
fn lossy(bytes: &[u8]) -> (r: String)
    ensures
        r@ == lossy_text(bytes@),
        valid_utf8(bytes@) ==> r@ == decode_utf8(bytes@),
{
    String::from_utf8_lossy(bytes).into_owned()
}

/// What to do next to verify a stream.
#[derive(Clone, Copy, PartialEq, Eq, Structural)]
pub enum ProbeStep {
    /// Nothing more: the stream plays or does not.
    Verdict(bool),
    /// Run `ffprobe`, which opens the stream and looks for an audio track.
    Ffprobe,
    /// Run `curl`, which asks for the stream over HTTP.
    Curl,
}

/// The first step: a station without a URL plays nothing, every other is opened
/// with `ffprobe`.
pub open spec fn first_step(url: Seq<char>) -> ProbeStep {
    if url.len() == 0 {
        ProbeStep::Verdict(false)
    } else {
        ProbeStep::Ffprobe
    }
}

/// The first step.
pub fn probe_start(url: &str) -> (r: ProbeStep)
    ensures
        r == first_step(url@),
{
    if url.is_empty() {
        ProbeStep::Verdict(false)
    } else {
        ProbeStep::Ffprobe
    }
}

/// The arguments for `ffprobe`.
pub open spec fn ffprobe_arguments(url: Seq<char>) -> Seq<Seq<char>> {
    seq![
        "-v"@,
        "error"@,
        "-rw_timeout"@,
        "4000000"@,
        "-analyzeduration"@,
        "2000000"@,
        "-probesize"@,
        "500000"@,
        "-select_streams"@,
        "a:0"@,
        "-show_entries"@,
        "stream=codec_name"@,
        "-of"@,
        "default=nw=1:nk=1"@,
        "-i"@,
        url,
    ]
}

/// The arguments for `ffprobe`: print the name of the first audio track's codec.
pub fn ffprobe_args(url: &str) -> (r: Vec<String>)
    ensures
        texts(r@) == ffprobe_arguments(url@),
{
    let r = owned(
        &[
            "-v",
            "error",
            "-rw_timeout",
            "4000000",
            "-analyzeduration",
            "2000000",
            "-probesize",
            "500000",
            "-select_streams",
            "a:0",
            "-show_entries",
            "stream=codec_name",
            "-of",
            "default=nw=1:nk=1",
            "-i",
            url,
        ],
    );
    assert(texts(r@) == ffprobe_arguments(url@));
    r
}

/// Whether a byte is white space in ASCII.
pub open spec fn ascii_white(b: u8) -> bool {
    b == 0x20 || b == 0x09 || b == 0x0a || b == 0x0c || b == 0x0d
}

/// Whether some byte is not white space.
pub open spec fn has_ink(bytes: Seq<u8>) -> bool {
    exists|i: int| 0 <= i < bytes.len() && !ascii_white(#[trigger] bytes[i])
}

fn inked(bytes: &[u8]) -> (r: bool)
    ensures
        r == has_ink(bytes@),
{
    let mut i: usize = 0;
    while i < bytes.len()
        invariant
            i <= bytes.len(),
            forall|j: int| 0 <= j < i ==> ascii_white(#[trigger] bytes@[j]),
        decreases bytes.len() - i,
    {
        let b: u8 = bytes[i];
        if !(b == 0x20 || b == 0x09 || b == 0x0a || b == 0x0c || b == 0x0d) {
            assert(!ascii_white(bytes@[i as int]));
            return true;
        }
        i += 1;
    }
    false
}

/// How a checking command ended: successfully or not, with this output.
pub struct Ended {
    pub success: bool,
    pub stdout: Vec<u8>,
}

/// Whether a run of `ffprobe` found an audio track: it succeeded and printed a
/// codec's name.
pub open spec fn found_audio(run: Ended) -> bool {
    run.success && has_ink(run.stdout@)
}

/// The step after `ffprobe`: its verdict, or `curl` where it could not be started.
pub open spec fn second_step(run: Option<Ended>) -> ProbeStep {
    match run {
        Some(e) => ProbeStep::Verdict(found_audio(e)),
        None => ProbeStep::Curl,
    }
}

/// The step after `ffprobe`, which `None` says could not be started.
pub fn after_ffprobe(run: &Option<Ended>) -> (r: ProbeStep)
    ensures
        r == second_step(*run),
{
    match run {
        Some(e) => ProbeStep::Verdict(e.success && inked(e.stdout.as_slice())),
        None => ProbeStep::Curl,
    }
}

/// The arguments for `curl`.
pub open spec fn http_arguments(url: Seq<char>) -> Seq<Seq<char>> {
    seq![
        "-s"@,
        "-L"@,
        "--connect-timeout"@,
        "3"@,
        "-m"@,
        "4"@,
        "-A"@,
        "world-radio-tui/0.1"@,
        "-o"@,
        "/dev/null"@,
        "-w"@,
        "%{http_code} %{content_type}"@,
        url,
    ]
}

/// The arguments for `curl`: follow redirects, and print the status code and the
/// content type.
pub fn http_args(url: &str) -> (r: Vec<String>)
    ensures
        texts(r@) == http_arguments(url@),
{
    let r = owned(
        &[
            "-s",
            "-L",
            "--connect-timeout",
            "3",
            "-m",
            "4",
            "-A",
            "world-radio-tui/0.1",
            "-o",
            "/dev/null",
            "-w",
            "%{http_code} %{content_type}",
            url,
        ],
    );
    assert(texts(r@) == http_arguments(url@));
    r
}

/// Whether a content type is that of a document, not of a stream.
pub open spec fn is_document(ctype: Seq<char>) -> bool {
    ||| "text/"@.is_prefix_of(ctype)
    ||| occurs(ctype, "html"@)
    ||| occurs(ctype, "json"@)
    ||| occurs(ctype, "xml"@)
}

/// Whether a status code and a content type, in one text, are those of a stream.
pub open spec fn is_stream(reply: Seq<char>) -> bool {
    &&& "2"@.is_prefix_of(first_word(reply))
    &&& !is_document(lowered(second_word(reply)))
}

/// Whether a status code and a content type, in one text, are those of a stream.
pub fn stream_reply(reply: &str) -> (r: bool)
    ensures
        r == is_stream(reply@),
{
    let (code, ctype) = two_words(reply);
    let low = to_lower(ctype.as_str());
    let t = low.as_str();
    begins(code.as_str(), "2") && !(begins(t, "text/") || contains(t, "html") || contains(t, "json")
        || contains(t, "xml"))
}

/// The verdict after `curl`: its output is that of a stream, and it could be
/// started at all.
pub open spec fn curl_verdict(stdout: Option<Vec<u8>>) -> bool {
    match stdout {
        Some(bytes) => is_stream(lossy_text(bytes@)),
        None => false,
    }
}

/// The verdict after `curl`, whose output is given; `None` where it could not be
/// started.
pub fn after_curl(stdout: &Option<Vec<u8>>) -> (r: bool)
    ensures
        r == curl_verdict(*stdout),
        match *stdout {
            Some(bytes) => valid_utf8(bytes@) ==> r == is_stream(decode_utf8(bytes@)),
            None => true,
        },
{
    match stdout {
        Some(bytes) => {
            let text = lossy(bytes.as_slice());
            stream_reply(text.as_str())
        },
        None => false,
    }
}

/// Whether a stream plays, given how `ffprobe` runs on it and what `curl` prints of
/// it. A station without a URL does not. Where `ffprobe` starts, it decides, and
/// `curl` does only where it does not.
pub open spec fn plays(url: Seq<char>, ffprobe: Option<Ended>, curl: Option<Vec<u8>>) -> bool {
    &&& url.len() > 0
    &&& match ffprobe {
        Some(run) => found_audio(run),
        None => curl_verdict(curl),
    }
}

/// How many steps can follow a step, this one included.
pub open spec fn steps_left(step: ProbeStep) -> int {
    match step {
        ProbeStep::Verdict(_) => 0,
        ProbeStep::Curl => 1,
        ProbeStep::Ffprobe => 2,
    }
}

/// The verdict that the steps from `step` on come to.
pub open spec fn probe_outcome(
    step: ProbeStep,
    ffprobe: Option<Ended>,
    curl: Option<Vec<u8>>,
) -> bool
    decreases steps_left(step),
{
    match step {
        ProbeStep::Verdict(good) => good,
        ProbeStep::Ffprobe => probe_outcome(second_step(ffprobe), ffprobe, curl),
        ProbeStep::Curl => curl_verdict(curl),
    }
}

/// Taken one after the other, the steps come to whether the stream plays.
pub proof fn steps_lead_to_the_verdict(
    url: Seq<char>,
    ffprobe: Option<Ended>,
    curl: Option<Vec<u8>>,
)
    ensures
        probe_outcome(first_step(url), ffprobe, curl) == plays(url, ffprobe, curl),
{
    reveal_with_fuel(probe_outcome, 3);
}

/// `curl` is run only for a stream with a URL on which `ffprobe` did not start, and
/// only there does what it prints count.
pub proof fn curl_counts_only_without_ffprobe(
    url: Seq<char>,
    ffprobe: Option<Ended>,
    curl: Option<Vec<u8>>,
    other: Option<Vec<u8>>,
)
    ensures
        first_step(url) != ProbeStep::Curl,
        second_step(ffprobe) == ProbeStep::Curl <==> ffprobe is None,
        url.len() == 0 || ffprobe is Some ==> plays(url, ffprobe, curl) == plays(
            url,
            ffprobe,
            other,
        ),
        url.len() > 0 && ffprobe is None ==> plays(url, ffprobe, curl) == curl_verdict(curl),
{
}

/// Where `ffprobe` starts, a stream with a URL plays exactly where it succeeded and
/// printed some byte that is no blank, tab, line feed, form feed or carriage return;
/// `curl` has no say.
pub proof fn ffprobe_decides(url: Seq<char>, run: Ended, curl: Option<Vec<u8>>)
    ensures
        plays(url, Some(run), curl) <==> {
            &&& url.len() > 0
            &&& run.success
            &&& exists|i: int|
                0 <= i < run.stdout.len() && {
                    let b = #[trigger] run.stdout@[i];
                    b != 32 && b != 9 && b != 10 && b != 12 && b != 13
                }
        },
{
    if has_ink(run.stdout@) {
        let i = choose|i: int|
            0 <= i < run.stdout.len() && !ascii_white(#[trigger] run.stdout@[i]);
        let b = run.stdout@[i];
        assert(b != 32 && b != 9 && b != 10 && b != 12 && b != 13);
    }
}

/// Where `ffprobe` does not start, a stream with a URL plays exactly where `curl`
/// starts and its output, read as text, is that of a stream.
pub proof fn curl_decides_otherwise(url: Seq<char>, bytes: Vec<u8>)
    ensures
        plays(url, None, Some(bytes)) <==> url.len() > 0 && is_stream(lossy_text(bytes@)),
        !plays(url, None, None),
{
}

/// A reply is a stream's where its first word begins with a 2 and its second, in
/// whatever case, neither begins with `text/` nor has `html`, `json` or `xml` in it.
/// A missing content type is no reason against it.
pub proof fn streams_are_told_by_status_and_type(reply: Seq<char>)
    ensures
        ({
            let code = first_word(reply);
            let kind = lowered(second_word(reply));
            &&& is_stream(reply) ==> code.len() > 0 && code[0] == '2'
            &&& is_stream(reply) ==> !"text/"@.is_prefix_of(kind)
            &&& is_stream(reply) ==> !occurs(kind, "html"@)
            &&& is_stream(reply) ==> !occurs(kind, "json"@)
            &&& is_stream(reply) ==> !occurs(kind, "xml"@)
            &&& code.len() > 0 && code[0] == '2' && !"text/"@.is_prefix_of(kind) && !occurs(
                kind,
                "html"@,
            ) && !occurs(kind, "json"@) && !occurs(kind, "xml"@) ==> is_stream(reply)
        }),
{
    reveal_strlit("2");
    let code = first_word(reply);
    if code.len() > 0 {
        assert(code.subrange(0, 1)[0] == code[0]);
        if code[0] == '2' {
            assert("2"@ == code.subrange(0, 1));
        }
    }
}

/// Whether an option stands among arguments with its value behind it.
pub open spec fn sets(args: Seq<Seq<char>>, at: int, option: Seq<char>, value: Seq<char>) -> bool {
    0 <= at && at + 1 < args.len() && args[at] == option && args[at + 1] == value
}

/// `ffprobe` is asked for the codec's name of the first audio track of the URL, as
/// plain text, with errors alone besides, and gives up on a stream that does not
/// answer for four seconds or shows nothing in two.
pub proof fn ffprobe_is_asked_for_the_audio_codec(url: Seq<char>)
    ensures
        ({
            let args = ffprobe_arguments(url);
            &&& args.len() == 16
            &&& sets(args, 0, "-v"@, "error"@)
            &&& sets(args, 2, "-rw_timeout"@, "4000000"@)
            &&& sets(args, 4, "-analyzeduration"@, "2000000"@)
            &&& sets(args, 6, "-probesize"@, "500000"@)
            &&& sets(args, 8, "-select_streams"@, "a:0"@)
            &&& sets(args, 10, "-show_entries"@, "stream=codec_name"@)
            &&& sets(args, 12, "-of"@, "default=nw=1:nk=1"@)
            &&& sets(args, 14, "-i"@, url)
        }),
{
}

/// `curl` follows redirects, waits three seconds for a connection and four in all,
/// throws the stream away, and prints its status and its content type.
pub proof fn curl_is_asked_for_status_and_type(url: Seq<char>)
    ensures
        ({
            let args = http_arguments(url);
            &&& args.len() == 13
            &&& args[0] == "-s"@ && args[1] == "-L"@
            &&& sets(args, 2, "--connect-timeout"@, "3"@)
            &&& sets(args, 4, "-m"@, "4"@)
            &&& sets(args, 6, "-A"@, "world-radio-tui/0.1"@)
            &&& sets(args, 8, "-o"@, "/dev/null"@)
            &&& sets(args, 10, "-w"@, "%{http_code} %{content_type}"@)
            &&& args.last() == url
        }),
{
}

} // verus!
