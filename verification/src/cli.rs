//! The command line, and the trial run without a screen.
use vstd::prelude::*;

use crate::station::{Station, StationModel};
use crate::text::{
    begins, contains, decimal, first_chars, occurs, pad, padded, prefix, push_decimal, same, texts,
};

verus! {

/// How large the globe is drawn in a picture.
#[derive(Clone, Copy, PartialEq, Eq, Structural, Debug)]
pub enum Scale {
    Big,
    Small,
    Normal,
}

/// What the program is asked to do.
#[derive(Clone, Copy, PartialEq, Eq, Structural, Debug)]
pub enum Mode {
    /// Print one frame as text.
    Snapshot { zoom: bool, scale: Scale, filter: bool },
    /// Fetch candidates and check a few.
    FetchTest,
    /// Run the radio.
    Run,
}

/// The picture that an argument asks for.
pub open spec fn snapshot_mode(arg: Seq<char>) -> Mode {
    Mode::Snapshot {
        zoom: occurs(arg, "zoom"@),
        scale: if occurs(arg, "big"@) {
            Scale::Big
        } else if occurs(arg, "small"@) {
            Scale::Small
        } else {
            Scale::Normal
        },
        filter: occurs(arg, "filter"@),
    }
}

/// What the arguments from `from` on ask for, where none before asked for a
/// picture: the first that begins with `--snapshot` counts, wherever it stands.
pub open spec fn mode_from(args: Seq<Seq<char>>, from: int) -> Mode
    decreases args.len() - from,
{
    if from >= args.len() {
        if args.contains("--fetch-test"@) {
            Mode::FetchTest
        } else {
            Mode::Run
        }
    } else if "--snapshot"@.is_prefix_of(args[from]) {
        snapshot_mode(args[from])
    } else {
        mode_from(args, from + 1)
    }
}

/// What the arguments ask for.
pub fn mode(args: &Vec<String>) -> (r: Mode)
    ensures
        r == mode_from(texts(args@), 0),
{
    let ghost all = texts(args@);
    let mut test = false;
    let mut i: usize = 0;
    while i < args.len()
        invariant
            i <= args.len(),
            all == texts(args@),
            mode_from(all, 0) == mode_from(all, i as int),
            test == exists|j: int| 0 <= j < i && #[trigger] all[j] == "--fetch-test"@,
        decreases args.len() - i,
    {
        let a = args[i].as_str();
        assert(all[i as int] == a@);
        if begins(a, "--snapshot") {
            let scale = if contains(a, "big") {
                Scale::Big
            } else if contains(a, "small") {
                Scale::Small
            } else {
                Scale::Normal
            };
            return Mode::Snapshot { zoom: contains(a, "zoom"), scale, filter: contains(a, "filter") };
        }
        if same(a, "--fetch-test") {
            test = true;
        }
        i += 1;
    }
    if test {
        Mode::FetchTest
    } else {
        Mode::Run
    }
}

/// How many candidates the trial checks at most.
pub const SAMPLE: usize = 24;

/// How many of so many candidates the trial checks.
pub open spec fn sample_of(candidates: int) -> int {
    if candidates < SAMPLE {
        candidates
    } else {
        SAMPLE as int
    }
}

/// How many of so many candidates the trial checks.
pub fn sample_size(candidates: usize) -> (r: usize)
    ensures
        r == sample_of(candidates as int),
{
    if candidates < SAMPLE {
        candidates
    } else {
        SAMPLE
    }
}

/// The trial's first line.
pub fn sample_heading(candidates: usize, sample: usize) -> (r: String)
    ensures
        r@ == "fetched "@ + decimal(candidates as nat) + " candidates; probing first "@ + decimal(
            sample as nat,
        ) + "…"@,
{
    let mut t = "fetched ".to_owned();
    push_decimal(&mut t, candidates);
    t.append(" candidates; probing first ");
    push_decimal(&mut t, sample);
    t.append("…");
    t
}

/// The trial's line for a station: whether it plays, its name in thirty columns,
/// and its country.
pub open spec fn trial_line(good: bool, s: StationModel) -> Seq<char> {
    "  ["@ + (if good {
        "OK  "@
    } else {
        "DEAD"@
    }) + "] "@ + padded(first_chars(s.name, 30), 30) + " "@ + s.country
}

/// The trial's line for a station.
pub fn sample_line(good: bool, s: &Station) -> (r: String)
    ensures
        r@ == trial_line(good, s@),
{
    let mut t = "  [".to_owned();
    t.append(if good { "OK  " } else { "DEAD" });
    t.append("] ");
    let name = prefix(s.name.as_str(), 30);
    t.append(pad(name.as_str(), 30).as_str());
    t.append(" ");
    t.append(s.country.as_str());
    t
}

/// How many of a hundred play, where `ok` of `sample` do.
pub open spec fn percent(ok: int, sample: int) -> int {
    if sample == 0 {
        ok * 100
    } else {
        ok * 100 / sample
    }
}

/// The trial's last line.
pub fn sample_summary(ok: usize, sample: usize) -> (r: String)
    requires
        ok <= sample <= SAMPLE,
    ensures
        r@ == decimal(ok as nat) + "/"@ + decimal(sample as nat) + " working ("@ + decimal(
            percent(ok as int, sample as int) as nat,
        ) + "% of this sample)"@,
{
    let mut t = String::new();
    push_decimal(&mut t, ok);
    t.append("/");
    push_decimal(&mut t, sample);
    t.append(" working (");
    let share: usize = if sample == 0 { ok * 100 } else { ok * 100 / sample };
    push_decimal(&mut t, share);
    t.append("% of this sample)");
    t
}

/// What the trial tells where the fetch failed.
pub fn fetch_failure(e: &str) -> (r: String)
    ensures
        r@ == "fetch failed: "@ + e@,
{
    let mut t = "fetch failed: ".to_owned();
    t.append(e);
    t
}

/// The first argument that begins with `--snapshot` asks for a picture, whatever
/// the others are: maximized where it names `zoom`, with the menu where it names
/// `filter`, large where it names `big`, and else small where it names `small`.
pub proof fn first_picture_counts(args: Seq<Seq<char>>, i: int)
    requires
        0 <= i < args.len(),
        "--snapshot"@.is_prefix_of(args[i]),
        forall|j: int| 0 <= j < i ==> !"--snapshot"@.is_prefix_of(#[trigger] args[j]),
    ensures
        mode_from(args, 0) matches Mode::Snapshot { zoom, scale, filter } && {
            &&& zoom == occurs(args[i], "zoom"@)
            &&& filter == occurs(args[i], "filter"@)
            &&& scale == Scale::Big <==> occurs(args[i], "big"@)
            &&& scale == Scale::Small <==> !occurs(args[i], "big"@) && occurs(args[i], "small"@)
        },
{
    passed_over(args, 0, i);
}

proof fn passed_over(args: Seq<Seq<char>>, from: int, to: int)
    requires
        0 <= from <= to <= args.len(),
        forall|j: int| from <= j < to ==> !"--snapshot"@.is_prefix_of(#[trigger] args[j]),
    ensures
        mode_from(args, from) == mode_from(args, to),
    decreases to - from,
{
    if from < to {
        assert(!"--snapshot"@.is_prefix_of(args[from]));
        passed_over(args, from + 1, to);
    }
}

/// Where no picture is asked for, `--fetch-test` anywhere asks for the trial, and
/// everything else for the radio.
pub proof fn without_a_picture_the_radio_runs(args: Seq<Seq<char>>)
    requires
        forall|j: int| 0 <= j < args.len() ==> !"--snapshot"@.is_prefix_of(#[trigger] args[j]),
    ensures
        (exists|j: int| 0 <= j < args.len() && #[trigger] args[j] == "--fetch-test"@) ==> mode_from(
            args,
            0,
        ) == Mode::FetchTest,
        (forall|j: int| 0 <= j < args.len() ==> #[trigger] args[j] != "--fetch-test"@) ==> mode_from(
            args,
            0,
        ) == Mode::Run,
{
    passed_over(args, 0, args.len() as int);
}

/// The share that plays is rounded down to a whole percentage, at most a hundred.
pub proof fn percentage_is_rounded_down(ok: int, sample: int)
    requires
        0 <= ok <= sample,
        sample > 0,
    ensures
        percent(ok, sample) * sample <= ok * 100 < (percent(ok, sample) + 1) * sample,
        0 <= percent(ok, sample) <= 100,
{
    let p = ok * 100 / sample;
    assert(p * sample <= ok * 100 < (p + 1) * sample && 0 <= p <= 100) by (nonlinear_arith)
        requires
            0 <= ok <= sample,
            sample > 0,
            p == ok * 100 / sample,
    ;
}

/// The trial checks all candidates, or two dozen where there are more.
pub proof fn trial_checks_two_dozen(candidates: int)
    ensures
        candidates <= 24 ==> sample_of(candidates) == candidates,
        candidates > 24 ==> sample_of(candidates) == 24,
{
}

/// Every line of the trial has the verdict in the same four columns and the country
/// in the same place: a name is filled up or cut to thirty characters.
pub proof fn trial_lines_are_aligned(good: bool, s: StationModel)
    ensures
        ({
            let line = trial_line(good, s);
            let mark = if good { "OK  "@ } else { "DEAD"@ };
            &&& line.len() == 40 + s.country.len()
            &&& line.subrange(3, 7) == mark
            &&& line.skip(40) == s.country
            &&& forall|i: int|
                0 <= i < 30 && i < s.name.len() ==> #[trigger] line[9 + i] == s.name[i]
            &&& forall|i: int| s.name.len() <= i < 30 ==> #[trigger] line[9 + i] == ' '
        }),
{
    reveal_strlit("  [");
    reveal_strlit("OK  ");
    reveal_strlit("DEAD");
    reveal_strlit("] ");
    reveal_strlit(" ");
    let line = trial_line(good, s);
    let mark = if good { "OK  "@ } else { "DEAD"@ };
    let name = padded(first_chars(s.name, 30), 30);
    assert(name.len() == 30);
    assert(line.subrange(3, 7) == mark);
    assert(line.skip(40) == s.country);
    assert forall|i: int| 0 <= i < 30 implies #[trigger] line[9 + i] == name[i] by {}
}

} // verus!
