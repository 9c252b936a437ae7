//! Verifying candidates and telling the list about it.
use vstd::arithmetic::div_mod::{lemma_fundamental_div_mod, lemma_fundamental_div_mod_converse};
use vstd::prelude::*;

use crate::directory::fetched;
use crate::station::{models, models_push, Station, StationModel};
use crate::text::{decimal, push_decimal};

verus! {

/// What the verification tells the list.
pub enum LiveMsg {
    Progress(String),
    /// A station that passed; it joins the list at once.
    Add(Station),
    /// The verification is over, with this many stations that work.
    Done(usize),
    Failed(String),
}

/// What the verification tells the list, as a mathematical value.
pub enum LiveModel {
    Progress(Seq<char>),
    Add(StationModel),
    Done(nat),
    Failed(Seq<char>),
}

impl View for LiveMsg {
    type V = LiveModel;

    open spec fn view(&self) -> LiveModel {
        match *self {
            LiveMsg::Progress(s) => LiveModel::Progress(s@),
            LiveMsg::Add(s) => LiveModel::Add(s@),
            LiveMsg::Done(n) => LiveModel::Done(n as nat),
            LiveMsg::Failed(s) => LiveModel::Failed(s@),
        }
    }
}

/// Messages as mathematical values.
pub open spec fn messages(v: Seq<LiveMsg>) -> Seq<LiveModel> {
    v.map_values(|m: LiveMsg| m@)
}

/// How many verified stations join the list at most.
pub const VERIFY_TARGET: usize = 300;

/// How many candidates are checked at most, the most popular first.
pub const PROBE_CAP: usize = 800;

/// How many candidates are checked at the same time.
pub const PROBE_WORKERS: usize = 24;

/// After how many checks the progress is told again.
pub const PROGRESS_EVERY: usize = 12;

/// The candidates that are checked: no more than the cap, from the front.
pub open spec fn checked_candidates(candidates: Seq<StationModel>) -> Seq<StationModel> {
    if candidates.len() <= PROBE_CAP {
        candidates
    } else {
        candidates.take(PROBE_CAP as int)
    }
}

/// How many workers check so many candidates.
pub open spec fn workers_for(total: int) -> int {
    if total == 0 {
        1
    } else if total < PROBE_WORKERS {
        total
    } else {
        PROBE_WORKERS as int
    }
}

/// What worker `k` of `n` gets when a list is dealt out in turn.
pub open spec fn dealt(list: Seq<StationModel>, n: int, k: int) -> Seq<StationModel> {
    Seq::new(((list.len() + n - 1 - k) / n) as nat, |j: int| list[k + j * n])
}

/// The work for each worker.
pub struct ProbePlan {
    pub total: usize,
    pub buckets: Vec<Vec<Station>>,
}

impl ProbePlan {
    /// Whether the work is that of checking these candidates, dealt out in turn.
    pub open spec fn deals(self, candidates: Seq<StationModel>) -> bool {
        let list = checked_candidates(candidates);
        &&& self.total == list.len()
        &&& self.buckets.len() == workers_for(self.total as int)
        &&& forall|k: int|
            0 <= k < self.buckets.len() ==> models((#[trigger] self.buckets@[k])@) == dealt(
                list,
                self.buckets.len() as int,
                k,
            )
    }
}

/// Every `n`th station of a list, from index `k` on.
fn deal(list: &Vec<Station>, n: usize, k: usize, total: usize) -> (r: Vec<Station>)
    requires
        0 < n <= PROBE_WORKERS,
        k < n,
        total <= list.len(),
        total <= PROBE_CAP,
    ensures
        models(r@) == dealt(models(list@).take(total as int), n as int, k as int),
{
    let mut out: Vec<Station> = Vec::new();
    let mut i: usize = k;
    let ghost s = models(list@).take(total as int);
    let ghost mut j: int = 0;
    while i < total
        invariant
            0 < n <= PROBE_WORKERS,
            k < n,
            total <= list.len(),
            total <= PROBE_CAP,
            j >= 0,
            i == k + j * n,
            j > 0 ==> k + (j - 1) * n < total,
            s == models(list@).take(total as int),
            models(out@) == Seq::new(j as nat, |j: int| s[k + j * n]),
        decreases total + n - i,
    {
        let st = list[i].clone();
        proof {
            models_push(out@, st);
            assert(st@ == s[k + j * n]);
            assert(Seq::new((j + 1) as nat, |j: int| s[k + j * n]) == Seq::new(
                j as nat,
                |j: int| s[k + j * n],
            ).push(st@));
            assert((j + 1) * n == j * n + n) by (nonlinear_arith);
            j = j + 1;
        }
        out.push(st);
        i += n;
    }
    assert(j == (total + n - 1 - k) / (n as int)) by (nonlinear_arith)
        requires
            n > 0,
            0 <= k < n,
            j >= 0,
            j > 0 ==> k + (j - 1) * n < total,
            k + j * n >= total,
            total >= 0,
    ;
    out
}

/// Deals the candidates out to the workers in turn, so that each gets popular and
/// unpopular ones.
pub fn probe_plan(candidates: &Vec<Station>) -> (r: ProbePlan)
    ensures
        r.deals(models(candidates@)),
{
    let total: usize = if candidates.len() <= PROBE_CAP { candidates.len() } else { PROBE_CAP };
    let n: usize = if total == 0 {
        1
    } else if total < PROBE_WORKERS {
        total
    } else {
        PROBE_WORKERS
    };
    let ghost s = checked_candidates(models(candidates@));
    assert(models(candidates@).take(total as int) == s);
    let mut buckets: Vec<Vec<Station>> = Vec::new();
    let mut k: usize = 0;
    while k < n
        invariant
            k <= n,
            0 < n <= PROBE_WORKERS,
            total <= candidates.len(),
            total <= PROBE_CAP,
            s == models(candidates@).take(total as int),
            buckets.len() == k,
            forall|j: int|
                0 <= j < k ==> models((#[trigger] buckets@[j])@) == dealt(s, n as int, j),
        decreases n - k,
    {
        buckets.push(deal(candidates, n, k, total));
        k += 1;
    }
    ProbePlan { total, buckets }
}

/// The text that the verification of so many candidates begins with.
pub open spec fn verifying_text(total: nat) -> Seq<char> {
    "Verifying "@ + decimal(total) + " streams — stations appear as they pass…"@
}

/// The message that the verification begins with.
pub fn verifying_message(total: usize) -> (r: LiveMsg)
    ensures
        r@ == LiveModel::Progress(verifying_text(total as nat)),
{
    let mut m = "Verifying ".to_owned();
    push_decimal(&mut m, total);
    m.append(" streams — stations appear as they pass…");
    LiveMsg::Progress(m)
}

/// How far the verification has come.
pub struct Tally {
    pub total: usize,
    pub checked: usize,
    pub found: usize,
}

/// The text that tells the progress.
pub open spec fn progress_text(checked: nat, total: nat, found: nat) -> Seq<char> {
    "Verifying… "@ + decimal(checked) + "/"@ + decimal(total) + " checked, "@ + decimal(found)
        + " working"@
}

impl Tally {
    /// Whether the counts fit together.
    pub open spec fn valid(self) -> bool {
        self.found <= self.checked <= self.total
    }

    /// The counts after one more check.
    pub open spec fn after(self, good: bool) -> Tally {
        Tally {
            total: self.total,
            checked: (self.checked + 1) as usize,
            found: if good {
                (self.found + 1) as usize
            } else {
                self.found
            },
        }
    }

    /// What one more check tells the list: the station where it passed and the
    /// target was not reached before, and now and then the progress.
    pub open spec fn told(self, st: StationModel, good: bool) -> Seq<LiveModel> {
        let now = self.after(good);
        (if good && now.found <= VERIFY_TARGET {
            seq![LiveModel::Add(st)]
        } else {
            Seq::empty()
        }) + (if now.checked as int % PROGRESS_EVERY as int == 0 {
            seq![
                LiveModel::Progress(
                    progress_text(now.checked as nat, now.total as nat, now.found as nat),
                ),
            ]
        } else {
            Seq::empty()
        })
    }

    /// What the verification ends with: how many stations joined, or that none
    /// did.
    pub open spec fn finished(self) -> LiveModel {
        if self.found == 0 {
            LiveModel::Failed("no streams passed verification"@)
        } else if self.found < VERIFY_TARGET {
            LiveModel::Done(self.found as nat)
        } else {
            LiveModel::Done(VERIFY_TARGET as nat)
        }
    }

    /// Whether as many stations passed as are aimed at.
    pub open spec fn is_enough(self) -> bool {
        self.found >= VERIFY_TARGET
    }

    /// The verification before the first check.
    pub fn new(total: usize) -> (r: Tally)
        ensures
            r == (Tally { total, checked: 0, found: 0 }),
            r.valid(),
    {
        Tally { total, checked: 0, found: 0 }
    }

    /// Whether enough stations were found: no further check is begun.
    pub fn enough(&self) -> (r: bool)
        ensures
            r == self.is_enough(),
    {
        self.found >= VERIFY_TARGET
    }

    /// Records that a station was checked, and gives what to tell the list.
    pub fn record(&mut self, st: Station, good: bool) -> (r: Vec<LiveMsg>)
        requires
            old(self).valid(),
            old(self).checked < old(self).total,
        ensures
            *final(self) == old(self).after(good),
            final(self).valid(),
            messages(r@) == old(self).told(st@, good),
    {
        let mut out: Vec<LiveMsg> = Vec::new();
        let ghost model = st@;
        self.checked = self.checked + 1;
        if good {
            self.found = self.found + 1;
            if self.found <= VERIFY_TARGET {
                out.push(LiveMsg::Add(st));
            }
        }
        if self.checked % PROGRESS_EVERY == 0 {
            let mut m = "Verifying… ".to_owned();
            push_decimal(&mut m, self.checked);
            m.append("/");
            push_decimal(&mut m, self.total);
            m.append(" checked, ");
            push_decimal(&mut m, self.found);
            m.append(" working");
            out.push(LiveMsg::Progress(m));
        }
        assert(messages(out@) == old(self).told(model, good));
        out
    }

    /// The message that the verification ends with. More stations than the target
    /// can pass, since checks that run at the same time end after the last one
    /// that was needed; those do not join and are not told.
    pub fn finish(&self) -> (r: LiveMsg)
        ensures
            r@ == self.finished(),
    {
        if self.found == 0 {
            LiveMsg::Failed("no streams passed verification".to_owned())
        } else if self.found < VERIFY_TARGET {
            LiveMsg::Done(self.found)
        } else {
            LiveMsg::Done(VERIFY_TARGET)
        }
    }
}

/// How a load begins, once the fetch is over.
pub enum LoadStart {
    /// The fetch failed: this message is all that is told.
    Over(LiveMsg),
    /// The message to tell first, the work for each worker, and the count of it.
    Verify { first: LiveMsg, plan: ProbePlan, tally: Tally },
}

/// What a load tells first: why the fetch failed, or how many streams are verified.
pub open spec fn opening(candidates: Result<Seq<StationModel>, Seq<char>>) -> LiveModel {
    match candidates {
        Err(e) => LiveModel::Failed(e),
        Ok(list) => LiveModel::Progress(verifying_text(checked_candidates(list).len())),
    }
}

/// The count before the first check of these candidates.
pub open spec fn first_tally(list: Seq<StationModel>) -> Tally {
    Tally { total: checked_candidates(list).len() as usize, checked: 0, found: 0 }
}

/// Begins a load with what the fetch brought.
pub fn begin_load(candidates: Result<Vec<Station>, String>) -> (r: LoadStart)
    ensures
        match r {
            LoadStart::Over(msg) => candidates is Err && msg@ == opening(fetched(candidates)),
            LoadStart::Verify { first, plan, tally } => {
                &&& candidates is Ok
                &&& first@ == opening(fetched(candidates))
                &&& plan.deals(models(candidates->Ok_0@))
                &&& tally == first_tally(models(candidates->Ok_0@))
                &&& tally.valid()
            },
        },
{
    match candidates {
        Err(e) => LoadStart::Over(LiveMsg::Failed(e)),
        Ok(list) => {
            let plan = probe_plan(&list);
            let first = verifying_message(plan.total);
            let tally = Tally::new(plan.total);
            LoadStart::Verify { first, plan, tally }
        },
    }
}

/// Every candidate is dealt to exactly one worker: the one at index `i` to worker
/// `i % n`, as its check number `i / n`.
pub proof fn dealing_misses_none(list: Seq<StationModel>, n: int, i: int)
    requires
        n > 0,
        0 <= i < list.len(),
    ensures
        0 <= i % n < n,
        0 <= i / n < dealt(list, n, i % n).len(),
        dealt(list, n, i % n)[i / n] == list[i],
{
    let len = list.len() as int;
    let k = i % n;
    let j = i / n;
    assert(0 <= k < n && i == k + j * n && 0 <= j < (len + n - 1 - k) / n) by (nonlinear_arith)
        requires
            n > 0,
            0 <= i < len,
            k == i % n,
            j == i / n,
    ;
}

/// No worker is dealt anything that is not on the list, and what stands at two
/// places of the workers' lists stood at two places of the dealt one.
pub proof fn dealing_repeats_none(
    list: Seq<StationModel>,
    n: int,
    k: int,
    j: int,
)
    requires
        0 <= k < n,
        0 <= j < dealt(list, n, k).len(),
    ensures
        0 <= k + j * n < list.len(),
        dealt(list, n, k)[j] == list[k + j * n],
        (k + j * n) % n == k,
        (k + j * n) / n == j,
{
    let len = list.len() as int;
    let top = len + n - 1 - k;
    let q = top / n;
    lemma_fundamental_div_mod(top, n);
    assert(0 <= j * n && (j + 1) * n <= n * q && (j + 1) * n == j * n + n) by (nonlinear_arith)
        requires
            0 <= j < q,
            n > 0,
    ;
    lemma_fundamental_div_mod_converse(k + j * n, n, j, k);
}

/// No worker is dealt more than one station more than any other.
pub proof fn dealing_is_fair(list: Seq<StationModel>, n: int, a: int, b: int)
    requires
        0 <= a < n,
        0 <= b < n,
    ensures
        dealt(list, n, a).len() <= dealt(list, n, b).len() + 1,
{
    let len = list.len() as int;
    assert((len + n - 1 - a) / n <= (len + n - 1 - b) / n + 1) by (nonlinear_arith)
        requires
            0 <= a < n,
            0 <= b < n,
            len >= 0,
    ;
    assert((len + n - 1 - b) / n >= 0) by (nonlinear_arith)
        requires
            0 <= b < n,
            len >= 0,
    ;
}

/// How many checks of a run passed.
pub open spec fn passed(checks: Seq<(StationModel, bool)>) -> nat
    decreases checks.len(),
{
    if checks.len() == 0 {
        0
    } else {
        passed(checks.drop_last()) + if checks.last().1 {
            1nat
        } else {
            0nat
        }
    }
}

/// The counts after a run of checks.
pub open spec fn tally_after(start: Tally, checks: Seq<(StationModel, bool)>) -> Tally
    decreases checks.len(),
{
    if checks.len() == 0 {
        start
    } else {
        tally_after(start, checks.drop_last()).after(checks.last().1)
    }
}

/// What a run of checks tells the list.
pub open spec fn told_by(start: Tally, checks: Seq<(StationModel, bool)>) -> Seq<LiveModel>
    decreases checks.len(),
{
    if checks.len() == 0 {
        Seq::empty()
    } else {
        let before = checks.drop_last();
        told_by(start, before) + tally_after(start, before).told(checks.last().0, checks.last().1)
    }
}

/// A run that checks no more than there is counts every check, and every station
/// that passed.
pub proof fn tally_counts_the_run(total: usize, checks: Seq<(StationModel, bool)>)
    requires
        checks.len() <= total,
    ensures
        tally_after(Tally { total, checked: 0, found: 0 }, checks).valid(),
        tally_after(Tally { total, checked: 0, found: 0 }, checks).total == total,
        tally_after(Tally { total, checked: 0, found: 0 }, checks).checked == checks.len(),
        tally_after(Tally { total, checked: 0, found: 0 }, checks).found == passed(checks),
        passed(checks) <= checks.len(),
    decreases checks.len(),
{
    if checks.len() > 0 {
        tally_counts_the_run(total, checks.drop_last());
    }
}

/// A station joins the list only if it passed its check.
pub proof fn only_passed_stations_join(start: Tally, checks: Seq<(StationModel, bool)>, s: StationModel)
    requires
        told_by(start, checks).contains(LiveModel::Add(s)),
    ensures
        checks.contains((s, true)),
    decreases checks.len(),
{
    let msg = LiveModel::Add(s);
    let all = told_by(start, checks);
    let i = all.index_of(msg);
    let before = checks.drop_last();
    let first = told_by(start, before);
    if i < first.len() {
        assert(first[i] == msg);
        only_passed_stations_join(start, before, s);
        let k = before.index_of((s, true));
        assert(checks[k] == (s, true));
    } else {
        let last = checks.last();
        let told = tally_after(start, before).told(last.0, last.1);
        assert(told[i - first.len()] == msg);
        assert(last == (s, true));
        assert(checks[checks.len() - 1] == (s, true));
    }
}

/// Every station that passed its check joins the list, unless as many as are aimed
/// at had passed before it.
pub proof fn every_passed_station_joins(start: Tally, checks: Seq<(StationModel, bool)>, k: int)
    requires
        0 <= k < checks.len(),
        checks[k].1,
        tally_after(start, checks.take(k)).found < VERIFY_TARGET,
    ensures
        told_by(start, checks).contains(LiveModel::Add(checks[k].0)),
    decreases checks.len(),
{
    let msg = LiveModel::Add(checks[k].0);
    let before = checks.drop_last();
    let first = told_by(start, before);
    let all = told_by(start, checks);
    if k < before.len() {
        assert(before.take(k) == checks.take(k));
        every_passed_station_joins(start, before, k);
        let i = first.index_of(msg);
        assert(all[i] == msg);
    } else {
        assert(before == checks.take(k));
        assert(all[first.len() as int] == msg);
    }
}

/// How many stations join the list by these messages.
pub open spec fn joined(told: Seq<LiveModel>) -> nat
    decreases told.len(),
{
    if told.len() == 0 {
        0
    } else {
        joined(told.drop_last()) + if told.last() is Add {
            1nat
        } else {
            0nat
        }
    }
}

proof fn joined_concat(a: Seq<LiveModel>, b: Seq<LiveModel>)
    ensures
        joined(a + b) == joined(a) + joined(b),
    decreases b.len(),
{
    if b.len() == 0 {
        assert(a + b == a);
    } else {
        assert((a + b).drop_last() == a + b.drop_last());
        joined_concat(a, b.drop_last());
    }
}

/// As many stations join the list as passed, up to the target.
pub proof fn no_more_than_the_target_join(total: usize, checks: Seq<(StationModel, bool)>)
    requires
        checks.len() <= total,
    ensures
        joined(told_by(Tally { total, checked: 0, found: 0 }, checks)) == if passed(checks)
            <= VERIFY_TARGET {
            passed(checks)
        } else {
            VERIFY_TARGET as nat
        },
    decreases checks.len(),
{
    if checks.len() > 0 {
        let before = checks.drop_last();
        let start = Tally { total, checked: 0, found: 0 };
        let last = checks.last();
        no_more_than_the_target_join(total, before);
        tally_counts_the_run(total, before);
        let told = tally_after(start, before).told(last.0, last.1);
        joined_concat(told_by(start, before), told);
        reveal_with_fuel(joined, 3);
    }
}

/// What the verification ends with is the number of stations that joined the list,
/// or a failure where none did.
pub proof fn the_end_tells_how_many_joined(total: usize, checks: Seq<(StationModel, bool)>)
    requires
        checks.len() <= total,
    ensures
        ({
            let start = Tally { total, checked: 0, found: 0 };
            let n = joined(told_by(start, checks));
            tally_after(start, checks).finished() == if n == 0 {
                LiveModel::Failed("no streams passed verification"@)
            } else {
                LiveModel::Done(n)
            }
        }),
{
    no_more_than_the_target_join(total, checks);
    tally_counts_the_run(total, checks);
}

/// Everything that a load tells, in order: why the fetch failed; or how many
/// streams are verified, what the checks tell, and how it ended.
pub open spec fn load_messages(
    candidates: Result<Seq<StationModel>, Seq<char>>,
    checks: Seq<(StationModel, bool)>,
) -> Seq<LiveModel> {
    match candidates {
        Err(_) => seq![opening(candidates)],
        Ok(list) => seq![opening(candidates)] + told_by(first_tally(list), checks) + seq![
            tally_after(first_tally(list), checks).finished(),
        ],
    }
}

/// Whether a message ends a load.
pub open spec fn ends_load(msg: LiveModel) -> bool {
    msg is Done || msg is Failed
}

/// No check ends the load.
proof fn checks_end_nothing(start: Tally, checks: Seq<(StationModel, bool)>, i: int)
    requires
        0 <= i < told_by(start, checks).len(),
    ensures
        !ends_load(told_by(start, checks)[i]),
    decreases checks.len(),
{
    let before = checks.drop_last();
    let first = told_by(start, before);
    if i < first.len() {
        checks_end_nothing(start, before, i);
    } else {
        let last = checks.last();
        let told = tally_after(start, before).told(last.0, last.1);
        assert(told_by(start, checks)[i] == told[i - first.len()]);
    }
}

/// A load whose fetch fails tells of that alone.
pub proof fn failed_fetch_is_all_that_is_told(e: Seq<char>, checks: Seq<(StationModel, bool)>)
    ensures
        load_messages(Err(e), checks) == seq![LiveModel::Failed(e)],
{
}

/// A load whose fetch brings candidates first tells how many are verified. It ends
/// with exactly one message that says so, the last one, so that every station joins
/// before it; and that message tells how many joined.
pub proof fn a_load_is_told_in_order(
    list: Seq<StationModel>,
    checks: Seq<(StationModel, bool)>,
)
    requires
        checks.len() <= checked_candidates(list).len(),
    ensures
        ({
            let told = load_messages(Ok(list), checks);
            let n = joined(told);
            &&& told.len() >= 2
            &&& told[0] == LiveModel::Progress(verifying_text(checked_candidates(list).len()))
            &&& forall|i: int|
                0 <= i < told.len() ==> (ends_load(#[trigger] told[i]) <==> i == told.len() - 1)
            &&& told.last() == if n == 0 {
                LiveModel::Failed("no streams passed verification"@)
            } else {
                LiveModel::Done(n)
            }
        }),
{
    let start = first_tally(list);
    let first = seq![opening(Ok(list))];
    let middle = told_by(start, checks);
    let end = tally_after(start, checks).finished();
    let told = load_messages(Ok(list), checks);
    assert forall|i: int| 0 <= i < told.len() implies (ends_load(#[trigger] told[i]) <==> i
        == told.len() - 1) by {
        if 1 <= i < told.len() - 1 {
            assert(told[i] == middle[i - 1]);
            checks_end_nothing(start, checks, i - 1);
        }
    }
    the_end_tells_how_many_joined(start.total, checks);
    assert(told.drop_last() == first + middle);
    joined_concat(first, middle);
    reveal_with_fuel(joined, 2);
    assert(first.drop_last() == Seq::<LiveModel>::empty());
}

/// The candidates that are checked are the first of those fetched, in their order:
/// all of them, or the most popular eight hundred.
pub proof fn most_popular_are_checked(candidates: Seq<StationModel>)
    ensures
        candidates.len() <= 800 ==> checked_candidates(candidates) == candidates,
        candidates.len() > 800 ==> checked_candidates(candidates).len() == 800,
        checked_candidates(candidates).is_prefix_of(candidates),
        forall|i: int|
            0 <= i < candidates.len() && i < 800 ==> #[trigger] checked_candidates(candidates)[i]
                == candidates[i],
{
}

/// The work is dealt out in turn. There is a worker for every candidate, but no more
/// than twenty-four, and at least one. The fetched candidate at index `i` is what
/// worker `i % n` of `n` checks after `i / n` others, for each of the first eight
/// hundred.
pub proof fn workers_take_candidates_in_turn(plan: ProbePlan, candidates: Seq<StationModel>, i: int)
    requires
        plan.deals(candidates),
        0 <= i < candidates.len(),
        i < 800,
    ensures
        ({
            let n = plan.buckets.len() as int;
            &&& n == if candidates.len() < 24 {
                candidates.len() as int
            } else {
                24
            }
            &&& plan.total == if candidates.len() < 800 {
                candidates.len()
            } else {
                800
            }
            &&& 0 <= i % n < n
            &&& 0 <= i / n < plan.buckets@[i % n].len()
            &&& plan.buckets@[i % n]@[i / n]@ == candidates[i]
        }),
{
    let list = checked_candidates(candidates);
    let n = plan.buckets.len() as int;
    most_popular_are_checked(candidates);
    assert(list[i] == candidates[i]);
    dealing_misses_none(list, n, i);
    assert(models(plan.buckets@[i % n]@) == dealt(list, n, i % n));
}

/// No worker is given anything else: what worker `k` of `n` checks after `j` others
/// is the fetched candidate at index `k + j * n`, one of those that are checked.
pub proof fn workers_take_nothing_else(
    plan: ProbePlan,
    candidates: Seq<StationModel>,
    k: int,
    j: int,
)
    requires
        plan.deals(candidates),
        0 <= k < plan.buckets.len(),
        0 <= j < plan.buckets@[k].len(),
    ensures
        ({
            let i = k + j * plan.buckets.len();
            &&& 0 <= i < candidates.len()
            &&& i < 800
            &&& plan.buckets@[k]@[j]@ == candidates[i]
        }),
{
    let list = checked_candidates(candidates);
    let n = plan.buckets.len() as int;
    most_popular_are_checked(candidates);
    assert(models(plan.buckets@[k]@) == dealt(list, n, k));
    assert(models(plan.buckets@[k]@).len() == plan.buckets@[k].len());
    dealing_repeats_none(list, n, k, j);
    assert(models(plan.buckets@[k]@)[j] == plan.buckets@[k]@[j]@);
    assert(list[k + j * n] == candidates[k + j * n]);
}

/// A check counts one more, and one more that works where it passed. The station is
/// told of at once where it passed as one of the first three hundred, and after
/// every twelfth check the counts are told; nothing else is told.
pub proof fn a_check_is_counted_and_told(t: Tally, st: StationModel, good: bool)
    requires
        t.valid(),
        t.checked < t.total,
    ensures
        ({
            let n = t.after(good);
            let joins = good && t.found < 300;
            let counts = (t.checked + 1) % 12 == 0;
            let news = LiveModel::Progress(
                "Verifying… "@ + decimal((t.checked + 1) as nat) + "/"@ + decimal(t.total as nat)
                    + " checked, "@ + decimal(
                    if good {
                        (t.found + 1) as nat
                    } else {
                        t.found as nat
                    },
                ) + " working"@,
            );
            &&& n.total == t.total
            &&& n.checked == t.checked + 1
            &&& n.found == if good {
                t.found + 1
            } else {
                t.found as int
            }
            &&& joins && counts ==> t.told(st, good) == seq![LiveModel::Add(st), news]
            &&& joins && !counts ==> t.told(st, good) == seq![LiveModel::Add(st)]
            &&& !joins && counts ==> t.told(st, good) == seq![news]
            &&& !joins && !counts ==> t.told(st, good) == Seq::<LiveModel>::empty()
        }),
{
}

/// A load begins with the reason why the fetch failed, or with the number of streams
/// that are verified; a verification ends with the number that joined, three hundred
/// at most, or with the failure that none did.
pub proof fn loads_begin_and_end(
    list: Seq<StationModel>,
    e: Seq<char>,
    t: Tally,
)
    ensures
        opening(Err(e)) == LiveModel::Failed(e),
        opening(Ok(list)) == LiveModel::Progress(
            "Verifying "@ + decimal(
                if list.len() < 800 {
                    list.len()
                } else {
                    800
                },
            ) + " streams — stations appear as they pass…"@,
        ),
        t.found == 0 ==> t.finished() == LiveModel::Failed("no streams passed verification"@),
        0 < t.found <= 300 ==> t.finished() == LiveModel::Done(t.found as nat),
        t.found > 300 ==> t.finished() == LiveModel::Done(300),
{
}

/// No further check is begun once three hundred stations passed, and not before.
pub proof fn checking_goes_on_until_the_target(t: Tally)
    ensures
        t.is_enough() <==> t.found >= 300,
        t.is_enough() ==> t.finished() == LiveModel::Done(300),
{
}

} // verus!
