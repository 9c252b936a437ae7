//! What holds of the radio after any number of steps.
use vstd::prelude::*;

use crate::keys::UiEvent;
use crate::laws::{
    all_have_urls, distinct_urls, event_keeps_or_restarts, event_keeps_valid,
    events_ask_for_a_frame, live_keeps_valid, load_keeps_valid, no_url_is_added_twice,
    playing_keeps_valid, shown_are_those_that_pass, start_is_valid, tick_keeps_valid,
};
use crate::live::{
    a_load_is_told_in_order, checked_candidates, ends_load, load_messages,
    only_passed_stations_join, told_by, LiveModel, Tally,
};
use crate::model::{AppModel, Glide};
use crate::player::Player;
use crate::station::{has_url, StationModel};

verus! {

/// Anything that can happen to the radio.
pub enum Step {
    /// An event of the terminal, with the index that chance gives where a random
    /// station is asked for.
    Event(UiEvent, int),
    /// Loading is asked for without a key.
    Load,
    /// A message of the verification.
    Live(LiveModel),
    /// The verification ended without a last message.
    Lost,
    /// The globe's centre moves by a frame.
    Tick(Glide),
    /// A player started or did not.
    Spawn(Player, bool),
    /// A frame was drawn.
    Drawn,
}

/// The radio after a step.
pub open spec fn stepped(m: AppModel, step: Step) -> AppModel {
    match step {
        Step::Event(event, pick) => m.on_event(event, pick).0,
        Step::Load => m.load_live().0,
        Step::Live(msg) => m.on_live(msg),
        Step::Lost => m.on_lost(),
        Step::Tick(g) => m.tick(g),
        Step::Spawn(player, started) => m.on_spawn(player, started).0,
        Step::Drawn => m.drawn(),
    }
}

/// The radio after some steps.
pub open spec fn run(m: AppModel, steps: Seq<Step>) -> AppModel
    decreases steps.len(),
{
    if steps.len() == 0 {
        m
    } else {
        stepped(run(m, steps.drop_last()), steps.last())
    }
}

/// Every step keeps the radio valid.
pub proof fn any_step_keeps_valid(m: AppModel, step: Step)
    requires
        m.valid(),
    ensures
        stepped(m, step).valid(),
{
    match step {
        Step::Event(event, pick) => event_keeps_valid(m, event, pick),
        Step::Load => load_keeps_valid(m),
        Step::Live(msg) => live_keeps_valid(m, msg),
        Step::Tick(g) => tick_keeps_valid(m, g),
        Step::Spawn(player, started) => playing_keeps_valid(m, player, started),
        Step::Lost => {},
        Step::Drawn => {},
    }
}

/// The radio is valid after any number of steps.
pub proof fn every_run_is_valid(m: AppModel, steps: Seq<Step>)
    requires
        m.valid(),
    ensures
        run(m, steps).valid(),
    decreases steps.len(),
{
    if steps.len() > 0 {
        every_run_is_valid(m, steps.drop_last());
        any_step_keeps_valid(run(m, steps.drop_last()), steps.last());
    }
}

/// A frame that was asked for stays asked for through every other step: nothing
/// that is waiting to be shown is lost.
pub proof fn frames_stay_asked_for(m: AppModel, step: Step)
    requires
        m.needs_redraw,
        !(step is Drawn),
    ensures
        stepped(m, step).needs_redraw,
{
    if let Step::Event(event, pick) = step {
        events_ask_for_a_frame(m, event, pick);
    }
}

/// A frame that was asked for stays asked for until one is drawn, however many
/// steps come between.
pub proof fn frames_wait_to_be_drawn(m: AppModel, steps: Seq<Step>)
    requires
        m.needs_redraw,
        forall|k: int| 0 <= k < steps.len() ==> !(#[trigger] steps[k] is Drawn),
    ensures
        run(m, steps).needs_redraw,
    decreases steps.len(),
{
    if steps.len() > 0 {
        let before = steps.drop_last();
        assert forall|k: int| 0 <= k < before.len() implies !(#[trigger] before[k] is Drawn) by {
            assert(before[k] == steps[k]);
        }
        frames_wait_to_be_drawn(m, before);
        assert(!(steps[steps.len() - 1] is Drawn));
        frames_stay_asked_for(run(m, before), steps.last());
    }
}

/// A step leaves all stations as they are, adds the station of a message, or
/// starts over from the curated ones, which never change.
proof fn step_keeps_adds_or_restarts(m: AppModel, step: Step)
    ensures
        stepped(m, step).curated == m.curated,
        ({
            let all = stepped(m, step).all_stations;
            ||| all == m.all_stations
            ||| all == m.curated
            ||| step is Live && step->Live_0 is Add && all == m.all_stations.push(
                step->Live_0->Add_0,
            )
        }),
{
    if let Step::Event(event, pick) = step {
        event_keeps_or_restarts(m, event, pick);
    }
}

/// Whether some step brought a station.
pub open spec fn added(steps: Seq<Step>, s: StationModel) -> bool {
    steps.contains(Step::Live(LiveModel::Add(s)))
}

/// Every station that is loaded was loaded at the start, is a curated one, or was
/// brought by a message since.
pub proof fn nothing_else_is_loaded(m: AppModel, steps: Seq<Step>, s: StationModel)
    requires
        run(m, steps).all_stations.contains(s),
    ensures
        run(m, steps).curated == m.curated,
        m.all_stations.contains(s) || m.curated.contains(s) || added(steps, s),
    decreases steps.len(),
{
    if steps.len() > 0 {
        let before = steps.drop_last();
        let n = run(m, before);
        let all = run(m, steps).all_stations;
        curated_never_change(m, before);
        step_keeps_adds_or_restarts(n, steps.last());
        let i = all.index_of(s);
        if all == n.all_stations || all != m.curated && i < n.all_stations.len() {
            assert(n.all_stations[i] == s);
            nothing_else_is_loaded(m, before, s);
            if added(before, s) {
                let k = before.index_of(Step::Live(LiveModel::Add(s)));
                assert(steps[k] == Step::Live(LiveModel::Add(s)));
            }
        } else if all != m.curated {
            assert(steps[steps.len() - 1] == Step::Live(LiveModel::Add(s)));
        }
    }
}

/// The curated stations never change.
pub proof fn curated_never_change(m: AppModel, steps: Seq<Step>)
    ensures
        run(m, steps).curated == m.curated,
    decreases steps.len(),
{
    if steps.len() > 0 {
        curated_never_change(m, steps.drop_last());
        step_keeps_adds_or_restarts(run(m, steps.drop_last()), steps.last());
    }
}

/// Whether one of some verifications, each a run of checks, told of a station.
pub open spec fn told_in(
    verifications: Seq<(Tally, Seq<(StationModel, bool)>)>,
    s: StationModel,
) -> bool {
    exists|k: int|
        0 <= k < verifications.len() && told_by(
            (#[trigger] verifications[k]).0,
            verifications[k].1,
        ).contains(LiveModel::Add(s))
}

/// Whether a station passed a check of one of some verifications.
pub open spec fn passed_in(
    verifications: Seq<(Tally, Seq<(StationModel, bool)>)>,
    s: StationModel,
) -> bool {
    exists|k: int|
        0 <= k < verifications.len() && (#[trigger] verifications[k]).1.contains((s, true))
}

/// Whatever happens, every station shown is a curated one or passed its check, as
/// long as the stations that messages bring are those that verifications told of.
pub proof fn only_verified_stations_are_shown(
    curated: Seq<StationModel>,
    steps: Seq<Step>,
    verifications: Seq<(Tally, Seq<(StationModel, bool)>)>,
    i: int,
)
    requires
        curated.len() > 0,
        all_have_urls(curated),
        forall|s: StationModel| #[trigger] added(steps, s) ==> told_in(verifications, s),
        0 <= i < run(AppModel::start(curated), steps).stations.len(),
    ensures
        ({
            let s = run(AppModel::start(curated), steps).stations[i];
            curated.contains(s) || passed_in(verifications, s)
        }),
{
    let start = AppModel::start(curated);
    let end = run(start, steps);
    let s = end.stations[i];
    start_is_valid(curated);
    every_run_is_valid(start, steps);
    shown_are_those_that_pass(end);
    nothing_else_is_loaded(start, steps, s);
    if added(steps, s) {
        let k = choose|k: int|
            0 <= k < verifications.len() && told_by(
                (#[trigger] verifications[k]).0,
                verifications[k].1,
            ).contains(LiveModel::Add(s));
        only_passed_stations_join(verifications[k].0, verifications[k].1, s);
    }
}

/// Whatever happens, every station shown has a URL, as long as those that messages
/// bring have one: no placeholder is ever shown.
pub proof fn no_placeholder_is_shown(curated: Seq<StationModel>, steps: Seq<Step>)
    requires
        curated.len() > 0,
        all_have_urls(curated),
        forall|s: StationModel| #[trigger] added(steps, s) ==> has_url(s),
    ensures
        all_have_urls(run(AppModel::start(curated), steps).stations),
{
    let start = AppModel::start(curated);
    let end = run(start, steps);
    start_is_valid(curated);
    every_run_is_valid(start, steps);
    shown_are_those_that_pass(end);
    assert forall|i: int| 0 <= i < end.stations.len() implies has_url(
        #[trigger] end.stations[i],
    ) by {
        let s = end.stations[i];
        nothing_else_is_loaded(start, steps, s);
        if curated.contains(s) {
            assert(has_url(curated[curated.index_of(s)]));
        }
    }
}

/// Whatever happens, no URL is loaded twice.
pub proof fn no_url_is_loaded_twice(m: AppModel, steps: Seq<Step>)
    requires
        m.valid(),
        distinct_urls(m.curated),
        distinct_urls(m.all_stations),
    ensures
        distinct_urls(run(m, steps).all_stations),
    decreases steps.len(),
{
    if steps.len() > 0 {
        let before = steps.drop_last();
        let n = run(m, before);
        let step = steps.last();
        no_url_is_loaded_twice(m, before);
        every_run_is_valid(m, before);
        curated_never_change(m, before);
        if let Step::Live(LiveModel::Add(s)) = step {
            let told = AppModel { needs_redraw: true, ..n };
            assert(told.valid());
            no_url_is_added_twice(told, s);
        } else {
            step_keeps_adds_or_restarts(n, step);
        }
    }
}

/// The steps that some messages of the verification are.
pub open spec fn live_steps(msgs: Seq<LiveModel>) -> Seq<Step> {
    msgs.map_values(|msg: LiveModel| Step::Live(msg))
}

/// Messages that do not end the load leave it going on or not, as it was.
proof fn loading_goes_on(m: AppModel, msgs: Seq<LiveModel>)
    requires
        forall|i: int| 0 <= i < msgs.len() ==> !ends_load(#[trigger] msgs[i]),
    ensures
        run(m, live_steps(msgs)).loading == m.loading,
    decreases msgs.len(),
{
    if msgs.len() > 0 {
        let before = msgs.drop_last();
        assert forall|i: int| 0 <= i < before.len() implies !ends_load(#[trigger] before[i]) by {
            assert(before[i] == msgs[i]);
        }
        loading_goes_on(m, before);
        assert(live_steps(msgs).drop_last() == live_steps(before));
        assert(!ends_load(msgs[msgs.len() - 1]));
    }
}

/// While a load's messages come in, the radio is loading; after the last of them it
/// is not, and loading can be asked for again.
pub proof fn a_load_ends_with_its_last_message(
    m: AppModel,
    candidates: Result<Seq<StationModel>, Seq<char>>,
    checks: Seq<(StationModel, bool)>,
    k: int,
)
    requires
        m.loading,
        candidates is Ok ==> checks.len() <= checked_candidates(candidates->Ok_0).len(),
        0 <= k < load_messages(candidates, checks).len(),
    ensures
        run(m, live_steps(load_messages(candidates, checks).take(k))).loading,
        !run(m, live_steps(load_messages(candidates, checks))).loading,
{
    let msgs = load_messages(candidates, checks);
    if let Ok(list) = candidates {
        a_load_is_told_in_order(list, checks);
    }
    assert(ends_load(msgs[msgs.len() - 1]));
    let some = msgs.take(k);
    assert forall|i: int| 0 <= i < some.len() implies !ends_load(#[trigger] some[i]) by {
        assert(some[i] == msgs[i]);
    }
    loading_goes_on(m, some);
    assert(live_steps(msgs).last() == Step::Live(msgs[msgs.len() - 1]));
}

} // verus!
