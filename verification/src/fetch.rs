//! Fetching candidate stations: which server to ask next, and what a reply
//! amounts to.
use vstd::prelude::*;

use crate::directory::{directory_stations, fetched, json_text, stations_in_reply};
use crate::station::{Station, StationModel};
use crate::text::{owned, texts};

verus! {

/// The search that every server is asked for: geolocated stations, the most
/// popular first.
pub const SEARCH_PATH: &'static str = "/json/stations/search?has_geo_info=true&hidebroken=true&order=clickcount&reverse=true&limit=2000";

/// How many servers there are, and how often the whole list is tried.
pub const SERVERS: usize = 2;

pub const ROUNDS: usize = 3;

/// How long to wait between two rounds, in milliseconds: the service limits its
/// rate and refuses requests under load.
pub const PAUSE_MS: u64 = 1500;

/// A server's name: first the alias for all live mirrors, then a named one.
pub open spec fn server_name(i: int) -> Seq<char> {
    if i == 0 {
        "all.api.radio-browser.info"@
    } else {
        "de1.api.radio-browser.info"@
    }
}

/// A server's name.
pub fn server(i: usize) -> (r: &'static str)
    ensures
        r@ == server_name(i as int),
{
    if i == 0 {
        "all.api.radio-browser.info"
    } else {
        "de1.api.radio-browser.info"
    }
}

/// The arguments of the command that fetches a URL. A status of 400 or above
/// counts as a failure, not as data.
pub open spec fn curl_arguments(url: Seq<char>) -> Seq<Seq<char>> {
    seq!["-s"@, "--fail"@, "--max-time"@, "20"@, "-A"@, "world-radio-tui/0.1"@, url]
}

/// The arguments of the command that fetches a URL.
pub fn curl_args(url: &str) -> (r: Vec<String>)
    ensures
        texts(r@) == curl_arguments(url@),
{
    let r = owned(&["-s", "--fail", "--max-time", "20", "-A", "world-radio-tui/0.1", url]);
    assert(texts(r@) == curl_arguments(url@));
    r
}

/// How the fetching command ended.
pub enum CurlRun {
    /// It did not start, for the reason given.
    NotStarted(String),
    /// It ended, successfully or not, with this output.
    Ended { success: bool, stdout: Vec<u8> },
}

/// What a run of the fetching command amounts to.
pub open spec fn run_result(run: CurlRun) -> Result<Seq<StationModel>, Seq<char>> {
    match run {
        CurlRun::NotStarted(e) => Err("curl: "@ + e@),
        CurlRun::Ended { success, stdout } => if success {
            directory_stations(json_text(stdout@))
        } else {
            Err("server unavailable"@)
        },
    }
}

/// The stations that a run of the fetching command brought, or why it brought
/// none.
pub fn try_fetch(run: &CurlRun) -> (r: Result<Vec<Station>, String>)
    ensures
        fetched(r) == run_result(*run),
{
    match run {
        CurlRun::NotStarted(e) => {
            let mut m = "curl: ".to_owned();
            m.append(e.as_str());
            Err(m)
        },
        CurlRun::Ended { success, stdout } => {
            if !*success {
                return Err("server unavailable".to_owned());
            }
            stations_in_reply(stdout.as_slice())
        },
    }
}

/// Where the fetch stands: the round, the server to ask next, and what the last
/// request failed with.
pub struct FetchPlan {
    round: usize,
    server: usize,
    last: String,
}

/// Where the fetch stands, as a mathematical value.
#[verifier::ext_equal]
pub struct FetchModel {
    pub round: int,
    pub server: int,
    pub last: Seq<char>,
}

/// What to do after a reply.
pub enum FetchStep {
    /// The fetch is over, with its candidates or the last failure.
    Over(Result<Vec<Station>, String>),
    /// Ask the next server at once.
    Ask(FetchPlan),
    /// Wait, then start the next round.
    Wait(FetchPlan),
}

/// What to do after a reply, as a mathematical value.
pub enum StepModel {
    Over(Result<Seq<StationModel>, Seq<char>>),
    Ask(FetchModel),
    Wait(FetchModel),
}

impl View for FetchPlan {
    type V = FetchModel;

    closed spec fn view(&self) -> FetchModel {
        FetchModel { round: self.round as int, server: self.server as int, last: self.last@ }
    }
}

impl View for FetchStep {
    type V = StepModel;

    open spec fn view(&self) -> StepModel {
        match *self {
            FetchStep::Over(r) => StepModel::Over(fetched(r)),
            FetchStep::Ask(p) => StepModel::Ask(p@),
            FetchStep::Wait(p) => StepModel::Wait(p@),
        }
    }
}

/// Whether a reply ends the fetch: it brought stations.
pub open spec fn brings_stations(reply: Result<Seq<StationModel>, Seq<char>>) -> bool {
    reply is Ok && reply->Ok_0.len() > 0
}

/// What is remembered of a reply without stations.
pub open spec fn failure(
    server: int,
    reply: Result<Seq<StationModel>, Seq<char>>,
) -> Seq<char> {
    match reply {
        Ok(_) => server_name(server) + ": no usable stations"@,
        Err(e) => server_name(server) + ": "@ + e,
    }
}

impl FetchModel {
    /// The fetch before its first request.
    pub open spec fn start() -> FetchModel {
        FetchModel { round: 0, server: 0, last: "no servers reachable"@ }
    }

    /// Whether a request is still to be made.
    pub open spec fn valid(self) -> bool {
        0 <= self.round < ROUNDS && 0 <= self.server < SERVERS
    }

    /// How many requests can still follow, this one included.
    pub open spec fn left(self) -> int {
        (ROUNDS - 1 - self.round) * SERVERS + (SERVERS - self.server)
    }

    /// What follows a reply.
    pub open spec fn next(self, reply: Result<Seq<StationModel>, Seq<char>>) -> StepModel {
        let last = failure(self.server, reply);
        if brings_stations(reply) {
            StepModel::Over(reply)
        } else if self.server + 1 < SERVERS {
            StepModel::Ask(FetchModel { round: self.round, server: self.server + 1, last })
        } else if self.round + 1 < ROUNDS {
            StepModel::Wait(FetchModel { round: self.round + 1, server: 0, last })
        } else {
            StepModel::Over(Err(last))
        }
    }
}

impl FetchPlan {
    /// The fetch before its first request.
    pub fn new() -> (r: FetchPlan)
        ensures
            r@ == FetchModel::start(),
            r@.valid(),
    {
        FetchPlan { round: 0, server: 0, last: "no servers reachable".to_owned() }
    }

    /// The URL to fetch next.
    pub fn url(&self) -> (r: String)
        ensures
            r@ == "https://"@ + server_name(self@.server) + SEARCH_PATH@,
    {
        let mut u = "https://".to_owned();
        u.append(server(self.server));
        u.append(SEARCH_PATH);
        u
    }

    /// Takes the reply to the request for `url`.
    pub fn on_reply(self, reply: Result<Vec<Station>, String>) -> (r: FetchStep)
        requires
            self@.valid(),
        ensures
            r@ == self@.next(fetched(reply)),
    {
        let mut last = server(self.server).to_owned();
        match reply {
            Ok(v) => {
                if v.len() > 0 {
                    return FetchStep::Over(Ok(v));
                }
                last.append(": no usable stations");
            },
            Err(e) => {
                last.append(": ");
                last.append(e.as_str());
            },
        }
        if self.server + 1 < SERVERS {
            FetchStep::Ask(FetchPlan { round: self.round, server: self.server + 1, last })
        } else if self.round + 1 < ROUNDS {
            FetchStep::Wait(FetchPlan { round: self.round + 1, server: 0, last })
        } else {
            FetchStep::Over(Err(last))
        }
    }
}

/// How a fetch ends when the requests from `from` on get these replies.
pub open spec fn fetch_outcome(
    plan: FetchModel,
    replies: Seq<Result<Seq<StationModel>, Seq<char>>>,
    from: int,
) -> Result<Seq<StationModel>, Seq<char>>
    decreases plan.left(),
    when plan.valid()
{
    match plan.next(replies[from]) {
        StepModel::Over(r) => r,
        StepModel::Ask(p) => fetch_outcome(p, replies, from + 1),
        StepModel::Wait(p) => fetch_outcome(p, replies, from + 1),
    }
}

/// Every step leaves fewer requests to make, so a fetch makes no more than six.
pub proof fn fetch_ends(plan: FetchModel, reply: Result<Seq<StationModel>, Seq<char>>)
    requires
        plan.valid(),
    ensures
        plan.left() <= ROUNDS * SERVERS,
        match plan.next(reply) {
            StepModel::Over(_) => true,
            StepModel::Ask(p) => p.valid() && p.left() == plan.left() - 1,
            StepModel::Wait(p) => p.valid() && p.left() == plan.left() - 1,
        },
{
}

proof fn outcome_from(
    plan: FetchModel,
    replies: Seq<Result<Seq<StationModel>, Seq<char>>>,
    from: int,
    n: int,
)
    requires
        plan.valid(),
        0 <= from <= n < from + plan.left(),
        n < replies.len(),
        brings_stations(replies[n]),
        forall|i: int| from <= i < n ==> !brings_stations(#[trigger] replies[i]),
    ensures
        fetch_outcome(plan, replies, from) == replies[n],
    decreases n - from,
{
    if from < n {
        assert(!brings_stations(replies[from]));
        match plan.next(replies[from]) {
            StepModel::Over(_) => {},
            StepModel::Ask(p) => {
                outcome_from(p, replies, from + 1, n);
            },
            StepModel::Wait(p) => {
                outcome_from(p, replies, from + 1, n);
            },
        }
    }
}

/// The first reply with stations is the fetch's result, whichever of the six
/// requests it answers.
pub proof fn first_stations_win(
    replies: Seq<Result<Seq<StationModel>, Seq<char>>>,
    n: int,
)
    requires
        0 <= n < ROUNDS * SERVERS,
        n < replies.len(),
        brings_stations(replies[n]),
        forall|i: int| 0 <= i < n ==> !brings_stations(#[trigger] replies[i]),
    ensures
        fetch_outcome(FetchModel::start(), replies, 0) == replies[n],
{
    outcome_from(FetchModel::start(), replies, 0, n);
}

proof fn failure_from(
    plan: FetchModel,
    replies: Seq<Result<Seq<StationModel>, Seq<char>>>,
    from: int,
)
    requires
        plan.valid(),
        from >= 0,
        from + plan.left() <= replies.len(),
        forall|i: int|
            from <= i < from + plan.left() ==> !brings_stations(#[trigger] replies[i]),
    ensures
        fetch_outcome(plan, replies, from) == Err::<Seq<StationModel>, Seq<char>>(
            failure(SERVERS - 1, replies[from + plan.left() - 1]),
        ),
    decreases plan.left(),
{
    assert(!brings_stations(replies[from]));
    match plan.next(replies[from]) {
        StepModel::Over(_) => {},
        StepModel::Ask(p) => {
            failure_from(p, replies, from + 1);
        },
        StepModel::Wait(p) => {
            failure_from(p, replies, from + 1);
        },
    }
}

/// Where no reply brings stations, the fetch fails with what the last server
/// failed with in the last round.
pub proof fn last_failure_is_told(replies: Seq<Result<Seq<StationModel>, Seq<char>>>)
    requires
        replies.len() >= ROUNDS * SERVERS,
        forall|i: int| 0 <= i < ROUNDS * SERVERS ==> !brings_stations(#[trigger] replies[i]),
    ensures
        fetch_outcome(FetchModel::start(), replies, 0) == Err::<Seq<StationModel>, Seq<char>>(
            failure(SERVERS - 1, replies[ROUNDS * SERVERS - 1]),
        ),
{
    failure_from(FetchModel::start(), replies, 0);
}

/// The two servers are asked in turn, three times over, with a pause before each
/// further round: after a reply without stations the first server is followed by the
/// second at once, the second by the first after a pause, and the last request ends
/// the fetch. A reply with stations ends it at any time.
pub proof fn servers_are_asked_in_turn(
    plan: FetchModel,
    reply: Result<Seq<StationModel>, Seq<char>>,
)
    requires
        0 <= plan.round < 3,
        0 <= plan.server < 2,
    ensures
        ({
            let found = reply is Ok && reply->Ok_0.len() > 0;
            let step = plan.next(reply);
            &&& found ==> step == StepModel::Over(reply)
            &&& !found && plan.server == 0 ==> step is Ask && step->Ask_0.round == plan.round
                && step->Ask_0.server == 1
            &&& !found && plan.server == 1 && plan.round < 2 ==> step is Wait
                && step->Wait_0.round == plan.round + 1 && step->Wait_0.server == 0
            &&& !found && plan.server == 1 && plan.round == 2 ==> step is Over && step->Over_0 is Err
        }),
        FetchModel::start().round == 0 && FetchModel::start().server == 0,
{
}

/// What a fetch remembers of a reply without stations is the server's name and why
/// it brought none; that is what it fails with in the end.
pub proof fn failures_name_their_server(plan: FetchModel, e: Seq<char>)
    requires
        0 <= plan.round < 3,
        0 <= plan.server < 2,
    ensures
        ({
            let name = if plan.server == 0 {
                "all.api.radio-browser.info"@
            } else {
                "de1.api.radio-browser.info"@
            };
            let failed = plan.next(Err(e));
            let empty = plan.next(Ok(Seq::empty()));
            &&& failed matches StepModel::Ask(p) ==> p.last == name + ": "@ + e
            &&& failed matches StepModel::Wait(p) ==> p.last == name + ": "@ + e
            &&& failed matches StepModel::Over(r) ==> r == Err::<Seq<StationModel>, Seq<char>>(
                name + ": "@ + e,
            )
            &&& empty matches StepModel::Ask(p) ==> p.last == name + ": no usable stations"@
            &&& empty matches StepModel::Wait(p) ==> p.last == name + ": no usable stations"@
            &&& empty matches StepModel::Over(r) ==> r == Err::<Seq<StationModel>, Seq<char>>(
                name + ": no usable stations"@,
            )
        }),
        server_name(0) == "all.api.radio-browser.info"@,
        server_name(1) == "de1.api.radio-browser.info"@,
        SEARCH_PATH@
            == "/json/stations/search?has_geo_info=true&hidebroken=true&order=clickcount&reverse=true&limit=2000"@,
{
}

/// A run of the fetching command that did not start, or did not succeed, brings
/// nothing, whatever it printed; one that succeeded brings what its output holds.
pub proof fn only_successful_runs_bring_stations(e: String, stdout: Vec<u8>)
    ensures
        run_result(CurlRun::NotStarted(e)) == Err::<Seq<StationModel>, Seq<char>>("curl: "@ + e@),
        run_result(CurlRun::Ended { success: false, stdout }) == Err::<
            Seq<StationModel>,
            Seq<char>,
        >("server unavailable"@),
        run_result(CurlRun::Ended { success: true, stdout }) == directory_stations(
            json_text(stdout@),
        ),
{
}

/// The fetching command is silent, counts a refusal as a failure, gives up after
/// twenty seconds, says who asks, and asks for the URL.
pub proof fn curl_is_asked_to_fail_on_refusal(url: Seq<char>)
    ensures
        ({
            let args = curl_arguments(url);
            &&& args.len() == 7
            &&& args[0] == "-s"@ && args[1] == "--fail"@
            &&& args[2] == "--max-time"@ && args[3] == "20"@
            &&& args[4] == "-A"@ && args[5] == "world-radio-tui/0.1"@
            &&& args.last() == url
        }),
{
}

} // verus!
