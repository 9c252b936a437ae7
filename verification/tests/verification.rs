use terminal_radio::live::{
    begin_load, probe_plan, verifying_message, LiveMsg, LoadStart, Tally,
};
use terminal_radio::player::{Player, RADIO_AF};
use terminal_radio::probe::{
    after_curl, after_ffprobe, ffprobe_args, http_args, probe_start, stream_reply, Ended, ProbeStep,
};
use terminal_radio::random::{index_from, random_index};
use terminal_radio::station::Station;

fn station(name: &str) -> Station {
    Station {
        name: name.to_string(),
        city: String::new(),
        country: String::new(),
        country_name: String::new(),
        lon: 0,
        lat: 0,
        genre: String::new(),
        url: format!("http://{name}"),
    }
}

fn stations(n: usize) -> Vec<Station> {
    (0..n).map(|i| station(&format!("{i}"))).collect()
}

fn ended(success: bool, out: &[u8]) -> Option<Ended> {
    Some(Ended { success, stdout: out.to_vec() })
}

#[test]
fn a_station_without_a_url_does_not_play() {
    assert!(probe_start("") == ProbeStep::Verdict(false));
    assert!(probe_start("http://a") == ProbeStep::Ffprobe);
}

#[test]
fn ffprobe_has_to_name_a_codec() {
    assert!(after_ffprobe(&ended(true, b"mp3\n")) == ProbeStep::Verdict(true));
    assert!(after_ffprobe(&ended(true, b" \r\n\t\x0c")) == ProbeStep::Verdict(false));
    assert!(after_ffprobe(&ended(true, b"")) == ProbeStep::Verdict(false));
    assert!(after_ffprobe(&ended(true, b"\x0b")) == ProbeStep::Verdict(true));
    assert!(after_ffprobe(&ended(false, b"mp3\n")) == ProbeStep::Verdict(false));
}

#[test]
fn without_ffprobe_the_http_check_has_to_do() {
    assert!(after_ffprobe(&None) == ProbeStep::Curl);
    assert!(after_curl(&Some(b"200 audio/mpeg".to_vec())));
    assert!(!after_curl(&Some(b"404 audio/mpeg".to_vec())));
    assert!(!after_curl(&Some(b"200 Text/HTML".to_vec())));
    assert!(after_curl(&Some(b"200 audio/\xff\xfe".to_vec())));
    assert!(!after_curl(&Some(b"\xff200 audio/mpeg".to_vec())));
    assert!(!after_curl(&Some(Vec::new())));
    assert!(!after_curl(&None));
}

#[test]
fn documents_are_no_streams() {
    assert!(stream_reply("200"));
    assert!(stream_reply("206 application/ogg"));
    assert!(!stream_reply("200 text/plain"));
    assert!(!stream_reply("200 application/xhtml"));
    assert!(!stream_reply("200 application/json; charset=utf-8"));
    assert!(!stream_reply("200 image/svg+XML"));
    assert!(!stream_reply("301 audio/mpeg"));
    assert!(!stream_reply(""));
}

#[test]
fn the_checks_get_their_arguments() {
    let a = ffprobe_args("http://a");
    assert_eq!(a.len(), 16);
    assert_eq!(a[2], "-rw_timeout");
    assert_eq!(a[11], "stream=codec_name");
    assert_eq!(a[14..], ["-i".to_string(), "http://a".to_string()]);
    let a = http_args("http://a");
    assert_eq!(a.len(), 13);
    assert_eq!(a[11], "%{http_code} %{content_type}");
    assert_eq!(a[12], "http://a");
}

#[test]
fn candidates_are_dealt_in_turn() {
    let plan = probe_plan(&stations(50));
    assert_eq!(plan.total, 50);
    assert_eq!(plan.buckets.len(), 24);
    let names: Vec<&str> = plan.buckets[1].iter().map(|s| s.name.as_str()).collect();
    assert_eq!(names, vec!["1", "25", "49"]);
    assert_eq!(plan.buckets[2].len(), 2);
    let dealt: usize = plan.buckets.iter().map(|b| b.len()).sum();
    assert_eq!(dealt, 50);
}

#[test]
fn few_candidates_have_few_workers() {
    assert_eq!(probe_plan(&stations(3)).buckets.len(), 3);
    let none = probe_plan(&Vec::new());
    assert_eq!((none.total, none.buckets.len()), (0, 1));
    assert!(none.buckets[0].is_empty());
}

#[test]
fn no_more_than_the_cap_are_checked() {
    let plan = probe_plan(&stations(1000));
    assert_eq!(plan.total, 800);
    let dealt: usize = plan.buckets.iter().map(|b| b.len()).sum();
    assert_eq!(dealt, 800);
}

#[test]
fn passing_stations_join_at_once() {
    let mut t = Tally::new(24);
    let said = t.record(station("a"), true);
    assert!(matches!(&said[..], [LiveMsg::Add(s)] if s.name == "a"));
    assert!(t.record(station("b"), false).is_empty());
    for i in 0..9 {
        assert!(t.record(station(&format!("{i}")), false).is_empty());
    }
    let said = t.record(station("z"), true);
    assert_eq!(said.len(), 2);
    assert!(matches!(&said[0], LiveMsg::Add(s) if s.name == "z"));
    assert!(
        matches!(&said[1], LiveMsg::Progress(p) if p == "Verifying… 12/24 checked, 2 working")
    );
    assert!(matches!(t.finish(), LiveMsg::Done(2)));
}

#[test]
fn checking_stops_when_enough_are_found() {
    let mut t = Tally::new(800);
    for i in 0..299 {
        t.record(station(&format!("{i}")), true);
    }
    assert!(!t.enough());
    assert_eq!(t.record(station("last"), true).len(), 2);
    assert!(t.enough());
    assert!(t.record(station("late"), true).is_empty());
    assert!(t.enough());
    assert_eq!(t.found, 301);
    assert!(matches!(t.finish(), LiveMsg::Done(300)));
}

#[test]
fn nothing_found_is_a_failure() {
    let mut t = Tally::new(1);
    t.record(station("a"), false);
    assert!(matches!(t.finish(), LiveMsg::Failed(e) if e == "no streams passed verification"));
    assert!(matches!(Tally::new(0).finish(), LiveMsg::Failed(_)));
}

#[test]
fn the_verification_is_announced() {
    assert!(
        matches!(verifying_message(800), LiveMsg::Progress(p)
            if p == "Verifying 800 streams — stations appear as they pass…")
    );
}

#[test]
fn players_get_their_arguments() {
    assert_eq!(Player::Mpv.args(false, "u"), vec!["--no-video", "--really-quiet", "u"]);
    assert_eq!(
        Player::Mpv.args(true, "u"),
        vec![
            "--no-video".to_string(),
            "--really-quiet".to_string(),
            format!("--af=lavfi=[{RADIO_AF}]"),
            "u".to_string(),
        ]
    );
    assert_eq!(
        Player::Ffplay.args(false, "u"),
        vec!["-nodisp", "-autoexit", "-loglevel", "quiet", "u"]
    );
    assert_eq!(
        Player::Ffplay.args(true, "u"),
        vec!["-nodisp", "-autoexit", "-loglevel", "quiet", "-af", RADIO_AF, "u"]
    );
    assert_eq!(Player::Cvlc.args(true, "u"), vec!["--no-video", "--quiet", "u"]);
    assert_eq!(Player::Cvlc.args(false, "u"), vec!["--no-video", "--quiet", "u"]);
}

#[test]
fn players_come_in_order() {
    let p = Player::first();
    assert_eq!(p.name(), "mpv");
    let p = p.next().unwrap();
    assert_eq!(p.name(), "ffplay");
    let p = p.next().unwrap();
    assert_eq!(p.name(), "cvlc");
    assert!(p.next().is_none());
}

#[test]
fn random_indices_are_below_their_bound() {
    assert_eq!(index_from(17, 5), 2);
    assert_eq!(index_from(u64::MAX, 1), 0);
    let mut seen = [false; 4];
    for _ in 0..2000 {
        seen[random_index(4)] = true;
    }
    assert_eq!(seen, [true; 4]);
    assert_eq!(random_index(1), 0);
}

#[test]
fn a_load_begins_with_what_the_fetch_brought() {
    match begin_load(Err("bad JSON".to_string())) {
        LoadStart::Over(LiveMsg::Failed(e)) => assert_eq!(e, "bad JSON"),
        _ => panic!(),
    }
    match begin_load(Ok(stations(900))) {
        LoadStart::Verify { first: LiveMsg::Progress(p), plan, tally } => {
            assert_eq!(p, "Verifying 800 streams — stations appear as they pass…");
            assert_eq!((plan.total, plan.buckets.len()), (800, 24));
            assert_eq!((tally.total, tally.checked, tally.found), (800, 0, 0));
        }
        _ => panic!(),
    }
}

#[test]
fn a_load_is_told_in_order() {
    let (first, plan, mut tally) = match begin_load(Ok(stations(26))) {
        LoadStart::Verify { first, plan, tally } => (first, plan, tally),
        _ => panic!(),
    };
    let mut told = vec![first];
    for bucket in plan.buckets {
        for st in bucket {
            let good = st.name != "3";
            told.append(&mut tally.record(st, good));
        }
    }
    told.push(tally.finish());
    let joined = told.iter().filter(|m| matches!(m, LiveMsg::Add(_))).count();
    assert_eq!(joined, 25);
    let ends = |m: &LiveMsg| matches!(m, LiveMsg::Done(_) | LiveMsg::Failed(_));
    assert_eq!(told.iter().filter(|m| ends(m)).count(), 1);
    assert!(matches!(told.last(), Some(LiveMsg::Done(25))));
    assert!(matches!(&told[0], LiveMsg::Progress(p) if p.starts_with("Verifying 26 ")));
}

fn verdict(url: &str, ffprobe: Option<Ended>, curl: Option<Vec<u8>>) -> (bool, usize) {
    let mut step = probe_start(url);
    let mut commands = 0;
    loop {
        step = match step {
            ProbeStep::Verdict(v) => return (v, commands),
            ProbeStep::Ffprobe => after_ffprobe(&ffprobe),
            ProbeStep::Curl => ProbeStep::Verdict(after_curl(&curl)),
        };
        commands += 1;
    }
}

#[test]
fn the_steps_lead_to_the_verdict() {
    let stream = || Some(b"200 audio/mpeg".to_vec());
    assert_eq!(verdict("", ended(true, b"mp3"), stream()), (false, 0));
    assert_eq!(verdict("u", ended(true, b"mp3"), None), (true, 1));
    assert_eq!(verdict("u", ended(false, b"mp3"), stream()), (false, 1));
    assert_eq!(verdict("u", ended(true, b"\n"), stream()), (false, 1));
    assert_eq!(verdict("u", None, stream()), (true, 2));
    assert_eq!(verdict("u", None, Some(b"200 text/html".to_vec())), (false, 2));
    assert_eq!(verdict("u", None, None), (false, 2));
}
