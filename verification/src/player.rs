//! The command-line players and their arguments.
use vstd::prelude::*;

use crate::text::{owned, texts};

verus! {

/// The audio filter that mimics a small AM or shortwave radio: a narrow band-pass,
/// broadcast-style compression, a touch of bit-crush and a little makeup gain.
pub const RADIO_AF: &'static str = "highpass=f=300,lowpass=f=3400,acompressor=ratio=4,acrusher=bits=12:mode=log:aa=1,volume=4dB";

/// A player, in the order in which they are tried.
#[derive(Clone, Copy, PartialEq, Eq, Structural)]
pub enum Player {
    Mpv,
    Ffplay,
    Cvlc,
}

/// The command of a player.
pub open spec fn player_name(p: Player) -> Seq<char> {
    match p {
        Player::Mpv => "mpv"@,
        Player::Ffplay => "ffplay"@,
        Player::Cvlc => "cvlc"@,
    }
}

/// The player to try after one that does not start.
pub open spec fn player_after(p: Player) -> Option<Player> {
    match p {
        Player::Mpv => Some(Player::Ffplay),
        Player::Ffplay => Some(Player::Cvlc),
        Player::Cvlc => None,
    }
}

/// The arguments that make a player play a URL, with or without the radio filter.
/// `cvlc` has no simple way to filter and plays clean.
pub open spec fn player_arguments(p: Player, fx: bool, url: Seq<char>) -> Seq<Seq<char>> {
    match p {
        Player::Mpv => seq!["--no-video"@, "--really-quiet"@] + (if fx {
            seq!["--af=lavfi=["@ + RADIO_AF@ + "]"@]
        } else {
            Seq::empty()
        }) + seq![url],
        Player::Ffplay => seq!["-nodisp"@, "-autoexit"@, "-loglevel"@, "quiet"@] + (if fx {
            seq!["-af"@, RADIO_AF@]
        } else {
            Seq::empty()
        }) + seq![url],
        Player::Cvlc => seq!["--no-video"@, "--quiet"@, url],
    }
}

impl Player {
    /// The player that is tried first.
    pub fn first() -> (r: Player)
        ensures
            r == Player::Mpv,
    {
        Player::Mpv
    }

    /// The player's command.
    pub fn name(self) -> (r: &'static str)
        ensures
            r@ == player_name(self),
    {
        match self {
            Player::Mpv => "mpv",
            Player::Ffplay => "ffplay",
            Player::Cvlc => "cvlc",
        }
    }

    /// The player to try where this one does not start.
    pub fn next(self) -> (r: Option<Player>)
        ensures
            r == player_after(self),
    {
        match self {
            Player::Mpv => Some(Player::Ffplay),
            Player::Ffplay => Some(Player::Cvlc),
            Player::Cvlc => None,
        }
    }

    /// The arguments that make the player play a URL.
    pub fn args(self, fx: bool, url: &str) -> (r: Vec<String>)
        ensures
            texts(r@) == player_arguments(self, fx, url@),
    {
        let r = match self {
            Player::Mpv => {
                if fx {
                    let mut af = "--af=lavfi=[".to_owned();
                    af.append(RADIO_AF);
                    af.append("]");
                    owned(&["--no-video", "--really-quiet", af.as_str(), url])
                } else {
                    owned(&["--no-video", "--really-quiet", url])
                }
            },
            Player::Ffplay => {
                if fx {
                    owned(&["-nodisp", "-autoexit", "-loglevel", "quiet", "-af", RADIO_AF, url])
                } else {
                    owned(&["-nodisp", "-autoexit", "-loglevel", "quiet", url])
                }
            },
            Player::Cvlc => owned(&["--no-video", "--quiet", url]),
        };
        assert(texts(r@) == player_arguments(self, fx, url@));
        r
    }
}

/// Every player is given the URL as its last argument. The radio filter adds the
/// argument that sets it for `mpv` and `ffplay`, before the URL, and takes nothing
/// away; `cvlc` plays the same with it and without.
pub proof fn radio_filter_adds_its_arguments(url: Seq<char>)
    ensures
        player_arguments(Player::Mpv, false, url) == seq!["--no-video"@, "--really-quiet"@, url],
        player_arguments(Player::Mpv, true, url) == player_arguments(
            Player::Mpv,
            false,
            url,
        ).insert(2, "--af=lavfi=["@ + RADIO_AF@ + "]"@),
        player_arguments(Player::Ffplay, false, url) == seq![
            "-nodisp"@,
            "-autoexit"@,
            "-loglevel"@,
            "quiet"@,
            url,
        ],
        player_arguments(Player::Ffplay, true, url) == player_arguments(
            Player::Ffplay,
            false,
            url,
        ).insert(4, RADIO_AF@).insert(4, "-af"@),
        player_arguments(Player::Cvlc, true, url) == player_arguments(Player::Cvlc, false, url),
        player_arguments(Player::Cvlc, false, url) == seq!["--no-video"@, "--quiet"@, url],
        forall|p: Player, fx: bool| #[trigger] player_arguments(p, fx, url).last() == url,
{
    assert forall|p: Player, fx: bool| #[trigger] player_arguments(p, fx, url).last() == url by {
        match p {
            Player::Mpv => {},
            Player::Ffplay => {},
            Player::Cvlc => {},
        }
    }
}

/// The players are `mpv`, `ffplay` and `cvlc`, tried in this order, each once.
pub proof fn players_have_an_order()
    ensures
        player_name(Player::Mpv) == "mpv"@,
        player_name(Player::Ffplay) == "ffplay"@,
        player_name(Player::Cvlc) == "cvlc"@,
        player_after(Player::Mpv) == Some(Player::Ffplay),
        player_after(Player::Ffplay) == Some(Player::Cvlc),
        player_after(Player::Cvlc) is None,
        RADIO_AF@
            == "highpass=f=300,lowpass=f=3400,acompressor=ratio=4,acrusher=bits=12:mode=log:aa=1,volume=4dB"@,
{
}

} // verus!
