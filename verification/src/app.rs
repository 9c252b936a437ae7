//! The radio: its state, and what each event does to it.
use vstd::arithmetic::div_mod::{lemma_add_mod_noop, lemma_fundamental_div_mod_converse};
use vstd::hash_set::StringHashSet;
use vstd::prelude::*;

use crate::directory::{urls, urls_push};
use crate::filter::{
    build_menu, count_groups, group_names, item_models, menu, opt_text, passes_both,
    passes_filters, select_visible, FilterItem, FilterOp, Grouping,
};
use crate::keys::{Key, UiEvent};
use crate::laws::{
    choosing_keeps_valid, event_keeps_valid, focus_keeps_valid, live_keeps_valid, load_keeps_valid,
    menu_key_keeps_valid, open_keeps_valid, playing_keeps_valid, select_keeps_valid,
    start_is_valid, step_keeps_valid, switch_keeps_valid, tick_keeps_valid,
};
use crate::live::{ends_load, LiveMsg};
use crate::model::{
    filter_text, first_choice, first_named, is_choice, moved, ActionModel, AppModel, Glide,
};
use crate::player::Player;
use crate::random::random_index;
use crate::ranking::{entries, is_ranking, ranking};
use crate::station::{
    curated_have_urls, curated_list, curated_with_urls, models, models_push, Seed, Station,
};
use crate::text::{push_decimal, same};

verus! {

/// What is to be done outside after an event.
pub enum Action {
    Nothing,
    /// End the running player, if there is one.
    Kill,
    /// End the running player, if there is one, then try the players in turn on
    /// this URL.
    Launch(String),
    /// Begin to fetch and verify stations.
    Load,
    /// Draw the globe larger.
    Grow,
    /// Draw the globe smaller.
    Shrink,
}

impl View for Action {
    type V = ActionModel;

    open spec fn view(&self) -> ActionModel {
        match *self {
            Action::Nothing => ActionModel::Nothing,
            Action::Kill => ActionModel::Kill,
            Action::Launch(url) => ActionModel::Launch(url@),
            Action::Load => ActionModel::Load,
            Action::Grow => ActionModel::Grow,
            Action::Shrink => ActionModel::Shrink,
        }
    }
}

/// What came from the verification.
pub enum LiveEvent {
    Message(LiveMsg),
    /// Nothing yet.
    Empty,
    /// Nothing more will come.
    Disconnected,
}

/// The radio.
pub struct App {
    /// The curated stations that have a URL: what the list starts from.
    curated: Vec<Station>,
    /// Everything loaded.
    all_stations: Vec<Station>,
    /// The filtered part of it that is shown.
    stations: Vec<Station>,
    filter_continent: Option<String>,
    filter_country: Option<String>,
    filter_open: bool,
    filter_items: Vec<FilterItem>,
    filter_sel: usize,
    selected: usize,
    /// The line of the list that is highlighted.
    list_selected: Option<usize>,
    /// The globe's centre and where it turns to, in degrees, by bit pattern.
    cur_lon: u64,
    cur_lat: u64,
    target_lon: u64,
    target_lat: u64,
    color: bool,
    graticule: bool,
    borders: bool,
    zoom: bool,
    radio_fx: bool,
    status: String,
    /// Whether a player was started and not stopped since.
    playing: bool,
    /// Whether stations are being loaded.
    loading: bool,
    seen_urls: StringHashSet,
    needs_redraw: bool,
    quit: bool,
}

/// How long a frame lasts, in nanoseconds.
pub const FRAME_NANOS: u64 = 33_000_000;

/// How long to wait for an event, so many nanoseconds after the last frame.
pub open spec fn wait_after(elapsed: int) -> int {
    if elapsed < FRAME_NANOS {
        FRAME_NANOS - elapsed
    } else {
        0
    }
}

/// Whether the globe moves on, so many nanoseconds after it last did.
pub open spec fn is_due(elapsed: int) -> bool {
    elapsed >= FRAME_NANOS
}

/// A frame lasts 33 milliseconds: what is waited for and what has passed add up to
/// it, and the next one is due exactly when nothing is left to wait for.
pub proof fn frames_are_evenly_spaced(elapsed: int)
    requires
        elapsed >= 0,
    ensures
        elapsed <= 33_000_000 ==> wait_after(elapsed) + elapsed == 33_000_000,
        is_due(elapsed) <==> elapsed >= 33_000_000,
        is_due(elapsed) <==> wait_after(elapsed) == 0,
        wait_after(elapsed) >= 0,
{
}

/// How long to wait for an event, so many nanoseconds after the last frame.
pub fn time_left(elapsed: u64) -> (r: u64)
    ensures
        r == wait_after(elapsed as int),
{
    if elapsed < FRAME_NANOS {
        FRAME_NANOS - elapsed
    } else {
        0
    }
}

/// Whether the globe moves on, so many nanoseconds after it last did.
pub fn frame_due(elapsed: u64) -> (r: bool)
    ensures
        r == is_due(elapsed as int),
{
    elapsed >= FRAME_NANOS
}

/// An optional index as an optional integer.
pub open spec fn opt_int(o: Option<usize>) -> Option<int> {
    match o {
        Some(i) => Some(i as int),
        None => None,
    }
}

impl View for App {
    type V = AppModel;

    closed spec fn view(&self) -> AppModel {
        AppModel {
            curated: models(self.curated@),
            all_stations: models(self.all_stations@),
            stations: models(self.stations@),
            filter_continent: opt_text(self.filter_continent),
            filter_country: opt_text(self.filter_country),
            filter_open: self.filter_open,
            filter_items: item_models(self.filter_items@),
            filter_sel: self.filter_sel as int,
            selected: self.selected as int,
            list_selected: opt_int(self.list_selected),
            cur_lon: self.cur_lon,
            cur_lat: self.cur_lat,
            target_lon: self.target_lon,
            target_lat: self.target_lat,
            color: self.color,
            graticule: self.graticule,
            borders: self.borders,
            zoom: self.zoom,
            radio_fx: self.radio_fx,
            status: self.status@,
            playing: self.playing,
            loading: self.loading,
            seen_urls: self.seen_urls@,
            needs_redraw: self.needs_redraw,
            quit: self.quit,
        }
    }
}

/// The URLs of a list of stations.
fn url_set(list: &Vec<Station>) -> (r: StringHashSet)
    ensures
        r@ == urls(models(list@)),
{
    let mut set = StringHashSet::new();
    let mut i: usize = 0;
    assert(urls(models(list@.take(0))) == Set::<Seq<char>>::empty());
    while i < list.len()
        invariant
            i <= list.len(),
            set@ == urls(models(list@.take(i as int))),
        decreases list.len() - i,
    {
        proof {
            assert(list@.take(i + 1) == list@.take(i as int).push(list@[i as int]));
            models_push(list@.take(i as int), list@[i as int]);
            urls_push(models(list@.take(i as int)), list@[i as int]@);
        }
        set.insert(list[i].url.clone());
        i += 1;
    }
    assert(list@.take(list.len() as int) == list@);
    set
}

/// The index of the first station with the given name; the list's length where
/// there is none.
fn find_named(list: &Vec<Station>, name: &str) -> (r: usize)
    ensures
        r == first_named(models(list@), name@, 0),
{
    let ghost m = models(list@);
    let mut i: usize = 0;
    while i < list.len() && !same(list[i].name.as_str(), name)
        invariant
            i <= list.len(),
            m == models(list@),
            first_named(m, name@, 0) == first_named(m, name@, i as int),
        decreases list.len() - i,
    {
        i += 1;
    }
    i
}

/// Whether an entry of the menu can be chosen.
fn choosable(item: &FilterItem) -> (r: bool)
    ensures
        r == is_choice(item@),
{
    match item {
        FilterItem::Choice { .. } => true,
        FilterItem::Header(_) => false,
    }
}

/// A step in either direction as a step forward round a menu of `n` entries.
fn forward(dir: i32, n: usize) -> (d: usize)
    requires
        n > 0,
    ensures
        d < n,
        d as int == dir as int % n as int,
{
    if dir >= 0 {
        dir as usize % n
    } else {
        let size: usize = (-(dir as i64)) as usize;
        let back: usize = size % n;
        proof {
            let q = (size / n) as int;
            assert(size == q * n + back) by {
                vstd::arithmetic::div_mod::lemma_fundamental_div_mod(size as int, n as int);
                assert(n * q == q * n) by (nonlinear_arith);
            }
            if back == 0 {
                assert(dir as int == (-q) * n + 0) by (nonlinear_arith)
                    requires
                        dir as int == -(q * n),
                ;
                lemma_fundamental_div_mod_converse(dir as int, n as int, -q, 0);
            } else {
                assert(dir as int == (-q - 1) * n + (n - back)) by (nonlinear_arith)
                    requires
                        dir as int == -(q * n + back),
                ;
                lemma_fundamental_div_mod_converse(dir as int, n as int, -q - 1, n - back);
            }
        }
        if back == 0 {
            0
        } else {
            n - back
        }
    }
}

/// Where the menu's cursor comes to rest when it moves in steps of `dir`.
fn move_cursor(items: &Vec<FilterItem>, at: usize, dir: i32) -> (r: usize)
    requires
        at < items.len(),
    ensures
        r < items.len(),
        r == moved(item_models(items@), at as int, dir as int, items.len() as int),
{
    let n: usize = items.len();
    let d: usize = forward(dir, n);
    let ghost m = item_models(items@);
    let mut i: usize = at;
    let mut steps: usize = 0;
    while steps < n
        invariant
            n == items.len(),
            n == m.len(),
            m == item_models(items@),
            steps <= n,
            i < n,
            d < n,
            d as int == dir as int % n as int,
            moved(m, at as int, dir as int, n as int) == moved(m, i as int, dir as int, n - steps),
        decreases n - steps,
    {
        let next: usize = if i < n - d { i + d } else { i - (n - d) };
        proof {
            lemma_add_mod_noop(i as int, dir as int, n as int);
            vstd::arithmetic::div_mod::lemma_small_mod(i as nat, n as nat);
            if i < n - d {
                lemma_fundamental_div_mod_converse(i + d, n as int, 0, next as int);
            } else {
                lemma_fundamental_div_mod_converse(i + d, n as int, 1, next as int);
            }
            assert(next as int == (i + dir) % (n as int));
            assert(m[next as int] == items@[next as int]@);
        }
        i = next;
        if choosable(&items[i]) {
            return i;
        }
        steps += 1;
    }
    i
}

impl App {
    /// Every station that is loaded.
    pub fn all_stations(&self) -> (r: &Vec<Station>)
        ensures
            models(r@) == self@.all_stations,
    {
        &self.all_stations
    }

    /// The stations that are shown.
    pub fn stations(&self) -> (r: &Vec<Station>)
        ensures
            models(r@) == self@.stations,
    {
        &self.stations
    }

    /// The index of the selected station.
    pub fn selected(&self) -> (r: usize)
        ensures
            r == self@.selected,
    {
        self.selected
    }

    /// The line of the list that is highlighted.
    pub fn list_selected(&self) -> (r: Option<usize>)
        ensures
            opt_int(r) == self@.list_selected,
    {
        self.list_selected
    }

    /// Whether the filter menu is open.
    pub fn filter_open(&self) -> (r: bool)
        ensures
            r == self@.filter_open,
    {
        self.filter_open
    }

    /// The entries of the filter menu.
    pub fn filter_items(&self) -> (r: &Vec<FilterItem>)
        ensures
            item_models(r@) == self@.filter_items,
    {
        &self.filter_items
    }

    /// The entry of the filter menu that the cursor is on.
    pub fn filter_sel(&self) -> (r: usize)
        ensures
            r == self@.filter_sel,
    {
        self.filter_sel
    }

    /// The globe's centre.
    pub fn cur_lon(&self) -> (r: u64)
        ensures
            r == self@.cur_lon,
    {
        self.cur_lon
    }

    /// The globe's centre.
    pub fn cur_lat(&self) -> (r: u64)
        ensures
            r == self@.cur_lat,
    {
        self.cur_lat
    }

    /// Where the globe turns to.
    pub fn target_lon(&self) -> (r: u64)
        ensures
            r == self@.target_lon,
    {
        self.target_lon
    }

    /// Where the globe turns to.
    pub fn target_lat(&self) -> (r: u64)
        ensures
            r == self@.target_lat,
    {
        self.target_lat
    }

    /// Whether the globe is drawn in colour.
    pub fn color(&self) -> (r: bool)
        ensures
            r == self@.color,
    {
        self.color
    }

    /// Whether the graticule is drawn.
    pub fn graticule(&self) -> (r: bool)
        ensures
            r == self@.graticule,
    {
        self.graticule
    }

    /// Whether the borders are drawn.
    pub fn borders(&self) -> (r: bool)
        ensures
            r == self@.borders,
    {
        self.borders
    }

    /// Whether the globe is maximized.
    pub fn zoom(&self) -> (r: bool)
        ensures
            r == self@.zoom,
    {
        self.zoom
    }

    /// Whether the radio filter is on.
    pub fn radio_fx(&self) -> (r: bool)
        ensures
            r == self@.radio_fx,
    {
        self.radio_fx
    }

    /// What was last told to the listener.
    pub fn status(&self) -> (r: &str)
        ensures
            r@ == self@.status,
    {
        self.status.as_str()
    }

    /// Whether something plays.
    pub fn playing(&self) -> (r: bool)
        ensures
            r == self@.playing,
    {
        self.playing
    }

    /// Whether stations are being loaded.
    pub fn loading(&self) -> (r: bool)
        ensures
            r == self@.loading,
    {
        self.loading
    }

    /// Whether the program is to end.
    pub fn quit(&self) -> (r: bool)
        ensures
            r == self@.quit,
    {
        self.quit
    }

    /// The radio at the start: only the curated stations that have a URL. At least
    /// one of them has one.
    pub fn new(table: &[Seed]) -> (r: App)
        requires
            curated_list(table@).len() > 0,
        ensures
            r@ == AppModel::start(curated_list(table@)),
            r@.valid(),
    {
        let stations = curated_with_urls(table);
        let lon: u64 = stations[0].lon;
        let lat: u64 = stations[0].lat;
        let seen_urls = url_set(&stations);
        proof {
            curated_have_urls(table@);
            start_is_valid(curated_list(table@));
        }
        App {
            curated: stations.clone(),
            all_stations: stations.clone(),
            stations,
            filter_continent: None,
            filter_country: None,
            filter_open: false,
            filter_items: Vec::new(),
            filter_sel: 0,
            selected: 0,
            list_selected: Some(0),
            cur_lon: lon,
            cur_lat: lat,
            target_lon: lon,
            target_lat: lat,
            color: true,
            graticule: false,
            borders: true,
            zoom: false,
            radio_fx: false,
            status: "Ready — ←/→ tune · x random · [ ] size · z maximize · r radio · L reload.".to_owned(),
            playing: false,
            loading: false,
            seen_urls,
            needs_redraw: true,
            quit: false,
        }
    }

    /// Selects the station at an index, counted round the list.
    pub fn select(&mut self, idx: usize) -> (a: Action)
        requires
            old(self)@.valid(),
        ensures
            (final(self)@, a@) == old(self)@.select(idx as int),
            final(self)@.valid(),
    {
        proof {
            select_keeps_valid(self@, idx as int);
        }
        let n: usize = self.stations.len();
        if n == 0 {
            return Action::Nothing;
        }
        let at: usize = idx % n;
        self.selected = at;
        self.target_lon = self.stations[at].lon;
        self.target_lat = self.stations[at].lat;
        self.list_selected = Some(at);
        self.needs_redraw = true;
        if self.playing {
            self.play()
        } else {
            Action::Nothing
        }
    }

    /// Moves the globe's centre by one frame.
    pub fn tick(&mut self, g: Glide)
        requires
            old(self)@.valid(),
        ensures
            final(self)@ == old(self)@.tick(g),
            final(self)@.valid(),
    {
        proof {
            tick_keeps_valid(self@, g);
        }
        if g.near {
            if !g.arrived {
                self.cur_lon = self.target_lon;
                self.cur_lat = self.target_lat;
                self.needs_redraw = true;
            }
            return ;
        }
        self.cur_lon = g.lon;
        self.cur_lat = g.lat;
        self.needs_redraw = true;
    }

    /// Begins to play the selected station, in place of what is playing.
    pub fn play(&mut self) -> (a: Action)
        requires
            old(self)@.valid(),
        ensures
            (final(self)@, a@) == old(self)@.play(),
            final(self)@.valid(),
    {
        proof {
            playing_keeps_valid(self@, Player::Mpv, true);
        }
        self.playing = false;
        let n: usize = self.stations.len();
        if n == 0 {
            return Action::Kill;
        }
        let at: usize = if self.selected < n { self.selected } else { n - 1 };
        let url = self.stations[at].url.clone();
        if url.as_str().is_empty() {
            self.status = "No stream URL for this station.".to_owned();
            return Action::Kill;
        }
        Action::Launch(url)
    }

    /// Takes note of whether a player started; gives the one to try next.
    #[verifier::rlimit(40)]
    pub fn on_spawn(&mut self, player: Player, started: bool) -> (r: Option<Player>)
        requires
            old(self)@.valid(),
        ensures
            (final(self)@, r) == old(self)@.on_spawn(player, started),
            final(self)@.valid(),
    {
        proof {
            playing_keeps_valid(self@, player, started);
        }
        if started {
            self.playing = true;
            let mut status = "playing via ".to_owned();
            status.append(player.name());
            if self.radio_fx && player != Player::Cvlc {
                status.append(" · radio fx");
            }
            self.status = status;
            assert(self@ == old(self)@.on_spawn(player, started).0);
            None
        } else {
            let next = player.next();
            if next.is_none() {
                self.status = "No CLI audio player found (install mpv or ffmpeg).".to_owned();
            }
            next
        }
    }

    /// Stops what is playing.
    pub fn stop(&mut self) -> (a: Action)
        requires
            old(self)@.valid(),
        ensures
            (final(self)@, a@) == old(self)@.stop(),
            final(self)@.valid(),
    {
        if self.playing {
            self.playing = false;
            self.status = "■ stopped".to_owned();
            Action::Kill
        } else {
            Action::Nothing
        }
    }

    /// Starts over from the curated list and begins to load stations, unless they
    /// are being loaded.
    pub fn load_live(&mut self) -> (a: Action)
        requires
            old(self)@.valid(),
        ensures
            (final(self)@, a@) == old(self)@.load_live(),
            final(self)@.valid(),
    {
        proof {
            load_keeps_valid(self@);
        }
        if self.loading {
            return Action::Nothing;
        }
        self.all_stations = self.curated.clone();
        self.filter_continent = None;
        self.filter_country = None;
        self.stations = self.curated.clone();
        self.seen_urls = url_set(&self.stations);
        self.selected = 0;
        self.list_selected = Some(0);
        self.status = "Loading stations from radio-browser.info…".to_owned();
        self.loading = true;
        Action::Load
    }

    /// Adds a verified station, unless its URL is known.
    #[verifier::rlimit(40)]
    fn add(&mut self, st: Station)
        ensures
            final(self)@ == old(self)@.add(st@),
    {
        if self.seen_urls.insert(st.url.clone()) {
            proof {
                models_push(self.all_stations@, st);
                models_push(self.stations@, st);
            }
            if self.passes(&st) {
                self.stations.push(st.clone());
                if self.list_selected.is_none() {
                    self.list_selected = Some(0);
                }
            }
            self.all_stations.push(st);
        } else {
            assert(self@.seen_urls == old(self)@.seen_urls);
        }
    }

    /// Takes a message of the verification.
    #[verifier::rlimit(40)]
    pub fn on_live(&mut self, msg: LiveMsg)
        requires
            old(self)@.valid(),
        ensures
            final(self)@ == old(self)@.on_live(msg@),
            final(self)@.valid(),
    {
        proof {
            live_keeps_valid(self@, msg@);
        }
        self.needs_redraw = true;
        match msg {
            LiveMsg::Progress(s) => {
                self.status = s;
            },
            LiveMsg::Add(st) => self.add(st),
            LiveMsg::Done(n) => {
                let mut status = String::new();
                push_decimal(&mut status, n);
                status.append(" working stations loaded. ←/→ to browse · L to refresh.");
                self.status = status;
                self.loading = false;
            },
            LiveMsg::Failed(e) => {
                let mut status = "Live load failed: ".to_owned();
                status.append(e.as_str());
                status.append(" — keeping current list.");
                self.status = status;
                self.loading = false;
            },
        }
    }

    /// Takes what came from the verification, and tells whether to look for more
    /// at once: after a message, unless it was the last.
    pub fn poll_live(&mut self, event: LiveEvent) -> (more: bool)
        requires
            old(self)@.valid(),
        ensures
            final(self)@ == match event {
                LiveEvent::Message(msg) => old(self)@.on_live(msg@),
                LiveEvent::Empty => old(self)@,
                LiveEvent::Disconnected => old(self)@.on_lost(),
            },
            more == (event is Message && !ends_load(event->Message_0@)),
            final(self)@.valid(),
    {
        match event {
            LiveEvent::Message(msg) => {
                let last = match &msg {
                    LiveMsg::Done(_) => true,
                    LiveMsg::Failed(_) => true,
                    _ => false,
                };
                self.on_live(msg);
                !last
            },
            LiveEvent::Empty => false,
            LiveEvent::Disconnected => {
                self.loading = false;
                false
            },
        }
    }

    /// Whether a station passes the filters.
    pub fn passes(&self, s: &Station) -> (r: bool)
        ensures
            r == passes_filters(self@.filter_continent, self@.filter_country, s@),
    {
        passes_both(&self.filter_continent, &self.filter_country, s)
    }

    /// Whether there is a filter.
    pub fn filters_active(&self) -> (r: bool)
        ensures
            r == (self@.filter_continent is Some || self@.filter_country is Some),
    {
        self.filter_continent.is_some() || self.filter_country.is_some()
    }

    /// The active filters as they are told to the listener.
    fn filter_label(&self) -> (r: String)
        ensures
            r@ == filter_text(self@.filter_continent, self@.filter_country),
    {
        match (&self.filter_continent, &self.filter_country) {
            (Some(c), Some(y)) => {
                let mut t = c.clone();
                t.append(" · ");
                t.append(y.as_str());
                t
            },
            (Some(c), None) => c.clone(),
            (None, Some(y)) => y.clone(),
            (None, None) => String::new(),
        }
    }

    /// Shows the stations that pass the filters and selects the first of them. The
    /// filters may have changed since the list was last made.
    pub fn apply_filters(&mut self)
        ensures
            final(self)@ == old(self)@.apply_filters(),
    {
        self.stations = select_visible(
            &self.all_stations,
            &self.filter_continent,
            &self.filter_country,
        );
        self.selected = 0;
        let n: usize = self.stations.len();
        if n == 0 {
            self.list_selected = None;
        } else {
            self.list_selected = Some(0);
            self.target_lon = self.stations[0].lon;
            self.target_lat = self.stations[0].lat;
        }
        let mut status = if self.filters_active() {
            let mut t = "Filter: ".to_owned();
            t.append(self.filter_label().as_str());
            t.append(" — ");
            t
        } else {
            "Filters cleared — ".to_owned()
        };
        push_decimal(&mut status, n);
        status.append(" stations.");
        self.status = status;
        self.needs_redraw = true;
    }

    /// How many of all stations each group has, the largest group first.
    pub fn count_by(&self, by: Grouping) -> (r: Vec<(String, usize)>)
        ensures
            entries(r@) == ranking(group_names(self@.all_stations, by)),
            is_ranking(entries(r@), group_names(self@.all_stations, by)),
    {
        count_groups(&self.all_stations, by)
    }

    /// The filter menu.
    pub fn build_filter_items(&self) -> (r: Vec<FilterItem>)
        ensures
            item_models(r@) == menu(
                self@.all_stations,
                self@.filter_continent,
                self@.filter_country,
            ),
    {
        build_menu(&self.all_stations, &self.filter_continent, &self.filter_country)
    }

    /// Opens the filter menu.
    pub fn open_filter(&mut self)
        requires
            old(self)@.valid(),
        ensures
            final(self)@ == old(self)@.open_filter(),
            final(self)@.valid(),
    {
        proof {
            open_keeps_valid(self@);
        }
        self.filter_items = self.build_filter_items();
        self.filter_open = true;
        let ghost items = item_models(self.filter_items@);
        let mut i: usize = 0;
        while i < self.filter_items.len() && !choosable(&self.filter_items[i])
            invariant
                i <= self.filter_items.len(),
                items == item_models(self.filter_items@),
                first_choice(items, 0) == first_choice(items, i as int),
            decreases self.filter_items.len() - i,
        {
            i += 1;
        }
        self.filter_sel = if i < self.filter_items.len() { i } else { 0 };
    }

    /// Moves the menu's cursor by steps of `dir`, round the menu, to the next entry
    /// that can be chosen.
    pub fn filter_step(&mut self, dir: i32)
        requires
            old(self)@.valid(),
        ensures
            final(self)@ == old(self)@.filter_step(dir as int),
            final(self)@.valid(),
    {
        proof {
            step_keeps_valid(self@, dir as int);
        }
        if self.filter_items.len() == 0 {
            return ;
        }
        self.filter_sel = move_cursor(&self.filter_items, self.filter_sel, dir);
    }

    /// What the menu's entry under the cursor does, where it can be chosen.
    fn selected_op(&self) -> (r: Option<FilterOp>)
        ensures
            match r {
                Some(op) => 0 <= self@.filter_sel < self@.filter_items.len()
                    && self@.filter_items[self@.filter_sel] is Choice
                    && self@.filter_items[self@.filter_sel]->op == op@,
                None => self@.filter_sel >= self@.filter_items.len()
                    || self@.filter_items[self@.filter_sel] is Header,
            },
    {
        if self.filter_sel < self.filter_items.len() {
            match &self.filter_items[self.filter_sel] {
                FilterItem::Choice { label, op, active } => Some(op.clone()),
                FilterItem::Header(_) => None,
            }
        } else {
            None
        }
    }

    /// Changes the filters; the list of stations stays as it is.
    fn set_filter(&mut self, op: FilterOp)
        ensures
            final(self)@ == old(self)@.with_op(op@),
    {
        match op {
            FilterOp::Clear => {
                self.filter_continent = None;
                self.filter_country = None;
            },
            FilterOp::Continent(v) => {
                self.filter_continent = v;
            },
            FilterOp::Country(v) => {
                self.filter_country = v;
            },
        }
    }

    /// Chooses the menu's entry under the cursor and closes the menu.
    pub fn filter_apply_selected(&mut self)
        requires
            old(self)@.valid(),
        ensures
            final(self)@ == old(self)@.filter_apply_selected(),
            final(self)@.valid(),
    {
        proof {
            choosing_keeps_valid(self@);
        }
        let op = self.selected_op();
        match op {
            None => {
                self.filter_open = false;
            },
            Some(op) => {
                self.set_filter(op);
                self.apply_filters();
                self.filter_open = false;
            },
        }
    }

    /// Takes a key while the filter menu is open.
    pub fn on_filter_key(&mut self, key: Key)
        requires
            old(self)@.valid(),
        ensures
            final(self)@ == old(self)@.on_filter_key(key),
            final(self)@.valid(),
    {
        proof {
            menu_key_keeps_valid(self@, key);
        }
        match key {
            Key::Up | Key::Char('k') => self.filter_step(-1),
            Key::Down | Key::Char('j') => self.filter_step(1),
            Key::Enter | Key::Char(' ') => self.filter_apply_selected(),
            Key::Esc | Key::Char('f') | Key::Char('q') => {
                self.filter_open = false;
            },
            _ => {},
        }
    }

    /// Selects the next station, round the list.
    fn next_station(&mut self) -> (a: Action)
        requires
            old(self)@.valid(),
        ensures
            (final(self)@, a@) == old(self)@.next_station(),
            final(self)@.valid(),
    {
        if self.stations.len() == 0 {
            return Action::Nothing;
        }
        self.select(self.selected + 1)
    }

    /// Selects the station before, round the list.
    fn previous_station(&mut self) -> (a: Action)
        requires
            old(self)@.valid(),
        ensures
            (final(self)@, a@) == old(self)@.previous_station(),
            final(self)@.valid(),
    {
        let n: usize = self.stations.len();
        if n == 0 {
            return Action::Nothing;
        }
        let at: usize = if self.selected == 0 { n - 1 } else { self.selected - 1 };
        proof {
            let round = self.selected + n - 1;
            if self.selected == 0 {
                lemma_fundamental_div_mod_converse(round, n as int, 0, at as int);
            } else {
                lemma_fundamental_div_mod_converse(round, n as int, 1, at as int);
            }
            vstd::arithmetic::div_mod::lemma_small_mod(at as nat, n as nat);
        }
        self.select(at)
    }

    /// Takes a key, with the index that is selected where a random station is asked
    /// for.
    pub fn on_key_picking(&mut self, key: Key, pick: usize) -> (a: Action)
        requires
            old(self)@.valid(),
        ensures
            (final(self)@, a@) == old(self)@.on_key(key, pick as int),
            final(self)@.valid(),
    {
        self.needs_redraw = true;
        if self.filter_open {
            self.on_filter_key(key);
            return Action::Nothing;
        }
        self.act(key, pick)
    }

    /// Takes a key. Where a random station is asked for, chance picks its index.
    pub fn on_key(&mut self, key: Key) -> (a: Action)
        requires
            old(self)@.valid(),
        ensures
            exists|pick: int|
                old(self)@.can_pick(pick) && (final(self)@, a@) == #[trigger] old(self)@.on_key(
                    key,
                    pick,
                ),
            final(self)@.valid(),
    {
        let ghost start = self@;
        let n: usize = self.stations.len();
        let mut pick: usize = 0;
        if n > 0 && !self.filter_open {
            if let Key::Char('x') = key {
                pick = random_index(n);
            }
        }
        let a = self.on_key_picking(key, pick);
        assert(start.can_pick(pick as int) && (self@, a@) == start.on_key(key, pick as int));
        a
    }

    /// Takes an event of the terminal.
    pub fn on_event(&mut self, event: UiEvent) -> (a: Action)
        requires
            old(self)@.valid(),
        ensures
            exists|pick: int|
                old(self)@.can_pick(pick) && (final(self)@, a@) == #[trigger] old(self)@.on_event(
                    event,
                    pick,
                ),
            final(self)@.valid(),
    {
        let ghost start = self@;
        match event {
            UiEvent::Press(key) => {
                let a = self.on_key(key);
                proof {
                    let pick = choose|pick: int|
                        start.can_pick(pick) && (self@, a@) == #[trigger] start.on_key(key, pick);
                    assert((self@, a@) == start.on_event(event, pick));
                }
                a
            },
            UiEvent::Resize => {
                self.needs_redraw = true;
                proof {
                    event_keeps_valid(start, event, 0);
                    assert(start.can_pick(0));
                    assert((self@, ActionModel::Nothing) == start.on_event(event, 0));
                }
                Action::Nothing
            },
            UiEvent::Other => {
                proof {
                    assert(start.can_pick(0));
                    assert((self@, ActionModel::Nothing) == start.on_event(event, 0));
                }
                Action::Nothing
            },
        }
    }

    /// Whether a new frame is due; it counts as drawn from then on.
    pub fn take_redraw(&mut self) -> (r: bool)
        requires
            old(self)@.valid(),
        ensures
            r == old(self)@.needs_redraw,
            final(self)@ == old(self)@.drawn(),
            final(self)@.valid(),
    {
        let due = self.needs_redraw;
        self.needs_redraw = false;
        due
    }

    /// Selects the first station of the given name, where there is one, with the
    /// globe already turned to it.
    pub fn focus(&mut self, name: &str)
        requires
            old(self)@.valid(),
        ensures
            final(self)@ == old(self)@.focus(name@),
            final(self)@.valid(),
    {
        proof {
            focus_keeps_valid(self@, name@);
        }
        let i: usize = find_named(&self.stations, name);
        if i < self.stations.len() {
            self.selected = i;
            self.list_selected = Some(i);
            self.cur_lon = self.stations[i].lon;
            self.cur_lat = self.stations[i].lat;
        }
    }

    /// Maximizes the globe or not.
    fn set_zoom(&mut self, zoom: bool)
        requires
            old(self)@.valid(),
        ensures
            final(self)@ == (AppModel { zoom, ..old(self)@ }),
            final(self)@.valid(),
    {
        self.zoom = zoom;
    }

    /// Makes ready for a picture of one settled frame.
    pub fn snapshot(&mut self, zoom: bool, filter: bool, name: &str)
        requires
            old(self)@.valid(),
        ensures
            final(self)@ == old(self)@.snapshot(zoom, filter, name@),
            final(self)@.valid(),
    {
        if filter {
            self.open_filter();
        }
        self.focus(name);
        self.set_zoom(zoom);
    }

    /// Ends the program.
    fn leave(&mut self) -> (a: Action)
        requires
            old(self)@.valid(),
        ensures
            (final(self)@, a@) == old(self)@.leave(),
            final(self)@.valid(),
    {
        let a = self.stop();
        self.quit = true;
        a
    }

    /// Switches the radio filter.
    fn switch_fx(&mut self) -> (a: Action)
        requires
            old(self)@.valid(),
        ensures
            (final(self)@, a@) == old(self)@.switch_fx(),
            final(self)@.valid(),
    {
        proof {
            switch_keeps_valid(self@);
        }
        self.radio_fx = !self.radio_fx;
        if self.playing {
            assert(self@.valid());
            self.play()
        } else {
            self.status = if self.radio_fx {
                "Radio filter ON — lo-fi AM sound when you play (p).".to_owned()
            } else {
                "Radio filter off.".to_owned()
            };
            Action::Nothing
        }
    }

    /// Switches what the globe shows.
    fn switch_look(&mut self, c: char)
        requires
            old(self)@.valid(),
            c == 'c' || c == 'g' || c == 'b' || c == 'z',
        ensures
            final(self)@ == old(self)@.on_char(c, 0).0,
            final(self)@.valid(),
    {
        if c == 'c' {
            self.color = !self.color;
        } else if c == 'g' {
            self.graticule = !self.graticule;
        } else if c == 'b' {
            self.borders = !self.borders;
        } else {
            self.zoom = !self.zoom;
        }
    }

    /// Plays the selected station, or stops what is playing.
    fn play_or_stop(&mut self) -> (a: Action)
        requires
            old(self)@.valid(),
        ensures
            (final(self)@, a@) == if old(self)@.playing {
                old(self)@.stop()
            } else {
                old(self)@.play()
            },
            final(self)@.valid(),
    {
        if self.playing {
            self.stop()
        } else {
            self.play()
        }
    }

    /// Takes a key while the menu is closed, with the index that chance gives.
    fn act(&mut self, key: Key, pick: usize) -> (a: Action)
        requires
            old(self)@.valid(),
            !old(self)@.filter_open,
            old(self)@.needs_redraw,
        ensures
            (final(self)@, a@) == old(self)@.on_key(key, pick as int),
            final(self)@.valid(),
    {
        assert((AppModel { needs_redraw: true, ..self@ }) == self@);
        match key {
            Key::Esc => self.leave(),
            Key::Right | Key::Down => self.next_station(),
            Key::Left | Key::Up => self.previous_station(),
            Key::Char(c) => match c {
                'q' => self.leave(),
                'l' | 'j' => self.next_station(),
                'h' | 'k' => self.previous_station(),
                'x' => self.select(pick),
                ']' | '+' | '=' => Action::Grow,
                '[' | '-' | '_' => Action::Shrink,
                'c' | 'g' | 'b' | 'z' => {
                    self.switch_look(c);
                    Action::Nothing
                },
                'f' => {
                    self.open_filter();
                    Action::Nothing
                },
                'r' => self.switch_fx(),
                'L' => self.load_live(),
                'p' | ' ' => self.play_or_stop(),
                _ => Action::Nothing,
            },
            _ => Action::Nothing,
        }
    }
}

} // verus!
