//! What the radio does, as functions from state and event to state and action.
use vstd::prelude::*;

use crate::directory::urls;
use crate::filter::{menu, passes_filters, visible, ItemModel, OpModel};
use crate::keys::{Key, UiEvent};
use crate::live::LiveModel;
use crate::player::{player_after, player_name, Player};
use crate::station::{has_url, StationModel};
use crate::text::decimal;

verus! {

/// What is to be done outside after an event.
pub enum ActionModel {
    Nothing,
    /// End the running player, if there is one.
    Kill,
    /// End the running player, if there is one, then try the players in turn on
    /// this URL.
    Launch(Seq<char>),
    /// Begin to fetch and verify stations.
    Load,
    /// Draw the globe larger.
    Grow,
    /// Draw the globe smaller.
    Shrink,
}

/// Where the globe's centre goes in one frame: whether it is next to its target,
/// whether it is at it, and the place one step closer.
#[derive(Clone, Copy)]
pub struct Glide {
    pub near: bool,
    pub arrived: bool,
    pub lon: u64,
    pub lat: u64,
}

/// The state of the radio.
#[verifier::ext_equal]
pub struct AppModel {
    pub curated: Seq<StationModel>,
    pub all_stations: Seq<StationModel>,
    pub stations: Seq<StationModel>,
    pub filter_continent: Option<Seq<char>>,
    pub filter_country: Option<Seq<char>>,
    pub filter_open: bool,
    pub filter_items: Seq<ItemModel>,
    pub filter_sel: int,
    pub selected: int,
    pub list_selected: Option<int>,
    pub cur_lon: u64,
    pub cur_lat: u64,
    pub target_lon: u64,
    pub target_lat: u64,
    pub color: bool,
    pub graticule: bool,
    pub borders: bool,
    pub zoom: bool,
    pub radio_fx: bool,
    pub status: Seq<char>,
    pub playing: bool,
    pub loading: bool,
    pub seen_urls: Set<Seq<char>>,
    pub needs_redraw: bool,
    pub quit: bool,
}

/// Whether a menu entry can be chosen.
pub open spec fn is_choice(item: ItemModel) -> bool {
    item is Choice
}

/// The index of the first entry from `from` on that can be chosen; the menu's
/// length where there is none.
pub open spec fn first_choice(items: Seq<ItemModel>, from: int) -> int
    decreases items.len() - from,
{
    if from >= items.len() || is_choice(items[from]) {
        from
    } else {
        first_choice(items, from + 1)
    }
}

/// Where the menu's cursor comes to rest when it moves in steps of `dir` from
/// `at`, wrapping round, and passes over what cannot be chosen; it moves `most`
/// steps at most.
pub open spec fn moved(items: Seq<ItemModel>, at: int, dir: int, most: int) -> int
    decreases most,
{
    if most <= 0 {
        at
    } else {
        let next = (at + dir) % (items.len() as int);
        if is_choice(items[next]) {
            next
        } else {
            moved(items, next, dir, most - 1)
        }
    }
}

/// The active filters as they are told to the listener.
pub open spec fn filter_text(continent: Option<Seq<char>>, country: Option<Seq<char>>) -> Seq<char> {
    match (continent, country) {
        (Some(c), Some(y)) => c + " · "@ + y,
        (Some(c), None) => c,
        (None, Some(y)) => y,
        (None, None) => Seq::empty(),
    }
}

/// The index of the first station from `from` on with the given name; the list's
/// length where there is none.
pub open spec fn first_named(list: Seq<StationModel>, name: Seq<char>, from: int) -> int
    decreases list.len() - from,
{
    if from >= list.len() || list[from].name == name {
        from
    } else {
        first_named(list, name, from + 1)
    }
}

impl AppModel {
    /// The state at the start, for a curated list.
    pub open spec fn start(curated: Seq<StationModel>) -> AppModel {
        AppModel {
            curated,
            all_stations: curated,
            stations: curated,
            filter_continent: None,
            filter_country: None,
            filter_open: false,
            filter_items: Seq::empty(),
            filter_sel: 0,
            selected: 0,
            list_selected: Some(0int),
            cur_lon: curated[0].lon,
            cur_lat: curated[0].lat,
            target_lon: curated[0].lon,
            target_lat: curated[0].lat,
            color: true,
            graticule: false,
            borders: true,
            zoom: false,
            radio_fx: false,
            status: "Ready — ←/→ tune · x random · [ ] size · z maximize · r radio · L reload."@,
            playing: false,
            loading: false,
            seen_urls: urls(curated),
            needs_redraw: true,
            quit: false,
        }
    }

    /// What holds of the radio at all times:
    /// the curated list is not empty and every station on it has a URL;
    /// the stations shown are those that pass the filters;
    /// the known URLs are those of all stations;
    /// the selected station is on the list, and the list highlights it;
    /// the menu's cursor is on an entry that can be chosen while the menu is open.
    pub open spec fn valid(self) -> bool {
        &&& self.curated.len() > 0
        &&& forall|i: int| 0 <= i < self.curated.len() ==> has_url(#[trigger] self.curated[i])
        &&& self.stations == visible(self.all_stations, self.filter_continent, self.filter_country)
        &&& self.seen_urls == urls(self.all_stations)
        &&& if self.stations.len() == 0 {
            self.selected == 0 && self.list_selected is None
        } else {
            0 <= self.selected < self.stations.len() && self.list_selected == Some(self.selected)
        }
        &&& if self.filter_items.len() == 0 {
            self.filter_sel == 0 && !self.filter_open
        } else {
            0 <= self.filter_sel < self.filter_items.len()
        }
        &&& self.filter_open ==> is_choice(self.filter_items[self.filter_sel])
    }

    /// Begins to play the selected station, in place of what is playing.
    pub open spec fn play(self) -> (AppModel, ActionModel) {
        let idle = AppModel { playing: false, ..self };
        if self.stations.len() == 0 {
            (idle, ActionModel::Kill)
        } else {
            let at = if self.selected < self.stations.len() {
                self.selected
            } else {
                self.stations.len() - 1
            };
            let url = self.stations[at].url;
            if url.len() == 0 {
                (
                    AppModel { status: "No stream URL for this station."@, ..idle },
                    ActionModel::Kill,
                )
            } else {
                (idle, ActionModel::Launch(url))
            }
        }
    }

    /// Takes note of whether a player started; gives the one to try next.
    pub open spec fn on_spawn(self, player: Player, started: bool) -> (AppModel, Option<Player>) {
        if started {
            let fx = if self.radio_fx && player != Player::Cvlc {
                " · radio fx"@
            } else {
                Seq::empty()
            };
            (
                AppModel {
                    playing: true,
                    status: "playing via "@ + player_name(player) + fx,
                    ..self
                },
                None,
            )
        } else {
            match player_after(player) {
                Some(p) => (self, Some(p)),
                None => (
                    AppModel {
                        status: "No CLI audio player found (install mpv or ffmpeg)."@,
                        ..self
                    },
                    None,
                ),
            }
        }
    }

    /// Stops what is playing.
    pub open spec fn stop(self) -> (AppModel, ActionModel) {
        if self.playing {
            (AppModel { playing: false, status: "■ stopped"@, ..self }, ActionModel::Kill)
        } else {
            (self, ActionModel::Nothing)
        }
    }

    /// Selects the station at an index, counted round the list; the globe turns to
    /// it, and it is played if something is playing.
    pub open spec fn select(self, idx: int) -> (AppModel, ActionModel) {
        if self.stations.len() == 0 {
            (self, ActionModel::Nothing)
        } else {
            let at = idx % (self.stations.len() as int);
            let turned = AppModel {
                selected: at,
                list_selected: Some(at),
                target_lon: self.stations[at].lon,
                target_lat: self.stations[at].lat,
                needs_redraw: true,
                ..self
            };
            if self.playing {
                turned.play()
            } else {
                (turned, ActionModel::Nothing)
            }
        }
    }

    /// Moves the globe's centre by one frame.
    pub open spec fn tick(self, g: Glide) -> AppModel {
        if g.near && g.arrived {
            self
        } else if g.near {
            AppModel {
                cur_lon: self.target_lon,
                cur_lat: self.target_lat,
                needs_redraw: true,
                ..self
            }
        } else {
            AppModel { cur_lon: g.lon, cur_lat: g.lat, needs_redraw: true, ..self }
        }
    }

    /// Starts over from the curated list and begins to load stations, unless they
    /// are being loaded.
    pub open spec fn load_live(self) -> (AppModel, ActionModel) {
        if self.loading {
            (self, ActionModel::Nothing)
        } else {
            (
                AppModel {
                    all_stations: self.curated,
                    stations: self.curated,
                    filter_continent: None,
                    filter_country: None,
                    seen_urls: urls(self.curated),
                    selected: 0,
                    list_selected: Some(0int),
                    status: "Loading stations from radio-browser.info…"@,
                    loading: true,
                    ..self
                },
                ActionModel::Load,
            )
        }
    }

    /// Adds a verified station, unless its URL is known: to all stations, and to
    /// those shown if it passes the filters.
    pub open spec fn add(self, s: StationModel) -> AppModel {
        if self.seen_urls.contains(s.url) {
            self
        } else {
            let known = AppModel {
                seen_urls: self.seen_urls.insert(s.url),
                all_stations: self.all_stations.push(s),
                ..self
            };
            if passes_filters(self.filter_continent, self.filter_country, s) {
                AppModel {
                    stations: self.stations.push(s),
                    list_selected: if self.list_selected is None {
                        Some(0int)
                    } else {
                        self.list_selected
                    },
                    ..known
                }
            } else {
                known
            }
        }
    }

    /// Takes a message of the verification.
    pub open spec fn on_live(self, msg: LiveModel) -> AppModel {
        let told = AppModel { needs_redraw: true, ..self };
        match msg {
            LiveModel::Progress(s) => AppModel { status: s, ..told },
            LiveModel::Add(s) => told.add(s),
            LiveModel::Done(n) => AppModel {
                status: decimal(n) + " working stations loaded. ←/→ to browse · L to refresh."@,
                loading: false,
                ..told
            },
            LiveModel::Failed(e) => AppModel {
                status: "Live load failed: "@ + e + " — keeping current list."@,
                loading: false,
                ..told
            },
        }
    }

    /// Takes note that no message of the verification will come any more.
    pub open spec fn on_lost(self) -> AppModel {
        AppModel { loading: false, ..self }
    }

    /// Takes note that a frame was drawn.
    pub open spec fn drawn(self) -> AppModel {
        AppModel { needs_redraw: false, ..self }
    }

    /// Shows the stations that pass the filters and selects the first of them.
    pub open spec fn apply_filters(self) -> AppModel {
        let shown = visible(self.all_stations, self.filter_continent, self.filter_country);
        AppModel {
            stations: shown,
            selected: 0,
            list_selected: if shown.len() == 0 {
                None
            } else {
                Some(0int)
            },
            target_lon: if shown.len() == 0 {
                self.target_lon
            } else {
                shown[0].lon
            },
            target_lat: if shown.len() == 0 {
                self.target_lat
            } else {
                shown[0].lat
            },
            status: if self.filter_continent is None && self.filter_country is None {
                "Filters cleared — "@ + decimal(shown.len()) + " stations."@
            } else {
                "Filter: "@ + filter_text(self.filter_continent, self.filter_country) + " — "@
                    + decimal(shown.len()) + " stations."@
            },
            needs_redraw: true,
            ..self
        }
    }

    /// Opens the filter menu.
    pub open spec fn open_filter(self) -> AppModel {
        let items = menu(self.all_stations, self.filter_continent, self.filter_country);
        let first = first_choice(items, 0);
        AppModel {
            filter_items: items,
            filter_open: true,
            filter_sel: if first < items.len() {
                first
            } else {
                0
            },
            ..self
        }
    }

    /// Moves the menu's cursor.
    pub open spec fn filter_step(self, dir: int) -> AppModel {
        let n = self.filter_items.len();
        if n == 0 {
            self
        } else {
            AppModel { filter_sel: moved(self.filter_items, self.filter_sel, dir, n as int), ..self }
        }
    }

    /// The filters after an entry of the menu was chosen.
    pub open spec fn with_op(self, op: OpModel) -> AppModel {
        match op {
            OpModel::Clear => AppModel { filter_continent: None, filter_country: None, ..self },
            OpModel::Continent(v) => AppModel { filter_continent: v, ..self },
            OpModel::Country(v) => AppModel { filter_country: v, ..self },
        }
    }

    /// Chooses the menu's entry under the cursor and closes the menu.
    pub open spec fn filter_apply_selected(self) -> AppModel {
        if 0 <= self.filter_sel < self.filter_items.len() {
            match self.filter_items[self.filter_sel] {
                ItemModel::Choice { label, op, active } => AppModel {
                    filter_open: false,
                    ..self.with_op(op).apply_filters()
                },
                ItemModel::Header(_) => AppModel { filter_open: false, ..self },
            }
        } else {
            AppModel { filter_open: false, ..self }
        }
    }

    /// Takes a key while the filter menu is open.
    pub open spec fn on_filter_key(self, key: Key) -> AppModel {
        match key {
            Key::Up => self.filter_step(-1),
            Key::Down => self.filter_step(1),
            Key::Enter => self.filter_apply_selected(),
            Key::Esc => AppModel { filter_open: false, ..self },
            Key::Char(c) => if c == 'k' {
                self.filter_step(-1)
            } else if c == 'j' {
                self.filter_step(1)
            } else if c == ' ' {
                self.filter_apply_selected()
            } else if c == 'f' || c == 'q' {
                AppModel { filter_open: false, ..self }
            } else {
                self
            },
            _ => self,
        }
    }

    /// Selects the next station, round the list.
    pub open spec fn next_station(self) -> (AppModel, ActionModel) {
        self.select(self.selected + 1)
    }

    /// Selects the station before, round the list.
    pub open spec fn previous_station(self) -> (AppModel, ActionModel) {
        self.select(self.selected + self.stations.len() - 1)
    }

    /// Ends the program.
    pub open spec fn leave(self) -> (AppModel, ActionModel) {
        let (m, a) = self.stop();
        (AppModel { quit: true, ..m }, a)
    }

    /// Switches the radio filter. What is playing starts again, with or without
    /// it.
    pub open spec fn switch_fx(self) -> (AppModel, ActionModel) {
        let m = AppModel { radio_fx: !self.radio_fx, ..self };
        if self.playing {
            m.play()
        } else {
            (
                AppModel {
                    status: if m.radio_fx {
                        "Radio filter ON — lo-fi AM sound when you play (p)."@
                    } else {
                        "Radio filter off."@
                    },
                    ..m
                },
                ActionModel::Nothing,
            )
        }
    }

    /// Takes a character key while the menu is closed. `pick` is the index that
    /// chance gives where a random station is asked for.
    pub open spec fn on_char(self, c: char, pick: int) -> (AppModel, ActionModel) {
        if c == 'q' {
            self.leave()
        } else if c == 'l' || c == 'j' {
            self.next_station()
        } else if c == 'h' || c == 'k' {
            self.previous_station()
        } else if c == 'x' {
            self.select(pick)
        } else if c == ']' || c == '+' || c == '=' {
            (self, ActionModel::Grow)
        } else if c == '[' || c == '-' || c == '_' {
            (self, ActionModel::Shrink)
        } else if c == 'c' {
            (AppModel { color: !self.color, ..self }, ActionModel::Nothing)
        } else if c == 'g' {
            (AppModel { graticule: !self.graticule, ..self }, ActionModel::Nothing)
        } else if c == 'b' {
            (AppModel { borders: !self.borders, ..self }, ActionModel::Nothing)
        } else if c == 'z' {
            (AppModel { zoom: !self.zoom, ..self }, ActionModel::Nothing)
        } else if c == 'f' {
            (self.open_filter(), ActionModel::Nothing)
        } else if c == 'r' {
            self.switch_fx()
        } else if c == 'L' {
            self.load_live()
        } else if c == 'p' || c == ' ' {
            if self.playing {
                self.stop()
            } else {
                self.play()
            }
        } else {
            (self, ActionModel::Nothing)
        }
    }

    /// Takes a key. `pick` is the index that chance gives where a random station
    /// is asked for.
    pub open spec fn on_key(self, key: Key, pick: int) -> (AppModel, ActionModel) {
        let m = AppModel { needs_redraw: true, ..self };
        if self.filter_open {
            (m.on_filter_key(key), ActionModel::Nothing)
        } else {
            match key {
                Key::Esc => m.leave(),
                Key::Right => m.next_station(),
                Key::Down => m.next_station(),
                Key::Left => m.previous_station(),
                Key::Up => m.previous_station(),
                Key::Char(c) => m.on_char(c, pick),
                _ => (m, ActionModel::Nothing),
            }
        }
    }

    /// Takes an event of the terminal. A resize only asks for a new frame.
    pub open spec fn on_event(self, event: UiEvent, pick: int) -> (AppModel, ActionModel) {
        match event {
            UiEvent::Press(key) => self.on_key(key, pick),
            UiEvent::Resize => (AppModel { needs_redraw: true, ..self }, ActionModel::Nothing),
            UiEvent::Other => (self, ActionModel::Nothing),
        }
    }

    /// Selects the first station of the given name, where there is one, with the
    /// globe already turned to it.
    pub open spec fn focus(self, name: Seq<char>) -> AppModel {
        let at = first_named(self.stations, name, 0);
        if at < self.stations.len() {
            AppModel {
                selected: at,
                list_selected: Some(at),
                cur_lon: self.stations[at].lon,
                cur_lat: self.stations[at].lat,
                ..self
            }
        } else {
            self
        }
    }

    /// Makes ready for a picture of one settled frame.
    pub open spec fn snapshot(self, zoom: bool, filter: bool, name: Seq<char>) -> AppModel {
        let m = if filter {
            self.open_filter()
        } else {
            self
        };
        AppModel { zoom, ..m.focus(name) }
    }

    /// Whether an index is one that chance can give.
    pub open spec fn can_pick(self, pick: int) -> bool {
        0 <= pick && (self.stations.len() > 0 ==> pick < self.stations.len())
    }
}

} // verus!
