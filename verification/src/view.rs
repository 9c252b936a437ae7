//! What the panels show, as styled text.
use vstd::prelude::*;

use crate::app::App;
use crate::filter::{item_models, FilterItem, ItemModel};
use crate::model::AppModel;
use crate::station::{models, Station, StationModel};
use crate::text::{decimal, pad, padded, push_decimal};

verus! {

/// A terminal colour.
#[derive(Clone, Copy, PartialEq, Eq, Structural, Debug)]
pub enum Color {
    Black,
    Blue,
    Cyan,
    DarkGray,
    Gray,
    Green,
    LightRed,
    LightYellow,
    White,
    Yellow,
    Rgb(u8, u8, u8),
}

/// The colours of the globe.
#[derive(Clone, Copy, PartialEq, Eq, Structural, Debug)]
pub struct Palette {
    pub coast: Color,
    pub border: Color,
    pub grat: Color,
    pub limb: Color,
    pub marker: Color,
    pub sel: Color,
    pub label: Color,
}

/// How bright a colour without a hue is, from the dimmest up; nothing is said of
/// the others.
pub open spec fn shade(c: Color) -> int {
    match c {
        Color::White => 3,
        Color::Gray => 2,
        Color::DarkGray => 1,
        _ => 0,
    }
}

/// The colours of the globe, in colour or by brightness alone. By brightness there
/// are three steps: the coast is brightest, the borders are between, and the
/// graticule is dimmest.
pub open spec fn palette_of(color: bool) -> Palette {
    if color {
        Palette {
            coast: Color::Cyan,
            border: Color::Rgb(170, 140, 90),
            grat: Color::DarkGray,
            limb: Color::Blue,
            marker: Color::Yellow,
            sel: Color::LightRed,
            label: Color::LightYellow,
        }
    } else {
        Palette {
            coast: Color::White,
            border: Color::Gray,
            grat: Color::DarkGray,
            limb: Color::Gray,
            marker: Color::White,
            sel: Color::White,
            label: Color::White,
        }
    }
}

/// The colours of the globe, in colour or by brightness alone.
pub fn palette(color: bool) -> (r: Palette)
    ensures
        r == palette_of(color),
        !color ==> shade(r.coast) > shade(r.border) > shade(r.grat) > 0,
{
    if color {
        Palette {
            coast: Color::Cyan,
            border: Color::Rgb(170, 140, 90),
            grat: Color::DarkGray,
            limb: Color::Blue,
            marker: Color::Yellow,
            sel: Color::LightRed,
            label: Color::LightYellow,
        }
    } else {
        Palette {
            coast: Color::White,
            border: Color::Gray,
            grat: Color::DarkGray,
            limb: Color::Gray,
            marker: Color::White,
            sel: Color::White,
            label: Color::White,
        }
    }
}

/// How a stretch of text looks.
#[derive(Clone, Copy, PartialEq, Eq, Structural, Debug)]
pub enum Look {
    Plain,
    Bold,
    /// In a colour.
    Ink(Color),
    /// In a colour, bold.
    Strong(Color),
    /// Black on cyan, bold.
    Banner,
}

/// A stretch of text with its look.
pub struct Span {
    pub text: String,
    pub look: Look,
}

/// A stretch of text with its look, as a mathematical value.
#[verifier::ext_equal]
pub struct SpanModel {
    pub text: Seq<char>,
    pub look: Look,
}

impl View for Span {
    type V = SpanModel;

    open spec fn view(&self) -> SpanModel {
        SpanModel { text: self.text@, look: self.look }
    }
}

/// A line of spans, as mathematical values.
pub open spec fn line_model(line: Seq<Span>) -> Seq<SpanModel> {
    line.map_values(|s: Span| s@)
}

/// Lines of spans, as mathematical values.
pub open spec fn line_models(lines: Seq<Vec<Span>>) -> Seq<Seq<SpanModel>> {
    lines.map_values(|l: Vec<Span>| line_model(l@))
}

/// A stretch of text, as a mathematical value.
pub open spec fn span(text: Seq<char>, look: Look) -> SpanModel {
    SpanModel { text, look }
}

/// A stretch of text.
fn make(text: &str, look: Look) -> (r: Span)
    ensures
        r@ == span(text@, look),
{
    Span { text: text.to_owned(), look }
}

proof fn line_push(line: Seq<Span>, s: Span)
    ensures
        line_model(line.push(s)) == line_model(line).push(s@),
{
    assert(line_model(line.push(s)) == line_model(line).push(s@));
}

proof fn lines_push(lines: Seq<Vec<Span>>, l: Vec<Span>)
    ensures
        line_models(lines.push(l)) == line_models(lines).push(line_model(l@)),
{
    assert(line_models(lines.push(l)) == line_models(lines).push(line_model(l@)));
}

/// A line of the filter menu: a heading between dashes, or a choice with a dot
/// before it where it is active.
pub open spec fn menu_line(item: ItemModel) -> Seq<SpanModel> {
    match item {
        ItemModel::Header(t) => seq![span("─ "@ + t + " ─"@, Look::Ink(Color::DarkGray))],
        ItemModel::Choice { label, op, active } => if active {
            seq![
                span("● "@, Look::Ink(Color::Green)),
                span(label, Look::Strong(Color::Green)),
            ]
        } else {
            seq![span("  "@, Look::Ink(Color::Green)), span(label, Look::Plain)]
        },
    }
}

/// A line of the filter menu.
pub fn menu_row(item: &FilterItem) -> (r: Vec<Span>)
    ensures
        line_model(r@) == menu_line(item@),
{
    let mut line: Vec<Span> = Vec::new();
    match item {
        FilterItem::Header(t) => {
            let mut text = "─ ".to_owned();
            text.append(t.as_str());
            text.append(" ─");
            line.push(Span { text, look: Look::Ink(Color::DarkGray) });
        },
        FilterItem::Choice { label, op, active } => {
            if *active {
                line.push(make("● ", Look::Ink(Color::Green)));
                line.push(make(label.as_str(), Look::Strong(Color::Green)));
            } else {
                line.push(make("  ", Look::Ink(Color::Green)));
                line.push(make(label.as_str(), Look::Plain));
            }
        },
    }
    assert(line_model(line@) == menu_line(item@));
    line
}

/// Whether something plays, as it is shown.
pub open spec fn playing_span(playing: bool, on: Seq<char>, off: Seq<char>) -> SpanModel {
    if playing {
        span(on, Look::Ink(Color::Green))
    } else {
        span(off, Look::Ink(Color::DarkGray))
    }
}

fn playing_mark(playing: bool, on: &str, off: &str) -> (r: Span)
    ensures
        r@ == playing_span(playing, on@, off@),
{
    if playing {
        make(on, Look::Ink(Color::Green))
    } else {
        make(off, Look::Ink(Color::DarkGray))
    }
}

/// A line of the station list.
pub open spec fn station_line(s: StationModel) -> Seq<SpanModel> {
    seq![
        span(s.name, Look::Plain),
        span("  "@ + s.city + "·"@ + s.country, Look::Ink(Color::DarkGray)),
    ]
}

/// A line of the station list.
pub fn station_row(s: &Station) -> (r: Vec<Span>)
    ensures
        line_model(r@) == station_line(s@),
{
    let mut line: Vec<Span> = Vec::new();
    line.push(make(s.name.as_str(), Look::Plain));
    let mut place = "  ".to_owned();
    place.append(s.city.as_str());
    place.append("·");
    place.append(s.country.as_str());
    line.push(Span { text: place, look: Look::Ink(Color::DarkGray) });
    assert(line_model(line@) == station_line(s@));
    line
}

/// A switch's state, as it is shown.
pub open spec fn switch_span(on: bool) -> SpanModel {
    if on {
        span("on"@, Look::Ink(Color::Green))
    } else {
        span("off"@, Look::Ink(Color::DarkGray))
    }
}

/// A line of the controls: the key, then what it does.
pub open spec fn control_line(key: Seq<char>, what: Seq<char>) -> Seq<SpanModel> {
    seq![span(padded(key, 4), Look::Strong(Color::Cyan)), span(what, Look::Plain)]
}

/// A line of the controls for a switch: the key, what it does, and its state.
pub open spec fn switch_line(key: Seq<char>, what: Seq<char>, on: bool) -> Seq<SpanModel> {
    control_line(key, what).push(switch_span(on))
}

fn control_row(key: &str, what: &str) -> (r: Vec<Span>)
    ensures
        line_model(r@) == control_line(key@, what@),
{
    let mut line: Vec<Span> = Vec::new();
    line.push(Span { text: pad(key, 4), look: Look::Strong(Color::Cyan) });
    line.push(make(what, Look::Plain));
    assert(line_model(line@) == control_line(key@, what@));
    line
}

fn switch_row(key: &str, what: &str, on: bool) -> (r: Vec<Span>)
    ensures
        line_model(r@) == switch_line(key@, what@, on),
{
    let mut line = control_row(key, what);
    let state = if on {
        make("on", Look::Ink(Color::Green))
    } else {
        make("off", Look::Ink(Color::DarkGray))
    };
    proof {
        line_push(line@, state);
    }
    line.push(state);
    line
}

/// The line at the bottom of the maximized globe: the station and whether it
/// plays, or that no station passes the filters.
pub open spec fn zoom_line(m: AppModel) -> Seq<SpanModel> {
    if m.stations.len() == 0 {
        seq![
            span(
                " WORLD RADIO  ·  no stations match filter — z windowed, then f to change"@,
                Look::Ink(Color::DarkGray),
            ),
        ]
    } else {
        let s = m.stations[m.selected];
        seq![
            span(" WORLD RADIO "@, Look::Banner),
            span("  "@ + s.name + " · "@ + s.city + "·"@ + s.country + "  "@, Look::Plain),
            playing_span(m.playing, "▶ LIVE"@, "■ IDLE"@),
            span("   z windowed · ←/→ tune · q quit"@, Look::Ink(Color::DarkGray)),
        ]
    }
}

/// The first line of the status panel: the station, and whether it plays.
pub open spec fn station_head(s: StationModel, playing: bool) -> Seq<SpanModel> {
    let start = seq![
        span(s.name, Look::Bold),
        span("   "@ + s.city + " · "@ + s.country, Look::Plain),
    ];
    (if s.genre.len() > 0 {
        start.push(span(" · "@ + s.genre, Look::Ink(Color::DarkGray)))
    } else {
        start
    }).push(playing_span(playing, "   ▶ LIVE"@, "   ■ IDLE"@))
}

/// The status panel: the station or that there is none, then what was last told.
pub open spec fn status_panel(m: AppModel) -> Seq<Seq<SpanModel>> {
    seq![
        if m.stations.len() == 0 {
            seq![span("No stations match the filter."@, Look::Ink(Color::Yellow))]
        } else {
            station_head(m.stations[m.selected], m.playing)
        },
        seq![span(m.status, Look::Ink(Color::Gray))],
    ]
}

/// The controls panel: every key with what it does, and the state of each switch.
/// `size` is the globe's size as it is shown.
pub open spec fn controls_panel(m: AppModel, size: Seq<char>) -> Seq<Seq<SpanModel>> {
    seq![
        control_line("←/→"@, "tune station"@),
        control_line("x"@, "random station"@),
        control_line("f"@, "filter stations"@),
        control_line("[ ]"@, "globe size: "@ + size + "x"@),
        control_line("p"@, "play / stop"@),
        switch_line("r"@, "radio fx: "@, m.radio_fx),
        switch_line("z"@, "maximize: "@, m.zoom),
        switch_line("b"@, "borders: "@, m.borders),
        switch_line("c"@, "color: "@, m.color),
        switch_line("g"@, "grid: "@, m.graticule),
        control_line("L"@, "reload stations"@),
        control_line("q"@, "quit"@),
    ]
}

/// The globe's title: which of how many stations is selected.
pub open spec fn globe_title(m: AppModel) -> Seq<char> {
    " WORLD RADIO  "@ + decimal(
        if m.stations.len() == 0 {
            0
        } else {
            (m.selected + 1) as nat
        },
    ) + "/"@ + decimal(m.stations.len()) + " "@
}

/// The label beside the selected station's mark: its name between spaces.
pub open spec fn label_of(m: AppModel) -> Seq<char> {
    " "@ + (if m.selected < m.stations.len() {
        m.stations[m.selected].name
    } else {
        Seq::empty()
    }) + " "@
}

/// A station's place on the drawn globe, by bit pattern, and whether it is on the
/// visible side.
#[derive(Clone, Copy)]
pub struct Spot {
    pub x: u64,
    pub y: u64,
    pub front: bool,
}

/// The places that are marked: those on the visible side, but for the selected
/// one, in their order.
pub open spec fn marked(spots: Seq<Spot>, selected: int) -> Seq<(u64, u64)>
    decreases spots.len(),
{
    if spots.len() == 0 {
        Seq::empty()
    } else {
        let rest = marked(spots.drop_last(), selected);
        if spots.last().front && spots.len() - 1 != selected {
            rest.push((spots.last().x, spots.last().y))
        } else {
            rest
        }
    }
}

/// The place of the selected station, where it is on the visible side.
pub open spec fn marked_selected(spots: Seq<Spot>, selected: int) -> Option<(u64, u64)> {
    if 0 <= selected < spots.len() && spots[selected].front {
        Some((spots[selected].x, spots[selected].y))
    } else {
        None
    }
}

/// A straight line on the drawn globe: where it begins and where it ends, by bit
/// pattern.
#[derive(Clone, Copy, PartialEq, Eq, Structural, Debug)]
pub struct Segment {
    pub x1: u64,
    pub y1: u64,
    pub x2: u64,
    pub y2: u64,
}

/// The segments of a line through some places: from each to the next, where both
/// are on the visible side.
pub open spec fn visible_segments(spots: Seq<Spot>) -> Seq<Segment>
    decreases spots.len(),
{
    if spots.len() < 2 {
        Seq::empty()
    } else {
        let rest = visible_segments(spots.drop_last());
        let a = spots[spots.len() - 2];
        let b = spots.last();
        if a.front && b.front {
            rest.push(Segment { x1: a.x, y1: a.y, x2: b.x, y2: b.y })
        } else {
            rest
        }
    }
}

/// The visible segments of a line through some places.
pub fn segments(spots: &Vec<Spot>) -> (r: Vec<Segment>)
    ensures
        r@ == visible_segments(spots@),
{
    let mut out: Vec<Segment> = Vec::new();
    if spots.len() < 2 {
        return out;
    }
    let mut i: usize = 1;
    while i < spots.len()
        invariant
            1 <= i <= spots.len(),
            out@ == visible_segments(spots@.take(i as int)),
        decreases spots.len() - i,
    {
        let a = spots[i - 1];
        let b = spots[i];
        assert(spots@.take(i + 1).drop_last() == spots@.take(i as int));
        if a.front && b.front {
            out.push(Segment { x1: a.x, y1: a.y, x2: b.x, y2: b.y });
        }
        i += 1;
    }
    assert(spots@.take(spots.len() as int) == spots@);
    out
}

/// What is marked on the globe.
pub struct Marks {
    pub others: Vec<(u64, u64)>,
    pub selected: Option<(u64, u64)>,
}

/// What is marked on the globe: the stations on its visible side, the selected one
/// apart.
pub fn marks(spots: &Vec<Spot>, selected: usize) -> (r: Marks)
    ensures
        r.others@ == marked(spots@, selected as int),
        r.selected == marked_selected(spots@, selected as int),
{
    let mut others: Vec<(u64, u64)> = Vec::new();
    let mut chosen: Option<(u64, u64)> = None;
    let mut i: usize = 0;
    while i < spots.len()
        invariant
            i <= spots.len(),
            others@ == marked(spots@.take(i as int), selected as int),
            chosen == marked_selected(spots@.take(i as int), selected as int),
        decreases spots.len() - i,
    {
        let p = spots[i];
        assert(spots@.take(i + 1).drop_last() == spots@.take(i as int));
        assert(spots@.take(i + 1).last() == p);
        if p.front {
            if i == selected {
                chosen = Some((p.x, p.y));
            } else {
                others.push((p.x, p.y));
            }
        }
        i += 1;
    }
    assert(spots@.take(spots.len() as int) == spots@);
    Marks { others, selected: chosen }
}

impl App {
    /// The lines of the filter menu.
    pub fn menu_rows(&self) -> (r: Vec<Vec<Span>>)
        ensures
            line_models(r@) == self@.filter_items.map_values(|i: ItemModel| menu_line(i)),
    {
        let list = self.filter_items();
        let ghost items = self@.filter_items;
        let mut out: Vec<Vec<Span>> = Vec::new();
        let mut i: usize = 0;
        while i < list.len()
            invariant
                i <= list.len(),
                items == item_models(list@),
                line_models(out@) == items.take(i as int).map_values(|i: ItemModel| menu_line(i)),
            decreases list.len() - i,
        {
            let row = menu_row(&list[i]);
            proof {
                lines_push(out@, row);
                assert(items.take(i + 1) == items.take(i as int).push(items[i as int]));
            }
            out.push(row);
            i += 1;
        }
        assert(items.take(items.len() as int) == items);
        out
    }

    /// The lines of the station list.
    pub fn list_rows(&self) -> (r: Vec<Vec<Span>>)
        ensures
            line_models(r@) == self@.stations.map_values(|s: StationModel| station_line(s)),
    {
        let stations = self.stations();
        let ghost list = self@.stations;
        let mut out: Vec<Vec<Span>> = Vec::new();
        let mut i: usize = 0;
        while i < stations.len()
            invariant
                i <= stations.len(),
                list == models(stations@),
                line_models(out@) == list.take(i as int).map_values(
                    |s: StationModel| station_line(s),
                ),
            decreases stations.len() - i,
        {
            let row = station_row(&stations[i]);
            proof {
                lines_push(out@, row);
                assert(list.take(i + 1) == list.take(i as int).push(list[i as int]));
            }
            out.push(row);
            i += 1;
        }
        assert(list.take(list.len() as int) == list);
        out
    }

    /// The line at the bottom of the maximized globe.
    pub fn zoom_row(&self) -> (r: Vec<Span>)
        requires
            self@.valid(),
        ensures
            line_model(r@) == zoom_line(self@),
    {
        let mut line: Vec<Span> = Vec::new();
        if self.stations().len() == 0 {
            line.push(
                make(
                    " WORLD RADIO  ·  no stations match filter — z windowed, then f to change",
                    Look::Ink(Color::DarkGray),
                ),
            );
        } else {
            let s = &self.stations()[self.selected()];
            let mut text = "  ".to_owned();
            text.append(s.name.as_str());
            text.append(" · ");
            text.append(s.city.as_str());
            text.append("·");
            text.append(s.country.as_str());
            text.append("  ");
            line.push(make(" WORLD RADIO ", Look::Banner));
            line.push(Span { text, look: Look::Plain });
            line.push(playing_mark(self.playing(), "▶ LIVE", "■ IDLE"));
            line.push(make("   z windowed · ←/→ tune · q quit", Look::Ink(Color::DarkGray)));
        }
        assert(line_model(line@) == zoom_line(self@));
        line
    }

    /// The lines of the status panel.
    pub fn status_rows(&self) -> (r: Vec<Vec<Span>>)
        requires
            self@.valid(),
        ensures
            line_models(r@) == status_panel(self@),
    {
        let mut head: Vec<Span> = Vec::new();
        if self.stations().len() == 0 {
            head.push(make("No stations match the filter.", Look::Ink(Color::Yellow)));
            assert(line_model(head@) == status_panel(self@)[0]);
        } else {
            let s = &self.stations()[self.selected()];
            let mut place = "   ".to_owned();
            place.append(s.city.as_str());
            place.append(" · ");
            place.append(s.country.as_str());
            head.push(make(s.name.as_str(), Look::Bold));
            head.push(Span { text: place, look: Look::Plain });
            if !s.genre.as_str().is_empty() {
                let mut genre = " · ".to_owned();
                genre.append(s.genre.as_str());
                head.push(Span { text: genre, look: Look::Ink(Color::DarkGray) });
            }
            head.push(playing_mark(self.playing(), "   ▶ LIVE", "   ■ IDLE"));
            assert(line_model(head@) == station_head(s@, self@.playing));
        }
        let mut told: Vec<Span> = Vec::new();
        told.push(make(self.status(), Look::Ink(Color::Gray)));
        assert(line_model(told@) == status_panel(self@)[1]);
        let mut out: Vec<Vec<Span>> = Vec::new();
        out.push(head);
        out.push(told);
        assert(line_models(out@) == status_panel(self@));
        out
    }

    /// The lines of the controls panel. `size` is the globe's size as it is shown.
    pub fn control_rows(&self, size: &str) -> (r: Vec<Vec<Span>>)
        ensures
            line_models(r@) == controls_panel(self@, size@),
    {
        let mut globe_size = "globe size: ".to_owned();
        globe_size.append(size);
        globe_size.append("x");
        let mut out: Vec<Vec<Span>> = Vec::new();
        out.push(control_row("←/→", "tune station"));
        out.push(control_row("x", "random station"));
        out.push(control_row("f", "filter stations"));
        out.push(control_row("[ ]", globe_size.as_str()));
        out.push(control_row("p", "play / stop"));
        out.push(switch_row("r", "radio fx: ", self.radio_fx()));
        out.push(switch_row("z", "maximize: ", self.zoom()));
        out.push(switch_row("b", "borders: ", self.borders()));
        out.push(switch_row("c", "color: ", self.color()));
        out.push(switch_row("g", "grid: ", self.graticule()));
        out.push(control_row("L", "reload stations"));
        out.push(control_row("q", "quit"));
        assert(line_models(out@) == controls_panel(self@, size@));
        out
    }

    /// The globe's title.
    pub fn title(&self) -> (r: String)
        requires
            self@.valid(),
        ensures
            r@ == globe_title(self@),
    {
        let mut t = " WORLD RADIO  ".to_owned();
        let total: usize = self.stations().len();
        let cur: usize = if total == 0 { 0 } else { self.selected() + 1 };
        push_decimal(&mut t, cur);
        t.append("/");
        push_decimal(&mut t, total);
        t.append(" ");
        t
    }

    /// The label beside the selected station's mark: its name between spaces.
    pub fn mark_label(&self) -> (r: String)
        ensures
            r@ == label_of(self@),
    {
        let mut label = " ".to_owned();
        let stations = self.stations();
        let at: usize = self.selected();
        if at < stations.len() {
            label.append(stations[at].name.as_str());
        }
        label.append(" ");
        assert(label@ == label_of(self@));
        label
    }
}

/// The marks are the places of the stations on the visible side, but for the
/// selected one, all of them, in their order. The result gives the station that each
/// mark stands for.
pub proof fn visible_stations_are_marked(spots: Seq<Spot>, selected: int) -> (at: Seq<int>)
    ensures
        at.len() == marked(spots, selected).len(),
        forall|k: int|
            0 <= k < at.len() ==> {
                let i = #[trigger] at[k];
                &&& 0 <= i < spots.len()
                &&& spots[i].front
                &&& i != selected
                &&& marked(spots, selected)[k] == (spots[i].x, spots[i].y)
            },
        forall|j: int, k: int| 0 <= j < k < at.len() ==> #[trigger] at[j] < #[trigger] at[k],
        forall|i: int|
            0 <= i < spots.len() && (#[trigger] spots[i]).front && i != selected ==> at.contains(i),
    decreases spots.len(),
{
    if spots.len() == 0 {
        Seq::empty()
    } else {
        let front = spots.drop_last();
        let last = spots.len() - 1;
        let at = visible_stations_are_marked(front, selected);
        let all = if spots[last].front && last != selected {
            at.push(last)
        } else {
            at
        };
        assert forall|k: int| 0 <= k < all.len() implies ({
            let i = #[trigger] all[k];
            &&& 0 <= i < spots.len()
            &&& spots[i].front
            &&& i != selected
            &&& marked(spots, selected)[k] == (spots[i].x, spots[i].y)
        }) by {
            if k < at.len() {
                assert(all[k] == at[k]);
                assert(front[at[k]] == spots[at[k]]);
            }
        }
        assert forall|j: int, k: int| 0 <= j < k < all.len() implies #[trigger] all[j]
            < #[trigger] all[k] by {
            assert(all[j] == at[j]);
            if k < at.len() {
                assert(all[k] == at[k]);
            }
        }
        assert forall|i: int|
            0 <= i < spots.len() && (#[trigger] spots[i]).front && i
                != selected implies all.contains(i) by {
            if i < last {
                assert(front[i] == spots[i]);
                let k = at.index_of(i);
                assert(all[k] == i);
            } else {
                assert(all[at.len() as int] == i);
            }
        }
        all
    }
}

/// The selected station has a mark of its own, at its place, exactly where it is on
/// the visible side.
pub proof fn selected_station_is_marked(spots: Seq<Spot>, selected: int)
    ensures
        marked_selected(spots, selected) is Some <==> 0 <= selected < spots.len()
            && spots[selected].front,
        marked_selected(spots, selected) is Some ==> marked_selected(spots, selected) == Some(
            (spots[selected].x, spots[selected].y),
        ),
{
}

/// A line is drawn from each place to the next where both are on the visible side,
/// all of those, in their order. The result gives the place at which each segment
/// ends.
pub proof fn lines_run_on_the_visible_side(spots: Seq<Spot>) -> (at: Seq<int>)
    ensures
        at.len() == visible_segments(spots).len(),
        forall|k: int|
            0 <= k < at.len() ==> {
                let i = #[trigger] at[k];
                &&& 1 <= i < spots.len()
                &&& spots[i - 1].front
                &&& spots[i].front
                &&& visible_segments(spots)[k].x1 == spots[i - 1].x
                &&& visible_segments(spots)[k].y1 == spots[i - 1].y
                &&& visible_segments(spots)[k].x2 == spots[i].x
                &&& visible_segments(spots)[k].y2 == spots[i].y
            },
        forall|j: int, k: int| 0 <= j < k < at.len() ==> #[trigger] at[j] < #[trigger] at[k],
        forall|i: int|
            1 <= i < spots.len() && spots[i - 1].front && (#[trigger] spots[i]).front
                ==> at.contains(i),
    decreases spots.len(),
{
    if spots.len() < 2 {
        Seq::empty()
    } else {
        let front = spots.drop_last();
        let last = spots.len() - 1;
        let at = lines_run_on_the_visible_side(front);
        let all = if spots[last - 1].front && spots[last].front {
            at.push(last)
        } else {
            at
        };
        assert forall|k: int| 0 <= k < all.len() implies ({
            let i = #[trigger] all[k];
            &&& 1 <= i < spots.len()
            &&& spots[i - 1].front
            &&& spots[i].front
            &&& visible_segments(spots)[k].x1 == spots[i - 1].x
            &&& visible_segments(spots)[k].y1 == spots[i - 1].y
            &&& visible_segments(spots)[k].x2 == spots[i].x
            &&& visible_segments(spots)[k].y2 == spots[i].y
        }) by {
            if k < at.len() {
                assert(all[k] == at[k]);
                assert(front[at[k]] == spots[at[k]] && front[at[k] - 1] == spots[at[k] - 1]);
            }
        }
        assert forall|j: int, k: int| 0 <= j < k < all.len() implies #[trigger] all[j]
            < #[trigger] all[k] by {
            assert(all[j] == at[j]);
            if k < at.len() {
                assert(all[k] == at[k]);
            }
        }
        assert forall|i: int|
            1 <= i < spots.len() && spots[i - 1].front && (
            #[trigger] spots[i]).front implies all.contains(i) by {
            if i < last {
                assert(front[i] == spots[i] && front[i - 1] == spots[i - 1]);
                let k = at.index_of(i);
                assert(all[k] == i);
            } else {
                assert(all[at.len() as int] == i);
            }
        }
        all
    }
}

/// The controls tell the state of every switch on a line of its own, in green where
/// it is on and in dark gray where it is off; no other line depends on the radio.
pub proof fn controls_tell_the_switches(m: AppModel, n: AppModel, size: Seq<char>)
    ensures
        ({
            let rows = controls_panel(m, size);
            let on = SpanModel { text: "on"@, look: Look::Ink(Color::Green) };
            let off = SpanModel { text: "off"@, look: Look::Ink(Color::DarkGray) };
            &&& rows.len() == 12
            &&& rows[5].last() == if m.radio_fx { on } else { off }
            &&& rows[6].last() == if m.zoom { on } else { off }
            &&& rows[7].last() == if m.borders { on } else { off }
            &&& rows[8].last() == if m.color { on } else { off }
            &&& rows[9].last() == if m.graticule { on } else { off }
            &&& forall|i: int|
                0 <= i < 12 && !(5 <= i <= 9) ==> #[trigger] rows[i] == controls_panel(n, size)[i]
            &&& forall|i: int|
                5 <= i <= 9 ==> (#[trigger] rows[i]).drop_last() == controls_panel(
                    n,
                    size,
                )[i].drop_last()
        }),
{
    let rows = controls_panel(m, size);
    let others = controls_panel(n, size);
    assert forall|i: int| 5 <= i <= 9 implies (#[trigger] rows[i]).drop_last()
        == others[i].drop_last() by {
        let key = if i == 5 { "r"@ } else if i == 6 { "z"@ } else if i == 7 { "b"@ } else if i == 8 {
            "c"@
        } else {
            "g"@
        };
        let what = if i == 5 { "radio fx: "@ } else if i == 6 { "maximize: "@ } else if i == 7 {
            "borders: "@
        } else if i == 8 {
            "color: "@
        } else {
            "grid: "@
        };
        assert(rows[i].drop_last() == control_line(key, what));
        assert(others[i].drop_last() == control_line(key, what));
    }
}

/// A switch's line names its key and what it switches; every other line names its
/// key and what that does.
pub proof fn controls_name_the_keys(m: AppModel, size: Seq<char>)
    ensures
        ({
            let rows = controls_panel(m, size);
            let key = |k: Seq<char>|
                SpanModel { text: padded(k, 4), look: Look::Strong(Color::Cyan) };
            let what = |t: Seq<char>| SpanModel { text: t, look: Look::Plain };
            &&& rows[0] == seq![key("←/→"@), what("tune station"@)]
            &&& rows[1] == seq![key("x"@), what("random station"@)]
            &&& rows[2] == seq![key("f"@), what("filter stations"@)]
            &&& rows[3] == seq![key("[ ]"@), what("globe size: "@ + size + "x"@)]
            &&& rows[4] == seq![key("p"@), what("play / stop"@)]
            &&& rows[5].drop_last() == seq![key("r"@), what("radio fx: "@)]
            &&& rows[6].drop_last() == seq![key("z"@), what("maximize: "@)]
            &&& rows[7].drop_last() == seq![key("b"@), what("borders: "@)]
            &&& rows[8].drop_last() == seq![key("c"@), what("color: "@)]
            &&& rows[9].drop_last() == seq![key("g"@), what("grid: "@)]
            &&& rows[10] == seq![key("L"@), what("reload stations"@)]
            &&& rows[11] == seq![key("q"@), what("quit"@)]
        }),
{
}

/// The text of a line, without its looks.
pub open spec fn line_text(line: Seq<SpanModel>) -> Seq<char>
    decreases line.len(),
{
    if line.len() == 0 {
        Seq::empty()
    } else {
        line_text(line.drop_last()) + line.last().text
    }
}

proof fn text_of_two(a: SpanModel, b: SpanModel)
    ensures
        line_text(seq![a, b]) == a.text + b.text,
{
    reveal_with_fuel(line_text, 3);
    assert(seq![a, b].drop_last() == seq![a]);
    assert(seq![a].drop_last() == Seq::<SpanModel>::empty());
    assert(Seq::<char>::empty() + a.text == a.text);
}

proof fn text_of_more(line: Seq<SpanModel>, s: SpanModel)
    ensures
        line_text(line.push(s)) == line_text(line) + s.text,
{
    assert(line.push(s).drop_last() == line);
}

/// A line of the station list reads as the station's name, its city and its country.
/// A line of the menu reads as its heading between dashes, or as its label behind a
/// dot where it is active and behind blanks where it is not.
pub proof fn lists_read_as_they_should(s: StationModel, t: Seq<char>, item: ItemModel)
    ensures
        line_text(station_line(s)) == s.name + ("  "@ + s.city + "·"@ + s.country),
        menu_line(ItemModel::Header(t)) == seq![
            SpanModel { text: "─ "@ + t + " ─"@, look: Look::Ink(Color::DarkGray) },
        ],
        item is Choice && item->active ==> line_text(menu_line(item)) == "● "@ + item->label,
        item is Choice && !item->active ==> line_text(menu_line(item)) == "  "@ + item->label,
        item is Choice && item->active ==> menu_line(item).last().look == Look::Strong(Color::Green),
        item is Choice && !item->active ==> menu_line(item).last().look == Look::Plain,
{
    let line = station_line(s);
    text_of_two(line[0], line[1]);
    assert(line == seq![line[0], line[1]]);
    if item is Choice {
        let line = menu_line(item);
        text_of_two(line[0], line[1]);
        assert(line == seq![line[0], line[1]]);
    }
}

/// The status panel reads as the selected station's name, place and genre, where it
/// has one, and whether something plays, in green or in dark gray; below it stands
/// what was last told. Where no station is shown it says so.
pub proof fn status_tells_the_selected_station(m: AppModel)
    ensures
        ({
            let rows = status_panel(m);
            let s = m.stations[m.selected];
            let live = if m.playing { "   ▶ LIVE"@ } else { "   ■ IDLE"@ };
            &&& rows.len() == 2
            &&& rows[1] == seq![SpanModel { text: m.status, look: Look::Ink(Color::Gray) }]
            &&& m.stations.len() == 0 ==> rows[0] == seq![
                SpanModel {
                    text: "No stations match the filter."@,
                    look: Look::Ink(Color::Yellow),
                },
            ]
            &&& m.stations.len() > 0 && s.genre.len() == 0 ==> line_text(rows[0]) == s.name + (
            "   "@ + s.city + " · "@ + s.country) + live
            &&& m.stations.len() > 0 && s.genre.len() > 0 ==> line_text(rows[0]) == s.name + (
            "   "@ + s.city + " · "@ + s.country) + (" · "@ + s.genre) + live
            &&& m.stations.len() > 0 ==> rows[0].last().look == Look::Ink(
                if m.playing { Color::Green } else { Color::DarkGray },
            )
        }),
{
    let s = m.stations[m.selected];
    let a = span(s.name, Look::Bold);
    let b = span("   "@ + s.city + " · "@ + s.country, Look::Plain);
    let g = span(" · "@ + s.genre, Look::Ink(Color::DarkGray));
    let p = playing_span(m.playing, "   ▶ LIVE"@, "   ■ IDLE"@);
    text_of_two(a, b);
    text_of_more(seq![a, b], p);
    text_of_more(seq![a, b], g);
    text_of_more(seq![a, b].push(g), p);
}

/// The line under the maximized globe reads as the selected station and whether it
/// plays, or says that no station is shown.
pub proof fn zoom_line_tells_the_selected_station(m: AppModel)
    ensures
        ({
            let line = zoom_line(m);
            let s = m.stations[m.selected];
            &&& m.stations.len() == 0 ==> line == seq![
                SpanModel {
                    text: " WORLD RADIO  ·  no stations match filter — z windowed, then f to change"@,
                    look: Look::Ink(Color::DarkGray),
                },
            ]
            &&& m.stations.len() > 0 ==> {
                &&& line.len() == 4
                &&& line[0].text == " WORLD RADIO "@ && line[0].look == Look::Banner
                &&& line[1].text == "  "@ + s.name + " · "@ + s.city + "·"@ + s.country + "  "@
                &&& line[1].look == Look::Plain
                &&& m.playing ==> line[2].text == "▶ LIVE"@ && line[2].look == Look::Ink(
                    Color::Green,
                )
                &&& !m.playing ==> line[2].text == "■ IDLE"@ && line[2].look == Look::Ink(
                    Color::DarkGray,
                )
                &&& line[3].text == "   z windowed · ←/→ tune · q quit"@
                &&& line[3].look == Look::Ink(Color::DarkGray)
            }
        }),
{
}

/// The globe's title counts from one, and tells zero of zero where no station is
/// shown.
pub proof fn title_counts_from_one(m: AppModel)
    ensures
        m.stations.len() == 0 ==> globe_title(m) == " WORLD RADIO  "@ + decimal(0) + "/"@ + decimal(
            0,
        ) + " "@,
        m.stations.len() > 0 ==> globe_title(m) == " WORLD RADIO  "@ + decimal(
            (m.selected + 1) as nat,
        ) + "/"@ + decimal(m.stations.len()) + " "@,
{
}

/// Without colour the coast and the stations are brightest, the borders and the
/// globe's edge are between, and the graticule is dimmest. In colour each part has a
/// colour of its own.
pub proof fn palettes_tell_the_parts_apart()
    ensures
        ({
            let p = palette_of(false);
            &&& p.coast == Color::White && p.marker == Color::White
            &&& p.sel == Color::White && p.label == Color::White
            &&& p.border == Color::Gray && p.limb == Color::Gray
            &&& p.grat == Color::DarkGray
        }),
        ({
            let p = palette_of(true);
            &&& p.coast == Color::Cyan && p.border == Color::Rgb(170, 140, 90)
            &&& p.limb == Color::Blue && p.grat == Color::DarkGray
            &&& p.marker == Color::Yellow && p.sel == Color::LightRed
            &&& p.label == Color::LightYellow
        }),
{
}

/// The mark's label is the selected station's name between two blanks, and the two
/// blanks alone where none is selected.
pub proof fn label_names_the_selected_station(m: AppModel)
    requires
        m.valid(),
    ensures
        m.stations.len() > 0 ==> label_of(m) == " "@ + m.stations[m.selected].name + " "@,
        m.stations.len() == 0 ==> label_of(m) == " "@ + " "@,
{
    assert(" "@ + Seq::<char>::empty() == " "@);
}

/// A station's name stands in the list in the plain look and its place in dark gray;
/// in the status panel the name is bold and the genre in dark gray.
pub proof fn names_stand_out(s: StationModel, playing: bool)
    ensures
        station_line(s)[0].look == Look::Plain,
        station_line(s)[1].look == Look::Ink(Color::DarkGray),
        station_head(s, playing)[0].look == Look::Bold,
        station_head(s, playing)[1].look == Look::Plain,
        s.genre.len() > 0 ==> station_head(s, playing)[2].look == Look::Ink(Color::DarkGray),
{
}

} // verus!
