use terminal_radio::cli::{
    fetch_failure, mode, sample_heading, sample_line, sample_size, sample_summary, Mode, Scale,
};
use terminal_radio::layout::{panels, popup, Area, Panels};
use terminal_radio::station::Station;
use terminal_radio::view::{marks, palette, segments, Color, Segment, Spot};

fn area(x: u16, y: u16, width: u16, height: u16) -> Area {
    Area { x, y, width, height }
}

fn spot(x: u64, front: bool) -> Spot {
    Spot { x, y: x + 100, front }
}

fn args(list: &[&str]) -> Vec<String> {
    list.iter().map(|s| s.to_string()).collect()
}

fn share(size: u16, least: u16, fixed: u16) -> u16 {
    if size >= least + fixed {
        fixed
    } else if size >= least {
        size - least
    } else {
        0
    }
}

#[test]
fn the_maximized_globe_leaves_one_line() {
    assert_eq!(
        panels(true, area(0, 0, 110, 40)),
        Panels::Maximized { globe: area(0, 0, 110, 39), status: area(0, 39, 110, 1) }
    );
}

#[test]
fn the_window_has_four_panels() {
    assert_eq!(
        panels(false, area(0, 0, 110, 40)),
        Panels::Windowed {
            globe: area(0, 0, 78, 36),
            status: area(0, 36, 78, 4),
            list: area(78, 0, 32, 25),
            controls: area(78, 25, 32, 15),
        }
    );
}

#[test]
fn panels_fill_screens_of_every_size() {
    for (x, y) in [(0, 0), (3, 7), (60000, 65000)] {
        for size in (0..=130).chain([255, 256, 500, 535]) {
            let a = area(x, y, size, size);
            let low = share(size, 3, 1);
            assert_eq!(
                panels(true, a),
                Panels::Maximized {
                    globe: area(x, y, size, size - low),
                    status: area(x, y + size - low, size, low),
                }
            );
            let right = share(size, 40, 32);
            let (foot, keys) = (share(size, 8, 4), share(size, 6, 15));
            assert_eq!(
                panels(false, a),
                Panels::Windowed {
                    globe: area(x, y, size - right, size - foot),
                    status: area(x, y + size - foot, size - right, foot),
                    list: area(x + size - right, y, right, size - keys),
                    controls: area(x + size - right, y + size - keys, right, keys),
                }
            );
        }
    }
}

#[test]
fn panels_fill_the_largest_screen() {
    assert_eq!(
        panels(true, area(0, 0, u16::MAX, u16::MAX)),
        Panels::Maximized {
            globe: area(0, 0, u16::MAX, u16::MAX - 1),
            status: area(0, u16::MAX - 1, u16::MAX, 1),
        }
    );
}

#[test]
fn the_menu_is_in_the_middle() {
    assert_eq!(popup(area(0, 0, 110, 40)), area(32, 4, 46, 32));
    assert_eq!(popup(area(0, 0, 30, 10)), area(2, 1, 26, 8));
    assert_eq!(popup(area(0, 0, 20, 6)), area(0, 0, 20, 6));
    assert_eq!(popup(area(0, 0, 23, 7)), area(1, 0, 20, 6));
    assert_eq!(popup(area(5, 6, 3, 2)), area(5, 6, 20, 6));
    assert_eq!(popup(area(0, 0, 0, 0)), area(0, 0, 20, 6));
}

#[test]
fn the_menu_takes_four_fifths_of_every_height() {
    for height in 0..=u16::MAX {
        let h = ((height as f32 * 0.8) as u16).min(height.saturating_sub(2)).max(6);
        let p = popup(area(0, 0, 80, height));
        assert_eq!(p.height, h);
        assert_eq!(p.y, height.saturating_sub(h) / 2);
    }
}

#[test]
fn the_palette_has_two_sets() {
    let p = palette(true);
    assert_eq!(p.coast, Color::Cyan);
    assert_eq!(p.border, Color::Rgb(170, 140, 90));
    assert_eq!(p.label, Color::LightYellow);
    let p = palette(false);
    assert_eq!(p.coast, Color::White);
    assert_eq!(p.border, Color::Gray);
    assert_eq!(p.grat, Color::DarkGray);
    let rank = [Color::DarkGray, Color::Gray, Color::White];
    let step = |c: Color| rank.iter().position(|&r| r == c).unwrap();
    assert!(step(p.coast) > step(p.border) && step(p.border) > step(p.grat));
    assert_eq!(p.limb, Color::Gray);
}

#[test]
fn only_the_visible_side_is_marked() {
    let spots = vec![spot(1, true), spot(2, false), spot(3, true), spot(4, true)];
    let m = marks(&spots, 2);
    assert_eq!(m.others, vec![(1, 101), (4, 104)]);
    assert_eq!(m.selected, Some((3, 103)));
    let m = marks(&spots, 1);
    assert_eq!(m.others.len(), 3);
    assert_eq!(m.selected, None);
    let m = marks(&Vec::new(), 0);
    assert!(m.others.is_empty() && m.selected.is_none());
}

#[test]
fn lines_are_drawn_on_the_visible_side() {
    let spots = vec![spot(1, true), spot(2, true), spot(3, false), spot(4, true), spot(5, true)];
    assert_eq!(
        segments(&spots),
        vec![
            Segment { x1: 1, y1: 101, x2: 2, y2: 102 },
            Segment { x1: 4, y1: 104, x2: 5, y2: 105 },
        ]
    );
    assert!(segments(&vec![spot(1, true)]).is_empty());
    assert!(segments(&Vec::new()).is_empty());
}

#[test]
fn arguments_choose_what_to_do() {
    assert_eq!(mode(&args(&["radio"])), Mode::Run);
    assert_eq!(mode(&args(&[])), Mode::Run);
    assert_eq!(mode(&args(&["radio", "--fetch-test"])), Mode::FetchTest);
    assert_eq!(mode(&args(&["radio", "--fetch-tests"])), Mode::Run);
    assert_eq!(
        mode(&args(&["radio", "--fetch-test", "--snapshot"])),
        Mode::Snapshot { zoom: false, scale: Scale::Normal, filter: false }
    );
    assert_eq!(
        mode(&args(&["radio", "--snapshot=zoom,big,small", "--snapshot=filter"])),
        Mode::Snapshot { zoom: true, scale: Scale::Big, filter: false }
    );
    assert_eq!(
        mode(&args(&["radio", "--snapshot-small-filter"])),
        Mode::Snapshot { zoom: false, scale: Scale::Small, filter: true }
    );
}

#[test]
fn the_trial_tells_what_it_finds() {
    assert_eq!(sample_size(5), 5);
    assert_eq!(sample_size(2000), 24);
    assert_eq!(
        sample_heading(2000, 24),
        "fetched 2000 candidates; probing first 24…"
    );
    let mut s = Station {
        name: "Radio".to_string(),
        city: String::new(),
        country: "DE".to_string(),
        country_name: String::new(),
        lon: 0,
        lat: 0,
        genre: String::new(),
        url: String::new(),
    };
    assert_eq!(sample_line(true, &s), format!("  [OK  ] {:<30} DE", "Radio"));
    s.name = "ö".repeat(35);
    assert_eq!(sample_line(false, &s), format!("  [DEAD] {} DE", "ö".repeat(30)));
    assert_eq!(sample_summary(19, 24), "19/24 working (79% of this sample)");
    assert_eq!(sample_summary(0, 0), "0/0 working (0% of this sample)");
    assert_eq!(fetch_failure("bad JSON"), "fetch failed: bad JSON");
}
