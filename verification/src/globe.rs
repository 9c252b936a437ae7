//! The lines of longitude and latitude drawn over the globe.
use vstd::prelude::*;

verus! {

/// A meridian: from 80 degrees south to 80 degrees north, a point every four
/// degrees. A point is its longitude and its latitude.
pub open spec fn meridian(lon: int) -> Seq<(i32, i32)> {
    Seq::new(41, |j: int| (lon as i32, (-80 + 4 * j) as i32))
}

/// A parallel: once round the globe, a point every four degrees.
pub open spec fn parallel(lat: int) -> Seq<(i32, i32)> {
    Seq::new(91, |j: int| ((-180 + 4 * j) as i32, lat as i32))
}

/// How many meridians stand `step` degrees apart, from 180 degrees west on and
/// short of 180 degrees east.
pub open spec fn meridian_count(step: int) -> nat {
    ((359 + step) / step) as nat
}

/// How many parallels stand `step` degrees apart, from 60 degrees south on and
/// no further than 60 degrees north.
pub open spec fn parallel_count(step: int) -> nat {
    (120int / step + 1) as nat
}

/// The graticule: first the meridians from west to east, then the parallels
/// from south to north.
pub open spec fn graticule_lines(step: int) -> Seq<Seq<(i32, i32)>> {
    Seq::new(meridian_count(step), |k: int| meridian(-180 + k * step)) + Seq::new(
        parallel_count(step),
        |k: int| parallel(-60 + k * step),
    )
}

/// The lines of a list, each as a sequence of points.
pub open spec fn lines_of(lines: Seq<Vec<(i32, i32)>>) -> Seq<Seq<(i32, i32)>> {
    lines.map_values(|l: Vec<(i32, i32)>| l@)
}

proof fn lines_push(lines: Seq<Vec<(i32, i32)>>, l: Vec<(i32, i32)>)
    ensures
        lines_of(lines.push(l)) == lines_of(lines).push(l@),
{
    assert(lines_of(lines.push(l)) == lines_of(lines).push(l@));
}

/// The graticule with lines `step` degrees apart, generated, not stored.
pub fn graticule(step: i32) -> (out: Vec<Vec<(i32, i32)>>)
    requires
        step > 0,
    ensures
        lines_of(out@) == graticule_lines(step as int),
{
    let mut out: Vec<Vec<(i32, i32)>> = Vec::new();
    let mut lon: i32 = -180;
    let ghost mut k: int = 0;
    let ghost meridians = |k: int| meridian(-180 + k * step);
    while lon < 180
        invariant
            step > 0,
            k >= 0,
            lon == -180 + k * step,
            k > 0 ==> (k - 1) * step < 360,
            meridians == (|k: int| meridian(-180 + k * step)),
            lines_of(out@) == Seq::new(k as nat, meridians),
        decreases if lon < 180 { 180 - lon } else { 0 },
    {
        let mut line: Vec<(i32, i32)> = Vec::new();
        let mut lat: i32 = -80;
        let ghost mut j: int = 0;
        while lat <= 80
            invariant
                0 <= j <= 41,
                lat == -80 + 4 * j,
                line@ == meridian(lon as int).take(j),
            decreases 84 - lat,
        {
            line.push((lon, lat));
            proof {
                assert(meridian(lon as int).take(j + 1) == meridian(lon as int).take(j).push(
                    meridian(lon as int)[j],
                ));
                j = j + 1;
            }
            lat += 4;
        }
        assert(line@ == meridian(lon as int));
        proof {
            lines_push(out@, line);
            assert(Seq::new((k + 1) as nat, meridians) == Seq::new(k as nat, meridians).push(
                line@,
            ));
            assert((k + 1) * step == k * step + step) by (nonlinear_arith);
            k = k + 1;
        }
        out.push(line);
        if step >= 360 {
            assert(k == 1 && (k - 1) * step == 0) by (nonlinear_arith)
                requires
                    step >= 360,
                    k > 0,
                    (k - 1) * step < 360,
            ;
        }
        lon += step;
    }
    assert(k == (359 + step) / (step as int)) by (nonlinear_arith)
        requires
            step > 0,
            k > 0,
            (k - 1) * step < 360,
            k * step >= 360,
    ;
    let ghost first = lines_of(out@);
    let mut lat: i32 = -60;
    let ghost mut k: int = 0;
    let ghost parallels = |k: int| parallel(-60 + k * step);
    while lat <= 60
        invariant
            step > 0,
            k >= 0,
            lat == -60 + k * step,
            k > 0 ==> (k - 1) * step <= 120,
            parallels == (|k: int| parallel(-60 + k * step)),
            lines_of(out@) == first + Seq::new(k as nat, parallels),
        decreases if lat <= 60 { 61 - lat } else { 0 },
    {
        let mut line: Vec<(i32, i32)> = Vec::new();
        let mut lon: i32 = -180;
        let ghost mut j: int = 0;
        while lon <= 180
            invariant
                0 <= j <= 91,
                lon == -180 + 4 * j,
                line@ == parallel(lat as int).take(j),
            decreases 184 - lon,
        {
            line.push((lon, lat));
            proof {
                assert(parallel(lat as int).take(j + 1) == parallel(lat as int).take(j).push(
                    parallel(lat as int)[j],
                ));
                j = j + 1;
            }
            lon += 4;
        }
        assert(line@ == parallel(lat as int));
        proof {
            lines_push(out@, line);
            assert(Seq::new((k + 1) as nat, parallels) == Seq::new(k as nat, parallels).push(
                line@,
            ));
            assert(first + Seq::new((k + 1) as nat, parallels) == (first + Seq::new(
                k as nat,
                parallels,
            )).push(line@));
            assert((k + 1) * step == k * step + step) by (nonlinear_arith);
            k = k + 1;
        }
        out.push(line);
        if step > 120 {
            assert(k == 1 && (k - 1) * step == 0) by (nonlinear_arith)
                requires
                    step > 120,
                    k > 0,
                    (k - 1) * step <= 120,
            ;
        }
        lat += step;
    }
    assert(k == 120int / (step as int) + 1) by (nonlinear_arith)
        requires
            step > 0,
            k > 0,
            (k - 1) * step <= 120,
            k * step > 120,
    ;
    out
}

/// The meridians stop short of 180 degrees east, which is the one at 180 degrees
/// west again, and one more would reach it; the parallels reach as far as 60
/// degrees north allows.
pub proof fn graticule_covers_the_globe(step: int)
    requires
        step > 0,
    ensures
        -180 + (meridian_count(step) - 1) * step < 180 <= -180 + meridian_count(step) * step,
        -60 + (parallel_count(step) - 1) * step <= 60 < -60 + parallel_count(step) * step,
{
    let m = (359 + step) / step;
    let p = 120int / step;
    assert(m >= 1 && (m - 1) * step < 360 && m * step >= 360) by (nonlinear_arith)
        requires
            step > 0,
            m == (359 + step) / step,
    ;
    assert(p >= 0 && p * step <= 120 && (p + 1) * step > 120) by (nonlinear_arith)
        requires
            step > 0,
            p == 120int / step,
    ;
}

/// The meridians run from 80 degrees south to 80 degrees north and the parallels once
/// round the globe, each with a point every four degrees. The meridians come first,
/// from 180 degrees west on, then the parallels, from 60 degrees south on, `step`
/// degrees from one to the next.
pub proof fn graticule_is_made_of_meridians_and_parallels(step: int)
    requires
        step > 0,
    ensures
        ({
            let lines = graticule_lines(step);
            let m = meridian_count(step);
            &&& lines.len() == m + parallel_count(step)
            &&& forall|k: int|
                0 <= k < m ==> (#[trigger] lines[k]).len() == 41 && forall|j: int|
                    0 <= j < 41 ==> #[trigger] lines[k][j] == (
                        (-180 + k * step) as i32,
                        (-80 + 4 * j) as i32,
                    )
            &&& forall|k: int|
                m <= k < lines.len() ==> (#[trigger] lines[k]).len() == 91 && forall|j: int|
                    0 <= j < 91 ==> #[trigger] lines[k][j] == (
                        (-180 + 4 * j) as i32,
                        (-60 + (k - m) * step) as i32,
                    )
        }),
{
}

} // verus!
