//! The integer side of spectral sampling: which wavelengths are sampled, and how a
//! tabulated spectrum is looked up.
use vstd::prelude::*;

verus! {

/// Shortest wavelength that is sampled, in nanometres.
pub const WAVE_START: u16 = 360;

/// Longest wavelength that may be sampled, in nanometres.
pub const WAVE_END: u16 = 830;

/// Step between two sampled wavelengths when rendering, in nanometres.
pub const WAVE_STEP: u16 = 35;

/// The `i`-th wavelength of the grid that starts at `start` with step `step`.
pub open spec fn grid_point(start: u16, step: u16, i: int) -> int {
    start + i * step
}

/// How many points of that grid lie in `start..=end`.
pub open spec fn grid_len(start: u16, end: u16, step: u16) -> nat
    recommends
        step > 0,
{
    if start <= end {
        ((end - start) / (step as int) + 1) as nat
    } else {
        0
    }
}

/// The wavelengths `start, start + step, start + 2 * step, ...` that do not exceed
/// `end`, in increasing order: what `(start..=end).step_by(step)` yields.
pub fn wavelength_samples(start: u16, end: u16, step: u16) -> (r: Vec<u16>)
    requires
        step > 0,
    ensures
        r@.len() == grid_len(start, end, step),
        forall|i: int| 0 <= i < r@.len() ==> r@[i] == grid_point(start, step, i),
{
    let mut r: Vec<u16> = Vec::new();
    if start > end {
        return r;
    }
    let mut w: u16 = start;
    assert(grid_point(start, step, 0) == start) by (nonlinear_arith)
        requires
            grid_point(start, step, 0) == start + 0 * step,
    ;
    loop
        invariant_except_break
            w == grid_point(start, step, r@.len() as int),
        invariant
            step > 0,
            start <= w <= end,
            forall|i: int| 0 <= i < r@.len() ==> r@[i] == grid_point(start, step, i),
        ensures
            r@.len() == grid_len(start, end, step),
            forall|i: int| 0 <= i < r@.len() ==> r@[i] == grid_point(start, step, i),
        decreases end - w,
    {
        let ghost k = r@.len() as int;
        r.push(w);
        if end - w < step {
            proof {
                assert(w - start == k * step);
                assert((end - start) == k * step + (end - w));
                assert((end - start) / (step as int) == k) by (nonlinear_arith)
                    requires
                        end - start == k * step + (end - w),
                        0 <= end - w < step,
                        k >= 0,
                ;
            }
            break;
        }
        proof {
            assert(grid_point(start, step, k + 1) == w + step) by (nonlinear_arith)
                requires
                    w == start + k * step,
            ;
        }
        w = w + step;
    }
    r
}

/// The multiples of 5 nanometres on either side of `wavelength`, between which a
/// spectrum tabulated every 5 nanometres is interpolated: `(prev, next)` with
/// `prev` rounded down and `next` rounded up (both equal to `wavelength` when it is
/// a multiple of 5).
pub fn daylight_bracket(wavelength: u16) -> (r: (u16, u16))
    ensures
        r.0 == (wavelength / 5) * 5,
        r.1 == if wavelength % 5 == 0 {
            r.0 as int
        } else {
            r.0 + 5
        },
        r.0 <= wavelength <= r.1,
        r.1 - r.0 <= 5,
{
    let prev = wavelength / 5 * 5;
    let next = if wavelength % 5 == 0 {
        prev
    } else {
        prev + 5
    };
    (prev, next)
}

/// The value recorded for `wavelength` in a table of `(wavelength, value)` rows: that
/// of the first row with this wavelength, or `None` when no row has it.
pub fn find_sample<V: Copy>(table: &Vec<(u16, V)>, wavelength: u16) -> (r: Option<V>)
    ensures
        r is None <==> forall|i: int| 0 <= i < table@.len() ==> table@[i].0 != wavelength,
        r matches Some(v) ==> exists|i: int|
            0 <= i < table@.len() && table@[i].0 == wavelength && table@[i].1 == v && forall|
                j: int,
            |
                0 <= j < i ==> table@[j].0 != wavelength,
{
    let mut i: usize = 0;
    while i < table.len()
        invariant
            i <= table@.len(),
            forall|j: int| 0 <= j < i ==> table@[j].0 != wavelength,
        decreases table@.len() - i,
    {
        if table[i].0 == wavelength {
            return Some(table[i].1);
        }
        i = i + 1;
    }
    None
}

/// Shortest wavelength at which a daylight spectrum is interpolated between rows.
pub const DAYLIGHT_START: u16 = 300;

/// Longest wavelength at which a daylight spectrum is interpolated between rows.
pub const DAYLIGHT_END: u16 = 780;

/// Where the daylight spectrum at a wavelength comes from.
#[derive(Debug, Clone, Copy)]
pub enum DaylightSample<V> {
    /// The value of the table's row for this wavelength.
    Tabulated(V),
    /// An interpolation between the rows at these two wavelengths (lower first).
    Between(u16, u16),
    /// Zero: the wavelength is outside the interpolated range and has no row.
    Outside,
}

/// Chooses where the daylight spectrum at `wavelength` comes from: the first row of
/// `table` with this wavelength; else, inside `DAYLIGHT_START..=DAYLIGHT_END`, the
/// rows at the multiples of 5 on either side (`daylight_bracket`); else zero.
pub fn daylight_sample<V: Copy>(table: &Vec<(u16, V)>, wavelength: u16) -> (r: DaylightSample<V>)
    ensures
        !(r is Tabulated) <==> forall|i: int|
            0 <= i < table@.len() ==> table@[i].0 != wavelength,
        r matches DaylightSample::Tabulated(v) ==> exists|i: int|
            0 <= i < table@.len() && table@[i].0 == wavelength && table@[i].1 == v && forall|
                j: int,
            |
                0 <= j < i ==> table@[j].0 != wavelength,
        !(r is Tabulated) && DAYLIGHT_START <= wavelength <= DAYLIGHT_END ==> r == DaylightSample::<
            V,
        >::Between(
            ((wavelength / 5) * 5) as u16,
            (if wavelength % 5 == 0 {
                (wavelength / 5) * 5
            } else {
                (wavelength / 5) * 5 + 5
            }) as u16,
        ),
        !(r is Tabulated) && !(DAYLIGHT_START <= wavelength <= DAYLIGHT_END) ==> r is Outside,
{
    match find_sample(table, wavelength) {
        Some(v) => DaylightSample::Tabulated(v),
        None => {
            if DAYLIGHT_START <= wavelength && wavelength <= DAYLIGHT_END {
                let (prev, next) = daylight_bracket(wavelength);
                DaylightSample::Between(prev, next)
            } else {
                DaylightSample::Outside
            }
        },
    }
}

} // verus!
