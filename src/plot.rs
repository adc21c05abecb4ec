use vstd::prelude::*;

verus! {

/// Frequencies, in Hz, that the frequency axis labels.
pub open spec fn labelled(hz: u32) -> bool {
    hz == 50 || hz == 100 || hz == 500 || hz == 2000 || hz == 10000
}

/// Whether the frequency axis puts a label at `hz` (a frequency already
/// rounded to whole hertz).
pub fn is_labelled_frequency(hz: u32) -> (r: bool)
    ensures
        r == labelled(hz),
{
    hz == 50 || hz == 100 || hz == 500 || hz == 2000 || hz == 10000
}

/// The nine multiples `1 * step` to `9 * step`.
pub open spec fn decade_lines(step: int) -> Seq<u32> {
    Seq::new(9, |d: int| ((d + 1) * step) as u32)
}

/// The grid of the frequency axis, in Hz and ascending: every multiple of
/// ten below one hundred, of one hundred below a thousand, of a thousand
/// below ten thousand, then ten and twenty thousand.
pub open spec fn grid_lines() -> Seq<u32> {
    decade_lines(10) + decade_lines(100) + decade_lines(1000) + seq![10000u32, 20000u32]
}

/// The frequencies, in Hz, at which the frequency axis draws a grid line.
pub fn grid_frequencies() -> (r: Vec<u32>)
    ensures
        r@ == grid_lines(),
{
    let mut r: Vec<u32> = Vec::new();
    let mut step: u32 = 10;
    let mut k: usize = 0;
    while k < 3
        invariant
            k <= 3,
            k == 0 ==> step == 10 && r@ == Seq::<u32>::empty(),
            k == 1 ==> step == 100 && r@ == decade_lines(10),
            k == 2 ==> step == 1000 && r@ == decade_lines(10) + decade_lines(100),
            k == 3 ==> r@ == decade_lines(10) + decade_lines(100) + decade_lines(1000),
        decreases 3 - k,
    {
        let ghost base = r@;
        let mut d: u32 = 1;
        while d <= 9
            invariant
                1 <= d <= 10,
                step <= 1000,
                r@ == base + decade_lines(step as int).take(d - 1),
            decreases 10 - d,
        {
            assert(d * step <= 9000) by (nonlinear_arith)
                requires
                    d <= 9,
                    step <= 1000,
            ;
            r.push(d * step);
            assert(r@ =~= base + decade_lines(step as int).take(d as int));
            d = d + 1;
        }
        assert(decade_lines(step as int).take(9) =~= decade_lines(step as int));
        step = step * 10;
        k = k + 1;
    }
    r.push(10000);
    r.push(20000);
    assert(r@ =~= grid_lines());
    r
}

} // verus!
