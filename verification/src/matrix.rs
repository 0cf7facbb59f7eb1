use vstd::prelude::*;

verus! {

use crate::time::{elapsed_ms, spec_elapsed};

/// Debounce window in milliseconds: once a cell's transition is accepted,
/// its reported state is locked until the window has passed, and the scanner
/// only powers down after the matrix has been quiet for this long.
pub const DEBOUNCE_TIME: u64 = 5;

/// Per-cell debounce state: the reported value and, while a transition is
/// being debounced, the time it was accepted.
#[derive(Copy, Clone, Debug)]
pub struct Debouncer {
    pub state: bool,
    pub debounced: Option<u64>,
}

impl Debouncer {
    /// The state after one raw sample `buf` taken at time `now`: a new value
    /// is accepted at once when no window is running, and while the window
    /// runs every sample is ignored — first the window must expire, then the
    /// next sample may be accepted.
    pub open spec fn spec_step(self, buf: bool, now: u64) -> Debouncer {
        match self.debounced {
            Some(time) => if spec_elapsed(time, now) > DEBOUNCE_TIME {
                Debouncer { debounced: None, ..self }
            } else {
                self
            },
            None => if buf != self.state {
                Debouncer { state: buf, debounced: Some(now) }
            } else {
                self
            },
        }
    }

    /// A quiet, released cell.
    pub fn default() -> (d: Debouncer)
        ensures
            d.state == false,
            d.debounced is None,
    {
        Debouncer { state: false, debounced: None }
    }

    /// Returns the debounced (reported) state of the cell.
    pub fn is_pressed(&self) -> (r: bool)
        ensures
            r == self.state,
    {
        self.state
    }

    /// Runtime evaluation of [`Debouncer::spec_step`].
    pub fn update_buf(&mut self, buf: bool, now: u64)
        ensures
            *final(self) == old(self).spec_step(buf, now),
    {
        match self.debounced {
            Some(time) => {
                if elapsed_ms(time, now) > DEBOUNCE_TIME {
                    self.debounced = None;
                }
            },
            None => {
                if buf != self.state {
                    self.debounced = Some(now);
                    self.state = buf;
                }
            },
        }
    }
}

/// Once a cell accepts a transition, its whole debounce state is frozen for
/// the length of the window: a sample taken within [`DEBOUNCE_TIME`] of the
/// accepted edge changes nothing, whatever it reads. A press-and-release
/// glitch shorter than the window therefore never shows its second edge in
/// the reported state — the reported state never completes a transition
/// inside the window.
pub proof fn lemma_debounce_window(d0: Debouncer, b1: bool, t1: u64, b2: bool, t2: u64)
    requires
        d0.debounced is None,
        b1 != d0.state,
        t1 <= t2 <= t1 + DEBOUNCE_TIME,
    ensures
        d0.spec_step(b1, t1).state == b1,
        d0.spec_step(b1, t1).spec_step(b2, t2) == d0.spec_step(b1, t1),
{
}

/// Whether any cell of a raw sample row among the first `n` reads active.
pub open spec fn row_any(r: Seq<bool>, n: int) -> bool
    decreases n,
{
    if n <= 0 {
        false
    } else {
        row_any(r, n - 1) || r[n - 1]
    }
}

/// Whether any cell of the first `n` raw sample rows reads active.
pub open spec fn grid_any(g: Seq<Vec<bool>>, n: int) -> bool
    decreases n,
{
    if n <= 0 {
        false
    } else {
        grid_any(g, n - 1) || row_any(g[n - 1]@, g[n - 1]@.len() as int)
    }
}

/// The debounced matrix state: one [`Debouncer`] per cell, stored row-major
/// by input line, and the power-save latch — the time the matrix went quiet,
/// or `None` while any cell reads active.
pub struct Matrix {
    pub debouncers: Vec<Debouncer>,
    pub input_size: usize,
    pub output_size: usize,
    pub pressed: Option<u64>,
}

impl Matrix {
    /// One debouncer per cell.
    pub open spec fn wf(&self) -> bool {
        self.debouncers@.len() == self.input_size * self.output_size
    }

    /// A quiet matrix of `input_size` by `output_size` cells. The latch
    /// starts clear, so the first cycles raster at full speed.
    pub fn new(input_size: usize, output_size: usize) -> (m: Matrix)
        requires
            input_size * output_size <= usize::MAX,
        ensures
            m.wf(),
            m.input_size == input_size,
            m.output_size == output_size,
            m.pressed is None,
            forall|k: int|
                0 <= k < m.debouncers@.len() ==> (#[trigger] m.debouncers@[k]).state == false
                    && m.debouncers@[k].debounced is None,
    {
        let total = input_size * output_size;
        let mut debouncers: Vec<Debouncer> = Vec::new();
        while debouncers.len() < total
            invariant
                debouncers@.len() <= total,
                forall|k: int|
                    0 <= k < debouncers@.len() ==> (#[trigger] debouncers@[k]).state == false
                        && debouncers@[k].debounced is None,
            decreases total - debouncers.len(),
        {
            debouncers.push(Debouncer::default());
        }
        Matrix { debouncers, input_size, output_size, pressed: None }
    }

    /// The debounced state of the cell on input line `i`, output line `j`.
    pub fn is_pressed(&self, i: usize, j: usize) -> (r: bool)
        requires
            self.wf(),
            i < self.input_size,
            j < self.output_size,
        ensures
            r == self.debouncers@[i * self.output_size + j].state,
    {
        let total = self.debouncers.len();
        proof {
            lemma_cell_index(i as int, j as int, self.input_size as int, self.output_size as int);
            assert(i * self.output_size + j < total);
        }
        self.debouncers[i * self.output_size + j].is_pressed()
    }

    /// Whether the scanner may power down and wait for an edge: the matrix
    /// has read quiet since before the debounce window.
    pub fn should_suspend(&self, now: u64) -> (r: bool)
        ensures
            r == (self.pressed matches Some(t) && spec_elapsed(t, now) >= DEBOUNCE_TIME),
    {
        match self.pressed {
            Some(time) => elapsed_ms(time, now) >= DEBOUNCE_TIME,
            None => false,
        }
    }

    /// Commits one full raster of raw samples taken at time `now`: every
    /// cell's debouncer takes its sample, and the power-save latch is
    /// cleared if any cell read active, armed at `now` the cycle the matrix
    /// goes quiet, and left as it was while it stays quiet.
    pub fn scan_update(&mut self, raw: &Vec<Vec<bool>>, now: u64)
        requires
            old(self).wf(),
            raw@.len() == old(self).input_size,
            forall|i: int| 0 <= i < raw@.len() ==> (#[trigger] raw@[i])@.len() == old(self).output_size,
        ensures
            final(self).wf(),
            final(self).input_size == old(self).input_size,
            final(self).output_size == old(self).output_size,
            forall|i: int, j: int|
                0 <= i < old(self).input_size && 0 <= j < old(self).output_size
                    ==> final(self).debouncers@[i * old(self).output_size + j]
                    == (#[trigger] old(self).debouncers@[i * old(self).output_size + j]).spec_step(
                    raw@[i]@[j],
                    now,
                ),
            final(self).pressed == (if grid_any(raw@, raw@.len() as int) {
                None::<u64>
            } else {
                match old(self).pressed {
                    Some(t) => Some(t),
                    None => Some(now),
                }
            }),
    {
        let ghost d0 = self.debouncers@;
        let total = self.debouncers.len();
        let input_size = self.input_size;
        let output_size = self.output_size;
        let mut pressed = false;
        let mut i: usize = 0;
        while i < input_size
            invariant
                i <= input_size,
                self.input_size == input_size,
                self.output_size == output_size,
                self.debouncers@.len() == d0.len(),
                d0.len() == input_size * output_size,
                d0.len() == total,
                raw@.len() == input_size,
                forall|a: int| 0 <= a < raw@.len() ==> (#[trigger] raw@[a])@.len() == output_size,
                self.pressed == old(self).pressed,
                pressed == grid_any(raw@, i as int),
                forall|a: int, b: int|
                    0 <= a < i && 0 <= b < output_size ==> self.debouncers@[a * output_size + b]
                        == (#[trigger] d0[a * output_size + b]).spec_step(raw@[a]@[b], now),
                forall|k: int|
                    i * output_size <= k < d0.len() ==> #[trigger] self.debouncers@[k] == d0[k],
            decreases input_size - i,
        {
            let row = &raw[i];
            let mut j: usize = 0;
            let ghost di = self.debouncers@;
            while j < output_size
                invariant
                    j <= output_size,
                    i < input_size,
                    self.input_size == input_size,
                    self.output_size == output_size,
                    self.debouncers@.len() == di.len(),
                    di.len() == input_size * output_size,
                    di.len() == total,
                    raw@.len() == input_size,
                    row == raw@[i as int],
                    row@.len() == output_size,
                    self.pressed == old(self).pressed,
                    pressed == (grid_any(raw@, i as int) || row_any(row@, j as int)),
                    forall|k: int| 0 <= k < i * output_size ==> #[trigger] self.debouncers@[k] == di[k],
                    forall|b: int|
                        0 <= b < j ==> self.debouncers@[i * output_size + b] == (#[trigger] di[i
                            * output_size + b]).spec_step(raw@[i as int]@[b], now),
                    forall|k: int|
                        i * output_size + j <= k < di.len() ==> #[trigger] self.debouncers@[k]
                            == di[k],
                decreases output_size - j,
            {
                proof {
                    lemma_cell_index(i as int, j as int, input_size as int, output_size as int);
                }
                let sample = row[j];
                let fi = i * output_size + j;
                self.debouncers[fi].update_buf(sample, now);
                pressed = pressed || sample;
                j = j + 1;
            }
            proof {
                assert forall|a: int, b: int|
                    0 <= a < i + 1 && 0 <= b < output_size implies self.debouncers@[a * output_size
                    + b] == (#[trigger] d0[a * output_size + b]).spec_step(raw@[a]@[b], now) by {
                    lemma_cell_index(a, b, input_size as int, output_size as int);
                    if a < i as int {
                        assert(a * output_size + b < i * output_size) by (nonlinear_arith)
                            requires
                                0 <= a < i as int,
                                0 <= b < output_size,
                        ;
                        assert(di[a * output_size + b] == d0[a * output_size + b].spec_step(
                            raw@[a]@[b],
                            now,
                        ));
                        assert(self.debouncers@[a * output_size + b] == di[a * output_size + b]);
                    }
                }
                assert forall|k: int|
                    (i + 1) * output_size <= k < d0.len() implies #[trigger] self.debouncers@[k]
                    == d0[k] by {
                    assert(i * output_size + output_size == (i + 1) * output_size)
                        by (nonlinear_arith);
                    assert(di[k] == d0[k]);
                }
            }
            i = i + 1;
        }
        if pressed {
            self.pressed = None;
        } else {
            match self.pressed {
                Some(_) => {},
                None => {
                    self.pressed = Some(now);
                },
            }
        }
    }
}

/// A cell's row-major index lies inside the grid.
proof fn lemma_cell_index(i: int, j: int, input_size: int, output_size: int)
    requires
        0 <= i < input_size,
        0 <= j < output_size,
    ensures
        0 <= i * output_size + j < input_size * output_size,
        i * output_size + j < (i + 1) * output_size,
        (i + 1) * output_size <= input_size * output_size,
{
    assert((i + 1) * output_size <= input_size * output_size && i * output_size + j < (i + 1)
        * output_size && 0 <= i * output_size + j) by (nonlinear_arith)
        requires
            0 <= i < input_size,
            0 <= j < output_size,
    ;
}

} // verus!
