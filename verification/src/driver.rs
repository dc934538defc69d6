//! The driver's decisions: how many time steps a run has, what follows each
//! of them, and how much of a terminal a plot may take.

use vstd::prelude::*;
use vstd::string::*;

verus! {

/// The number of electric samples of the standard grid.
pub const GRID_SIZE: usize = 100000;

/// The most frames drawn in a second.
pub const FRAMES_PER_SECOND: u64 = 60;

/// The stage of a run.
#[derive(Clone, Copy, PartialEq, Eq, Debug, Structural)]
pub enum Phase {
    /// No time step has begun.
    Initializing,
    /// Between the first time step and the last.
    Running,
    /// The last time step is over.
    Finalizing,
}

/// What follows a time step.
#[derive(Clone, Copy, PartialEq, Eq, Debug, Structural)]
pub enum Action {
    /// Nothing.
    Idle,
    /// Report the number of steps done, out of how many.
    Progress { done: usize, of: usize },
    /// Draw both fields.
    Render,
}

/// The number of time steps of a run over `n` samples.
pub open spec fn t_max_spec(n: nat) -> nat {
    8 * n
}

/// The least time between two frames, in milliseconds.
pub open spec fn frame_ms_spec(fps: nat) -> nat
    recommends
        fps > 0,
{
    1000nat / fps
}

/// What follows step `t` of `t_max`.
pub open spec fn action_spec(
    bench: bool,
    t: nat,
    t_max: nat,
    frame_ms: nat,
    elapsed_ms: nat,
) -> Action {
    if bench {
        if t % 100 == 0 {
            Action::Progress { done: t as usize, of: t_max as usize }
        } else {
            Action::Idle
        }
    } else if elapsed_ms >= frame_ms {
        Action::Render
    } else {
        Action::Idle
    }
}

/// The columns of a plot on a terminal `cols` wide, or 100 where the width is
/// not known.
pub open spec fn plot_width_spec(cols: Option<u16>) -> nat {
    match cols {
        Some(w) => if w >= 12 {
            (w - 12) as nat
        } else {
            0
        },
        None => 100,
    }
}

/// The rows of a plot on a terminal `rows` high, or 20 where the height is not
/// known.
pub open spec fn plot_height_spec(rows: Option<u16>) -> nat {
    match rows {
        Some(h) => if h >= 6 {
            ((h - 6) / 2) as nat
        } else {
            0
        },
        None => 20,
    }
}

/// The columns of a plot on a terminal `cols` wide.
pub fn plot_width(cols: Option<u16>) -> (width: usize)
    ensures
        width == plot_width_spec(cols),
{
    match cols {
        Some(w) => {
            if w >= 12 {
                (w - 12) as usize
            } else {
                0
            }
        },
        None => 100,
    }
}

/// The rows of a plot on a terminal `rows` high.
pub fn plot_height(rows: Option<u16>) -> (height: usize)
    ensures
        height == plot_height_spec(rows),
{
    match rows {
        Some(h) => {
            if h >= 6 {
                ((h - 6) / 2) as usize
            } else {
                0
            }
        },
        None => 20,
    }
}

/// The time-stepping loop's state.
pub struct Driver {
    t: usize,
    t_max: usize,
    bench: bool,
    frame_ms: u64,
    over: bool,
}

impl Driver {
    /// The number of time steps begun.
    pub closed spec fn ticks(&self) -> nat {
        self.t as nat
    }

    /// The number of time steps of the run.
    pub closed spec fn limit(&self) -> nat {
        self.t_max as nat
    }

    /// Rendering is off.
    pub closed spec fn headless(&self) -> bool {
        self.bench
    }

    /// The least time between two frames, in milliseconds.
    pub closed spec fn frame_gap(&self) -> nat {
        self.frame_ms as nat
    }

    /// A step was asked for after the last one.
    pub closed spec fn finished(&self) -> bool {
        self.over
    }

    /// No more steps are begun than the run has, and the run is over only
    /// once all of them are.
    pub closed spec fn wf(&self) -> bool {
        &&& self.t <= self.t_max
        &&& self.over ==> self.t == self.t_max
    }

    /// The stage of the run.
    pub open spec fn phase_spec(&self) -> Phase {
        if self.finished() {
            Phase::Finalizing
        } else if self.ticks() == 0 {
            Phase::Initializing
        } else {
            Phase::Running
        }
    }

    /// A run over `n` samples, of `8 * n` time steps, drawn at most `fps`
    /// times a second unless `bench` is set.
    pub fn new(n: usize, bench: bool, fps: u64) -> (d: Driver)
        requires
            n <= usize::MAX / 8,
            fps > 0,
        ensures
            d.wf(),
            d.ticks() == 0,
            d.limit() == t_max_spec(n as nat),
            d.headless() == bench,
            d.frame_gap() == frame_ms_spec(fps as nat),
            !d.finished(),
    {
        Driver { t: 0, t_max: 8 * n, bench, frame_ms: 1000 / fps, over: false }
    }

    /// The number of time steps begun.
    pub fn t(&self) -> (t: usize)
        ensures
            t == self.ticks(),
    {
        self.t
    }

    /// The number of time steps of the run.
    pub fn t_max(&self) -> (t_max: usize)
        ensures
            t_max == self.limit(),
    {
        self.t_max
    }

    /// The stage of the run.
    pub fn phase(&self) -> (p: Phase)
        ensures
            p == self.phase_spec(),
    {
        if self.over {
            Phase::Finalizing
        } else if self.t == 0 {
            Phase::Initializing
        } else {
            Phase::Running
        }
    }

    /// Begins the next time step, if one is left: the answer says whether the
    /// fields are to be updated once more. After the last step the run is over.
    pub fn begin_tick(&mut self) -> (go: bool)
        requires
            old(self).wf(),
        ensures
            final(self).wf(),
            go == (old(self).ticks() < old(self).limit()),
            go ==> final(self).ticks() == old(self).ticks() + 1 && final(self).finished() == old(
                self,
            ).finished(),
            !go ==> final(self).ticks() == old(self).ticks() && final(self).finished(),
            final(self).limit() == old(self).limit(),
            final(self).headless() == old(self).headless(),
            final(self).frame_gap() == old(self).frame_gap(),
    {
        if self.t < self.t_max {
            self.t = self.t + 1;
            true
        } else {
            self.over = true;
            false
        }
    }

    /// What follows the time step just done, `elapsed_ms` milliseconds after
    /// the last frame was drawn.
    pub fn after_tick(&self, elapsed_ms: u128) -> (a: Action)
        ensures
            a == action_spec(
                self.headless(),
                self.ticks(),
                self.limit(),
                self.frame_gap(),
                elapsed_ms as nat,
            ),
    {
        if self.bench {
            if self.t % 100 == 0 {
                Action::Progress { done: self.t, of: self.t_max }
            } else {
                Action::Idle
            }
        } else if elapsed_ms >= self.frame_ms as u128 {
            Action::Render
        } else {
            Action::Idle
        }
    }
}

/// The text of a decimal digit.
pub open spec fn digit_text_spec(d: nat) -> Seq<char>
    recommends
        d < 10,
{
    if d == 0 {
        "0"@
    } else if d == 1 {
        "1"@
    } else if d == 2 {
        "2"@
    } else if d == 3 {
        "3"@
    } else if d == 4 {
        "4"@
    } else if d == 5 {
        "5"@
    } else if d == 6 {
        "6"@
    } else if d == 7 {
        "7"@
    } else if d == 8 {
        "8"@
    } else {
        "9"@
    }
}

/// The decimal numeral of `n`, without leading zeros.
pub open spec fn decimal_spec(n: nat) -> Seq<char>
    decreases n,
{
    if n < 10 {
        digit_text_spec(n)
    } else {
        decimal_spec(n / 10) + digit_text_spec(n % 10)
    }
}

/// A progress report: the steps done, a stroke, the steps of the run.
pub open spec fn progress_line_spec(done: nat, of: nat) -> Seq<char> {
    decimal_spec(done) + "/"@ + decimal_spec(of)
}

/// The text of the decimal digit `d`.
pub fn digit_text(d: usize) -> (text: &'static str)
    requires
        d < 10,
    ensures
        text@ == digit_text_spec(d as nat),
{
    if d == 0 {
        "0"
    } else if d == 1 {
        "1"
    } else if d == 2 {
        "2"
    } else if d == 3 {
        "3"
    } else if d == 4 {
        "4"
    } else if d == 5 {
        "5"
    } else if d == 6 {
        "6"
    } else if d == 7 {
        "7"
    } else if d == 8 {
        "8"
    } else {
        "9"
    }
}

/// Appends the decimal numeral of `n` to `buf`.
pub fn append_decimal(buf: &mut String, n: usize)
    ensures
        final(buf)@ == old(buf)@ + decimal_spec(n as nat),
    decreases n,
{
    if n >= 10 {
        append_decimal(buf, n / 10);
    }
    buf.append(digit_text(n % 10));
    assert(buf@ =~= old(buf)@ + decimal_spec(n as nat));
}

/// The line that reports `done` steps out of `of`.
pub fn progress_line(done: usize, of: usize) -> (line: String)
    ensures
        line@ == progress_line_spec(done as nat, of as nat),
{
    let mut line: String = String::new();
    append_decimal(&mut line, done);
    line.append("/");
    append_decimal(&mut line, of);
    assert(line@ =~= progress_line_spec(done as nat, of as nat));
    line
}

} // verus!
