//! The panel: display bring-up and touch filtering.

use vstd::prelude::*;

use moving_median::MovingMedian;

use crate::ranking;

verus! {

/// Attempts before the display is declared offline.
pub const INIT_RETRIES: u8 = 5;

/// Delay after a failed attempt, in milliseconds.
pub const INIT_RETRY_DELAY_MS: u64 = 200;

/// Length of the reset pulse, in milliseconds.
pub const PANEL_RESET_LOW_MS: u64 = 10;

/// Settling time after the reset, in milliseconds.
pub const PANEL_RESET_HIGH_MS: u64 = 120;

/// Samples the touch filter looks at.
pub const MEDIAN_WINDOW: usize = 5;

/// Largest coordinate a touch filter takes; the controller reads twelve bits.
pub const TOUCH_MAX: u16 = 0x7fff;

/// What bringing the display up does next.
#[derive(Debug, Clone, Copy, PartialEq, Eq, Structural)]
pub enum BringUpStep {
    /// Pulse the reset line, then initialise.
    ResetAndInit,
    /// Initialise.
    Init,
    /// Wait for the retry delay, then initialise.
    WaitAndInit,
    /// Wait for the retry delay; the display is offline.
    WaitAndGiveUp,
    /// The display is online.
    Online,
}

/// Bringing the display up.
#[derive(Debug, Clone, Copy, PartialEq, Eq, Structural)]
pub struct BringUp {
    /// Whether the reset pulse has happened; it happens once.
    pub reset_done: bool,
    /// The attempt under way, counted from one.
    pub attempt: u8,
}

impl BringUp {
    /// Before the first bring-up.
    pub fn new() -> (bring_up: Self)
        ensures
            bring_up == (BringUp { reset_done: false, attempt: 0 }),
    {
        BringUp { reset_done: false, attempt: 0 }
    }

    /// Begin a bring-up.
    pub fn begin(&mut self) -> (step: BringUpStep)
        ensures
            *final(self) == (BringUp { reset_done: true, attempt: 1 }),
            step == (if old(self).reset_done {
                BringUpStep::Init
            } else {
                BringUpStep::ResetAndInit
            }),
    {
        self.attempt = 1;
        if self.reset_done {
            BringUpStep::Init
        } else {
            self.reset_done = true;
            BringUpStep::ResetAndInit
        }
    }

    /// Learn whether an attempt worked.
    pub fn on_init(&mut self, ok: bool) -> (step: BringUpStep)
        ensures
            final(self).reset_done == old(self).reset_done,
            ok ==> step == BringUpStep::Online && final(self).attempt == old(self).attempt,
            !ok && old(self).attempt < INIT_RETRIES ==> step == BringUpStep::WaitAndInit
                && final(self).attempt == old(self).attempt + 1,
            !ok && old(self).attempt >= INIT_RETRIES ==> step == BringUpStep::WaitAndGiveUp
                && final(self).attempt == old(self).attempt,
    {
        if ok {
            BringUpStep::Online
        } else if self.attempt < INIT_RETRIES {
            self.attempt = self.attempt + 1;
            BringUpStep::WaitAndInit
        } else {
            BringUpStep::WaitAndGiveUp
        }
    }
}

/// `moving_median::MovingMedian`: the median of the last few values.
#[verifier::external_type_specification]
#[verifier::external_body]
#[verifier::reject_recursive_types(T)]
pub struct ExMovingMedian<T, const N: usize>(moving_median::MovingMedian<T, N>);

/// The values a filter looks at, oldest first.
pub uninterp spec fn window_of(filter: MovingMedian<u16, MEDIAN_WINDOW>) -> Seq<u16>;

/// A window with one value more; a full one loses its oldest.
pub open spec fn slid(window: Seq<u16>, value: u16) -> Seq<u16> {
    if window.len() < MEDIAN_WINDOW {
        window.push(value)
    } else {
        window.drop_first().push(value)
    }
}

/// Whether every value is one that the controller can read.
pub open spec fn in_range(window: Seq<u16>) -> bool {
    forall|i: int| 0 <= i < window.len() ==> #[trigger] window[i] <= TOUCH_MAX
}

/// A window stays in range when a value in range joins it.
proof fn lemma_slid_in_range(window: Seq<u16>, value: u16)
    requires
        in_range(window),
        value <= TOUCH_MAX,
    ensures
        in_range(slid(window, value)),
{
    let after = slid(window, value);
    assert forall|i: int| 0 <= i < after.len() implies #[trigger] after[i] <= TOUCH_MAX by {
        if window.len() >= MEDIAN_WINDOW && i < after.len() - 1 {
            assert(after[i] == window[i + 1]);
        }
    }
}

/// `MovingMedian::new`: an empty window.
#[verifier::external_body]
fn median_new() -> (filter: MovingMedian<u16, MEDIAN_WINDOW>)
    ensures
        window_of(filter) == Seq::<u16>::empty(),
{
    MovingMedian::new()
}

/// `MovingMedian::clear`: the window is empty again.
#[verifier::external_body]
fn median_clear(filter: &mut MovingMedian<u16, MEDIAN_WINDOW>)
    ensures
        window_of(*final(filter)) == Seq::<u16>::empty(),
{
    filter.clear();
}

/// `MovingMedian::add_value`: the value joins the window, in place of the oldest one
/// where the window is full. It refuses only values unequal to themselves, which
/// integers never are, so the reply is dropped.
#[verifier::external_body]
fn median_add(filter: &mut MovingMedian<u16, MEDIAN_WINDOW>, value: u16)
    ensures
        window_of(*final(filter)) == slid(window_of(*old(filter)), value),
{
    let _ = filter.add_value(value);
}

/// `MovingMedian::median`: nothing for an empty window, otherwise the middle of the
/// sorted values, and the mean of the two middle ones, rounded down, where their
/// number is even. Two values are added in sixteen bits, so no value may exceed half
/// of that range.
#[verifier::external_body]
fn median_get(filter: &MovingMedian<u16, MEDIAN_WINDOW>) -> (median: Option<u16>)
    requires
        in_range(window_of(*filter)),
    ensures
        (if window_of(*filter).len() == 0 {
            median == None::<u16>
        } else {
            median is Some && median->0 == ranking::median(window_of(*filter))
        }),
{
    filter.median()
}

/// A raw sample of the touch controller.
#[derive(Debug, Clone, Copy, PartialEq, Eq, Structural)]
pub struct TouchSample {
    /// Position across.
    pub x: u16,
    /// Position along.
    pub y: u16,
    /// Pressure.
    pub z1: u16,
    /// Pressure.
    pub z2: u16,
}

/// The filters that smooth raw touch samples.
pub struct Filters {
    x: MovingMedian<u16, MEDIAN_WINDOW>,
    y: MovingMedian<u16, MEDIAN_WINDOW>,
}

impl Filters {
    /// The samples across that the filter looks at.
    pub closed spec fn xs(&self) -> Seq<u16> {
        window_of(self.x)
    }

    /// The samples along that the filter looks at.
    pub closed spec fn ys(&self) -> Seq<u16> {
        window_of(self.y)
    }

    /// Every held sample is one that the controller can read.
    pub open spec fn wf(&self) -> bool {
        in_range(self.xs()) && in_range(self.ys())
    }

    /// Filters with empty windows.
    pub fn new() -> (filters: Self)
        ensures
            filters.wf(),
            filters.xs() == Seq::<u16>::empty(),
            filters.ys() == Seq::<u16>::empty(),
    {
        Filters { x: median_new(), y: median_new() }
    }

    /// Empty both windows, so that a new gesture starts from its own samples.
    pub fn clear(&mut self)
        ensures
            final(self).wf(),
            final(self).xs() == Seq::<u16>::empty(),
            final(self).ys() == Seq::<u16>::empty(),
    {
        median_clear(&mut self.x);
        median_clear(&mut self.y);
    }

    /// Filter one raw sample.
    pub fn point(&mut self, raw: TouchSample) -> (filtered: TouchSample)
        requires
            old(self).wf(),
            raw.x <= TOUCH_MAX,
            raw.y <= TOUCH_MAX,
        ensures
            final(self).wf(),
            final(self).xs() == slid(old(self).xs(), raw.x),
            final(self).ys() == slid(old(self).ys(), raw.y),
            filtered.x == ranking::median(final(self).xs()),
            filtered.y == ranking::median(final(self).ys()),
            filtered.z1 == raw.z1,
            filtered.z2 == raw.z2,
    {
        proof {
            lemma_slid_in_range(self.xs(), raw.x);
            lemma_slid_in_range(self.ys(), raw.y);
        }
        median_add(&mut self.x, raw.x);
        median_add(&mut self.y, raw.y);
        let x = match median_get(&self.x) {
            Some(x) => x,
            None => raw.x,
        };
        let y = match median_get(&self.y) {
            Some(y) => y,
            None => raw.y,
        };
        TouchSample { x, y, z1: raw.z1, z2: raw.z2 }
    }
}

/// The first sample of a gesture comes through as it is.
pub proof fn law_first_sample_comes_through(value: u16)
    ensures
        ranking::median(slid(Seq::empty(), value)) == value,
{
    let window = slid(Seq::empty(), value);
    assert(window =~= seq![value]);
    ranking::law_kth_is_one_of_the_values(window, 0);
}

/// A filtered coordinate lies between the samples in the window.
pub proof fn law_filter_stays_between_samples(window: Seq<u16>, low: int, high: int)
    requires
        window.len() > 0,
        forall|i: int| 0 <= i < window.len() ==> low <= #[trigger] window[i] <= high,
    ensures
        low <= ranking::median(window) <= high,
{
    ranking::law_median_is_between_values(window);
}

/// The window holds the last five samples: the newest at its end, the others one place
/// further to the front once it is full.
pub proof fn law_window_holds_the_newest(window: Seq<u16>, value: u16, i: int)
    requires
        window.len() <= 5,
    ensures
        slid(window, value).len() == (if window.len() < 5 {
            window.len() + 1
        } else {
            5
        }),
        slid(window, value).last() == value,
        window.len() < 5 && 0 <= i < window.len() ==> slid(window, value)[i] == window[i],
        window.len() == 5 && 0 <= i < 4 ==> slid(window, value)[i] == window[i + 1],
{
}

/// The display is tried five times: an attempt that works brings it online, one that does
/// not is followed by the next, and the fifth is the last. The reset pulse comes once.
pub proof fn law_display_is_tried_five_times(
    beginning: &mut BringUp,
    trying: &mut BringUp,
    worked: &mut BringUp,
    first: BringUpStep,
    again: BringUpStep,
    done: BringUpStep,
)
    requires
        call_ensures(BringUp::begin, (beginning,), first),
        call_ensures(BringUp::on_init, (trying, false), again),
        call_ensures(BringUp::on_init, (worked, true), done),
    ensures
        first is ResetAndInit <==> !old(beginning).reset_done,
        first is Init <==> old(beginning).reset_done,
        final(beginning).reset_done && final(beginning).attempt == 1,
        old(trying).attempt < 5 ==> again is WaitAndInit && final(trying).attempt == old(
            trying,
        ).attempt + 1,
        old(trying).attempt >= 5 ==> again is WaitAndGiveUp,
        done is Online,
{
}

/// Every sample goes to its own filter: across and along are not exchanged, and the
/// pressures pass as they are.
pub proof fn law_samples_keep_their_axis(
    filters: &mut Filters,
    raw: TouchSample,
    filtered: TouchSample,
)
    requires
        call_ensures(Filters::point, (filters, raw), filtered),
        old(filters).xs().len() == 0,
        old(filters).ys().len() == 0,
    ensures
        filtered.x == raw.x,
        filtered.y == raw.y,
        filtered.z1 == raw.z1,
        filtered.z2 == raw.z2,
{
    law_first_sample_comes_through(raw.x);
    law_first_sample_comes_through(raw.y);
    assert(old(filters).xs() =~= Seq::<u16>::empty());
    assert(old(filters).ys() =~= Seq::<u16>::empty());
}

} // verus!
