use vstd::prelude::*;
use std::time::{Duration, Instant};

verus! {

/// A point in time read from the monotonic clock.
#[verifier::external_type_specification]
#[verifier::external_body]
pub struct ExInstant(Instant);

/// Relies on `Instant::now`: reads the monotonic clock. Nothing is known of
/// the value it returns.
pub assume_specification[ Instant::now ]() -> Instant;

/// Relies on `Instant::saturating_duration_since`: the time from `earlier`
/// to `self`, or zero if `earlier` is later.
pub assume_specification[ Instant::saturating_duration_since ](i: &Instant, earlier: Instant) -> Duration;

/// Relies on `Duration::as_nanos`: the whole duration in nanoseconds.
pub assume_specification[ Duration::as_nanos ](d: &Duration) -> u128;

/// Nanoseconds in a second.
pub const NANOS_PER_SEC: u64 = 1_000_000_000;

/// How many frame durations a time context keeps.
pub const TIME_LOG_FRAMES: usize = 200;

/// The frame duration assumed before any frame has been timed: 16 ms.
pub const INITIAL_FRAME_NANOS: u64 = 16_000_000;

/// A ring buffer of the last samples logged, each a duration in nanoseconds.
pub struct LogBuffer {
    head: usize,
    size: usize,
    samples: usize,
    contents: Vec<u64>,
}

/// Sum of a sequence of durations.
pub open spec fn seq_sum(s: Seq<u64>) -> nat
    decreases s.len(),
{
    if s.len() == 0 {
        0
    } else {
        seq_sum(s.drop_last()) + s.last() as nat
    }
}

impl LogBuffer {
    /// The slots, in storage order.
    pub closed spec fn slots(&self) -> Seq<u64> {
        self.contents@
    }

    /// Slot of the latest sample.
    pub closed spec fn head_index(&self) -> nat {
        self.head as nat
    }

    /// Samples in the buffer, counting the initial one, up to one more than
    /// the capacity (which means full).
    pub closed spec fn sample_count(&self) -> nat {
        self.samples as nat
    }

    pub closed spec fn wf(&self) -> bool {
        &&& 1 <= self.contents@.len() < usize::MAX
        &&& self.size == self.contents@.len()
        &&& self.head < self.contents@.len()
        &&& 1 <= self.samples <= self.contents@.len() + 1
    }

    /// The samples that count: all slots once the buffer is full, else the
    /// first `sample_count` of them.
    pub open spec fn logged(&self) -> Seq<u64> {
        if self.sample_count() > self.slots().len() {
            self.slots()
        } else {
            self.slots().take(self.sample_count() as int)
        }
    }

    /// A buffer of `size` slots, each holding `init_val`, which counts as one sample.
    pub fn new(size: usize, init_val: u64) -> (r: LogBuffer)
        requires
            1 <= size < usize::MAX,
        ensures
            r.wf(),
            r.slots() == Seq::new(size as nat, |i: int| init_val),
            r.head_index() == 0,
            r.sample_count() == 1,
    {
        let contents = vec![init_val; size];
        assert(contents@ =~= Seq::new(size as nat, |i: int| init_val));
        LogBuffer { head: 0, size, samples: 1, contents }
    }

    /// Logs a sample in the slot after the latest one, overwriting the oldest
    /// once the buffer is full.
    pub fn push(&mut self, item: u64)
        requires
            old(self).wf(),
        ensures
            final(self).wf(),
            final(self).slots().len() == old(self).slots().len(),
            final(self).head_index() == (old(self).head_index() + 1) % old(self).slots().len(),
            final(self).slots() == old(self).slots().update(final(self).head_index() as int, item),
            final(self).sample_count() == if old(self).sample_count() > old(self).slots().len() {
                old(self).sample_count()
            } else {
                old(self).sample_count() + 1
            },
    {
        self.head = (self.head + 1) % self.contents.len();
        self.contents.set(self.head, item);
        if self.samples <= self.size {
            self.samples = self.samples + 1;
        }
    }

    /// The samples that count, see `logged`.
    pub fn contents(&self) -> (r: Vec<u64>)
        requires
            self.wf(),
        ensures
            r@ == self.logged(),
    {
        if self.samples > self.size {
            self.contents.clone()
        } else {
            let mut r: Vec<u64> = Vec::new();
            let mut i: usize = 0;
            while i < self.samples
                invariant
                    self.wf(),
                    self.samples <= self.size,
                    i <= self.samples,
                    r@ == self.contents@.take(i as int),
                decreases self.samples - i,
            {
                r.push(self.contents[i]);
                i = i + 1;
                assert(r@ =~= self.contents@.take(i as int));
            }
            r
        }
    }

    /// The latest sample.
    pub fn latest(&self) -> (r: u64)
        requires
            self.wf(),
        ensures
            r == self.slots()[self.head_index() as int],
    {
        self.contents[self.head]
    }
}

/// Frame timing of the hosting loop: when it started, how long recent frames
/// took, and how much time is owed to fixed-rate updates.
pub struct TimeContext {
    init_instant: Instant,
    last_instant: Instant,
    frame_durations: LogBuffer,
    residual_update_dt: u64,
    frame_count: usize,
}

/// The saturating form of `a + b` for durations in nanoseconds.
pub open spec fn add_nanos(a: u64, b: u64) -> u64 {
    if a + b > u64::MAX {
        u64::MAX
    } else {
        (a + b) as u64
    }
}

/// One update's share of a second at `fps` updates per second, in
/// nanoseconds; at zero updates per second no update is ever due.
pub open spec fn update_period(fps: u32) -> u64 {
    if fps == 0 {
        u64::MAX
    } else {
        (NANOS_PER_SEC / (fps as u64)) as u64
    }
}

/// Nanoseconds in a duration, or `u64::MAX` if there are more.
fn duration_nanos(d: &Duration) -> u64 {
    let n = d.as_nanos();
    if n > u64::MAX as u128 {
        u64::MAX
    } else {
        n as u64
    }
}

impl TimeContext {
    pub closed spec fn wf(&self) -> bool {
        &&& self.frame_durations.wf()
        &&& self.frame_durations.slots().len() == TIME_LOG_FRAMES
    }

    /// When the context was created, and when the last frame ended.
    pub closed spec fn clock_marks(&self) -> (Instant, Instant) {
        (self.init_instant, self.last_instant)
    }

    /// Frame durations logged, in nanoseconds.
    pub closed spec fn durations(&self) -> LogBuffer {
        self.frame_durations
    }

    /// Time owed to fixed-rate updates, in nanoseconds.
    pub closed spec fn residual(&self) -> u64 {
        self.residual_update_dt
    }

    /// Frames ticked so far, up to `usize::MAX`.
    pub closed spec fn frame_count(&self) -> nat {
        self.frame_count as nat
    }

    /// A context as `new` leaves it: one sample of 16 ms logged, nothing
    /// owed, no frames ticked.
    pub open spec fn is_fresh(&self) -> bool {
        &&& self.wf()
        &&& self.durations().slots() == Seq::new(TIME_LOG_FRAMES as nat, |i: int| INITIAL_FRAME_NANOS)
        &&& self.durations().head_index() == 0
        &&& self.durations().sample_count() == 1
        &&& self.residual() == 0
        &&& self.frame_count() == 0
    }

    /// Starts the clock. The frame log holds one sample of 16 ms; nothing is owed.
    pub fn new() -> (r: TimeContext)
        ensures
            r.is_fresh(),
    {
        TimeContext {
            init_instant: Instant::now(),
            last_instant: Instant::now(),
            frame_durations: LogBuffer::new(TIME_LOG_FRAMES, INITIAL_FRAME_NANOS),
            residual_update_dt: 0,
            frame_count: 0,
        }
    }

    /// Marks the end of a frame: the time since the last one is logged and
    /// owed to updates.
    pub fn tick(&mut self)
        requires
            old(self).wf(),
        ensures
            final(self).wf(),
            final(self).ticked_from(*old(self)),
    {
        let now = Instant::now();
        let since = now.saturating_duration_since(self.last_instant);
        let elapsed = duration_nanos(&since);
        self.last_instant = now;
        self.record_frame(elapsed);
        assert(self.after_frame(*old(self), elapsed));
    }

    /// `self` is `before` after a frame, however long it took.
    pub open spec fn ticked_from(self, before: TimeContext) -> bool {
        exists|elapsed: u64| #[trigger] self.after_frame(before, elapsed)
    }

    /// `self` is `before` after a frame that took `elapsed` nanoseconds.
    pub open spec fn after_frame(self, before: TimeContext, elapsed: u64) -> bool {
        &&& self.durations().slots().len() == before.durations().slots().len()
        &&& self.durations().head_index() == (before.durations().head_index() + 1)
            % before.durations().slots().len()
        &&& self.durations().slots() == before.durations().slots().update(
            self.durations().head_index() as int,
            elapsed,
        )
        &&& self.durations().sample_count() == if before.durations().sample_count()
            > before.durations().slots().len() {
            before.durations().sample_count()
        } else {
            before.durations().sample_count() + 1
        }
        &&& self.residual() == add_nanos(before.residual(), elapsed)
        &&& self.frame_count() == if before.frame_count() < usize::MAX {
            before.frame_count() + 1
        } else {
            before.frame_count()
        }
    }

    /// Logs a frame that took `elapsed` nanoseconds.
    pub fn record_frame(&mut self, elapsed: u64)
        requires
            old(self).wf(),
        ensures
            final(self).wf(),
            final(self).after_frame(*old(self), elapsed),
            final(self).clock_marks() == old(self).clock_marks(),
    {
        self.frame_durations.push(elapsed);
        if self.frame_count < usize::MAX {
            self.frame_count = self.frame_count + 1;
        }
        self.residual_update_dt = self.residual_update_dt.saturating_add(elapsed);
    }
}

/// Duration of the latest frame, in nanoseconds.
pub fn delta(tc: &TimeContext) -> (r: u64)
    requires
        tc.wf(),
    ensures
        r == tc.durations().slots()[tc.durations().head_index() as int],
{
    tc.frame_durations.latest()
}

/// Mean duration of the logged frames, in nanoseconds, rounded down.
pub fn average_delta(tc: &TimeContext) -> (r: u64)
    requires
        tc.wf(),
    ensures
        r == seq_sum(tc.durations().logged()) / tc.durations().logged().len(),
{
    let samples = tc.frame_durations.contents();
    let mut sum: u128 = 0;
    let mut i: usize = 0;
    while i < samples.len()
        invariant
            i <= samples.len(),
            samples.len() <= TIME_LOG_FRAMES,
            sum == seq_sum(samples@.take(i as int)),
            sum <= i * (u64::MAX as nat),
        decreases samples.len() - i,
    {
        proof {
            assert(samples@.take(i + 1).drop_last() =~= samples@.take(i as int));
        }
        sum = sum + samples[i] as u128;
        i = i + 1;
    }
    assert(samples@.take(samples.len() as int) =~= samples@);
    let n = samples.len() as u128;
    proof {
        assert(n >= 1);
        assert(sum / n <= u64::MAX) by (nonlinear_arith)
            requires
                n >= 1,
                sum <= n * (u64::MAX as nat),
        {
            vstd::arithmetic::div_mod::lemma_div_is_ordered(sum as int, n * (u64::MAX as int), n as int);
            vstd::arithmetic::div_mod::lemma_div_by_multiple(u64::MAX as int, n as int);
        }
    }
    (sum / n) as u64
}

/// One update's share of a second at `fps` updates per second, in nanoseconds.
pub fn fps_as_duration(fps: u32) -> (r: u64)
    ensures
        r == update_period(fps),
{
    if fps == 0 {
        u64::MAX
    } else {
        NANOS_PER_SEC / (fps as u64)
    }
}

/// Nanoseconds since the context was created.
pub fn time_since_start(tc: &TimeContext) -> u64 {
    let since = Instant::now().saturating_duration_since(tc.init_instant);
    duration_nanos(&since)
}

/// Whether an update at `target_fps` is due; if so, its time is taken off
/// what is owed.
pub fn check_update_time(timedata: &mut TimeContext, target_fps: u32) -> (r: bool)
    ensures
        r == (old(timedata).residual() > update_period(target_fps)),
        final(timedata).residual() == if r {
            (old(timedata).residual() - update_period(target_fps)) as u64
        } else {
            old(timedata).residual()
        },
        final(timedata).durations() == old(timedata).durations(),
        final(timedata).frame_count() == old(timedata).frame_count(),
        final(timedata).clock_marks() == old(timedata).clock_marks(),
        !r ==> *final(timedata) == *old(timedata),
        old(timedata).wf() ==> final(timedata).wf(),
{
    let target_dt = fps_as_duration(target_fps);
    if timedata.residual_update_dt > target_dt {
        timedata.residual_update_dt = timedata.residual_update_dt - target_dt;
        true
    } else {
        false
    }
}

/// Time owed to updates, in nanoseconds.
pub fn remaining_update_time(ctx: &mut TimeContext) -> (r: u64)
    ensures
        r == old(ctx).residual(),
        *final(ctx) == *old(ctx),
{
    ctx.residual_update_dt
}

/// Frames ticked so far.
pub fn ticks(ctx: &TimeContext) -> (r: usize)
    ensures
        r == ctx.frame_count(),
{
    ctx.frame_count
}

/// Time contexts by index, created on first use.
pub struct TimeContextGroup {
    tc_vec: Vec<TimeContext>,
}

impl TimeContextGroup {
    pub closed spec fn contexts(&self) -> Seq<TimeContext> {
        self.tc_vec@
    }

    pub closed spec fn wf(&self) -> bool {
        forall|i: int| 0 <= i < self.tc_vec@.len() ==> (#[trigger] self.tc_vec@[i]).wf()
    }

    pub fn new() -> (r: TimeContextGroup)
        ensures
            r.wf(),
            r.contexts().len() == 0,
    {
        TimeContextGroup { tc_vec: Vec::new() }
    }

    /// Ticks every context.
    pub fn tick_all(&mut self)
        requires
            old(self).wf(),
        ensures
            final(self).wf(),
            final(self).contexts().len() == old(self).contexts().len(),
            forall|i: int|
                0 <= i < old(self).contexts().len() ==> #[trigger] final(self).contexts()[i].ticked_from(
                    old(self).contexts()[i],
                ),
    {
        let mut index: usize = 0;
        while index < self.tc_vec.len()
            invariant
                self.wf(),
                index <= self.tc_vec@.len(),
                self.tc_vec@.len() == old(self).tc_vec@.len(),
                forall|i: int| 0 <= i < index ==> #[trigger] self.tc_vec@[i].ticked_from(old(self).tc_vec@[i]),
                forall|i: int| index <= i < self.tc_vec@.len() ==> self.tc_vec@[i] == old(self).tc_vec@[i],
            decreases self.tc_vec@.len() - index,
        {
            self.tc_vec[index].tick();
            index = index + 1;
        }
    }

    /// The context at `index`, creating it and any before it that are missing.
    pub fn get(&mut self, index: usize) -> (r: &mut TimeContext)
        requires
            old(self).wf(),
            index < usize::MAX,
        ensures
            final(self).contexts().len() == if index < old(self).contexts().len() {
                old(self).contexts().len()
            } else {
                (index + 1) as nat
            },
            index < old(self).contexts().len() ==> *r == old(self).contexts()[index as int],
            index >= old(self).contexts().len() ==> r.is_fresh(),
            forall|j: int|
                old(self).contexts().len() <= j < final(self).contexts().len() && j != index
                    ==> (#[trigger] final(self).contexts()[j]).is_fresh(),
            r.wf(),
            final(self).contexts()[index as int] == *final(r),
            forall|j: int|
                0 <= j < old(self).contexts().len() && j != index ==> #[trigger] final(self).contexts()[j]
                    == old(self).contexts()[j],
    {
        while self.tc_vec.len() <= index
            invariant
                self.wf(),
                index < usize::MAX,
                old(self).tc_vec@.len() <= index ==> self.tc_vec@.len() <= index + 1,
                self.tc_vec@.len() >= old(self).tc_vec@.len(),
                old(self).tc_vec@.len() > index ==> self.tc_vec@ == old(self).tc_vec@,
                forall|j: int| 0 <= j < old(self).tc_vec@.len() ==> #[trigger] self.tc_vec@[j] == old(self).tc_vec@[j],
                forall|j: int| old(self).tc_vec@.len() <= j < self.tc_vec@.len() ==> (#[trigger] self.tc_vec@[j]).is_fresh(),
            decreases index + 1 - self.tc_vec@.len(),
        {
            self.tc_vec.push(TimeContext::new());
        }
        &mut self.tc_vec[index]
    }
}

} // verus!
