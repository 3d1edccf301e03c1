use vstd::prelude::*;

use threadpool::ThreadPool;

use crate::constants::THROTTLE_WMARK;
use crate::haslen::HasLen;
use crate::pool::{active_jobs, resize_pool};

verus! {

/// Which way the pool should be resized.
#[derive(Clone, Copy, Debug, PartialEq, Eq)]
pub enum Scale {
    UP,
    DOWN,
}

/// The size that Additive Increase, Multiplicative Decrease picks:
/// one more thread, capped at `upper`, or half the threads, floored at `lower`.
pub open spec fn scaled(upper: int, lower: int, current: int, direction: Scale) -> int {
    match direction {
        Scale::UP => if current + 1 > upper { upper } else { current + 1 },
        Scale::DOWN => if current / 2 < lower { lower } else { current / 2 },
    }
}

/// Additive Increase, Multiplicative Decrease (AIMD)
pub fn scale_with_bounds(upper: usize, lower: usize, current: usize, direction: Scale) -> (next: usize)
    ensures
        next == scaled(upper as int, lower as int, current as int, direction),
{
    match direction {
        Scale::UP => {
            if current >= upper {
                upper
            } else {
                current + 1
            }
        },
        Scale::DOWN => {
            if current / 2 < lower {
                lower
            } else {
                current / 2
            }
        },
    }
}


/// The direction the scheduler takes for a work queue of `queue_len` entries:
/// up when the queue is longer than the watermark, down otherwise.
pub open spec fn direction_for(queue_len: int) -> Scale {
    if queue_len > THROTTLE_WMARK {
        Scale::UP
    } else {
        Scale::DOWN
    }
}

/// What the scheduler asks of the pool after one look at it.
#[derive(Clone, Copy, Debug, PartialEq, Eq)]
pub enum SchedulerAction {
    /// The pool has no running job left: the scheduler is done.
    Stop,
    /// The pool is to run this many threads from now on.
    Resize(usize),
    /// The pool keeps its size.
    Keep,
}

/// One look of the scheduler at the pool: what it saw and what it did.
#[derive(Clone, Copy, Debug, PartialEq, Eq)]
pub struct Tick {
    /// The number of jobs the pool ran.
    pub pool_size: usize,
    /// The number of entries waiting in the work queue (not read, and zero, when the pool ran none).
    pub queue_len: usize,
    /// What the scheduler did about it.
    pub action: SchedulerAction,
}

/// `n` is a number of running jobs that `pool` reported.
pub closed spec fn reported_jobs(pool: &ThreadPool, n: usize) -> bool {
    call_ensures(active_jobs, (pool,), n)
}

/// `after` is the pool that resizing `before` to `n` threads handed back.
pub closed spec fn resized(before: ThreadPool, n: usize, after: ThreadPool) -> bool {
    call_ensures(resize_pool, (before, n), after)
}

/// The abstract state of a scheduler: the pool size it last asked for,
/// and the bounds it scales between.
pub struct SchedulerModel {
    pub current: int,
    pub lower: int,
    pub upper: int,
}

/// The action for a pool running `pool_size` jobs with `queue_len` entries waiting,
/// when the scheduler last asked for `current` threads and scales within `lower..=upper`.
pub open spec fn decision(current: int, lower: int, upper: int, pool_size: int, queue_len: int) -> SchedulerAction {
    if pool_size == 0 {
        SchedulerAction::Stop
    } else {
        let required = scaled(upper, lower, current, direction_for(queue_len));
        if required != current {
            SchedulerAction::Resize(required as usize)
        } else {
            SchedulerAction::Keep
        }
    }
}

/// The pool size the scheduler holds after `action`.
pub open spec fn after(current: int, action: SchedulerAction) -> int {
    match action {
        SchedulerAction::Resize(n) => n as int,
        _ => current,
    }
}

/// Resizes the threadpool between a lower and an upper bound
/// in accordance with the length of the work queue.
pub struct Scheduler {
    current_threads: usize,
    initial_threads: usize,
    max_threads: usize,
}

impl View for Scheduler {
    type V = SchedulerModel;

    closed spec fn view(&self) -> SchedulerModel {
        SchedulerModel {
            current: self.current_threads as int,
            lower: self.initial_threads as int,
            upper: self.max_threads as int,
        }
    }
}

impl Scheduler {
    /// A scheduler is well formed when each size it can ask for is at least one thread.
    pub open spec fn wf(&self) -> bool {
        &&& 1 <= self@.lower <= usize::MAX
        &&& 1 <= self@.upper <= usize::MAX
        &&& 0 <= self@.current <= usize::MAX
    }

    /// A scheduler that last saw `current_threads` threads at work and scales
    /// between `initial_threads` and `max_threads`.
    pub fn new(current_threads: usize, initial_threads: usize, max_threads: usize) -> (s: Scheduler)
        requires
            initial_threads >= 1,
            max_threads >= 1,
        ensures
            s.wf(),
            s@.current == current_threads,
            s@.lower == initial_threads,
            s@.upper == max_threads,
    {
        Scheduler { current_threads, initial_threads, max_threads }
    }

    /// A scheduler for `pool` that scales between `initial_threads` and `max_threads`,
    /// starting from the number of jobs the pool runs now.
    pub fn start(pool: &ThreadPool, initial_threads: usize, max_threads: usize) -> (s: Scheduler)
        requires
            initial_threads >= 1,
            max_threads >= 1,
        ensures
            s.wf(),
            exists|n: usize| reported_jobs(pool, n) && s@.current == n,
            s@.lower == initial_threads,
            s@.upper == max_threads,
    {
        let current_threads = active_jobs(pool);
        assert(reported_jobs(pool, current_threads));
        Scheduler::new(current_threads, initial_threads, max_threads)
    }

    /// Looks once at `pool` and hands it back: stops when it runs no job, leaving it and the
    /// work queue alone; otherwise reads the length of the work queue, scales up when the
    /// queue is longer than the watermark and down otherwise, and resizes the pool to the
    /// scaled size when that differs from the current one.
    pub fn tick<Q: HasLen>(&mut self, pool: ThreadPool, processor: &Q) -> (res: (ThreadPool, Tick))
        requires
            old(self).wf(),
        ensures
            final(self).wf(),
            reported_jobs(&pool, res.1.pool_size),
            res.1.pool_size == 0 ==> res.1.queue_len == 0,
            res.1.pool_size != 0 ==> call_ensures(Q::len, (processor,), res.1.queue_len),
            res.1.action == decision(
                old(self)@.current,
                old(self)@.lower,
                old(self)@.upper,
                res.1.pool_size as int,
                res.1.queue_len as int,
            ),
            res.1.action matches SchedulerAction::Resize(n) ==> {
                &&& resized(pool, n, res.0)
                &&& n >= 1
                &&& n != old(self)@.current
            },
            !(res.1.action is Resize) ==> res.0 == pool,
            final(self)@.current == after(old(self)@.current, res.1.action),
            final(self)@.lower == old(self)@.lower,
            final(self)@.upper == old(self)@.upper,
    {
        let pool_size = active_jobs(&pool);
        assert(reported_jobs(&pool, pool_size));
        if pool_size == 0 {
            return (pool, Tick { pool_size, queue_len: 0, action: SchedulerAction::Stop });
        }
        let queue_len = processor.len();
        let action = self.decide(pool_size, queue_len);
        let ghost before = pool;
        let pool = if let SchedulerAction::Resize(n) = action {
            let resized_pool = resize_pool(pool, n);
            assert(resized(before, n, resized_pool));
            resized_pool
        } else {
            pool
        };
        self.apply(action);
        (pool, Tick { pool_size, queue_len, action })
    }

    /// The pool size the scheduler last asked for.
    pub fn current_threads(&self) -> (n: usize)
        ensures
            n == self@.current,
    {
        self.current_threads
    }

    /// What to do with a pool running `pool_size` jobs while `queue_len` entries wait.
    pub fn decide(&self, pool_size: usize, queue_len: usize) -> (action: SchedulerAction)
        requires
            self.wf(),
        ensures
            action == decision(self@.current, self@.lower, self@.upper, pool_size as int, queue_len as int),
            action matches SchedulerAction::Resize(n) ==> n >= 1,
    {
        if pool_size == 0 {
            return SchedulerAction::Stop;
        }
        let direction = if queue_len > THROTTLE_WMARK {
            Scale::UP
        } else {
            Scale::DOWN
        };
        let required = scale_with_bounds(self.max_threads, self.initial_threads, self.current_threads, direction);
        if required != self.current_threads {
            SchedulerAction::Resize(required)
        } else {
            SchedulerAction::Keep
        }
    }

    /// Records the size that `action` asked of the pool.
    pub fn apply(&mut self, action: SchedulerAction)
        requires
            old(self).wf(),
        ensures
            final(self).wf(),
            final(self)@.current == after(old(self)@.current, action),
            final(self)@.lower == old(self)@.lower,
            final(self)@.upper == old(self)@.upper,
    {
        if let SchedulerAction::Resize(n) = action {
            self.current_threads = n;
        }
    }
}

/// The size of the pool after `steps` scalings in one direction from `current`.
pub open spec fn scaled_times(upper: int, lower: int, current: int, direction: Scale, steps: nat) -> int
    decreases steps,
{
    if steps == 0 {
        current
    } else {
        scaled(upper, lower, scaled_times(upper, lower, current, direction, (steps - 1) as nat), direction)
    }
}

/// A pool size within the bounds stays within them after one scaling, either way.
pub proof fn lemma_scaled_within_bounds(upper: int, lower: int, current: int, direction: Scale)
    requires
        0 <= lower <= current <= upper,
    ensures
        lower <= scaled(upper, lower, current, direction) <= upper,
{
}

/// Scaling up adds at most one thread; scaling down at least halves the pool,
/// unless the lower bound stops it first.
pub proof fn lemma_scaling_is_aimd(upper: int, lower: int, current: int)
    requires
        0 <= lower <= current <= upper,
    ensures
        current <= scaled(upper, lower, current, Scale::UP) <= current + 1,
        scaled(upper, lower, current, Scale::DOWN) <= current,
        scaled(upper, lower, current, Scale::DOWN) == lower
            || 2 * scaled(upper, lower, current, Scale::DOWN) <= current,
{
}

/// The bounds are where scaling rests: the upper one under load, the lower one without.
pub proof fn lemma_bounds_are_fixpoints(upper: int, lower: int)
    requires
        0 <= lower <= upper,
    ensures
        scaled(upper, lower, upper, Scale::UP) == upper,
        scaled(upper, lower, lower, Scale::DOWN) == lower,
{
}

/// Under sustained load the pool grows one thread per look until it reaches the upper bound.
pub proof fn lemma_sustained_load_reaches_upper(upper: int, lower: int, current: int, steps: nat)
    requires
        0 <= lower <= current <= upper,
    ensures
        scaled_times(upper, lower, current, Scale::UP, steps) == if current + steps >= upper {
            upper
        } else {
            current + steps
        },
    decreases steps,
{
    if steps > 0 {
        lemma_sustained_load_reaches_upper(upper, lower, current, (steps - 1) as nat);
    }
}

/// Without load the pool shrinks at every look until it reaches the lower bound,
/// which it does within `current - lower` looks.
pub proof fn lemma_idle_pool_reaches_lower(upper: int, lower: int, current: int, steps: nat)
    requires
        0 <= lower <= current <= upper,
    ensures
        lower <= scaled_times(upper, lower, current, Scale::DOWN, steps) <= current,
        scaled_times(upper, lower, current, Scale::DOWN, steps) == lower
            || scaled_times(upper, lower, current, Scale::DOWN, steps) <= current - steps,
    decreases steps,
{
    if steps > 0 {
        lemma_idle_pool_reaches_lower(upper, lower, current, (steps - 1) as nat);
    }
}

/// The scheduler stops exactly when the pool has no running job, and otherwise
/// resizes exactly when the scaled size differs from the one it last asked for.
pub proof fn lemma_decision_cases(current: int, lower: int, upper: int, pool_size: int, queue_len: int)
    requires
        0 <= lower,
        0 <= current,
        lower <= upper <= usize::MAX,
        current <= usize::MAX,
    ensures
        (decision(current, lower, upper, pool_size, queue_len) == SchedulerAction::Stop) <==> pool_size == 0,
        pool_size != 0 ==> after(current, decision(current, lower, upper, pool_size, queue_len))
            == scaled(upper, lower, current, direction_for(queue_len)),
{
}

/// A scheduler whose size lies within its bounds keeps it there, and asks the pool
/// for no size outside them.
pub proof fn lemma_decision_keeps_bounds(current: int, lower: int, upper: int, pool_size: int, queue_len: int)
    requires
        0 <= lower <= current <= upper <= usize::MAX,
    ensures
        lower <= after(current, decision(current, lower, upper, pool_size, queue_len)) <= upper,
        decision(current, lower, upper, pool_size, queue_len) matches SchedulerAction::Resize(n)
            ==> lower <= n <= upper,
{
    lemma_scaled_within_bounds(upper, lower, current, direction_for(queue_len));
}

/// The pool grows only when the work queue is longer than the watermark, shrinks only when
/// it is not, and is never resized to the size it already has.
pub proof fn lemma_resize_follows_watermark(current: int, lower: int, upper: int, pool_size: int, queue_len: int)
    requires
        0 <= lower <= current <= upper <= usize::MAX,
    ensures
        decision(current, lower, upper, pool_size, queue_len) matches SchedulerAction::Resize(n) ==> {
            &&& n != current
            &&& n > current ==> queue_len > THROTTLE_WMARK
            &&& n < current ==> queue_len <= THROTTLE_WMARK
        },
{
}

/// Scaling, in numbers: up is one thread more, but not past the upper bound; down is half
/// the threads, rounded down, but not below the lower bound. From the upper bound under no
/// load, for instance, the pool halves; it does not drop straight to the lower bound.
pub proof fn lemma_scaling_in_numbers(upper: int, lower: int, current: int)
    requires
        0 <= lower <= current <= upper,
    ensures
        scaled(upper, lower, current, Scale::UP) == if current < upper { current + 1 } else { upper },
        scaled(upper, lower, current, Scale::DOWN) == if 2 * lower <= current { current / 2 } else { lower },
        2 * lower <= current ==> 2 * scaled(upper, lower, current, Scale::DOWN) <= current
            < 2 * scaled(upper, lower, current, Scale::DOWN) + 2,
{
}

/// What a look at a busy pool asks of it, in numbers: past the watermark one thread more
/// (capped at the upper bound), otherwise half the threads (floored at the lower bound); a
/// resize exactly when that differs from the current size.
pub proof fn lemma_decision_in_numbers(current: int, lower: int, upper: int, pool_size: int, queue_len: int)
    requires
        0 <= lower <= current <= upper <= usize::MAX,
        pool_size != 0,
    ensures
        ({
            let required = if queue_len > THROTTLE_WMARK {
                if current < upper { current + 1 } else { upper }
            } else {
                if 2 * lower <= current { current / 2 } else { lower }
            };
            decision(current, lower, upper, pool_size, queue_len) == if required != current {
                SchedulerAction::Resize(required as usize)
            } else {
                SchedulerAction::Keep
            }
        }),
{
    lemma_scaling_in_numbers(upper, lower, current);
}

} // verus!
