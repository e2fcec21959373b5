//! Shader hot-reload: the cadence that schedules rebuild attempts and the
//! all-or-nothing replacement of the active program.
//!
//! Once per fixed interval of frames the scheduler marks a reload as due.
//! The presentation layer then reads and compiles the shader sources and
//! reports the outcome; on success the active program is replaced wholesale,
//! on failure it is kept untouched and the next attempt waits for the next
//! boundary — no immediate retry, no backoff. Only the very first build has
//! no fallback: a failure at startup is fatal.

use vstd::prelude::*;

verus! {

/// Why a pipeline could not be (re)built.
pub enum PipelineError {
    /// A shader source file was missing or unreadable.
    SourceRead(String),
    /// The graphics API rejected the shader program.
    Compile(String),
    /// The uniform buffer could not be allocated (startup only).
    BufferBuild(String),
}

impl PipelineError {
    /// The operator-visible description carried by the error.
    pub fn message(&self) -> (r: &String)
        ensures
            r@ == (match self {
                PipelineError::SourceRead(m) => m@,
                PipelineError::Compile(m) => m@,
                PipelineError::BufferBuild(m) => m@,
            }),
    {
        match self {
            PipelineError::SourceRead(m) => m,
            PipelineError::Compile(m) => m,
            PipelineError::BufferBuild(m) => m,
        }
    }
}

/// The core's stand-in for a compiled GPU pipeline: an identity token.
/// The graphics layer owns the real pipeline object and hands the core a
/// fresh identity for each successful build, so "which program is live"
/// is decidable here while compilation itself stays external.
#[derive(Clone, Copy, PartialEq, Eq, Structural, Debug)]
pub struct ShaderProgram {
    /// Distinguishes one successful build from another.
    pub id: u64,
}

/// The program that is live after a reload attempt with the given outcome:
/// the new program on success, the previous one — untouched — on failure.
pub open spec fn committed(
    cur: ShaderProgram,
    outcome: Result<ShaderProgram, PipelineError>,
) -> ShaderProgram {
    match outcome {
        Ok(p) => p,
        Err(_) => cur,
    }
}

/// Holds the single live shader program. Replacement is all-or-nothing:
/// a failed build can never partially overwrite the active program.
pub struct ShaderSlot {
    /// The one live program.
    pub current: ShaderProgram,
}

impl ShaderSlot {
    /// The startup build. There is no prior program to fall back to, so a
    /// failure is passed through as fatal: no slot exists on `Err`, and the
    /// error is exactly the build error.
    pub fn initial(outcome: Result<ShaderProgram, PipelineError>) -> (r: Result<
        ShaderSlot,
        PipelineError,
    >)
        ensures
            r is Ok <==> outcome is Ok,
            outcome is Ok ==> r->Ok_0.current == outcome->Ok_0,
            outcome is Err ==> r->Err_0 == outcome->Err_0,
    {
        match outcome {
            Ok(p) => Ok(ShaderSlot { current: p }),
            Err(e) => Err(e),
        }
    }

    /// Commit the outcome of a scheduled reload attempt: replace the live
    /// program on success, keep it bit-for-bit on failure. Reports whether
    /// a replacement happened.
    pub fn commit_reload(&mut self, outcome: Result<ShaderProgram, PipelineError>) -> (replaced:
        bool)
        ensures
            final(self).current == committed(old(self).current, outcome),
            replaced == (outcome is Ok),
            outcome is Err ==> final(self).current == old(self).current,
    {
        match outcome {
            Ok(p) => {
                self.current = p;
                true
            },
            Err(_) => false,
        }
    }
}

/// Reload failure resilience: after a failed attempt the live program is
/// unchanged, and a subsequent successful attempt does replace it.
pub proof fn lemma_reload_failure_resilience(
    cur: ShaderProgram,
    e: PipelineError,
    p: ShaderProgram,
)
    ensures
        committed(cur, Result::<ShaderProgram, PipelineError>::Err(e)) == cur,
        committed(
            committed(cur, Result::<ShaderProgram, PipelineError>::Err(e)),
            Result::<ShaderProgram, PipelineError>::Ok(p),
        ) == p,
{
}

/// Decides, once per fixed interval of frames, that a shader reload attempt
/// is due. A request raised at a boundary stays pending until taken.
pub struct ReloadScheduler {
    period: u64,
    pending: bool,
}

/// Whether the scheduler with the given period fires at the given frame:
/// once per `period` frames, at the multiples of `period` (frame zero
/// included).
pub open spec fn fires(period: u64, frame: u64) -> bool {
    frame % period == 0
}

impl ReloadScheduler {
    /// The fixed interval, in frames, between scheduled reload attempts.
    pub closed spec fn period(self) -> u64 {
        self.period
    }

    /// Whether a reload request is currently pending.
    pub closed spec fn pending(self) -> bool {
        self.pending
    }

    /// A scheduler is meaningful only with a nonzero period.
    pub open spec fn wf(self) -> bool {
        self.period() > 0
    }

    /// A scheduler firing every `period` frames, with nothing pending yet.
    pub fn new(period: u64) -> (r: ReloadScheduler)
        requires
            period > 0,
        ensures
            r.wf(),
            r.period() == period,
            !r.pending(),
    {
        ReloadScheduler { period, pending: false }
    }

    /// Observe that frame `frame` is being processed: raise the pending
    /// request exactly at the period boundaries, keep it if already raised.
    pub fn observe_frame(&mut self, frame: u64)
        requires
            old(self).wf(),
        ensures
            final(self).wf(),
            final(self).period() == old(self).period(),
            final(self).pending() == (old(self).pending() || fires(old(self).period(), frame)),
    {
        if frame % self.period == 0 {
            self.pending = true;
        }
    }

    /// Take the pending request, clearing it: the caller attempts at most
    /// one reload per raised request, and a new one waits for the next
    /// boundary.
    pub fn take_request(&mut self) -> (due: bool)
        ensures
            final(self).wf() == old(self).wf(),
            final(self).period() == old(self).period(),
            due == old(self).pending(),
            !final(self).pending(),
    {
        let due = self.pending;
        self.pending = false;
        due
    }
}

/// Number of frames in `[0, n)` at which a scheduler with the given period
/// fires. With the pending request taken every frame, this is the number of
/// reload attempts that processing those frames schedules.
pub open spec fn fire_count(period: u64, n: u64) -> nat
    decreases n,
{
    if n == 0 {
        0
    } else {
        fire_count(period, (n - 1) as u64) + if fires(period, (n - 1) as u64) {
            1nat
        } else {
            0nat
        }
    }
}

/// Within one period after a boundary frame `m`, only `m` itself fires:
/// after any `j` of that period's frames the attempt count has grown by
/// exactly one.
proof fn lemma_fire_count_within_period(period: u64, m: u64, j: u64)
    requires
        period > 0,
        m % period == 0,
        1 <= j <= period,
        m + period <= u64::MAX,
    ensures
        fire_count(period, (m + j) as u64) == fire_count(period, m) + 1,
    decreases j,
{
    if j == 1 {
        assert(fires(period, m));
    } else {
        lemma_fire_count_within_period(period, m, (j - 1) as u64);
        let f = (m + j - 1) as u64;
        assert(f as int % period as int == (j - 1) as int % period as int) by {
            vstd::arithmetic::div_mod::lemma_fundamental_div_mod(m as int, period as int);
            vstd::arithmetic::div_mod::lemma_mod_multiples_vanish(
                m as int / period as int,
                (j - 1) as int,
                period as int,
            );
        };
        assert((j - 1) as int % period as int == (j - 1) as int) by {
            vstd::arithmetic::div_mod::lemma_small_mod((j - 1) as nat, period as nat);
        };
        assert(!fires(period, f));
    }
}

/// Reload cadence: across any whole number `k` of periods from startup,
/// exactly `k` reload attempts are scheduled — one per period boundary,
/// never more, never fewer.
pub proof fn lemma_reload_cadence(period: u64, k: u64)
    requires
        period > 0,
        k * period <= u64::MAX,
    ensures
        fire_count(period, (k * period) as u64) == k,
    decreases k,
{
    if k > 0 {
        assert((k - 1) as int * period as int == k as int * period as int - period as int)
            by (nonlinear_arith);
        lemma_reload_cadence(period, (k - 1) as u64);
        let m = ((k - 1) * period) as u64;
        assert(m as int % period as int == 0) by {
            vstd::arithmetic::div_mod::lemma_mod_multiples_basic((k - 1) as int, period as int);
        };
        lemma_fire_count_within_period(period, m, period);
        assert(m as int + period as int == k as int * period as int);
        assert((m + period) as u64 == (k * period) as u64);
    } else {
        assert(k as int * period as int == 0) by (nonlinear_arith)
            requires
                k == 0,
        ;
        assert((k * period) as u64 == 0u64);
        assert(fire_count(period, 0u64) == 0);
    }
}

} // verus!
