//! Running: when `run` stops.

use vstd::prelude::*;
use crate::cpu::state::{CpuState, BRK};
use crate::error::CpuError;

verus! {

/// A paused processor does not run, and neither does one that is given no
/// instruction to run.
pub proof fn law_run_stops_when_paused(s: CpuState, limit: nat)
    ensures
        s.paused ==> s.run(limit) == (s, Ok::<(), CpuError>(())),
        s.run(0) == (s, Ok::<(), CpuError>(())),
{
}

/// A run ends behind the first BRK that is fetched: BRK is not executed.
pub proof fn law_run_stops_behind_brk(s: CpuState, limit: nat)
    requires
        !s.paused,
        limit > 0,
        s.fetch().1 is Ok,
        s.fetch().1->Ok_0.0 == BRK,
    ensures
        s.run(limit) == (s.fetch().0, Ok::<(), CpuError>(())),
{
}

/// A run ends at the first instruction that fails, with its failure.
pub proof fn law_run_stops_at_a_failure(s: CpuState, limit: nat)
    requires
        !s.paused,
        limit > 0,
        s.step_unless_break().1 is Err,
    ensures
        s.run(limit) == (
            s.step_unless_break().0,
            Err::<(), CpuError>(s.step_unless_break().1->Err_0),
        ),
{
}

/// A run that goes on is a step and then a run of one instruction less.
pub proof fn law_run_goes_on_by_steps(s: CpuState, limit: nat)
    requires
        !s.paused,
        limit > 0,
        s.step_unless_break().1 == Ok::<bool, CpuError>(false),
    ensures
        s.run(limit) == s.step_unless_break().0.run((limit - 1) as nat),
        s.step_unless_break().0 == s.step().0,
{
}

} // verus!
