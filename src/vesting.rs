//! The claim engine: how much of a grant is vested at a given time, how much
//! of that may be claimed, and how a claim settles.
use vstd::prelude::*;
use vstd::arithmetic::div_mod::{lemma_div_is_ordered, lemma_div_multiples_vanish};
use vstd::arithmetic::mul::lemma_mul_inequality;

use crate::errors::{ErrorCode, TransferOutcome};
use crate::state::EmployeeAccount;

verus! {

/// Time elapsed since the start of vesting, clamped to `[0, end - start]`.
pub open spec fn elapsed_spec(g: EmployeeAccount, now: int) -> int {
    let duration = g.end_time - g.start_time;
    let since = now - g.start_time;
    if since < 0 {
        0
    } else if since > duration {
        duration
    } else {
        since
    }
}

/// The amount vested at `now`: everything from the end time on, before it
/// the allocation scaled by elapsed time over duration, rounded down.
pub open spec fn vested_spec(g: EmployeeAccount, now: int) -> int {
    if now >= g.end_time {
        g.total_allocated as int
    } else {
        (g.total_allocated * elapsed_spec(g, now)) / (g.end_time - g.start_time)
    }
}

/// What a claim at `now` yields: the amount to pay out, or why it is refused.
pub open spec fn claim_spec(g: EmployeeAccount, now: int) -> Result<u64, ErrorCode> {
    if now < g.cliff_time {
        Err(ErrorCode::CliffNotReached)
    } else if g.end_time <= g.start_time {
        Err(ErrorCode::CalculationOverflow)
    } else if vested_spec(g, now) <= g.total_claimed {
        Err(ErrorCode::NothingToClaim)
    } else {
        Ok((vested_spec(g, now) - g.total_claimed) as u64)
    }
}

/// The grant after a claim at `now` whose transfer went through (unchanged
/// when the claim is refused).
pub open spec fn after_claim(g: EmployeeAccount, now: int) -> EmployeeAccount {
    match claim_spec(g, now) {
        Ok(amount) => EmployeeAccount { total_claimed: (g.total_claimed + amount) as u64, ..g },
        Err(_) => g,
    }
}

/// The amount a claim outcome pays out.
pub open spec fn paid_by(r: Result<u64, ErrorCode>) -> int {
    match r {
        Ok(amount) => amount as int,
        Err(_) => 0,
    }
}

/// The grant after claims at each of `nows` in turn, every transfer succeeding.
pub open spec fn run_claims(g: EmployeeAccount, nows: Seq<i64>) -> EmployeeAccount
    decreases nows.len(),
{
    if nows.len() == 0 {
        g
    } else {
        after_claim(run_claims(g, nows.drop_last()), nows.last() as int)
    }
}

/// The sum of the amounts paid out by claims at each of `nows` in turn.
pub open spec fn total_paid(g: EmployeeAccount, nows: Seq<i64>) -> int
    decreases nows.len(),
{
    if nows.len() == 0 {
        0
    } else {
        total_paid(g, nows.drop_last()) + paid_by(
            claim_spec(run_claims(g, nows.drop_last()), nows.last() as int),
        )
    }
}

/// The vested amount never exceeds the allocation.
pub proof fn lemma_vested_bounds(g: EmployeeAccount, now: int)
    requires
        g.start_time < g.end_time,
    ensures
        0 <= vested_spec(g, now) <= g.total_allocated,
{
    if now < g.end_time {
        let total = g.total_allocated as int;
        let duration = g.end_time - g.start_time;
        let elapsed = elapsed_spec(g, now);
        lemma_mul_inequality(elapsed, duration, total);
        lemma_mul_inequality(0, elapsed, total);
        assert(total * elapsed == elapsed * total) by (nonlinear_arith);
        assert(duration * total == total * duration) by (nonlinear_arith);
        lemma_div_is_ordered(total * elapsed, duration * total, duration);
        lemma_div_is_ordered(0, total * elapsed, duration);
        lemma_div_multiples_vanish(total, duration);
    }
}

/// A claim that is granted pays out a positive amount and keeps the grant's
/// invariant; every claim leaves the terms of the grant as they were.
pub proof fn lemma_claim_step(g: EmployeeAccount, now: int)
    requires
        g.wf(),
    ensures
        after_claim(g, now).wf(),
        g.total_claimed <= after_claim(g, now).total_claimed <= g.total_allocated,
        after_claim(g, now).total_claimed == g.total_claimed + paid_by(claim_spec(g, now)),
        after_claim(g, now) == (EmployeeAccount { total_claimed: after_claim(g, now).total_claimed, ..g }),
        claim_spec(g, now) is Ok ==> after_claim(g, now).total_claimed == vested_spec(g, now),
{
    lemma_vested_bounds(g, now);
}


/// Before the cliff every claim is refused with `CliffNotReached`, and the
/// grant stays as it was.
pub proof fn lemma_no_claim_before_cliff(g: EmployeeAccount, now: i64)
    requires
        now < g.cliff_time,
    ensures
        claim_spec(g, now as int) == Err::<u64, ErrorCode>(ErrorCode::CliffNotReached),
        after_claim(g, now as int) == g,
{
}

/// Over any sequence of claims, the amount claimed never decreases and never
/// exceeds the allocation: the claimed total after each prefix of the claims
/// is at most the one after any longer prefix, and the grant stays well formed.
pub proof fn lemma_claims_monotone(g: EmployeeAccount, nows: Seq<i64>)
    requires
        g.wf(),
    ensures
        run_claims(g, nows).wf(),
        run_claims(g, nows) == (EmployeeAccount {
            total_claimed: run_claims(g, nows).total_claimed,
            ..g
        }),
        forall|i: int, j: int|
            0 <= i <= j <= nows.len() ==> g.total_claimed <= #[trigger] run_claims(
                g,
                nows.take(i),
            ).total_claimed <= #[trigger] run_claims(g, nows.take(j)).total_claimed
                <= g.total_allocated,
    decreases nows.len(),
{
    assert(nows.take(nows.len() as int) =~= nows);
    if nows.len() > 0 {
        let prefix = nows.drop_last();
        lemma_claims_monotone(g, prefix);
        lemma_claim_step(run_claims(g, prefix), nows.last() as int);
        assert forall|i: int| 0 <= i < nows.len() implies #[trigger] nows.take(i) =~= prefix.take(
            i,
        ) by {}
        assert(prefix.take(prefix.len() as int) =~= prefix);
    } else {
        assert(nows.take(0) =~= nows);
    }
}

/// The amount paid out over a sequence of claims is exactly the growth of
/// the claimed total.
pub proof fn lemma_total_paid(g: EmployeeAccount, nows: Seq<i64>)
    requires
        g.wf(),
    ensures
        total_paid(g, nows) == run_claims(g, nows).total_claimed - g.total_claimed,
    decreases nows.len(),
{
    if nows.len() > 0 {
        lemma_total_paid(g, nows.drop_last());
        lemma_claims_monotone(g, nows.drop_last());
        lemma_claim_step(run_claims(g, nows.drop_last()), nows.last() as int);
    }
}

/// Once a claim is made at or after the end time (every transfer succeeding),
/// the claims made over the grant's life add up to exactly its allocation.
pub proof fn lemma_full_payout_after_end(g: EmployeeAccount, nows: Seq<i64>)
    requires
        g.wf(),
        g.total_claimed == 0,
        nows.len() > 0,
        nows.last() >= g.end_time,
    ensures
        run_claims(g, nows).total_claimed == g.total_allocated,
        total_paid(g, nows) == g.total_allocated,
{
    lemma_total_paid(g, nows);
    lemma_claims_monotone(g, nows.drop_last());
    lemma_claim_step(run_claims(g, nows.drop_last()), nows.last() as int);
}

/// A second claim at the same time as a granted one is refused with
/// `NothingToClaim`: a claim is never paid twice.
pub proof fn lemma_claim_idempotent(g: EmployeeAccount, now: i64)
    requires
        g.wf(),
        claim_spec(g, now as int) is Ok,
    ensures
        claim_spec(after_claim(g, now as int), now as int) == Err::<u64, ErrorCode>(
            ErrorCode::NothingToClaim,
        ),
        after_claim(after_claim(g, now as int), now as int) == after_claim(g, now as int),
{
    lemma_claim_step(g, now as int);
}

impl EmployeeAccount {
    /// The amount vested at `now`.
    pub fn vested_amount(&self, now: i64) -> (r: u64)
        requires
            self.start_time < self.end_time,
        ensures
            r == vested_spec(*self, now as int),
            r <= self.total_allocated,
    {
        proof {
            lemma_vested_bounds(*self, now as int);
        }
        if now >= self.end_time {
            return self.total_allocated;
        }
        let duration: i128 = self.end_time as i128 - self.start_time as i128;
        let since: i128 = now as i128 - self.start_time as i128;
        let elapsed: i128 = if since < 0 {
            0
        } else if since > duration {
            duration
        } else {
            since
        };
        let total: u128 = self.total_allocated as u128;
        assert(elapsed == elapsed_spec(*self, now as int));
        assert(total * (elapsed as u128) <= 0xffff_ffff_ffff_ffffu128 * 0xffff_ffff_ffff_ffffu128)
            by (nonlinear_arith)
            requires
                total <= 0xffff_ffff_ffff_ffffu128,
                0 <= elapsed <= 0xffff_ffff_ffff_ffffi128,
        ;
        let scaled: u128 = total * (elapsed as u128);
        let vested: u128 = scaled / (duration as u128);
        vested as u64
    }

    /// What a claim at `now` would pay out, or why it would be refused.
    pub fn claimable_amount(&self, now: i64) -> (r: Result<u64, ErrorCode>)
        ensures
            r == claim_spec(*self, now as int),
    {
        if now < self.cliff_time {
            return Err(ErrorCode::CliffNotReached);
        }
        if self.end_time <= self.start_time {
            return Err(ErrorCode::CalculationOverflow);
        }
        let vested = self.vested_amount(now);
        if vested <= self.total_claimed {
            return Err(ErrorCode::NothingToClaim);
        }
        Ok(vested - self.total_claimed)
    }

    /// Settles a claim at `now` whose transfer of the claimable amount out of
    /// the escrow ended with `outcome`. The claimed total grows by that amount
    /// only when the claim is granted and the transfer completed; otherwise
    /// the grant is left as it was.
    pub fn settle_claim(&mut self, now: i64, outcome: TransferOutcome) -> (r: Result<
        u64,
        ErrorCode,
    >)
        ensures
            claim_spec(*old(self), now as int) is Err ==> r == claim_spec(*old(self), now as int)
                && *final(self) == *old(self),
            claim_spec(*old(self), now as int) is Ok && outcome == TransferOutcome::Completed ==> r
                == claim_spec(*old(self), now as int) && *final(self) == after_claim(
                *old(self),
                now as int,
            ),
            claim_spec(*old(self), now as int) is Ok && outcome != TransferOutcome::Completed ==> r
                == Err::<u64, ErrorCode>(ErrorCode::TransferFailure) && *final(self) == *old(self),
    {
        let amount = match self.claimable_amount(now) {
            Ok(amount) => amount,
            Err(e) => {
                return Err(e);
            },
        };
        match outcome {
            TransferOutcome::Completed => {},
            _ => {
                return Err(ErrorCode::TransferFailure);
            },
        }
        proof {
            lemma_vested_bounds(*self, now as int);
        }
        self.total_claimed = self.total_claimed + amount;
        Ok(amount)
    }
}

} // verus!
