//! The three operations of the ledger: creating a schedule, creating a grant
//! under it, and claiming from a grant.
use vstd::prelude::*;
use vstd::utf8::encode_utf8;

use crate::authority::{
    derivable, derive_address, derived_at, employee_seeds, seeds_view, with_bump, MAX_SEED_LEN, employee_seeds_spec, is_canonical,
    schedule_seeds, schedule_seeds_spec, treasury_seeds, treasury_seeds_spec, verify_address,
};
use crate::errors::{ErrorCode, TransferOutcome};
use crate::state::{valid_period, Address, EmployeeAccount, VestingAccount, MAX_COMPANY_NAME_LEN};
use crate::vesting::{after_claim, claim_spec};

verus! {

/// Creates the schedule of `company_name`, owned by `user` and paying out
/// tokens of `mint`: returns the schedule's derived address and its record,
/// whose escrow address and both bumps are derived from the company name.
pub fn create_vesting_account(program_id: &Address, user: &Address, mint: &Address, company_name: String) -> (r: Result<(Address, VestingAccount), ErrorCode>)
    ensures
        r is Ok <==> encode_utf8(company_name@).len() <= MAX_COMPANY_NAME_LEN
            && derivable(schedule_seeds_spec(company_name@), program_id@)
            && derivable(treasury_seeds_spec(company_name@), program_id@),
        r is Err ==> r == Err::<(Address, VestingAccount), ErrorCode>(ErrorCode::PreconditionViolation),
        match r {
            Ok((key, account)) => {
                &&& is_canonical(schedule_seeds_spec(company_name@), account.bump, program_id@, key@)
                &&& is_canonical(treasury_seeds_spec(company_name@), account.treasury_bump, program_id@, account.treasury_token_account@)
                &&& account.owner == *user
                &&& account.mint == *mint
                &&& account.company_name@ == company_name@
            },
            Err(_) => true,
        },
{
    if company_name.as_str().len() > MAX_COMPANY_NAME_LEN {
        return Err(ErrorCode::PreconditionViolation);
    }
    let seeds = schedule_seeds(company_name.as_str());
    let (key, bump) = match derive_address(&seeds, program_id) {
        Ok(found) => found,
        Err(e) => {
            return Err(e);
        },
    };
    let seeds = treasury_seeds(company_name.as_str());
    let (treasury, treasury_bump) = match derive_address(&seeds, program_id) {
        Ok(found) => found,
        Err(e) => {
            return Err(e);
        },
    };
    proof {
        let padded = with_bump(schedule_seeds_spec(company_name@), 0);
        assert(padded[0].len() <= MAX_SEED_LEN);
    }
    Ok((key, VestingAccount {
        owner: *user,
        mint: *mint,
        treasury_token_account: treasury,
        company_name,
        treasury_bump,
        bump,
    }))
}

/// Creates the grant of `beneficiary` under the schedule `vesting_account`
/// stored at `vesting_account_key`, on behalf of `signer`: `total_amount`
/// tokens vesting linearly from `start_time` to `end_time`, claimable from
/// `cliff_time` on. Returns the grant's derived address and its record.
/// The escrow's balance is not checked here: a claim that finds the escrow
/// short fails with `TransferFailure` and may be retried once it is refilled.
pub fn initialize_employee_account(
    program_id: &Address,
    signer: &Address,
    vesting_account_key: &Address,
    vesting_account: &VestingAccount,
    beneficiary: &Address,
    total_amount: u64,
    start_time: i64,
    cliff_time: i64,
    end_time: i64,
) -> (r: Result<(Address, EmployeeAccount), ErrorCode>)
    ensures
        !valid_period(start_time as int, cliff_time as int, end_time as int) ==> r is Err,
        signer@ != vesting_account.owner@ ==> r == Err::<(Address, EmployeeAccount), ErrorCode>(
            ErrorCode::AuthorizationMismatch,
        ),
        signer@ == vesting_account.owner@ && !valid_period(start_time as int, cliff_time as int, end_time as int)
            ==> r == Err::<(Address, EmployeeAccount), ErrorCode>(ErrorCode::PreconditionViolation),
        signer@ == vesting_account.owner@ && valid_period(start_time as int, cliff_time as int, end_time as int)
            ==> (r is Ok <==> derivable(employee_seeds_spec(beneficiary@, vesting_account_key@), program_id@)),
        r is Err ==> r == Err::<(Address, EmployeeAccount), ErrorCode>(ErrorCode::AuthorizationMismatch)
            || r == Err::<(Address, EmployeeAccount), ErrorCode>(ErrorCode::PreconditionViolation),
        match r {
            Ok((key, grant)) => {
                &&& is_canonical(employee_seeds_spec(beneficiary@, vesting_account_key@), grant.bump, program_id@, key@)
                &&& grant == (EmployeeAccount {
                    beneficiary: *beneficiary,
                    vesting_account: *vesting_account_key,
                    total_allocated: total_amount,
                    total_claimed: 0,
                    start_time,
                    end_time,
                    cliff_time,
                    bump: grant.bump,
                })
                &&& grant.wf()
            },
            Err(_) => true,
        },
{
    if !signer.same_as(&vesting_account.owner) {
        return Err(ErrorCode::AuthorizationMismatch);
    }
    if !(start_time <= cliff_time && cliff_time <= end_time && start_time < end_time) {
        return Err(ErrorCode::PreconditionViolation);
    }
    let seeds = employee_seeds(beneficiary, vesting_account_key);
    let (key, bump) = match derive_address(&seeds, program_id) {
        Ok(found) => found,
        Err(e) => {
            return Err(e);
        },
    };
    Ok((key, EmployeeAccount {
        beneficiary: *beneficiary,
        vesting_account: *vesting_account_key,
        total_allocated: total_amount,
        total_claimed: 0,
        start_time,
        end_time,
        cliff_time,
        bump,
    }))
}

/// The accounts of a claim: the signing beneficiary, the grant, its schedule,
/// the schedule's escrow and the token paid out.
#[derive(Debug, Clone)]
pub struct ClaimTokens {
    pub beneficiary: Address,
    pub employee_account_key: Address,
    pub employee_account: EmployeeAccount,
    pub vesting_account_key: Address,
    pub vesting_account: VestingAccount,
    pub treasury_token_account: Address,
    pub mint: Address,
}

impl ClaimTokens {
    /// The accounts belong together: the grant is the signer's and under this
    /// schedule, the schedule holds this escrow and token, and each of the
    /// three addresses is the one derived from its seeds and stored bump.
    pub open spec fn accounts_match(&self, program_id: Seq<u8>, company_name: Seq<char>) -> bool {
        &&& self.employee_account.beneficiary@ == self.beneficiary@
        &&& self.employee_account.vesting_account@ == self.vesting_account_key@
        &&& self.vesting_account.treasury_token_account@ == self.treasury_token_account@
        &&& self.vesting_account.mint@ == self.mint@
        &&& derived_at(schedule_seeds_spec(company_name), self.vesting_account.bump, program_id, self.vesting_account_key@)
        &&& derived_at(
            treasury_seeds_spec(self.vesting_account.company_name@),
            self.vesting_account.treasury_bump,
            program_id,
            self.treasury_token_account@,
        )
        &&& derived_at(
            employee_seeds_spec(self.beneficiary@, self.vesting_account_key@),
            self.employee_account.bump,
            program_id,
            self.employee_account_key@,
        )
    }

    /// Checks that the accounts of the claim belong together.
    pub fn validate_accounts(&self, program_id: &Address, company_name: &str) -> (r: Result<(), ErrorCode>)
        ensures
            r is Ok <==> self.accounts_match(program_id@, company_name@),
            r is Err ==> r == Err::<(), ErrorCode>(ErrorCode::AuthorizationMismatch),
    {
        if !self.employee_account.beneficiary.same_as(&self.beneficiary)
            || !self.employee_account.vesting_account.same_as(&self.vesting_account_key)
            || !self.vesting_account.treasury_token_account.same_as(&self.treasury_token_account)
            || !self.vesting_account.mint.same_as(&self.mint) {
            return Err(ErrorCode::AuthorizationMismatch);
        }
        let seeds = schedule_seeds(company_name);
        match verify_address(&seeds, self.vesting_account.bump, program_id, &self.vesting_account_key) {
            Ok(()) => {},
            Err(e) => {
                return Err(e);
            },
        }
        let seeds = treasury_seeds(self.vesting_account.company_name.as_str());
        match verify_address(&seeds, self.vesting_account.treasury_bump, program_id, &self.treasury_token_account) {
            Ok(()) => {},
            Err(e) => {
                return Err(e);
            },
        }
        let seeds = employee_seeds(&self.beneficiary, &self.vesting_account_key);
        verify_address(&seeds, self.employee_account.bump, program_id, &self.employee_account_key)
    }

    /// The amount that a claim at `now` moves out of the escrow, or why the
    /// claim is refused.
    pub fn claimable(&self, program_id: &Address, company_name: &str, now: i64) -> (r: Result<u64, ErrorCode>)
        ensures
            !self.accounts_match(program_id@, company_name@) ==> r == Err::<u64, ErrorCode>(
                ErrorCode::AuthorizationMismatch,
            ),
            self.accounts_match(program_id@, company_name@) ==> r == claim_spec(self.employee_account, now as int),
    {
        match self.validate_accounts(program_id, company_name) {
            Ok(()) => {},
            Err(e) => {
                return Err(e);
            },
        }
        self.employee_account.claimable_amount(now)
    }

    /// Settles a claim at `now` whose transfer of the claimable amount ended
    /// with `outcome`: only a claim on matching accounts whose transfer
    /// completed adds the amount to the grant's claimed total.
    pub fn claim_tokens(&mut self, program_id: &Address, company_name: &str, now: i64, outcome: TransferOutcome) -> (r: Result<u64, ErrorCode>)
        ensures
            final(self).beneficiary == old(self).beneficiary,
            final(self).employee_account_key == old(self).employee_account_key,
            final(self).vesting_account_key == old(self).vesting_account_key,
            final(self).vesting_account == old(self).vesting_account,
            final(self).treasury_token_account == old(self).treasury_token_account,
            final(self).mint == old(self).mint,
            !old(self).accounts_match(program_id@, company_name@) ==> r == Err::<u64, ErrorCode>(
                ErrorCode::AuthorizationMismatch,
            ) && final(self).employee_account == old(self).employee_account,
            old(self).accounts_match(program_id@, company_name@) ==> {
                let g = old(self).employee_account;
                match claim_spec(g, now as int) {
                    Ok(amount) => if outcome == TransferOutcome::Completed {
                        r == Ok::<u64, ErrorCode>(amount) && final(self).employee_account == after_claim(g, now as int)
                    } else {
                        r == Err::<u64, ErrorCode>(ErrorCode::TransferFailure) && final(self).employee_account == g
                    },
                    Err(e) => r == Err::<u64, ErrorCode>(e) && final(self).employee_account == g,
                }
            },
    {
        match self.validate_accounts(program_id, company_name) {
            Ok(()) => {},
            Err(e) => {
                return Err(e);
            },
        }
        self.employee_account.settle_claim(now, outcome)
    }
}

impl VestingAccount {
    /// The seeds with which the program signs for the schedule, the escrow's
    /// authority: the company name and the schedule's stored bump.
    pub fn signer_seeds(&self) -> (r: Vec<Vec<u8>>)
        ensures
            seeds_view(r@) == with_bump(
                schedule_seeds_spec(self.company_name@),
                self.bump,
            ),
    {
        let mut r = schedule_seeds(self.company_name.as_str());
        let mut bump_seed: Vec<u8> = Vec::new();
        bump_seed.push(self.bump);
        r.push(bump_seed);
        assert(seeds_view(r@) =~= with_bump(
            schedule_seeds_spec(self.company_name@),
            self.bump,
        ));
        r
    }
}

} // verus!
