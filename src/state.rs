use vstd::prelude::*;

verus! {

/// A 32-byte account address or public key.
#[derive(Debug, Clone, Copy, PartialEq, Eq)]
pub struct Address {
    pub bytes: [u8; 32],
}

impl View for Address {
    type V = Seq<u8>;

    open spec fn view(&self) -> Seq<u8> {
        self.bytes@
    }
}

impl Address {
    pub fn new(bytes: [u8; 32]) -> (r: Address)
        ensures
            r.bytes == bytes,
    {
        Address { bytes }
    }

    /// Byte-wise equality of two addresses.
    pub fn same_as(&self, other: &Address) -> (r: bool)
        ensures
            r == (self@ == other@),
    {
        let mut i: usize = 0;
        while i < 32
            invariant
                i <= 32,
                forall|j: int| 0 <= j < i ==> self@[j] == other@[j],
            decreases 32 - i,
        {
            if self.bytes[i] != other.bytes[i] {
                return false;
            }
            i = i + 1;
        }
        assert(self@ =~= other@);
        true
    }

    /// The address as an owned byte vector.
    pub fn to_vec(&self) -> (r: Vec<u8>)
        ensures
            r@ == self@,
    {
        let mut v: Vec<u8> = Vec::new();
        let mut i: usize = 0;
        while i < 32
            invariant
                i <= 32,
                v@ =~= self@.subrange(0, i as int),
            decreases 32 - i,
        {
            v.push(self.bytes[i]);
            i = i + 1;
        }
        assert(v@ =~= self@);
        v
    }
}

/// The largest number of bytes a company name may hold.
pub const MAX_COMPANY_NAME_LEN: usize = 50;

/// Per-company record: who may create grants, which token is paid out, and
/// the escrow account that holds it.
#[derive(Debug, Clone, PartialEq, Eq)]
pub struct VestingAccount {
    pub owner: Address,
    pub mint: Address,
    pub treasury_token_account: Address,
    pub company_name: String,
    pub treasury_bump: u8,
    pub bump: u8,
}

/// One beneficiary's linear-vesting allocation against a schedule.
#[derive(Debug, Clone, Copy, PartialEq, Eq)]
pub struct EmployeeAccount {
    pub beneficiary: Address,
    pub vesting_account: Address,
    pub total_allocated: u64,
    pub total_claimed: u64,
    pub start_time: i64,
    pub end_time: i64,
    pub cliff_time: i64,
    pub bump: u8,
}

/// The timestamps are ordered `start <= cliff <= end` with a vesting period
/// of positive length.
pub open spec fn valid_period(start: int, cliff: int, end: int) -> bool {
    start <= cliff <= end && start < end
}

impl EmployeeAccount {
    /// A grant's invariant: a valid period and no more paid than allocated.
    pub open spec fn wf(&self) -> bool {
        &&& valid_period(self.start_time as int, self.cliff_time as int, self.end_time as int)
        &&& self.total_claimed <= self.total_allocated
    }
}

} // verus!
