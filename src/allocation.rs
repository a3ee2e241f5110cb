//! Allocation policy: a bounded table from asset to target weight in basis points.
use vstd::prelude::*;
use crate::errors::FundrError;
use crate::fees::BASIS_POINTS_DIVISOR;

verus! {

/// Most entries an allocation table may hold.
pub const MAX_ALLOCATIONS: usize = 10;

/// An account address (32 bytes), held as four little-endian 64-bit words.
#[derive(Debug, Clone, Copy, PartialEq, Eq, Structural)]
pub struct Address {
    pub w0: u64,
    pub w1: u64,
    pub w2: u64,
    pub w3: u64,
}

/// Target weight of one asset, in basis points (0..=10000).
#[derive(Debug, Clone, Copy, PartialEq, Eq, Structural)]
pub struct TokenAllocation {
    pub mint: Address,
    pub percentage: u16,
}

/// Sum of the weights of a table.
pub open spec fn total_weight(s: Seq<TokenAllocation>) -> int
    decreases s.len(),
{
    if s.len() == 0 {
        0
    } else {
        total_weight(s.drop_last()) + s.last().percentage
    }
}

/// A table that may be committed: at most `MAX_ALLOCATIONS` entries, weights summing to at most 100%.
pub open spec fn allocations_valid(s: Seq<TokenAllocation>) -> bool {
    s.len() <= MAX_ALLOCATIONS && total_weight(s) <= BASIS_POINTS_DIVISOR
}

/// `i` is the first position of `mint` in `s`.
pub open spec fn is_first_index(s: Seq<TokenAllocation>, mint: Address, i: int) -> bool {
    &&& 0 <= i < s.len()
    &&& s[i].mint == mint
    &&& forall|j: int| 0 <= j < i ==> s[j].mint != mint
}

/// The table `s` after the weight of `mint` is set to `pct`: the first entry
/// of `mint` is updated if there is one; else an entry is appended when
/// `pct > 0` and room remains. The result must still be within 100%.
pub open spec fn upsert_outcome(s: Seq<TokenAllocation>, mint: Address, pct: u16) -> Result<
    Seq<TokenAllocation>,
    FundrError,
> {
    let entry = TokenAllocation { mint, percentage: pct };
    let next = if exists|i: int| is_first_index(s, mint, i) {
        Ok(s.update(choose|i: int| is_first_index(s, mint, i), entry))
    } else if pct > 0 {
        if s.len() >= MAX_ALLOCATIONS {
            Err(FundrError::TooManyAllocations)
        } else {
            Ok(s.push(entry))
        }
    } else {
        Ok(s)
    };
    if pct > BASIS_POINTS_DIVISOR {
        Err(FundrError::InvalidAllocation)
    } else {
        match next {
            Ok(t) => if total_weight(t) <= BASIS_POINTS_DIVISOR {
                Ok(t)
            } else {
                Err(FundrError::InvalidAllocation)
            },
            Err(e) => Err(e),
        }
    }
}

/// The sum of a prefix never exceeds the sum of the whole table.
proof fn lemma_total_weight_prefix(s: Seq<TokenAllocation>, k: int)
    requires
        0 <= k <= s.len(),
    ensures
        total_weight(s.take(k)) <= total_weight(s),
    decreases s.len(),
{
    if k == s.len() {
        assert(s.take(k) =~= s);
    } else {
        lemma_total_weight_prefix(s.drop_last(), k);
        assert(s.drop_last().take(k) =~= s.take(k));
    }
}

/// Whether the weights of `allocations` sum to at most 100%.
pub fn weights_within_limit(allocations: &Vec<TokenAllocation>) -> (r: bool)
    ensures
        r == (total_weight(allocations@) <= BASIS_POINTS_DIVISOR),
{
    let mut total: u64 = 0;
    let mut i: usize = 0;
    while i < allocations.len()
        invariant
            0 <= i <= allocations@.len(),
            total == total_weight(allocations@.take(i as int)),
            total <= BASIS_POINTS_DIVISOR,
        decreases allocations@.len() - i,
    {
        total = total + allocations[i].percentage as u64;
        assert(allocations@.take(i as int + 1).drop_last() =~= allocations@.take(i as int));
        i = i + 1;
        if total > BASIS_POINTS_DIVISOR as u64 {
            proof {
                lemma_total_weight_prefix(allocations@, i as int);
            }
            return false;
        }
    }
    assert(allocations@.take(i as int) =~= allocations@);
    true
}

/// `TooManyAllocations` over `MAX_ALLOCATIONS` entries, else
/// `InvalidAllocation` over 100% in total, else success.
pub open spec fn allocation_table_check(s: Seq<TokenAllocation>) -> Result<(), FundrError> {
    if s.len() > MAX_ALLOCATIONS {
        Err(FundrError::TooManyAllocations)
    } else if total_weight(s) > BASIS_POINTS_DIVISOR {
        Err(FundrError::InvalidAllocation)
    } else {
        Ok(())
    }
}

/// Checks a whole table against `allocation_table_check`.
pub fn validate_allocation_table(allocations: &Vec<TokenAllocation>) -> (r: Result<(), FundrError>)
    ensures
        r == allocation_table_check(allocations@),
        r is Ok <==> allocations_valid(allocations@),
{
    if allocations.len() > MAX_ALLOCATIONS {
        return Err(FundrError::TooManyAllocations);
    }
    if !weights_within_limit(allocations) {
        return Err(FundrError::InvalidAllocation);
    }
    Ok(())
}

/// First position of `mint` in the table, if it is there.
pub fn find_allocation(allocations: &Vec<TokenAllocation>, mint: Address) -> (r: Option<usize>)
    ensures
        match r {
            Some(i) => is_first_index(allocations@, mint, i as int),
            None => forall|j: int| 0 <= j < allocations@.len() ==> allocations@[j].mint != mint,
        },
{
    let mut i: usize = 0;
    while i < allocations.len()
        invariant
            0 <= i <= allocations@.len(),
            forall|j: int| 0 <= j < i ==> allocations@[j].mint != mint,
        decreases allocations@.len() - i,
    {
        if allocations[i].mint == mint {
            return Some(i);
        }
        i = i + 1;
    }
    None
}

/// Sets the weight of `mint` to `pct` in place, with the rules of
/// `upsert_outcome`; on failure the table is left as it was.
pub fn upsert_allocation(allocations: &mut Vec<TokenAllocation>, mint: Address, pct: u16) -> (r: Result<
    (),
    FundrError,
>)
    ensures
        match upsert_outcome(old(allocations)@, mint, pct) {
            Ok(t) => r == Ok::<(), FundrError>(()) && final(allocations)@ == t,
            Err(e) => r == Err::<(), FundrError>(e) && final(allocations)@ == old(allocations)@,
        },
{
    let ghost s = allocations@;
    let entry = TokenAllocation { mint, percentage: pct };
    if pct > BASIS_POINTS_DIVISOR {
        return Err(FundrError::InvalidAllocation);
    }
    match find_allocation(allocations, mint) {
        Some(i) => {
            proof {
                let c = choose|c: int| is_first_index(s, mint, c);
                assert(is_first_index(s, mint, c));
                if c < i {
                    assert(s[c].mint != mint);
                } else if i < c {
                    assert(s[i as int].mint != mint);
                }
            }
            let previous = allocations[i];
            allocations[i] = entry;
            if !weights_within_limit(allocations) {
                allocations[i] = previous;
                assert(allocations@ =~= s);
                return Err(FundrError::InvalidAllocation);
            }
            Ok(())
        },
        None => {
            assert(!exists|c: int| is_first_index(s, mint, c));
            if pct == 0 {
                if !weights_within_limit(allocations) {
                    return Err(FundrError::InvalidAllocation);
                }
                return Ok(());
            }
            if allocations.len() >= MAX_ALLOCATIONS {
                return Err(FundrError::TooManyAllocations);
            }
            allocations.push(entry);
            if !weights_within_limit(allocations) {
                allocations.pop();
                assert(allocations@ =~= s);
                return Err(FundrError::InvalidAllocation);
            }
            Ok(())
        },
    }
}

} // verus!
