//! Splitting a linear extent among fixed and flexible slots.

use crate::helpers::text::{lemma_take_all, lemma_take_step};
use vstd::prelude::*;

verus! {

/// How much room a slot asks for.
#[derive(Clone, Copy, Debug)]
pub enum Size {
    /// Exactly this many units.
    Fixed(usize),
    /// An equal share of what the fixed slots leave over.
    Flexible,
}

/// What one slot contributes to the fixed total.
pub open spec fn fixed_part(size: Size) -> nat {
    match size {
        Size::Fixed(n) => n as nat,
        Size::Flexible => 0,
    }
}

/// The room that the fixed slots ask for together.
pub open spec fn fixed_total(sizes: Seq<Size>) -> nat
    decreases sizes.len(),
{
    if sizes.len() == 0 {
        0
    } else {
        fixed_total(sizes.drop_last()) + fixed_part(sizes.last())
    }
}

/// The number of flexible slots.
pub open spec fn flexible_count(sizes: Seq<Size>) -> nat
    decreases sizes.len(),
{
    if sizes.len() == 0 {
        0
    } else {
        flexible_count(sizes.drop_last()) + if sizes.last() is Flexible {
            1nat
        } else {
            0nat
        }
    }
}

/// Slot `i` is flexible and no flexible slot follows it.
pub open spec fn is_last_flexible(sizes: Seq<Size>, i: int) -> bool {
    &&& 0 <= i < sizes.len()
    &&& sizes[i] is Flexible
    &&& forall|j: int| i < j < sizes.len() ==> sizes[j] is Fixed
}

/// What is left for the flexible slots; never negative.
pub open spec fn available(total: nat, sizes: Seq<Size>) -> nat {
    if total >= fixed_total(sizes) {
        (total - fixed_total(sizes)) as nat
    } else {
        0
    }
}

/// The share of every flexible slot; zero where there is none.
pub open spec fn flexible_share(total: nat, sizes: Seq<Size>) -> nat {
    if flexible_count(sizes) == 0 {
        0
    } else {
        available(total, sizes) / flexible_count(sizes)
    }
}

/// What the equal shares leave undistributed; zero where there is no flexible slot.
pub open spec fn flexible_remainder(total: nat, sizes: Seq<Size>) -> nat {
    if flexible_count(sizes) == 0 {
        0
    } else {
        available(total, sizes) % flexible_count(sizes)
    }
}

/// The size that slot `i` is given.
pub open spec fn allocation(total: nat, sizes: Seq<Size>, i: int) -> nat {
    match sizes[i] {
        Size::Fixed(n) => n as nat,
        Size::Flexible => flexible_share(total, sizes) + if is_last_flexible(sizes, i) {
            flexible_remainder(total, sizes)
        } else {
            0
        },
    }
}

/// The sum of a list of sizes.
pub open spec fn sum_of(sizes: Seq<usize>) -> nat
    decreases sizes.len(),
{
    if sizes.len() == 0 {
        0
    } else {
        sum_of(sizes.drop_last()) + sizes.last() as nat
    }
}

/// What all the slots are given together.
pub open spec fn allocated_total(total: nat, sizes: Seq<Size>) -> nat {
    if flexible_count(sizes) == 0 {
        fixed_total(sizes)
    } else {
        fixed_total(sizes) + available(total, sizes)
    }
}

proof fn lemma_share_times_count(avail: nat, count: nat)
    requires
        count > 0,
    ensures
        (avail / count) * count + avail % count == avail,
        avail / count + avail % count <= avail,
        avail % count < count,
{
    vstd::arithmetic::div_mod::lemma_fundamental_div_mod(avail as int, count as int);
    vstd::arithmetic::div_mod::lemma_mod_bound(avail as int, count as int);
    assert((avail / count) * count == count * (avail / count)) by (nonlinear_arith);
    assert(avail / count <= (avail / count) * count) by (nonlinear_arith)
        requires
            count >= 1,
    ;
}

/// Distributes `total` among the slots: a fixed slot gets what it asks for, a
/// flexible slot an equal share of the rest, and the last flexible slot the
/// remainder of that division on top.
pub fn distribute(total: usize, sizes: &[Size]) -> (out: Vec<usize>)
    ensures
        out@.len() == sizes@.len(),
        forall|i: int|
            0 <= i < sizes@.len() ==> #[trigger] out@[i] as nat == allocation(
                total as nat,
                sizes@,
                i,
            ),
        sum_of(out@) == allocated_total(total as nat, sizes@),
        total >= fixed_total(sizes@) && (flexible_count(sizes@) > 0 || total == fixed_total(sizes@))
            ==> sum_of(out@) == total,
{
    let n = sizes.len();
    let mut fixed_size: usize = 0;
    let mut count: usize = 0;
    let mut last_flexible: Option<usize> = None;
    let mut i: usize = 0;
    while i < n
        invariant
            n == sizes@.len(),
            i <= n,
            fixed_size as nat == if fixed_total(sizes@.take(i as int)) <= usize::MAX {
                fixed_total(sizes@.take(i as int))
            } else {
                usize::MAX as nat
            },
            count as nat == flexible_count(sizes@.take(i as int)),
            count <= i,
            match last_flexible {
                Some(j) => j < i && sizes@[j as int] is Flexible && forall|k: int|
                    j < k < i ==> sizes@[k] is Fixed,
                None => forall|k: int| 0 <= k < i ==> sizes@[k] is Fixed,
            },
            last_flexible is Some <==> count > 0,
        decreases n - i,
    {
        proof {
            lemma_take_step(sizes@, i as int);
        }
        match sizes[i] {
            Size::Fixed(x) => {
                fixed_size = fixed_size.saturating_add(x);
            },
            Size::Flexible => {
                last_flexible = Some(i);
                count = count + 1;
            },
        }
        i = i + 1;
    }
    proof {
        lemma_take_all(sizes@);
    }
    let available_size: usize = total.saturating_sub(fixed_size);
    assert(available_size as nat == available(total as nat, sizes@));
    let flexible_size: usize = if count == 0 {
        0
    } else {
        available_size / count
    };
    let remainder: usize = if count == 0 {
        0
    } else {
        available_size % count
    };
    proof {
        if count > 0 {
            lemma_share_times_count(available_size as nat, count as nat);
        }
    }
    assert(flexible_size as nat == flexible_share(total as nat, sizes@));
    assert(remainder as nat == flexible_remainder(total as nat, sizes@));

    let mut out: Vec<usize> = Vec::new();
    let mut i: usize = 0;
    while i < n
        invariant
            n == sizes@.len(),
            i <= n,
            out@.len() == i,
            flexible_size as nat == flexible_share(total as nat, sizes@),
            remainder as nat == flexible_remainder(total as nat, sizes@),
            flexible_size + remainder <= usize::MAX,
            match last_flexible {
                Some(j) => is_last_flexible(sizes@, j as int),
                None => forall|k: int| 0 <= k < n ==> sizes@[k] is Fixed,
            },
            forall|k: int|
                0 <= k < i ==> #[trigger] out@[k] as nat == allocation(total as nat, sizes@, k),
            sum_of(out@) == fixed_total(sizes@.take(i as int)) + flexible_count(
                sizes@.take(i as int),
            ) * flexible_size + if last_flexible is Some && last_flexible->0 < i {
                remainder as nat
            } else {
                0
            },
        decreases n - i,
    {
        proof {
            lemma_take_step(sizes@, i as int);
        }
        let ghost before = out@;
        let given: usize = match sizes[i] {
            Size::Fixed(x) => x,
            Size::Flexible => {
                if last_flexible == Some(i) {
                    flexible_size + remainder
                } else {
                    flexible_size
                }
            },
        };
        out.push(given);
        proof {
            assert(out@.drop_last() =~= before);
            let c = flexible_count(sizes@.take(i as int));
            assert((c + 1) * flexible_size == c * flexible_size + flexible_size)
                by (nonlinear_arith);
        }
        i = i + 1;
    }
    proof {
        if count > 0 {
            assert(flexible_count(sizes@) * flexible_size == flexible_size * flexible_count(
                sizes@,
            )) by (nonlinear_arith);
        } else {
            assert(flexible_count(sizes@) * flexible_size == 0) by (nonlinear_arith)
                requires
                    flexible_count(sizes@) == 0,
            ;
        }
    }
    out
}

} // verus!
