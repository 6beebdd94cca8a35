//! Decimal text of numbers, as error messages and addresses write them.
use vstd::prelude::*;
use vstd::string::*;

verus! {

/// The decimal digit `d`.
pub open spec fn digit(d: nat) -> char {
    "0123456789"@[d as int]
}

/// The decimal text of `n`, without leading zeros.
pub open spec fn decimal(n: nat) -> Seq<char>
    decreases n,
{
    if n < 10 {
        seq![digit(n)]
    } else {
        decimal(n / 10).push(digit(n % 10))
    }
}

/// Appends the decimal text of `n`.
pub(crate) fn push_decimal(out: &mut String, n: u64)
    ensures
        final(out)@ == old(out)@ + decimal(n as nat),
    decreases n,
{
    if n >= 10 {
        push_decimal(out, n / 10);
    }
    let d = (n % 10) as usize;
    proof {
        reveal_strlit("0123456789");
    }
    let table = "0123456789";
    let ghost before = out@;
    out.append(table.substring_char(d, d + 1));
    proof {
        assert(table@.subrange(d as int, d + 1) =~= seq![digit(d as nat)]);
        if n >= 10 {
            assert(out@ =~= old(out)@ + decimal(n as nat));
        } else {
            assert(out@ =~= old(out)@ + decimal(n as nat));
        }
    }
}

} // verus!
