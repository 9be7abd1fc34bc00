//! Decimal rendering of machine words and of lists of them.
//!
//! Diagnostic messages name program positions, and the state dump prints
//! the tape and the loop-return stack.  The functions here build those
//! strings and are proved to match the spec-level renderings that the
//! messages are defined with.

use vstd::prelude::*;

verus! {

/// The decimal digit character for a value below ten.
pub open spec fn spec_digit(n: nat) -> char
    recommends
        n < 10,
{
    if n == 0 {
        '0'
    } else if n == 1 {
        '1'
    } else if n == 2 {
        '2'
    } else if n == 3 {
        '3'
    } else if n == 4 {
        '4'
    } else if n == 5 {
        '5'
    } else if n == 6 {
        '6'
    } else if n == 7 {
        '7'
    } else if n == 8 {
        '8'
    } else {
        '9'
    }
}

/// The decimal representation of a natural number, most significant
/// digit first, without leading zeros (except for zero itself).
pub open spec fn spec_decimal(n: nat) -> Seq<char>
    decreases n,
{
    if n < 10 {
        seq![spec_digit(n)]
    } else {
        spec_decimal(n / 10).push(spec_digit(n % 10))
    }
}

/// The rendering of a list of numbers, in the shape `[3, 7]`.
pub open spec fn spec_num_list(s: Seq<nat>) -> Seq<char> {
    seq!['['] + spec_num_list_inner(s) + seq![']']
}

/// The comma-separated numbers inside a rendered list.
pub open spec fn spec_num_list_inner(s: Seq<nat>) -> Seq<char>
    decreases s.len(),
{
    if s.len() == 0 {
        Seq::empty()
    } else if s.len() == 1 {
        spec_decimal(s[0])
    } else {
        spec_num_list_inner(s.drop_last()) + seq![',', ' '] + spec_decimal(s.last())
    }
}

/// The one-character string for a decimal digit.
fn digit_str(d: usize) -> (s: &'static str)
    requires
        d < 10,
    ensures
        s@ =~= seq![spec_digit(d as nat)],
{
    proof {
        reveal_strlit("0");
        reveal_strlit("1");
        reveal_strlit("2");
        reveal_strlit("3");
        reveal_strlit("4");
        reveal_strlit("5");
        reveal_strlit("6");
        reveal_strlit("7");
        reveal_strlit("8");
        reveal_strlit("9");
    }
    if d == 0 {
        "0"
    } else if d == 1 {
        "1"
    } else if d == 2 {
        "2"
    } else if d == 3 {
        "3"
    } else if d == 4 {
        "4"
    } else if d == 5 {
        "5"
    } else if d == 6 {
        "6"
    } else if d == 7 {
        "7"
    } else if d == 8 {
        "8"
    } else {
        "9"
    }
}

/// Render a machine word in decimal.
pub fn usize_to_string(n: usize) -> (s: String)
    ensures
        s@ == spec_decimal(n as nat),
    decreases n,
{
    proof {
        if n >= 10 {
            assert((n as nat) / 10 < n as nat) by (nonlinear_arith)
                requires
                    n >= 10,
            ;
        }
    }
    if n < 10 {
        digit_str(n).to_owned()
    } else {
        let mut s = usize_to_string(n / 10);
        s.append(digit_str(n % 10));
        s
    }
}

/// Render a list of machine words in the shape `[3, 7]`.
pub fn usize_list_to_string(v: &Vec<usize>) -> (s: String)
    ensures
        s@ == spec_num_list(v@.map_values(|u: usize| u as nat)),
{
    let ghost all: Seq<nat> = v@.map_values(|u: usize| u as nat);
    let mut s = "[".to_owned();
    proof {
        reveal_strlit("[");
        reveal_strlit("]");
        reveal_strlit(", ");
        assert(s@ =~= seq!['[']);
    }
    let mut i: usize = 0;
    while i < v.len()
        invariant
            i <= v@.len(),
            all == v@.map_values(|u: usize| u as nat),
            s@ == seq!['['] + spec_num_list_inner(all.take(i as int)),
        decreases v@.len() - i,
    {
        if i > 0 {
            s.append(", ");
        }
        let num = usize_to_string(v[i]);
        s.append(num.as_str());
        proof {
            reveal_strlit(", ");
            assert(all.take(i + 1 as int).drop_last() =~= all.take(i as int));
            assert(all.take(i + 1 as int).last() == v@[i as int] as nat);
            if i > 0 {
                assert(s@ =~= seq!['['] + spec_num_list_inner(all.take(i + 1 as int)));
            } else {
                assert(all.take(1).len() == 1);
                assert(s@ =~= seq!['['] + spec_num_list_inner(all.take(1)));
            }
        }
        i = i + 1;
    }
    s.append("]");
    proof {
        assert(all.take(v@.len() as int) =~= all);
        assert(s@ =~= spec_num_list(all));
    }
    s
}

/// Render a list of tape cells in the shape `[0, 255]`.
pub fn byte_list_to_string(v: &Vec<u8>) -> (s: String)
    ensures
        s@ == spec_num_list(v@.map_values(|b: u8| b as nat)),
{
    let ghost all: Seq<nat> = v@.map_values(|b: u8| b as nat);
    let mut s = "[".to_owned();
    proof {
        reveal_strlit("[");
        reveal_strlit("]");
        reveal_strlit(", ");
        assert(s@ =~= seq!['[']);
    }
    let mut i: usize = 0;
    while i < v.len()
        invariant
            i <= v@.len(),
            all == v@.map_values(|b: u8| b as nat),
            s@ == seq!['['] + spec_num_list_inner(all.take(i as int)),
        decreases v@.len() - i,
    {
        if i > 0 {
            s.append(", ");
        }
        let num = usize_to_string(v[i] as usize);
        s.append(num.as_str());
        proof {
            reveal_strlit(", ");
            assert(all.take(i + 1 as int).drop_last() =~= all.take(i as int));
            assert(all.take(i + 1 as int).last() == v@[i as int] as nat);
            if i > 0 {
                assert(s@ =~= seq!['['] + spec_num_list_inner(all.take(i + 1 as int)));
            } else {
                assert(all.take(1).len() == 1);
                assert(s@ =~= seq!['['] + spec_num_list_inner(all.take(1)));
            }
        }
        i = i + 1;
    }
    s.append("]");
    proof {
        assert(all.take(v@.len() as int) =~= all);
        assert(s@ =~= spec_num_list(all));
    }
    s
}

} // verus!
