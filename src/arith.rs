use vstd::prelude::*;
use crate::plugin::Plugin;

verus! {

/// `lhs + rhs` in 32-bit arithmetic: a carry out of the top bit is dropped,
/// so the operation is defined on every pair of operands.
pub open spec fn sum_u32(lhs: u32, rhs: u32) -> u32 {
    ((lhs as int + rhs as int) % 0x1_0000_0000) as u32
}

/// `lhs * rhs` in 32-bit arithmetic: the bits above the low 32 are dropped.
pub open spec fn product_u32(lhs: u32, rhs: u32) -> u32 {
    ((lhs as int * rhs as int) % 0x1_0000_0000) as u32
}

/// The plugin named "add", with operator "+".
#[derive(Clone, Copy, Debug, PartialEq, Eq, Structural)]
pub struct Add;

/// The plugin named "mul", with operator "*".
#[derive(Clone, Copy, Debug, PartialEq, Eq, Structural)]
pub struct PluginMul;

impl Plugin for Add {
    fn name(&self) -> (r: &str)
        ensures
            r@ == seq!['a', 'd', 'd'],
    {
        proof {
            reveal_strlit("add");
        }
        "add"
    }

    fn operator(&self) -> (r: &str)
        ensures
            r@ == seq!['+'],
    {
        proof {
            reveal_strlit("+");
        }
        "+"
    }

    fn calc(&self, lhs: u32, rhs: u32) -> (r: u32)
        ensures
            r == sum_u32(lhs, rhs),
    {
        lhs.wrapping_add(rhs)
    }
}

impl Plugin for PluginMul {
    fn name(&self) -> (r: &str)
        ensures
            r@ == seq!['m', 'u', 'l'],
    {
        proof {
            reveal_strlit("mul");
        }
        "mul"
    }

    fn operator(&self) -> (r: &str)
        ensures
            r@ == seq!['*'],
    {
        proof {
            reveal_strlit("*");
        }
        "*"
    }

    fn calc(&self, lhs: u32, rhs: u32) -> (r: u32)
        ensures
            r == product_u32(lhs, rhs),
    {
        lhs.wrapping_mul(rhs)
    }
}

} // verus!
