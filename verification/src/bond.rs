//! Bond models and their integer codes in the collision-settings buffer.

use vstd::prelude::*;

verus! {

/// The constraint model linking pairs of particles.
#[allow(non_camel_case_types)]
#[derive(Clone, Copy, Debug, PartialEq, Eq, Structural)]
pub enum BondType {
    Unbonded,
    Normal_Bonds,
    Linear_Contact_Bond,
    Parallel_Linear_Contact_Bond,
}

/// The integer code under which each bond model travels in the
/// collision-settings buffer.
pub open spec fn spec_bond_code(b: BondType) -> i32 {
    match b {
        BondType::Unbonded => 0,
        BondType::Normal_Bonds => 1,
        BondType::Linear_Contact_Bond => 2,
        BondType::Parallel_Linear_Contact_Bond => 3,
    }
}

impl BondType {
    /// Returns the buffer code of this bond model.
    pub fn code(&self) -> (c: i32)
        ensures
            c == spec_bond_code(*self),
    {
        match self {
            BondType::Unbonded => 0,
            BondType::Normal_Bonds => 1,
            BondType::Linear_Contact_Bond => 2,
            BondType::Parallel_Linear_Contact_Bond => 3,
        }
    }
}

/// The code assignment is a bijection between the four bond models and the
/// integers 0 through 3: distinct models get distinct codes, every code lies
/// in 0..=3, and each of the four integers is the code of the stated model.
pub proof fn lemma_bond_code_bijective()
    ensures
        forall|a: BondType, b: BondType|
            spec_bond_code(a) == spec_bond_code(b) ==> a == b,
        forall|b: BondType| 0 <= #[trigger] spec_bond_code(b) <= 3,
        spec_bond_code(BondType::Unbonded) == 0,
        spec_bond_code(BondType::Normal_Bonds) == 1,
        spec_bond_code(BondType::Linear_Contact_Bond) == 2,
        spec_bond_code(BondType::Parallel_Linear_Contact_Bond) == 3,
{
}

} // verus!
