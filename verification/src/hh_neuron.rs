//! Hodgkin-Huxley neurons: the named parameter sets and the layout of the state.
//!
//! Every constant is a decimal number with at most three fractional digits.
//! It is held exactly, as a count of thousandths: `-54.4` is `-54_400`.

use vstd::prelude::*;

verus! {

/// Number of components of a Hodgkin-Huxley state.
pub const HH_DIMENSION: usize = 4;

/// Position of the membrane potential in a Hodgkin-Huxley state.
pub const HH_V: usize = 0;

/// Position of the potassium activation gate `n`.
pub const HH_N: usize = 1;

/// Position of the sodium activation gate `m`.
pub const HH_M: usize = 2;

/// Position of the sodium inactivation gate `h`.
pub const HH_H: usize = 3;

/// The named Hodgkin-Huxley parameter sets.
#[derive(Debug, Clone, Copy, PartialEq, Eq, PartialOrd, Ord, Structural)]
pub enum HHNeuronSubtype {
    Standard,
    ReducedTraubMiles,
    WangBuzsaki,
}

/// The physiological constants of a Hodgkin-Huxley neuron, in thousandths.
///
/// The rate laws of the three gates read
/// `alpha_x = a1 (v + a2) / (1 - exp(-(v + a3) / a4))` and
/// `beta_x = b1 exp(-(v + b2) / b3)` for `n` and `m`, and
/// `alpha_h = a1 exp(-(v + a2) / a3)`, `beta_h = b1 / (1 + exp(-(v + b2) / b3))`.
/// Rates are scaled by `q` raised to a tenth of the distance between the
/// operating temperature and `t_base`.
///
/// The injected current and the operating temperature vary from run to run
/// and are not part of the record.
#[derive(Debug, Clone, Copy, PartialEq, Eq, Structural)]
pub struct HHNeuron {
    pub c_m: i64,
    pub g_na: i64,
    pub e_na: i64,
    pub g_k: i64,
    pub e_k: i64,
    pub g_l: i64,
    pub e_l: i64,
    pub alpha_n_1: i64,
    pub alpha_n_2: i64,
    pub alpha_n_3: i64,
    pub alpha_n_4: i64,
    pub beta_n_1: i64,
    pub beta_n_2: i64,
    pub beta_n_3: i64,
    pub alpha_m_1: i64,
    pub alpha_m_2: i64,
    pub alpha_m_3: i64,
    pub alpha_m_4: i64,
    pub beta_m_1: i64,
    pub beta_m_2: i64,
    pub beta_m_3: i64,
    pub alpha_h_1: i64,
    pub alpha_h_2: i64,
    pub alpha_h_3: i64,
    pub beta_h_1: i64,
    pub beta_h_2: i64,
    pub beta_h_3: i64,
    pub q: i64,
    pub t_base: i64,
}

impl HHNeuron {
    /// The constants that a named parameter set stands for.
    pub open spec fn preset(subtype: HHNeuronSubtype) -> HHNeuron {
        match subtype {
            HHNeuronSubtype::Standard => HHNeuron {
                c_m: 1_000,
                g_na: 120_000,
                e_na: 50_000,
                g_k: 36_000,
                e_k: (-77_000) as i64,
                g_l: 300,
                e_l: (-54_400) as i64,
                alpha_n_1: 10,
                alpha_n_2: 55_000,
                alpha_n_3: 55_000,
                alpha_n_4: 10_000,
                beta_n_1: 125,
                beta_n_2: 65_000,
                beta_n_3: 80_000,
                alpha_m_1: 100,
                alpha_m_2: 40_000,
                alpha_m_3: 40_000,
                alpha_m_4: 10_000,
                beta_m_1: 4_000,
                beta_m_2: 65_000,
                beta_m_3: 18_000,
                alpha_h_1: 70,
                alpha_h_2: 65_000,
                alpha_h_3: 20_000,
                beta_h_1: 1_000,
                beta_h_2: 35_000,
                beta_h_3: 10_000,
                q: 3_000,
                t_base: 6_300,
            },
            HHNeuronSubtype::ReducedTraubMiles => HHNeuron {
                c_m: 1_000,
                g_na: 100_000,
                e_na: 50_000,
                g_k: 80_000,
                e_k: (-100_000) as i64,
                g_l: 100,
                e_l: (-67_000) as i64,
                alpha_n_1: 32,
                alpha_n_2: 52_000,
                alpha_n_3: 52_000,
                alpha_n_4: 5_000,
                beta_n_1: 500,
                beta_n_2: 57_000,
                beta_n_3: 40_000,
                alpha_m_1: 320,
                alpha_m_2: 54_000,
                alpha_m_3: 54_000,
                alpha_m_4: 4_000,
                beta_m_1: 7_698,
                beta_m_2: 58_929,
                beta_m_3: 26_260,
                alpha_h_1: 128,
                alpha_h_2: 50_000,
                alpha_h_3: 18_000,
                beta_h_1: 4_000,
                beta_h_2: 27_000,
                beta_h_3: 5_000,
                q: 3_000,
                t_base: 6_300,
            },
            HHNeuronSubtype::WangBuzsaki => HHNeuron {
                c_m: 1_000,
                g_na: 35_000,
                e_na: 55_000,
                g_k: 9_000,
                e_k: (-90_000) as i64,
                g_l: 100,
                e_l: (-65_000) as i64,
                alpha_n_1: 50,
                alpha_n_2: 34_000,
                alpha_n_3: 34_000,
                alpha_n_4: 10_000,
                beta_n_1: 625,
                beta_n_2: 44_000,
                beta_n_3: 80_000,
                alpha_m_1: 100,
                alpha_m_2: 35_000,
                alpha_m_3: 35_000,
                alpha_m_4: 10_000,
                beta_m_1: 4_000,
                beta_m_2: 60_000,
                beta_m_3: 18_000,
                alpha_h_1: 350,
                alpha_h_2: 58_000,
                alpha_h_3: 20_000,
                beta_h_1: 5_000,
                beta_h_2: 28_000,
                beta_h_3: 10_000,
                q: 3_000,
                t_base: 6_300,
            },
        }
    }

    /// Whether the constants describe a membrane on which the rate laws are
    /// defined: a positive capacitance, no negative conductance, a positive
    /// temperature coefficient, and a positive slope under every division.
    pub open spec fn is_physical(self) -> bool {
        &&& self.c_m > 0
        &&& self.g_na >= 0
        &&& self.g_k >= 0
        &&& self.g_l >= 0
        &&& self.alpha_n_4 > 0
        &&& self.beta_n_3 > 0
        &&& self.alpha_m_4 > 0
        &&& self.beta_m_3 > 0
        &&& self.alpha_h_3 > 0
        &&& self.beta_h_3 > 0
        &&& self.q > 0
    }

    /// Builds the record from its constants, each given in thousandths.
    pub fn new(
        c_m: i64,
        g_na: i64,
        e_na: i64,
        g_k: i64,
        e_k: i64,
        g_l: i64,
        e_l: i64,
        alpha_n_1: i64,
        alpha_n_2: i64,
        alpha_n_3: i64,
        alpha_n_4: i64,
        beta_n_1: i64,
        beta_n_2: i64,
        beta_n_3: i64,
        alpha_m_1: i64,
        alpha_m_2: i64,
        alpha_m_3: i64,
        alpha_m_4: i64,
        beta_m_1: i64,
        beta_m_2: i64,
        beta_m_3: i64,
        alpha_h_1: i64,
        alpha_h_2: i64,
        alpha_h_3: i64,
        beta_h_1: i64,
        beta_h_2: i64,
        beta_h_3: i64,
        q: i64,
        t_base: i64,
    ) -> (neuron: Self)
        ensures
            neuron == (HHNeuron {
                c_m,
                g_na,
                e_na,
                g_k,
                e_k,
                g_l,
                e_l,
                alpha_n_1,
                alpha_n_2,
                alpha_n_3,
                alpha_n_4,
                beta_n_1,
                beta_n_2,
                beta_n_3,
                alpha_m_1,
                alpha_m_2,
                alpha_m_3,
                alpha_m_4,
                beta_m_1,
                beta_m_2,
                beta_m_3,
                alpha_h_1,
                alpha_h_2,
                alpha_h_3,
                beta_h_1,
                beta_h_2,
                beta_h_3,
                q,
                t_base,
            }),
    {
        Self {
            c_m,
            g_na,
            e_na,
            g_k,
            e_k,
            g_l,
            e_l,
            alpha_n_1,
            alpha_n_2,
            alpha_n_3,
            alpha_n_4,
            beta_n_1,
            beta_n_2,
            beta_n_3,
            alpha_m_1,
            alpha_m_2,
            alpha_m_3,
            alpha_m_4,
            beta_m_1,
            beta_m_2,
            beta_m_3,
            alpha_h_1,
            alpha_h_2,
            alpha_h_3,
            beta_h_1,
            beta_h_2,
            beta_h_3,
            q,
            t_base,
        }
    }

    /// Looks up the constants of a named parameter set.
    pub fn from_subtype(subtype: HHNeuronSubtype) -> (neuron: Self)
        ensures
            neuron == Self::preset(subtype),
            neuron.is_physical(),
    {
        match subtype {
            HHNeuronSubtype::Standard => Self::new(
                1_000, 120_000, 50_000, 36_000, -77_000, 300, -54_400,
                10, 55_000, 55_000, 10_000,
                125, 65_000, 80_000,
                100, 40_000, 40_000, 10_000,
                4_000, 65_000, 18_000,
                70, 65_000, 20_000,
                1_000, 35_000, 10_000,
                3_000, 6_300,
            ),
            HHNeuronSubtype::ReducedTraubMiles => Self::new(
                1_000, 100_000, 50_000, 80_000, -100_000, 100, -67_000,
                32, 52_000, 52_000, 5_000,
                500, 57_000, 40_000,
                320, 54_000, 54_000, 4_000,
                7_698, 58_929, 26_260,
                128, 50_000, 18_000,
                4_000, 27_000, 5_000,
                3_000, 6_300,
            ),
            HHNeuronSubtype::WangBuzsaki => Self::new(
                1_000, 35_000, 55_000, 9_000, -90_000, 100, -65_000,
                50, 34_000, 34_000, 10_000,
                625, 44_000, 80_000,
                100, 35_000, 35_000, 10_000,
                4_000, 60_000, 18_000,
                350, 58_000, 20_000,
                5_000, 28_000, 10_000,
                3_000, 6_300,
            ),
        }
    }
}

/// Different names stand for different constants.
pub proof fn lemma_hh_presets_distinct(a: HHNeuronSubtype, b: HHNeuronSubtype)
    requires
        a != b,
    ensures
        HHNeuron::preset(a) != HHNeuron::preset(b),
{
}

/// Every parameter set is physical, and all of them scale their rates
/// from the same base temperature with the same coefficient.
pub proof fn lemma_hh_presets_physical(a: HHNeuronSubtype, b: HHNeuronSubtype)
    ensures
        HHNeuron::preset(a).is_physical(),
        HHNeuron::preset(a).t_base == HHNeuron::preset(b).t_base,
        HHNeuron::preset(a).q == HHNeuron::preset(b).q,
{
}

/// In every parameter set the activation rates of `n` and `m` vanish at the
/// very potential at which their denominator does, so that the quotient has
/// a single removable singularity.
pub proof fn lemma_hh_presets_singularity(subtype: HHNeuronSubtype)
    ensures
        HHNeuron::preset(subtype).alpha_n_2 == HHNeuron::preset(subtype).alpha_n_3,
        HHNeuron::preset(subtype).alpha_m_2 == HHNeuron::preset(subtype).alpha_m_3,
{
}

} // verus!
