//! Morris-Lecar neurons: the named parameter sets and the layout of the state.
//!
//! As for the Hodgkin-Huxley neurons, every constant is held exactly, as a
//! count of thousandths.

use vstd::prelude::*;

verus! {

/// Number of components of a Morris-Lecar state.
pub const ML_DIMENSION: usize = 2;

/// Position of the membrane potential in a Morris-Lecar state.
pub const ML_V: usize = 0;

/// Position of the recovery gate `n`.
pub const ML_N: usize = 1;

/// The named Morris-Lecar parameter sets, each called after the bifurcation
/// through which the neuron starts to fire.
#[derive(Debug, Clone, Copy, PartialEq, Eq, PartialOrd, Ord, Structural)]
pub enum MLNeuronSubtype {
    Hopf,
    SaddleNodeLimitCycle,
    SaddleNodeBifurcation,
}

/// The physiological constants of a Morris-Lecar neuron, in thousandths.
///
/// Calcium activates at once, by `(1 + tanh((v - v1) / v2)) / 2`. The recovery
/// gate relaxes at rate `phi cosh((v - v3) / (2 v4))` towards
/// `(1 + tanh((v - v3) / v4)) / 2`.
///
/// The injected current varies from run to run and is not part of the record.
#[derive(Debug, Clone, Copy, PartialEq, Eq, Structural)]
pub struct MLNeuron {
    pub c_m: i64,
    pub g_l: i64,
    pub e_l: i64,
    pub g_k: i64,
    pub e_k: i64,
    pub g_ca: i64,
    pub e_ca: i64,
    pub phi: i64,
    pub v1: i64,
    pub v2: i64,
    pub v3: i64,
    pub v4: i64,
}

impl MLNeuron {
    /// The constants that a named parameter set stands for.
    pub open spec fn preset(subtype: MLNeuronSubtype) -> MLNeuron {
        match subtype {
            MLNeuronSubtype::Hopf => MLNeuron {
                c_m: 20_000,
                g_l: 2_000,
                e_l: (-60_000) as i64,
                g_k: 8_000,
                e_k: (-84_000) as i64,
                g_ca: 4_400,
                e_ca: 120_000,
                phi: 40,
                v1: (-1_200) as i64,
                v2: 18_000,
                v3: 2_000,
                v4: 30_000,
            },
            MLNeuronSubtype::SaddleNodeLimitCycle => MLNeuron {
                c_m: 20_000,
                g_l: 2_000,
                e_l: (-60_000) as i64,
                g_k: 8_000,
                e_k: (-84_000) as i64,
                g_ca: 4_000,
                e_ca: 120_000,
                phi: 67,
                v1: (-1_200) as i64,
                v2: 18_000,
                v3: 12_000,
                v4: 17_400,
            },
            MLNeuronSubtype::SaddleNodeBifurcation => MLNeuron {
                c_m: 20_000,
                g_l: 2_000,
                e_l: (-60_000) as i64,
                g_k: 8_000,
                e_k: (-84_000) as i64,
                g_ca: 4_000,
                e_ca: 120_000,
                phi: 230,
                v1: (-1_200) as i64,
                v2: 18_000,
                v3: 12_000,
                v4: 17_400,
            },
        }
    }

    /// Whether the constants describe a membrane on which the kinetics are
    /// defined: a positive capacitance, no negative conductance, a positive
    /// recovery rate, and a positive slope under every division.
    pub open spec fn is_physical(self) -> bool {
        &&& self.c_m > 0
        &&& self.g_l >= 0
        &&& self.g_k >= 0
        &&& self.g_ca >= 0
        &&& self.phi > 0
        &&& self.v2 > 0
        &&& self.v4 > 0
    }

    /// Builds the record from its constants, each given in thousandths.
    pub fn new(
        c_m: i64,
        g_l: i64,
        e_l: i64,
        g_k: i64,
        e_k: i64,
        g_ca: i64,
        e_ca: i64,
        phi: i64,
        v1: i64,
        v2: i64,
        v3: i64,
        v4: i64,
    ) -> (neuron: Self)
        ensures
            neuron == (MLNeuron { c_m, g_l, e_l, g_k, e_k, g_ca, e_ca, phi, v1, v2, v3, v4 }),
    {
        Self { c_m, g_l, e_l, g_k, e_k, g_ca, e_ca, phi, v1, v2, v3, v4 }
    }

    /// Looks up the constants of a named parameter set.
    pub fn from_subtype(subtype: MLNeuronSubtype) -> (neuron: Self)
        ensures
            neuron == Self::preset(subtype),
            neuron.is_physical(),
    {
        match subtype {
            MLNeuronSubtype::Hopf => Self::new(
                20_000, 2_000, -60_000, 8_000, -84_000, 4_400, 120_000, 40, -1_200, 18_000,
                2_000, 30_000,
            ),
            MLNeuronSubtype::SaddleNodeLimitCycle => Self::new(
                20_000, 2_000, -60_000, 8_000, -84_000, 4_000, 120_000, 67, -1_200, 18_000,
                12_000, 17_400,
            ),
            MLNeuronSubtype::SaddleNodeBifurcation => Self::new(
                20_000, 2_000, -60_000, 8_000, -84_000, 4_000, 120_000, 230, -1_200, 18_000,
                12_000, 17_400,
            ),
        }
    }
}

/// Different names stand for different constants.
pub proof fn lemma_ml_presets_distinct(a: MLNeuronSubtype, b: MLNeuronSubtype)
    requires
        a != b,
    ensures
        MLNeuron::preset(a) != MLNeuron::preset(b),
{
}

/// Every parameter set is physical.
pub proof fn lemma_ml_presets_physical(subtype: MLNeuronSubtype)
    ensures
        MLNeuron::preset(subtype).is_physical(),
{
}

} // verus!
