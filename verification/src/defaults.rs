//! The built-in default parameter set.
//!
//! Construction seeds every parameter with its hard-coded default value,
//! bounds, display unit and precision.  Derived parameters start from a
//! placeholder default and take their true value from the first
//! recomputation pass.

use vstd::prelude::*;

use crate::equations::Equation;
use crate::params::{
    param, param_simple, param_derivation, param_name, Param, ParamModel, Parameters, N_PARAMS,
};
use crate::scalar::Scalar;

verus! {

/// A value of `m` millionths.
pub open spec fn micro(m: int) -> Option<int> {
    Some(m * 1_000_000)
}

/// The default value of the parameter at each index, in millionths.
pub open spec fn default_value(i: int) -> Option<int> {
    micro(default_value_micro(i))
}

/// The default value in millionths, as an integer.
pub open spec fn default_value_micro(i: int) -> int {
    if i == 0 {
        3_000_000
    } else if i == 1 {
        100_000
    } else if i == 2 {
        10_000_000
    } else if i == 3 {
        1_000_000
    } else if i == 4 {
        4_000_000
    } else if i == 5 {
        10_000_000
    } else if i == 6 {
        10_000_000
    } else if i == 7 {
        10_000_000
    } else if i == 8 {
        4_000_000
    } else if i == 9 {
        1_000_000
    } else if i == 10 {
        1_000_000
    } else if i == 11 {
        1_000_000
    } else if i == 12 {
        1_000_000
    } else if i == 13 {
        0
    } else if i == 14 {
        20_000
    } else if i == 15 {
        50_000_000
    } else if i == 16 {
        314_100_000
    } else if i == 17 {
        500_000
    } else if i == 18 {
        500_000
    } else if i == 19 {
        500_000
    } else if i == 20 {
        500_000
    } else if i == 21 {
        1_000_000
    } else if i == 22 {
        100_000
    } else if i == 23 {
        1_000_000
    } else if i == 24 {
        1_000_000
    } else if i == 25 {
        1_000_000
    } else if i == 26 {
        4_000_000
    } else if i == 27 {
        1_000_000
    } else if i == 28 {
        1_000_000
    } else if i == 29 {
        1_000_000
    } else if i == 30 {
        10_000_000
    } else if i == 31 {
        500_000
    } else if i == 32 {
        20_000_000
    } else if i == 33 {
        120_000_000
    } else if i == 34 {
        50_000
    } else if i == 35 {
        20_000_000
    } else if i == 36 {
        120_000_000
    } else if i == 37 {
        50_000
    } else if i == 38 {
        3_000_000
    } else if i == 39 {
        7_000_000
    } else if i == 40 {
        500_000
    } else if i == 41 {
        500_000
    } else if i == 42 {
        400_000
    } else if i == 43 {
        1_183_900
    } else if i == 44 {
        345_000_000
    } else {
        1_000_000
    }
}

/// The default slider lower bound in millionths.
pub open spec fn default_min_micro(i: int) -> int {
    if i == 1 {
        100_000
    } else if i == 2 {
        1_000_000
    } else if i == 3 {
        100_000
    } else if i == 4 {
        100_000
    } else if i == 5 {
        1_000_000
    } else if i == 6 {
        1_000_000
    } else if i == 7 {
        1_000_000
    } else if i == 10 {
        100_000
    } else if i == 14 {
        200
    } else if i == 15 {
        5_000_000
    } else if i == 16 {
        31_400_000
    } else if i == 28 {
        1_000
    } else if i == 43 {
        1_000_000
    } else if i == 44 {
        340_000_000
    } else if i == 45 {
        900_000
    } else {
        0
    }
}

/// The default slider upper bound in millionths.
pub open spec fn default_max_micro(i: int) -> int {
    if i == 0 {
        100_000_000
    } else if i == 1 {
        100_000_000
    } else if i == 2 {
        1_000_000_000
    } else if i == 3 {
        20_000_000
    } else if i == 4 {
        1_000_000_000
    } else if i == 5 {
        1_000_000_000
    } else if i == 6 {
        1_000_000_000
    } else if i == 7 {
        1_000_000_000
    } else if i == 8 {
        1_000_000_000
    } else if i == 9 {
        1_000_000_000
    } else if i == 10 {
        1_000_000_000
    } else if i == 11 {
        100_000_000
    } else if i == 12 {
        100_000_000
    } else if i == 13 {
        1_000_000_000
    } else if i == 14 {
        200_000
    } else if i == 15 {
        5_000_000_000
    } else if i == 16 {
        31_415_900_000
    } else if i == 17 {
        30_000_000
    } else if i == 18 {
        30_000_000
    } else if i == 19 {
        30_000_000
    } else if i == 20 {
        30_000_000
    } else if i == 21 {
        100_000_000
    } else if i == 22 {
        100_000_000
    } else if i == 23 {
        100_000_000
    } else if i == 24 {
        1_000_000_000
    } else if i == 25 {
        100_000_000
    } else if i == 26 {
        1_000_000_000
    } else if i == 27 {
        1_000_000_000
    } else if i == 28 {
        100_000_000
    } else if i == 29 {
        1_000_000_000
    } else if i == 30 {
        1_000_000_000
    } else if i == 31 {
        30_000_000
    } else if i == 32 {
        1_000_000_000
    } else if i == 33 {
        6_282_000_000
    } else if i == 34 {
        100_000
    } else if i == 35 {
        1_000_000_000
    } else if i == 36 {
        6_282_000_000
    } else if i == 37 {
        100_000
    } else if i == 38 {
        100_000_000
    } else if i == 39 {
        100_000_000
    } else if i == 40 {
        100_000_000
    } else if i == 41 {
        100_000_000
    } else if i == 42 {
        100_000_000
    } else if i == 43 {
        1_400_000
    } else if i == 44 {
        350_000_000
    } else {
        1_100_000
    }
}

/// The default display precision (decimal digits).
pub open spec fn default_precision(i: int) -> nat {
    if i == 14 {
        4
    } else if i == 28 {
        3
    } else if i == 43 {
        4
    } else {
        1
    }
}

/// The display unit of the parameter at each index.
pub open spec fn default_unit(i: int) -> Seq<char> {
    if i == 0 {
        "mm"@
    } else if i == 1 {
        "Liter"@
    } else if i == 2 {
        "cm ^ 2"@
    } else if i == 3 {
        "tesla m"@
    } else if i == 4 {
        "ohm"@
    } else if i == 5 {
        "g"@
    } else if i == 6 {
        "g"@
    } else if i == 7 {
        "g / cm^4"@
    } else if i == 8 {
        "N * s / m"@
    } else if i == 9 {
        "(Pa * s) / m^3"@
    } else if i == 10 {
        "m / N"@
    } else if i == 11 {
        "m^5 / N"@
    } else if i == 12 {
        "liter"@
    } else if i == 13 {
        ""@
    } else if i == 14 {
        "s"@
    } else if i == 15 {
        "Hz"@
    } else if i == 16 {
        "Hz"@
    } else if i == 17 {
        ""@
    } else if i == 18 {
        ""@
    } else if i == 19 {
        ""@
    } else if i == 20 {
        ""@
    } else if i == 21 {
        "m^5 / N"@
    } else if i == 22 {
        "liter"@
    } else if i == 23 {
        "liter"@
    } else if i == 24 {
        "m / N"@
    } else if i == 25 {
        "m^5 / N"@
    } else if i == 26 {
        "N * s / m"@
    } else if i == 27 {
        "ohm"@
    } else if i == 28 {
        "kg"@
    } else if i == 29 {
        "kg / cm^2"@
    } else if i == 30 {
        "cm^2"@
    } else if i == 31 {
        ""@
    } else if i == 32 {
        "Hz"@
    } else if i == 33 {
        "Hz"@
    } else if i == 34 {
        "s"@
    } else if i == 35 {
        "Hz"@
    } else if i == 36 {
        "Hz"@
    } else if i == 37 {
        "s"@
    } else if i == 38 {
        ""@
    } else if i == 39 {
        ""@
    } else if i == 40 {
        ""@
    } else if i == 41 {
        ""@
    } else if i == 42 {
        ""@
    } else if i == 43 {
        "kg / m^3"@
    } else if i == 44 {
        "m/s"@
    } else {
        "s"@
    }
}

/// The whole default model of the parameter at each index.
pub open spec fn default_model(i: int) -> ParamModel {
    ParamModel {
        name: param_name(i),
        unit: default_unit(i),
        value: default_value(i),
        min: micro(default_min_micro(i)),
        max: micro(default_max_micro(i)),
        precision: default_precision(i),
        derivation: param_derivation(i),
    }
}

/// The hard-coded default parameter set.
#[verifier::rlimit(60)]
pub fn builtin_defaults() -> (p: Parameters)
    ensures
        p.wf(),
        p@.len() == N_PARAMS,
        forall|i: int| 0 <= i < N_PARAMS ==> #[trigger] p@[i] == default_model(i),
{
    let mut v: Vec<Param> = Vec::new();
    v.push(param_simple("Xmax", "mm", Scalar::from_micro(3_000_000), Scalar::from_micro(0), Scalar::from_micro(100_000_000), 1));
    v.push(param("Vd", "Liter", Scalar::from_micro(100_000), Scalar::from_micro(100_000), Scalar::from_micro(100_000_000), 1, Equation::Vd));
    v.push(param_simple("Sd", "cm ^ 2", Scalar::from_micro(10_000_000), Scalar::from_micro(1_000_000), Scalar::from_micro(1_000_000_000), 1));
    v.push(param_simple("Bl", "tesla m", Scalar::from_micro(1_000_000), Scalar::from_micro(100_000), Scalar::from_micro(20_000_000), 1));
    v.push(param_simple("Re", "ohm", Scalar::from_micro(4_000_000), Scalar::from_micro(100_000), Scalar::from_micro(1_000_000_000), 1));
    v.push(param_simple("Mmd", "g", Scalar::from_micro(10_000_000), Scalar::from_micro(1_000_000), Scalar::from_micro(1_000_000_000), 1));
    v.push(param("Mms", "g", Scalar::from_micro(10_000_000), Scalar::from_micro(1_000_000), Scalar::from_micro(1_000_000_000), 1, Equation::Mms));
    v.push(param("Mas", "g / cm^4", Scalar::from_micro(10_000_000), Scalar::from_micro(1_000_000), Scalar::from_micro(1_000_000_000), 1, Equation::Mas));
    v.push(param_simple("Rms", "N * s / m", Scalar::from_micro(4_000_000), Scalar::from_micro(0), Scalar::from_micro(1_000_000_000), 1));
    v.push(param("Ras", "(Pa * s) / m^3", Scalar::from_micro(1_000_000), Scalar::from_micro(0), Scalar::from_micro(1_000_000_000), 1, Equation::Ras));
    v.push(param_simple("Cms", "m / N", Scalar::from_micro(1_000_000), Scalar::from_micro(100_000), Scalar::from_micro(1_000_000_000), 1));
    v.push(param("Cas", "m^5 / N", Scalar::from_micro(1_000_000), Scalar::from_micro(0), Scalar::from_micro(100_000_000), 1, Equation::Cas));
    v.push(param("Vas", "liter", Scalar::from_micro(1_000_000), Scalar::from_micro(0), Scalar::from_micro(100_000_000), 1, Equation::Vas));
    v.push(param_simple("Rg", "", Scalar::from_micro(0), Scalar::from_micro(0), Scalar::from_micro(1_000_000_000), 1));
    v.push(param("Ts", "s", Scalar::from_micro(20_000), Scalar::from_micro(200), Scalar::from_micro(200_000), 4, Equation::Ts));
    v.push(param("\u{3c9}s", "Hz", Scalar::from_micro(50_000_000), Scalar::from_micro(5_000_000), Scalar::from_micro(5_000_000_000), 1, Equation::Ws));
    v.push(param("Fs", "Hz", Scalar::from_micro(314_100_000), Scalar::from_micro(31_400_000), Scalar::from_micro(31_415_900_000), 1, Equation::Fs));
    v.push(param("Qes", "", Scalar::from_micro(500_000), Scalar::from_micro(0), Scalar::from_micro(30_000_000), 1, Equation::Qes));
    v.push(param("Qms", "", Scalar::from_micro(500_000), Scalar::from_micro(0), Scalar::from_micro(30_000_000), 1, Equation::Qms));
    v.push(param("Qts", "", Scalar::from_micro(500_000), Scalar::from_micro(0), Scalar::from_micro(30_000_000), 1, Equation::Qts));
    v.push(param("Qs", "", Scalar::from_micro(500_000), Scalar::from_micro(0), Scalar::from_micro(30_000_000), 1, Equation::Qs));
    v.push(param_simple("Cab", "m^5 / N", Scalar::from_micro(1_000_000), Scalar::from_micro(0), Scalar::from_micro(100_000_000), 1));
    v.push(param("Vb", "liter", Scalar::from_micro(100_000), Scalar::from_micro(0), Scalar::from_micro(100_000_000), 1, Equation::Vb));
    v.push(param("Vap", "liter", Scalar::from_micro(1_000_000), Scalar::from_micro(0), Scalar::from_micro(100_000_000), 1, Equation::Vap));
    v.push(param_simple("Cmp", "m / N", Scalar::from_micro(1_000_000), Scalar::from_micro(0), Scalar::from_micro(1_000_000_000), 1));
    v.push(param("Cap", "m^5 / N", Scalar::from_micro(1_000_000), Scalar::from_micro(0), Scalar::from_micro(100_000_000), 1, Equation::Cap));
    v.push(param_simple("Rmp", "N * s / m", Scalar::from_micro(4_000_000), Scalar::from_micro(0), Scalar::from_micro(1_000_000_000), 1));
    v.push(param("Rap", "ohm", Scalar::from_micro(1_000_000), Scalar::from_micro(0), Scalar::from_micro(1_000_000_000), 1, Equation::Rap));
    v.push(param_simple("Mmp", "kg", Scalar::from_micro(1_000_000), Scalar::from_micro(1_000), Scalar::from_micro(100_000_000), 3));
    v.push(param("Map", "kg / cm^2", Scalar::from_micro(1_000_000), Scalar::from_micro(0), Scalar::from_micro(1_000_000_000), 1, Equation::Mp));
    v.push(param_simple("Sp", "cm^2", Scalar::from_micro(10_000_000), Scalar::from_micro(0), Scalar::from_micro(1_000_000_000), 1));
    v.push(param("Qmp", "", Scalar::from_micro(500_000), Scalar::from_micro(0), Scalar::from_micro(30_000_000), 1, Equation::Qmp));
    v.push(param("\u{3c9}p", "Hz", Scalar::from_micro(20_000_000), Scalar::from_micro(0), Scalar::from_micro(1_000_000_000), 1, Equation::Wp));
    v.push(param("Fp", "Hz", Scalar::from_micro(120_000_000), Scalar::from_micro(0), Scalar::from_micro(6_282_000_000), 1, Equation::Fp));
    v.push(param("Tp", "s", Scalar::from_micro(50_000), Scalar::from_micro(0), Scalar::from_micro(100_000), 1, Equation::Tp));
    v.push(param("\u{3c9}b", "Hz", Scalar::from_micro(20_000_000), Scalar::from_micro(0), Scalar::from_micro(1_000_000_000), 1, Equation::Wb));
    v.push(param("Fb", "Hz", Scalar::from_micro(120_000_000), Scalar::from_micro(0), Scalar::from_micro(6_282_000_000), 1, Equation::Fb));
    v.push(param("Tb", "s", Scalar::from_micro(50_000), Scalar::from_micro(0), Scalar::from_micro(100_000), 1, Equation::Tb));
    v.push(param("\u{3b1}", "", Scalar::from_micro(3_000_000), Scalar::from_micro(0), Scalar::from_micro(100_000_000), 1, Equation::Alpha));
    v.push(param("\u{3b4}", "", Scalar::from_micro(7_000_000), Scalar::from_micro(0), Scalar::from_micro(100_000_000), 1, Equation::Delta));
    v.push(param("y", "", Scalar::from_micro(500_000), Scalar::from_micro(0), Scalar::from_micro(100_000_000), 1, Equation::Y));
    v.push(param("h", "", Scalar::from_micro(500_000), Scalar::from_micro(0), Scalar::from_micro(100_000_000), 1, Equation::H));
    v.push(param("\u{3b7}0", "", Scalar::from_micro(400_000), Scalar::from_micro(0), Scalar::from_micro(100_000_000), 1, Equation::Eta0));
    v.push(param_simple("\u{3c1}0", "kg / m^3", Scalar::from_micro(1_183_900), Scalar::from_micro(1_000_000), Scalar::from_micro(1_400_000), 4));
    v.push(param_simple("c", "m/s", Scalar::from_micro(345_000_000), Scalar::from_micro(340_000_000), Scalar::from_micro(350_000_000), 1));
    v.push(param_simple("t", "s", Scalar::from_micro(1_000_000), Scalar::from_micro(900_000), Scalar::from_micro(1_100_000), 1));
    let p = Parameters { params: v };
    proof {
        assert forall|i: int| 0 <= i < N_PARAMS implies #[trigger] p@[i] == default_model(i) by {
            assert(p@[i] == p.params@[i]@);
        }
    }
    p
}

} // verus!
