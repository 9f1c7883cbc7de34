//! The parameter set: a fixed arena of named physical quantities.
//!
//! Each parameter carries a display unit, slider bounds, a display precision
//! and, for a derived quantity, the equation that recomputes it from the
//! others.  Parameters are addressed by a stable index; lookup by name scans
//! the arena.  Bounds are advisory for sliders: setting a value does not
//! clamp it.

use vstd::prelude::*;

use crate::equations::Equation;
use crate::scalar::{fx_add, fx_div, fx_mul, fx_sub, Scalar};

verus! {

/// How many parameters the model has.
pub const N_PARAMS: usize = 46;

// Driver parameters.
pub const IDX_XMAX: usize = 0;

pub const IDX_VD: usize = 1;

pub const IDX_SD: usize = 2;

pub const IDX_BL: usize = 3;

pub const IDX_RE: usize = 4;

pub const IDX_MMD: usize = 5;

pub const IDX_MMS: usize = 6;

pub const IDX_MAS: usize = 7;

pub const IDX_RMS: usize = 8;

pub const IDX_RAS: usize = 9;

pub const IDX_CMS: usize = 10;

pub const IDX_CAS: usize = 11;

pub const IDX_VAS: usize = 12;

pub const IDX_RG: usize = 13;

pub const IDX_TS: usize = 14;

pub const IDX_WS: usize = 15;

pub const IDX_FS: usize = 16;

pub const IDX_QES: usize = 17;

pub const IDX_QMS: usize = 18;

pub const IDX_QTS: usize = 19;

pub const IDX_QS: usize = 20;

pub const IDX_CAB: usize = 21;

pub const IDX_VB: usize = 22;

// Passive-radiator parameters.
pub const IDX_VAP: usize = 23;

pub const IDX_CMP: usize = 24;

pub const IDX_CAP: usize = 25;

pub const IDX_RMP: usize = 26;

pub const IDX_RAP: usize = 27;

pub const IDX_MMP: usize = 28;

pub const IDX_MAP: usize = 29;

pub const IDX_SP: usize = 30;

pub const IDX_QMP: usize = 31;

pub const IDX_WP: usize = 32;

pub const IDX_FP: usize = 33;

pub const IDX_TP: usize = 34;

// Enclosure parameters.
pub const IDX_WB: usize = 35;

pub const IDX_FB: usize = 36;

pub const IDX_TB: usize = 37;

pub const IDX_ALPHA: usize = 38;

pub const IDX_DELTA: usize = 39;

pub const IDX_Y: usize = 40;

pub const IDX_H: usize = 41;

pub const IDX_ETA0: usize = 42;

// Environment constants.
pub const IDX_RHO0: usize = 43;

pub const IDX_C: usize = 44;

pub const IDX_T: usize = 45;

/// The errors the parameter set and the preset loader report.  All are
/// recovered locally by the caller: a record is skipped and processing
/// continues.
#[derive(Clone, Copy, PartialEq, Eq, Structural, Debug)]
pub enum BassError {
    /// A lookup by name found no parameter of that name.
    UnknownParameter,
    /// A numeric field of an external record did not parse.
    MalformedInput,
    /// An external record did not hold exactly the expected field count.
    WrongRecordLength,
}

/// The mathematical content of one parameter.
pub ghost struct ParamModel {
    pub name: Seq<char>,
    pub unit: Seq<char>,
    pub value: Option<int>,
    pub min: Option<int>,
    pub max: Option<int>,
    pub precision: nat,
    pub derivation: Option<Equation>,
}

/// `m` with its value replaced.
pub open spec fn pm_with_value(m: ParamModel, v: Option<int>) -> ParamModel {
    ParamModel { value: v, ..m }
}

/// `m` with its precision replaced.
pub open spec fn pm_with_precision(m: ParamModel, n: nat) -> ParamModel {
    ParamModel { precision: n, ..m }
}

/// The percentage of the way `m`'s value sits between its bounds
/// (unclamped; non-finite when the bounds coincide).
pub open spec fn spec_to_percent(m: ParamModel) -> Option<int> {
    fx_div(fx_sub(m.value, m.min), fx_sub(m.max, m.min))
}

/// The value a fraction `p` of the way from `m`'s lower to its upper bound.
pub open spec fn spec_percent_value(m: ParamModel, p: Option<int>) -> Option<int> {
    fx_add(m.min, fx_mul(p, fx_sub(m.max, m.min)))
}

/// One named physical quantity.
pub struct Param {
    pub name: String,
    pub unit: String,
    pub value: Scalar,
    pub min: Scalar,
    pub max: Scalar,
    pub precision: usize,
    pub derivation: Option<Equation>,
}

impl View for Param {
    type V = ParamModel;

    open spec fn view(&self) -> ParamModel {
        ParamModel {
            name: self.name@,
            unit: self.unit@,
            value: self.value@,
            min: self.min@,
            max: self.max@,
            precision: self.precision as nat,
            derivation: self.derivation,
        }
    }
}

impl Param {
    /// The current value.
    pub fn v(&self) -> (r: Scalar)
        ensures
            r@ == self@.value,
    {
        self.value
    }

    /// Overwrite the value.  Bounds are advisory: no clamping.
    pub fn set(&mut self, new_value: Scalar)
        ensures
            final(self)@ == pm_with_value(old(self)@, new_value@),
    {
        self.value = new_value;
    }

    /// Where the value sits between the bounds, as a fraction of the span.
    pub fn to_percent(&self) -> (r: Scalar)
        ensures
            r@ == spec_to_percent(self@),
    {
        self.value.sub(self.min).div(self.max.sub(self.min))
    }

    /// Set the value to the fraction `percent` of the way across the bounds.
    pub fn set_percent(&mut self, percent: Scalar)
        ensures
            final(self)@ == pm_with_value(
                old(self)@,
                spec_percent_value(old(self)@, percent@),
            ),
    {
        self.value = self.min.add(percent.mul(self.max.sub(self.min)));
    }

    /// The display precision (decimal digits).
    pub fn precision(&self) -> (r: usize)
        ensures
            r as nat == self@.precision,
    {
        self.precision
    }

    /// Update the display precision; the stored value is untouched.
    pub fn set_precision(&mut self, precision: usize)
        ensures
            final(self)@ == pm_with_precision(old(self)@, precision as nat),
    {
        self.precision = precision;
    }
}

/// Build a parameter with a derivation choice.
pub fn make_param(
    name: &str,
    unit: &str,
    value: Scalar,
    min: Scalar,
    max: Scalar,
    precision: usize,
    update: Option<Equation>,
) -> (p: Param)
    ensures
        p@.name == name@,
        p@.unit == unit@,
        p@.value == value@,
        p@.min == min@,
        p@.max == max@,
        p@.precision == precision as nat,
        p@.derivation == update,
{
    Param {
        name: name.to_owned(),
        unit: unit.to_owned(),
        value,
        min,
        max,
        precision,
        derivation: update,
    }
}

/// Build an independent (user-editable) parameter.
pub fn param_simple(
    name: &str,
    unit: &str,
    value: Scalar,
    min: Scalar,
    max: Scalar,
    precision: usize,
) -> (p: Param)
    ensures
        p@.name == name@,
        p@.unit == unit@,
        p@.value == value@,
        p@.min == min@,
        p@.max == max@,
        p@.precision == precision as nat,
        p@.derivation == None::<Equation>,
{
    make_param(name, unit, value, min, max, precision, None)
}

/// Build a derived parameter recomputed by `update`.
pub fn param(
    name: &str,
    unit: &str,
    value: Scalar,
    min: Scalar,
    max: Scalar,
    precision: usize,
    update: Equation,
) -> (p: Param)
    ensures
        p@.name == name@,
        p@.unit == unit@,
        p@.value == value@,
        p@.min == min@,
        p@.max == max@,
        p@.precision == precision as nat,
        p@.derivation == Some(update),
{
    make_param(name, unit, value, min, max, precision, Some(update))
}

/// The full parameter set: the arena of all 46 parameters.
pub struct Parameters {
    pub params: Vec<Param>,
}

/// The values of a parameter-set model, by index.
pub open spec fn vals(s: Seq<ParamModel>) -> Seq<Option<int>> {
    s.map_values(|m: ParamModel| m.value)
}

impl View for Parameters {
    type V = Seq<ParamModel>;

    open spec fn view(&self) -> Seq<ParamModel> {
        self.params@.map_values(|p: Param| p@)
    }
}

/// The canonical name of the parameter at each index.
pub open spec fn param_name(i: int) -> Seq<char> {
    if i == 0 {
        "Xmax"@
    } else if i == 1 {
        "Vd"@
    } else if i == 2 {
        "Sd"@
    } else if i == 3 {
        "Bl"@
    } else if i == 4 {
        "Re"@
    } else if i == 5 {
        "Mmd"@
    } else if i == 6 {
        "Mms"@
    } else if i == 7 {
        "Mas"@
    } else if i == 8 {
        "Rms"@
    } else if i == 9 {
        "Ras"@
    } else if i == 10 {
        "Cms"@
    } else if i == 11 {
        "Cas"@
    } else if i == 12 {
        "Vas"@
    } else if i == 13 {
        "Rg"@
    } else if i == 14 {
        "Ts"@
    } else if i == 15 {
        "\u{3c9}s"@
    } else if i == 16 {
        "Fs"@
    } else if i == 17 {
        "Qes"@
    } else if i == 18 {
        "Qms"@
    } else if i == 19 {
        "Qts"@
    } else if i == 20 {
        "Qs"@
    } else if i == 21 {
        "Cab"@
    } else if i == 22 {
        "Vb"@
    } else if i == 23 {
        "Vap"@
    } else if i == 24 {
        "Cmp"@
    } else if i == 25 {
        "Cap"@
    } else if i == 26 {
        "Rmp"@
    } else if i == 27 {
        "Rap"@
    } else if i == 28 {
        "Mmp"@
    } else if i == 29 {
        "Map"@
    } else if i == 30 {
        "Sp"@
    } else if i == 31 {
        "Qmp"@
    } else if i == 32 {
        "\u{3c9}p"@
    } else if i == 33 {
        "Fp"@
    } else if i == 34 {
        "Tp"@
    } else if i == 35 {
        "\u{3c9}b"@
    } else if i == 36 {
        "Fb"@
    } else if i == 37 {
        "Tb"@
    } else if i == 38 {
        "\u{3b1}"@
    } else if i == 39 {
        "\u{3b4}"@
    } else if i == 40 {
        "y"@
    } else if i == 41 {
        "h"@
    } else if i == 42 {
        "\u{3b7}0"@
    } else if i == 43 {
        "\u{3c1}0"@
    } else if i == 44 {
        "c"@
    } else {
        "t"@
    }
}

/// The derivation of the parameter at each index: `None` for an independent
/// input, the equation that recomputes it otherwise.
pub open spec fn param_derivation(i: int) -> Option<Equation> {
    if i == 1 {
        Some(Equation::Vd)
    } else if i == 6 {
        Some(Equation::Mms)
    } else if i == 7 {
        Some(Equation::Mas)
    } else if i == 9 {
        Some(Equation::Ras)
    } else if i == 11 {
        Some(Equation::Cas)
    } else if i == 12 {
        Some(Equation::Vas)
    } else if i == 14 {
        Some(Equation::Ts)
    } else if i == 15 {
        Some(Equation::Ws)
    } else if i == 16 {
        Some(Equation::Fs)
    } else if i == 17 {
        Some(Equation::Qes)
    } else if i == 18 {
        Some(Equation::Qms)
    } else if i == 19 {
        Some(Equation::Qts)
    } else if i == 20 {
        Some(Equation::Qs)
    } else if i == 22 {
        Some(Equation::Vb)
    } else if i == 23 {
        Some(Equation::Vap)
    } else if i == 25 {
        Some(Equation::Cap)
    } else if i == 27 {
        Some(Equation::Rap)
    } else if i == 29 {
        Some(Equation::Mp)
    } else if i == 31 {
        Some(Equation::Qmp)
    } else if i == 32 {
        Some(Equation::Wp)
    } else if i == 33 {
        Some(Equation::Fp)
    } else if i == 34 {
        Some(Equation::Tp)
    } else if i == 35 {
        Some(Equation::Wb)
    } else if i == 36 {
        Some(Equation::Fb)
    } else if i == 37 {
        Some(Equation::Tb)
    } else if i == 38 {
        Some(Equation::Alpha)
    } else if i == 39 {
        Some(Equation::Delta)
    } else if i == 40 {
        Some(Equation::Y)
    } else if i == 41 {
        Some(Equation::H)
    } else if i == 42 {
        Some(Equation::Eta0)
    } else {
        None
    }
}

/// The first index at or after `k` whose parameter bears `name`.
pub open spec fn spec_lookup_from(s: Seq<ParamModel>, name: Seq<char>, k: int) -> Option<int>
    decreases s.len() - k,
{
    if k < 0 || k >= s.len() {
        None
    } else if s[k].name == name {
        Some(k)
    } else {
        spec_lookup_from(s, name, k + 1)
    }
}

/// The index of the first parameter named `name`, if any.
pub open spec fn spec_lookup(s: Seq<ParamModel>, name: Seq<char>) -> Option<int> {
    spec_lookup_from(s, name, 0)
}

impl Parameters {
    /// The arena holds every parameter of the model.
    pub open spec fn well_sized(self) -> bool {
        self.params@.len() == N_PARAMS
    }

    /// Well-formedness: full arena, canonical names and derivations.
    pub open spec fn wf(self) -> bool {
        &&& self.well_sized()
        &&& forall|i: int|
            0 <= i < N_PARAMS ==> (#[trigger] self@[i]).name == param_name(i)
        &&& forall|i: int|
            0 <= i < N_PARAMS ==> (#[trigger] self@[i]).derivation == param_derivation(i)
    }

    /// How many parameters there are.
    pub fn len(&self) -> (r: usize)
        ensures
            r == self@.len(),
    {
        self.params.len()
    }

    /// The parameter at an index.
    pub fn param_at(&self, i: usize) -> (r: &Param)
        requires
            i < self@.len(),
        ensures
            r@ == self@[i as int],
    {
        &self.params[i]
    }

    /// The index of the parameter with the given name, scanning in arena
    /// order; `None` when no parameter bears the name.
    pub fn get(&self, name: &str) -> (r: Option<usize>)
        ensures
            spec_lookup(self@, name@) == match r {
                Some(k) => Some(k as int),
                None => None::<int>,
            },
            r matches Some(k) ==> k < self@.len(),
    {
        let key: String = name.to_owned();
        let n = self.params.len();
        let mut k: usize = 0;
        while k < n
            invariant
                n == self@.len(),
                k <= n,
                key@ == name@,
                spec_lookup(self@, name@) == spec_lookup_from(self@, name@, k as int),
            decreases n - k,
        {
            if self.params[k].name == key {
                return Some(k);
            }
            k = k + 1;
        }
        None
    }

    /// Replace the value at an index, leaving every other field and every
    /// other parameter unchanged.
    pub fn set_value_at(&mut self, k: usize, v: Scalar)
        requires
            k < old(self)@.len(),
        ensures
            final(self)@ =~= old(self)@.update(k as int, pm_with_value(old(self)@[k as int], v@)),
    {
        let p = &self.params[k];
        let q = Param {
            name: p.name.clone(),
            unit: p.unit.clone(),
            value: v,
            min: p.min,
            max: p.max,
            precision: p.precision,
            derivation: p.derivation,
        };
        self.params[k] = q;
    }

    /// Replace the display precision at an index.
    pub fn set_precision_at(&mut self, k: usize, n: usize)
        requires
            k < old(self)@.len(),
        ensures
            final(self)@ =~= old(self)@.update(
                k as int,
                pm_with_precision(old(self)@[k as int], n as nat),
            ),
    {
        let p = &self.params[k];
        let q = Param {
            name: p.name.clone(),
            unit: p.unit.clone(),
            value: p.value,
            min: p.min,
            max: p.max,
            precision: n,
            derivation: p.derivation,
        };
        self.params[k] = q;
    }

    /// The current value of the parameter named `name`, or
    /// `UnknownParameter`.
    pub fn get_value(&self, name: &str) -> (r: Result<Scalar, BassError>)
        ensures
            match spec_lookup(self@, name@) {
                Some(k) => r matches Ok(v) && v@ == self@[k].value,
                None => r == Err::<Scalar, BassError>(BassError::UnknownParameter),
            },
    {
        match self.get(name) {
            Some(k) => Ok(self.params[k].value),
            None => Err(BassError::UnknownParameter),
        }
    }

    /// Overwrite the value of the parameter named `name` (no clamping), or
    /// report `UnknownParameter` and change nothing.
    pub fn set_value(&mut self, name: &str, v: Scalar) -> (r: Result<(), BassError>)
        ensures
            match spec_lookup(old(self)@, name@) {
                Some(k) => r is Ok && final(self)@ =~= old(self)@.update(
                    k,
                    pm_with_value(old(self)@[k], v@),
                ),
                None => r == Err::<(), BassError>(BassError::UnknownParameter) && final(self)@
                    == old(self)@,
            },
    {
        match self.get(name) {
            Some(k) => {
                self.set_value_at(k, v);
                Ok(())
            },
            None => Err(BassError::UnknownParameter),
        }
    }

    /// Map `percent` linearly onto the named parameter's bounds and store
    /// the result; the inverse of `to_percent`.
    pub fn set_percent(&mut self, name: &str, percent: Scalar) -> (r: Result<(), BassError>)
        ensures
            match spec_lookup(old(self)@, name@) {
                Some(k) => r is Ok && final(self)@ =~= old(self)@.update(
                    k,
                    pm_with_value(
                        old(self)@[k],
                        spec_percent_value(old(self)@[k], percent@),
                    ),
                ),
                None => r == Err::<(), BassError>(BassError::UnknownParameter) && final(self)@
                    == old(self)@,
            },
    {
        match self.get(name) {
            Some(k) => {
                let p = &self.params[k];
                let v = p.min.add(percent.mul(p.max.sub(p.min)));
                self.set_value_at(k, v);
                Ok(())
            },
            None => Err(BassError::UnknownParameter),
        }
    }

    /// Where the named parameter's value sits between its bounds, unclamped.
    pub fn to_percent(&self, name: &str) -> (r: Result<Scalar, BassError>)
        ensures
            match spec_lookup(self@, name@) {
                Some(k) => r matches Ok(v) && v@ == spec_to_percent(self@[k]),
                None => r == Err::<Scalar, BassError>(BassError::UnknownParameter),
            },
    {
        match self.get(name) {
            Some(k) => {
                let p = &self.params[k];
                Ok(p.value.sub(p.min).div(p.max.sub(p.min)))
            },
            None => Err(BassError::UnknownParameter),
        }
    }

    /// Update the named parameter's display precision; its value is
    /// untouched.
    pub fn set_precision(&mut self, name: &str, n: usize) -> (r: Result<(), BassError>)
        ensures
            match spec_lookup(old(self)@, name@) {
                Some(k) => r is Ok && final(self)@ =~= old(self)@.update(
                    k,
                    pm_with_precision(old(self)@[k], n as nat),
                ),
                None => r == Err::<(), BassError>(BassError::UnknownParameter) && final(self)@
                    == old(self)@,
            },
    {
        match self.get(name) {
            Some(k) => {
                self.set_precision_at(k, n);
                Ok(())
            },
            None => Err(BassError::UnknownParameter),
        }
    }
}


/// The canonical names are pairwise distinct: the arena is a unique-key
/// mapping.
#[verifier::rlimit(100)]
pub proof fn lemma_param_names_unique(i: int, j: int)
    requires
        0 <= i < N_PARAMS,
        0 <= j < N_PARAMS,
        i != j,
    ensures
        param_name(i) != param_name(j),
{
    reveal_strlit("Xmax");
    reveal_strlit("Vd");
    reveal_strlit("Sd");
    reveal_strlit("Bl");
    reveal_strlit("Re");
    reveal_strlit("Mmd");
    reveal_strlit("Mms");
    reveal_strlit("Mas");
    reveal_strlit("Rms");
    reveal_strlit("Ras");
    reveal_strlit("Cms");
    reveal_strlit("Cas");
    reveal_strlit("Vas");
    reveal_strlit("Rg");
    reveal_strlit("Ts");
    reveal_strlit("\u{3c9}s");
    reveal_strlit("Fs");
    reveal_strlit("Qes");
    reveal_strlit("Qms");
    reveal_strlit("Qts");
    reveal_strlit("Qs");
    reveal_strlit("Cab");
    reveal_strlit("Vb");
    reveal_strlit("Vap");
    reveal_strlit("Cmp");
    reveal_strlit("Cap");
    reveal_strlit("Rmp");
    reveal_strlit("Rap");
    reveal_strlit("Mmp");
    reveal_strlit("Map");
    reveal_strlit("Sp");
    reveal_strlit("Qmp");
    reveal_strlit("\u{3c9}p");
    reveal_strlit("Fp");
    reveal_strlit("Tp");
    reveal_strlit("\u{3c9}b");
    reveal_strlit("Fb");
    reveal_strlit("Tb");
    reveal_strlit("\u{3b1}");
    reveal_strlit("\u{3b4}");
    reveal_strlit("y");
    reveal_strlit("h");
    reveal_strlit("\u{3b7}0");
    reveal_strlit("\u{3c1}0");
    reveal_strlit("c");
    reveal_strlit("t");
    assert("Xmax"@.len() == 4);
    assert("Xmax"@[0] == 'X');
    assert("Xmax"@[1] == 'm');
    assert("Xmax"@[2] == 'a');
    assert("Vd"@.len() == 2);
    assert("Vd"@[0] == 'V');
    assert("Vd"@[1] == 'd');
    assert("Sd"@.len() == 2);
    assert("Sd"@[0] == 'S');
    assert("Sd"@[1] == 'd');
    assert("Bl"@.len() == 2);
    assert("Bl"@[0] == 'B');
    assert("Bl"@[1] == 'l');
    assert("Re"@.len() == 2);
    assert("Re"@[0] == 'R');
    assert("Re"@[1] == 'e');
    assert("Mmd"@.len() == 3);
    assert("Mmd"@[0] == 'M');
    assert("Mmd"@[1] == 'm');
    assert("Mmd"@[2] == 'd');
    assert("Mms"@.len() == 3);
    assert("Mms"@[0] == 'M');
    assert("Mms"@[1] == 'm');
    assert("Mms"@[2] == 's');
    assert("Mas"@.len() == 3);
    assert("Mas"@[0] == 'M');
    assert("Mas"@[1] == 'a');
    assert("Mas"@[2] == 's');
    assert("Rms"@.len() == 3);
    assert("Rms"@[0] == 'R');
    assert("Rms"@[1] == 'm');
    assert("Rms"@[2] == 's');
    assert("Ras"@.len() == 3);
    assert("Ras"@[0] == 'R');
    assert("Ras"@[1] == 'a');
    assert("Ras"@[2] == 's');
    assert("Cms"@.len() == 3);
    assert("Cms"@[0] == 'C');
    assert("Cms"@[1] == 'm');
    assert("Cms"@[2] == 's');
    assert("Cas"@.len() == 3);
    assert("Cas"@[0] == 'C');
    assert("Cas"@[1] == 'a');
    assert("Cas"@[2] == 's');
    assert("Vas"@.len() == 3);
    assert("Vas"@[0] == 'V');
    assert("Vas"@[1] == 'a');
    assert("Vas"@[2] == 's');
    assert("Rg"@.len() == 2);
    assert("Rg"@[0] == 'R');
    assert("Rg"@[1] == 'g');
    assert("Ts"@.len() == 2);
    assert("Ts"@[0] == 'T');
    assert("Ts"@[1] == 's');
    assert("\u{3c9}s"@.len() == 2);
    assert("\u{3c9}s"@[0] == '\u{3c9}');
    assert("\u{3c9}s"@[1] == 's');
    assert("Fs"@.len() == 2);
    assert("Fs"@[0] == 'F');
    assert("Fs"@[1] == 's');
    assert("Qes"@.len() == 3);
    assert("Qes"@[0] == 'Q');
    assert("Qes"@[1] == 'e');
    assert("Qes"@[2] == 's');
    assert("Qms"@.len() == 3);
    assert("Qms"@[0] == 'Q');
    assert("Qms"@[1] == 'm');
    assert("Qms"@[2] == 's');
    assert("Qts"@.len() == 3);
    assert("Qts"@[0] == 'Q');
    assert("Qts"@[1] == 't');
    assert("Qts"@[2] == 's');
    assert("Qs"@.len() == 2);
    assert("Qs"@[0] == 'Q');
    assert("Qs"@[1] == 's');
    assert("Cab"@.len() == 3);
    assert("Cab"@[0] == 'C');
    assert("Cab"@[1] == 'a');
    assert("Cab"@[2] == 'b');
    assert("Vb"@.len() == 2);
    assert("Vb"@[0] == 'V');
    assert("Vb"@[1] == 'b');
    assert("Vap"@.len() == 3);
    assert("Vap"@[0] == 'V');
    assert("Vap"@[1] == 'a');
    assert("Vap"@[2] == 'p');
    assert("Cmp"@.len() == 3);
    assert("Cmp"@[0] == 'C');
    assert("Cmp"@[1] == 'm');
    assert("Cmp"@[2] == 'p');
    assert("Cap"@.len() == 3);
    assert("Cap"@[0] == 'C');
    assert("Cap"@[1] == 'a');
    assert("Cap"@[2] == 'p');
    assert("Rmp"@.len() == 3);
    assert("Rmp"@[0] == 'R');
    assert("Rmp"@[1] == 'm');
    assert("Rmp"@[2] == 'p');
    assert("Rap"@.len() == 3);
    assert("Rap"@[0] == 'R');
    assert("Rap"@[1] == 'a');
    assert("Rap"@[2] == 'p');
    assert("Mmp"@.len() == 3);
    assert("Mmp"@[0] == 'M');
    assert("Mmp"@[1] == 'm');
    assert("Mmp"@[2] == 'p');
    assert("Map"@.len() == 3);
    assert("Map"@[0] == 'M');
    assert("Map"@[1] == 'a');
    assert("Map"@[2] == 'p');
    assert("Sp"@.len() == 2);
    assert("Sp"@[0] == 'S');
    assert("Sp"@[1] == 'p');
    assert("Qmp"@.len() == 3);
    assert("Qmp"@[0] == 'Q');
    assert("Qmp"@[1] == 'm');
    assert("Qmp"@[2] == 'p');
    assert("\u{3c9}p"@.len() == 2);
    assert("\u{3c9}p"@[0] == '\u{3c9}');
    assert("\u{3c9}p"@[1] == 'p');
    assert("Fp"@.len() == 2);
    assert("Fp"@[0] == 'F');
    assert("Fp"@[1] == 'p');
    assert("Tp"@.len() == 2);
    assert("Tp"@[0] == 'T');
    assert("Tp"@[1] == 'p');
    assert("\u{3c9}b"@.len() == 2);
    assert("\u{3c9}b"@[0] == '\u{3c9}');
    assert("\u{3c9}b"@[1] == 'b');
    assert("Fb"@.len() == 2);
    assert("Fb"@[0] == 'F');
    assert("Fb"@[1] == 'b');
    assert("Tb"@.len() == 2);
    assert("Tb"@[0] == 'T');
    assert("Tb"@[1] == 'b');
    assert("\u{3b1}"@.len() == 1);
    assert("\u{3b1}"@[0] == '\u{3b1}');
    assert("\u{3b4}"@.len() == 1);
    assert("\u{3b4}"@[0] == '\u{3b4}');
    assert("y"@.len() == 1);
    assert("y"@[0] == 'y');
    assert("h"@.len() == 1);
    assert("h"@[0] == 'h');
    assert("\u{3b7}0"@.len() == 2);
    assert("\u{3b7}0"@[0] == '\u{3b7}');
    assert("\u{3b7}0"@[1] == '0');
    assert("\u{3c1}0"@.len() == 2);
    assert("\u{3c1}0"@[0] == '\u{3c1}');
    assert("\u{3c1}0"@[1] == '0');
    assert("c"@.len() == 1);
    assert("c"@[0] == 'c');
    assert("t"@.len() == 1);
    assert("t"@[0] == 't');
}

/// Scanning from any point at or before `k` finds exactly `k` when looking
/// for its canonical name.
proof fn lemma_lookup_from_finds(s: Seq<ParamModel>, k: int, j: int)
    requires
        s.len() == N_PARAMS,
        forall|i: int| 0 <= i < N_PARAMS ==> (#[trigger] s[i]).name == param_name(i),
        0 <= j <= k < N_PARAMS,
    ensures
        spec_lookup_from(s, param_name(k), j) == Some(k),
    decreases k - j,
{
    if j < k {
        lemma_param_names_unique(j, k);
        lemma_lookup_from_finds(s, k, j + 1);
    }
}

/// In a well-formed arena, lookup by a canonical name finds exactly that
/// parameter's index: names address parameters uniquely.
pub proof fn lemma_lookup_finds_index(s: Seq<ParamModel>, k: int)
    requires
        s.len() == N_PARAMS,
        forall|i: int| 0 <= i < N_PARAMS ==> (#[trigger] s[i]).name == param_name(i),
        0 <= k < N_PARAMS,
    ensures
        spec_lookup(s, param_name(k)) == Some(k),
{
    lemma_lookup_from_finds(s, k, 0);
}


/// Whether the parameter at `i` directly reads the parameter at `j`: the
/// edge set of the dependency graph.  Independent inputs read nothing.
pub open spec fn spec_depends_on(i: int, j: int) -> bool {
    match param_derivation(i) {
        Some(e) => crate::equations::eq_reads(e, j),
        None => false,
    }
}

impl Parameters {
    /// Whether the parameter at `i` directly reads the parameter at `j`.
    pub fn depends_on(&self, i: usize, j: usize) -> (b: bool)
        requires
            self.wf(),
            i < N_PARAMS,
            j < N_PARAMS,
        ensures
            b == spec_depends_on(i as int, j as int),
    {
        match self.params[i].derivation {
            Some(e) => {
                proof {
                    assert(self@[i as int].derivation == param_derivation(i as int));
                }
                crate::equations::eq_reads_exec(e, j)
            },
            None => {
                proof {
                    assert(self@[i as int].derivation == param_derivation(i as int));
                }
                false
            },
        }
    }

    /// The parameters the one at `i` directly reads: its inputs, in index
    /// order (the forward dependency edges).
    pub fn children_of(&self, i: usize) -> (r: Vec<usize>)
        requires
            self.wf(),
            i < N_PARAMS,
        ensures
            forall|k: int|
                0 <= k < r@.len() ==> (#[trigger] r@[k]) < N_PARAMS && spec_depends_on(
                    i as int,
                    r@[k] as int,
                ),
            forall|j: int|
                0 <= j < N_PARAMS && spec_depends_on(i as int, j) ==> r@.contains(j as usize),
    {
        let mut r: Vec<usize> = Vec::new();
        let mut j: usize = 0;
        while j < N_PARAMS
            invariant
                self.wf(),
                i < N_PARAMS,
                j <= N_PARAMS,
                forall|k: int|
                    0 <= k < r@.len() ==> (#[trigger] r@[k]) < N_PARAMS && spec_depends_on(
                        i as int,
                        r@[k] as int,
                    ),
                forall|j2: int|
                    0 <= j2 < j && spec_depends_on(i as int, j2) ==> r@.contains(j2 as usize),
            decreases N_PARAMS - j,
        {
            if self.depends_on(i, j) {
                let ghost before = r@;
                r.push(j);
                proof {
                    assert(r@[before.len() as int] == j);
                    assert forall|j2: int|
                        0 <= j2 < j + 1 && spec_depends_on(i as int, j2) implies r@.contains(
                        j2 as usize,
                    ) by {
                        if j2 < j {
                            assert(before.contains(j2 as usize));
                            let k = choose|k: int| 0 <= k < before.len() && before[k] == j2 as usize;
                            assert(r@[k] == j2 as usize);
                        }
                    }
                }
            }
            j = j + 1;
        }
        r
    }

    /// The parameters that directly read the one at `j`: its dependents,
    /// in index order (the reverse dependency edges, for deciding what must
    /// be recomputed when `j` changes).
    pub fn parents_of(&self, j: usize) -> (r: Vec<usize>)
        requires
            self.wf(),
            j < N_PARAMS,
        ensures
            forall|k: int|
                0 <= k < r@.len() ==> (#[trigger] r@[k]) < N_PARAMS && spec_depends_on(
                    r@[k] as int,
                    j as int,
                ),
            forall|i: int|
                0 <= i < N_PARAMS && spec_depends_on(i, j as int) ==> r@.contains(i as usize),
    {
        let mut r: Vec<usize> = Vec::new();
        let mut i: usize = 0;
        while i < N_PARAMS
            invariant
                self.wf(),
                j < N_PARAMS,
                i <= N_PARAMS,
                forall|k: int|
                    0 <= k < r@.len() ==> (#[trigger] r@[k]) < N_PARAMS && spec_depends_on(
                        r@[k] as int,
                        j as int,
                    ),
                forall|i2: int|
                    0 <= i2 < i && spec_depends_on(i2, j as int) ==> r@.contains(i2 as usize),
            decreases N_PARAMS - i,
        {
            if self.depends_on(i, j) {
                let ghost before = r@;
                r.push(i);
                proof {
                    assert(r@[before.len() as int] == i);
                    assert forall|i2: int|
                        0 <= i2 < i + 1 && spec_depends_on(i2, j as int) implies r@.contains(
                        i2 as usize,
                    ) by {
                        if i2 < i {
                            assert(before.contains(i2 as usize));
                            let k = choose|k: int| 0 <= k < before.len() && before[k] == i2 as usize;
                            assert(r@[k] == i2 as usize);
                        }
                    }
                }
            }
            i = i + 1;
        }
        r
    }
}

} // verus!
