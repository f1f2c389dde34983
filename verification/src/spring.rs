//! Classified spring attributes and their wire strings.
//!
//! Each attribute is a small closed enum; upstream text fields are
//! parsed permissively (an unknown string becomes `None` at the call
//! site rather than failing the request).

use crate::eq_str;
use vstd::prelude::*;

verus! {

/// Liquid acidity.  Only the alkaline readings affect the rendered
/// spring name; the others render as an empty prefix.
#[derive(Clone, Copy, PartialEq, Eq, Structural, Debug)]
pub enum SpringLiquid {
    Acidic,
    MildlyAcidic,
    Neutral,
    MildlyAlkaline,
    Alkaline,
}

impl SpringLiquid {
    pub open spec fn spec_str(self) -> Seq<char> {
        match self {
            SpringLiquid::Acidic => "acidic"@,
            SpringLiquid::MildlyAcidic => "mildly_acidic"@,
            SpringLiquid::Neutral => "neutral"@,
            SpringLiquid::MildlyAlkaline => "mildly_alkaline"@,
            SpringLiquid::Alkaline => "alkaline"@,
        }
    }

    pub open spec fn spec_from_str(s: Seq<char>) -> Option<SpringLiquid> {
        if s == "acidic"@ {
            Some(SpringLiquid::Acidic)
        } else if s == "mildly_acidic"@ {
            Some(SpringLiquid::MildlyAcidic)
        } else if s == "neutral"@ {
            Some(SpringLiquid::Neutral)
        } else if s == "mildly_alkaline"@ {
            Some(SpringLiquid::MildlyAlkaline)
        } else if s == "alkaline"@ {
            Some(SpringLiquid::Alkaline)
        } else {
            None
        }
    }

    pub fn to_string(&self) -> (r: String)
        ensures
            r@ == self.spec_str(),
    {
        match self {
            SpringLiquid::Acidic => "acidic".to_owned(),
            SpringLiquid::MildlyAcidic => "mildly_acidic".to_owned(),
            SpringLiquid::Neutral => "neutral".to_owned(),
            SpringLiquid::MildlyAlkaline => "mildly_alkaline".to_owned(),
            SpringLiquid::Alkaline => "alkaline".to_owned(),
        }
    }

    pub fn from_str(s: &str) -> (r: Option<SpringLiquid>)
        ensures
            r == Self::spec_from_str(s@),
    {
        if eq_str(s, "acidic") {
            Some(SpringLiquid::Acidic)
        } else if eq_str(s, "mildly_acidic") {
            Some(SpringLiquid::MildlyAcidic)
        } else if eq_str(s, "neutral") {
            Some(SpringLiquid::Neutral)
        } else if eq_str(s, "mildly_alkaline") {
            Some(SpringLiquid::MildlyAlkaline)
        } else if eq_str(s, "alkaline") {
            Some(SpringLiquid::Alkaline)
        } else {
            None
        }
    }
}

/// The liquid reading parsed from an optional upstream text field.
pub open spec fn spec_opt_liquid(v: Option<&str>) -> Option<SpringLiquid> {
    match v {
        Some(s) => SpringLiquid::spec_from_str(s@),
        None => None,
    }
}

/// Osmotic pressure class.
#[derive(Clone, Copy, PartialEq, Eq, Structural, Debug)]
pub enum SpringOsmoticPressure {
    Hypotonic,
    Isotonic,
    Hypertonic,
}

impl SpringOsmoticPressure {
    pub open spec fn spec_str(self) -> Seq<char> {
        match self {
            SpringOsmoticPressure::Hypotonic => "hypotonic"@,
            SpringOsmoticPressure::Isotonic => "isotonic"@,
            SpringOsmoticPressure::Hypertonic => "hypertonic"@,
        }
    }

    pub open spec fn spec_from_str(s: Seq<char>) -> Option<SpringOsmoticPressure> {
        if s == "hypotonic"@ {
            Some(SpringOsmoticPressure::Hypotonic)
        } else if s == "isotonic"@ {
            Some(SpringOsmoticPressure::Isotonic)
        } else if s == "hypertonic"@ {
            Some(SpringOsmoticPressure::Hypertonic)
        } else {
            None
        }
    }

    pub fn to_string(&self) -> (r: String)
        ensures
            r@ == self.spec_str(),
    {
        match self {
            SpringOsmoticPressure::Hypotonic => "hypotonic".to_owned(),
            SpringOsmoticPressure::Isotonic => "isotonic".to_owned(),
            SpringOsmoticPressure::Hypertonic => "hypertonic".to_owned(),
        }
    }

    pub fn from_str(s: &str) -> (r: Option<SpringOsmoticPressure>)
        ensures
            r == Self::spec_from_str(s@),
    {
        if eq_str(s, "hypotonic") {
            Some(SpringOsmoticPressure::Hypotonic)
        } else if eq_str(s, "isotonic") {
            Some(SpringOsmoticPressure::Isotonic)
        } else if eq_str(s, "hypertonic") {
            Some(SpringOsmoticPressure::Hypertonic)
        } else {
            None
        }
    }
}

/// The osmotic-pressure class parsed from an optional upstream text
/// field.
pub open spec fn spec_opt_osmotic_pressure(v: Option<&str>) -> Option<SpringOsmoticPressure> {
    match v {
        Some(s) => SpringOsmoticPressure::spec_from_str(s@),
        None => None,
    }
}

/// Temperature class.
#[derive(Clone, Copy, PartialEq, Eq, Structural, Debug)]
pub enum SpringTemperature {
    Hot,
    Warm,
    Cool,
    Cold,
}

impl SpringTemperature {
    pub open spec fn spec_str(self) -> Seq<char> {
        match self {
            SpringTemperature::Hot => "hot"@,
            SpringTemperature::Warm => "normal"@,
            SpringTemperature::Cool => "cool"@,
            SpringTemperature::Cold => "cold"@,
        }
    }

    pub open spec fn spec_from_str(s: Seq<char>) -> Option<SpringTemperature> {
        if s == "hot"@ {
            Some(SpringTemperature::Hot)
        } else if s == "normal"@ {
            Some(SpringTemperature::Warm)
        } else if s == "cool"@ {
            Some(SpringTemperature::Cool)
        } else if s == "cold"@ {
            Some(SpringTemperature::Cold)
        } else {
            None
        }
    }

    pub fn to_string(&self) -> (r: String)
        ensures
            r@ == self.spec_str(),
    {
        match self {
            SpringTemperature::Hot => "hot".to_owned(),
            SpringTemperature::Warm => "normal".to_owned(),
            SpringTemperature::Cool => "cool".to_owned(),
            SpringTemperature::Cold => "cold".to_owned(),
        }
    }

    pub fn from_str(s: &str) -> (r: Option<SpringTemperature>)
        ensures
            r == Self::spec_from_str(s@),
    {
        if eq_str(s, "hot") {
            Some(SpringTemperature::Hot)
        } else if eq_str(s, "normal") {
            Some(SpringTemperature::Warm)
        } else if eq_str(s, "cool") {
            Some(SpringTemperature::Cool)
        } else if eq_str(s, "cold") {
            Some(SpringTemperature::Cold)
        } else {
            None
        }
    }
}

/// The temperature class parsed from an optional upstream text field.
pub open spec fn spec_opt_temperature(v: Option<&str>) -> Option<SpringTemperature> {
    match v {
        Some(s) => SpringTemperature::spec_from_str(s@),
        None => None,
    }
}

/// Mode of operation of the bath.
#[derive(Clone, Copy, PartialEq, Eq, Structural, Debug)]
pub enum SpringForm {
    Uchiyu,
    Sotoyu,
}

impl SpringForm {
    pub open spec fn spec_str(self) -> Seq<char> {
        match self {
            SpringForm::Uchiyu => "uchiyu"@,
            SpringForm::Sotoyu => "sotoyu"@,
        }
    }

    pub open spec fn spec_from_str(s: Seq<char>) -> Option<SpringForm> {
        if s == "uchiyu"@ {
            Some(SpringForm::Uchiyu)
        } else if s == "sotoyu"@ {
            Some(SpringForm::Sotoyu)
        } else {
            None
        }
    }

    pub fn to_string(&self) -> (r: String)
        ensures
            r@ == self.spec_str(),
    {
        match self {
            SpringForm::Uchiyu => "uchiyu".to_owned(),
            SpringForm::Sotoyu => "sotoyu".to_owned(),
        }
    }

    pub fn from_str(s: &str) -> (r: Option<SpringForm>)
        ensures
            r == Self::spec_from_str(s@),
    {
        if eq_str(s, "uchiyu") {
            Some(SpringForm::Uchiyu)
        } else if eq_str(s, "sotoyu") {
            Some(SpringForm::Sotoyu)
        } else {
            None
        }
    }
}

} // verus!
