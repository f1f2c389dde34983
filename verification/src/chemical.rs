//! The closed taxonomy of dissolved chemical constituents.
//!
//! Every constituent belongs to exactly one of three regulatory
//! groupings (cation, anion, inclusion) and carries a fixed localized
//! label.  Chlorine, iron and radon additionally carry a sub-modifier
//! that refines the label.

use vstd::prelude::*;

verus! {

/// Strength modifier of the chloride ion.
#[derive(Clone, Copy, PartialEq, Eq, Structural, Debug)]
pub enum ClType {
    Normal,
    Strong,
}

/// Valence modifier of the iron ion.
#[derive(Clone, Copy, PartialEq, Eq, Structural, Debug)]
pub enum FeType {
    Normal,
    Two,
    Three,
}

/// Strength modifier of radon.
#[derive(Clone, Copy, PartialEq, Eq, Structural, Debug)]
pub enum RnType {
    Normal,
    Weak,
}

/// A dissolved chemical constituent tracked for spring naming.
#[derive(Clone, Copy, PartialEq, Eq, Structural, Debug)]
pub enum Chemical {
    NaIon,
    CaIon,
    MgIon,
    ClIon(ClType),
    HCO3Ion,
    SO4Ion,
    CO2,
    FeIon(FeType),
    AlIon,
    CuIon,
    HIon,
    IIon,
    S,
    Rn(RnType),
}

impl Chemical {
    /// Whether this constituent is grouped with the cations.
    pub open spec fn spec_is_cation(self) -> bool {
        match self {
            Chemical::NaIon | Chemical::CaIon | Chemical::MgIon => true,
            _ => false,
        }
    }

    /// Whether this constituent is grouped with the anions.
    pub open spec fn spec_is_anion(self) -> bool {
        match self {
            Chemical::ClIon(_) | Chemical::HCO3Ion | Chemical::SO4Ion => true,
            _ => false,
        }
    }

    /// Whether this constituent is grouped with the inclusions.
    pub open spec fn spec_is_inclusion(self) -> bool {
        !self.spec_is_cation() && !self.spec_is_anion()
    }

    pub fn is_cation(&self) -> (r: bool)
        ensures
            r == self.spec_is_cation(),
    {
        match self {
            Chemical::NaIon | Chemical::CaIon | Chemical::MgIon => true,
            _ => false,
        }
    }

    pub fn is_anion(&self) -> (r: bool)
        ensures
            r == self.spec_is_anion(),
    {
        match self {
            Chemical::ClIon(_) | Chemical::HCO3Ion | Chemical::SO4Ion => true,
            _ => false,
        }
    }

    pub fn is_inclusion(&self) -> (r: bool)
        ensures
            r == self.spec_is_inclusion(),
    {
        match self {
            Chemical::CO2
            | Chemical::FeIon(_)
            | Chemical::AlIon
            | Chemical::CuIon
            | Chemical::HIon
            | Chemical::IIon
            | Chemical::S
            | Chemical::Rn(_) => true,
            _ => false,
        }
    }

    /// The localized display label, refined by the sub-modifier for
    /// chloride, iron and radon.
    pub open spec fn spec_jp(self) -> Seq<char> {
        match self {
            Chemical::NaIon => "ナトリウム"@,
            Chemical::CaIon => "カルシウム"@,
            Chemical::MgIon => "マグネシウム"@,
            Chemical::ClIon(cl_type) => match cl_type {
                ClType::Normal => "塩化物"@,
                ClType::Strong => "塩化物強塩"@,
            },
            Chemical::HCO3Ion => "炭酸水素塩"@,
            Chemical::SO4Ion => "硫酸塩"@,
            Chemical::CO2 => "二酸化炭素"@,
            Chemical::FeIon(valence) => match valence {
                FeType::Normal => "鉄"@,
                FeType::Two => "鉄（Ⅱ）"@,
                FeType::Three => "鉄（Ⅲ）"@,
            },
            Chemical::AlIon => "アルミニウム"@,
            Chemical::CuIon => "銅"@,
            Chemical::HIon => "酸性"@,
            Chemical::IIon => "よう素"@,
            Chemical::S => "硫黄"@,
            Chemical::Rn(rn_type) => match rn_type {
                RnType::Normal => "放射能"@,
                RnType::Weak => "弱放射能"@,
            },
        }
    }

    pub fn jp(&self) -> (r: String)
        ensures
            r@ == self.spec_jp(),
    {
        match self {
            Chemical::NaIon => "ナトリウム".to_owned(),
            Chemical::CaIon => "カルシウム".to_owned(),
            Chemical::MgIon => "マグネシウム".to_owned(),
            Chemical::ClIon(cl_type) => match cl_type {
                ClType::Normal => "塩化物".to_owned(),
                ClType::Strong => "塩化物強塩".to_owned(),
            },
            Chemical::HCO3Ion => "炭酸水素塩".to_owned(),
            Chemical::SO4Ion => "硫酸塩".to_owned(),
            Chemical::CO2 => "二酸化炭素".to_owned(),
            Chemical::FeIon(valence) => match valence {
                FeType::Normal => "鉄".to_owned(),
                FeType::Two => "鉄（Ⅱ）".to_owned(),
                FeType::Three => "鉄（Ⅲ）".to_owned(),
            },
            Chemical::AlIon => "アルミニウム".to_owned(),
            Chemical::CuIon => "銅".to_owned(),
            Chemical::HIon => "酸性".to_owned(),
            Chemical::IIon => "よう素".to_owned(),
            Chemical::S => "硫黄".to_owned(),
            Chemical::Rn(rn_type) => match rn_type {
                RnType::Normal => "放射能".to_owned(),
                RnType::Weak => "弱放射能".to_owned(),
            },
        }
    }

    /// The bare variant name, without the sub-modifier: the identifier
    /// used in machine-readable payloads.
    pub open spec fn spec_id(self) -> Seq<char> {
        match self {
            Chemical::NaIon => "NaIon"@,
            Chemical::CaIon => "CaIon"@,
            Chemical::MgIon => "MgIon"@,
            Chemical::ClIon(_) => "ClIon"@,
            Chemical::HCO3Ion => "HCO3Ion"@,
            Chemical::SO4Ion => "SO4Ion"@,
            Chemical::CO2 => "CO2"@,
            Chemical::FeIon(_) => "FeIon"@,
            Chemical::AlIon => "AlIon"@,
            Chemical::CuIon => "CuIon"@,
            Chemical::HIon => "HIon"@,
            Chemical::IIon => "IIon"@,
            Chemical::S => "S"@,
            Chemical::Rn(_) => "Rn"@,
        }
    }

    pub fn to_string(&self) -> (r: String)
        ensures
            r@ == self.spec_id(),
    {
        match self {
            Chemical::NaIon => "NaIon".to_owned(),
            Chemical::CaIon => "CaIon".to_owned(),
            Chemical::MgIon => "MgIon".to_owned(),
            Chemical::ClIon(_) => "ClIon".to_owned(),
            Chemical::HCO3Ion => "HCO3Ion".to_owned(),
            Chemical::SO4Ion => "SO4Ion".to_owned(),
            Chemical::CO2 => "CO2".to_owned(),
            Chemical::FeIon(_) => "FeIon".to_owned(),
            Chemical::AlIon => "AlIon".to_owned(),
            Chemical::CuIon => "CuIon".to_owned(),
            Chemical::HIon => "HIon".to_owned(),
            Chemical::IIon => "IIon".to_owned(),
            Chemical::S => "S".to_owned(),
            Chemical::Rn(_) => "Rn".to_owned(),
        }
    }

    /// The column of the flat rank record that this constituent's
    /// identity occupies; the sub-modifier does not matter.
    pub open spec fn spec_ident(self) -> int {
        match self {
            Chemical::NaIon => 0,
            Chemical::CaIon => 1,
            Chemical::MgIon => 2,
            Chemical::ClIon(_) => 3,
            Chemical::HCO3Ion => 4,
            Chemical::SO4Ion => 5,
            Chemical::CO2 => 6,
            Chemical::FeIon(_) => 7,
            Chemical::AlIon => 8,
            Chemical::CuIon => 9,
            Chemical::HIon => 10,
            Chemical::IIon => 11,
            Chemical::S => 12,
            Chemical::Rn(_) => 13,
        }
    }
}

/// Every constituent falls in exactly one of the three groupings.
pub proof fn lemma_categories_partition(c: Chemical)
    ensures
        c.spec_is_cation() ==> !c.spec_is_anion() && !c.spec_is_inclusion(),
        c.spec_is_anion() ==> !c.spec_is_cation() && !c.spec_is_inclusion(),
        c.spec_is_inclusion() <==> !c.spec_is_cation() && !c.spec_is_anion(),
{
}

} // verus!
