//! The literal row shapes of the relational store, and the mapper
//! that rebuilds a spring entity from a loaded row.
//!
//! The rows hold plain columns only; the database driver's own
//! wrappers around them live with the driver.  The constituent row is
//! `DieselChemical`, the rank-encoded shape of the codec.

use crate::codec::DieselChemical;
use crate::entity::{AreaEntity, HotelEntity, OnsenEntity};
use crate::quality::spec_new;
use crate::spring::{SpringForm, SpringLiquid};
use vstd::pervasive::unreached;
use vstd::prelude::*;

verus! {

/// One row of the spring table.
#[derive(Debug, Clone)]
pub struct Onsen {
    pub id: u32,
    pub name: String,
    pub spring_quality: String,
    pub liquid: Option<String>,
    pub osmotic_pressure: Option<String>,
    pub temperature: Option<String>,
    pub category: String,
    pub day_use: bool,
    pub url: String,
    pub img_url: Option<String>,
    pub description: String,
    pub hotel_id: Option<u32>,
    pub chemical_id: Option<u32>,
    pub area_id: Option<u32>,
}

/// One row of the area table.
#[derive(Debug, Clone)]
pub struct Area {
    pub id: u32,
    pub name: String,
    pub prefecture: String,
    pub national_resort: bool,
    pub village: Option<String>,
    pub url: String,
    pub description: String,
    pub access: String,
}

/// One row of the lodging table.
#[derive(Debug, Clone)]
pub struct Hotel {
    pub id: u32,
    pub name: String,
    pub has_washitsu: bool,
    pub url: String,
    pub description: String,
}

/// One row of the user table.
#[derive(Debug, Clone)]
pub struct User {
    pub id: u32,
    pub email: String,
    pub hashed_password: String,
    pub role: String,
}

/// The next free id, as the store reports it.
#[derive(Debug, Clone)]
pub struct Sequence {
    pub id: i64,
}

impl Onsen {
    /// Flattens a spring entity into its row: the classified
    /// attributes become their wire strings.  The quality goes to its
    /// own row through the rank codec, so the foreign keys stay empty
    /// here.
    pub fn from(value: &OnsenEntity) -> (r: Onsen)
        ensures
            r.id == value.id,
            r.name@ == value.name@,
            r.spring_quality@ == value.spring_quality@,
            match value.liquid {
                Some(l) => r.liquid matches Some(s) && s@ == l.spec_str(),
                None => r.liquid is None,
            },
            match value.osmotic_pressure {
                Some(o) => r.osmotic_pressure matches Some(s) && s@ == o.spec_str(),
                None => r.osmotic_pressure is None,
            },
            match value.temperature {
                Some(t) => r.temperature matches Some(s) && s@ == t.spec_str(),
                None => r.temperature is None,
            },
            r.category@ == value.form.spec_str(),
            r.day_use == value.is_day_use,
            r.url@ == value.url@,
            match value.img_url {
                Some(u) => r.img_url matches Some(s) && s@ == u@,
                None => r.img_url is None,
            },
            r.description@ == value.description@,
            r.hotel_id is None,
            r.chemical_id is None,
            r.area_id == value.area_id,
    {
        Onsen {
            id: value.id,
            name: value.name.clone(),
            spring_quality: value.spring_quality.clone(),
            liquid: match &value.liquid {
                Some(l) => Some(l.to_string()),
                None => None,
            },
            osmotic_pressure: match &value.osmotic_pressure {
                Some(o) => Some(o.to_string()),
                None => None,
            },
            temperature: match &value.temperature {
                Some(t) => Some(t.to_string()),
                None => None,
            },
            category: value.form.to_string(),
            day_use: value.is_day_use,
            url: value.url.clone(),
            img_url: match &value.img_url {
                Some(u) => Some(u.clone()),
                None => None,
            },
            description: value.description.clone(),
            hotel_id: None,
            chemical_id: None,
            area_id: value.area_id,
        }
    }
}

impl Area {
    /// Flattens an area entity into its row; the attached springs are
    /// stored through their own rows.
    pub fn from(value: &AreaEntity) -> (r: Area)
        ensures
            r.id == value.id,
            r.name@ == value.name@,
            r.prefecture@ == value.prefecture@,
            r.national_resort == value.national_resort,
            match value.village {
                Some(v) => r.village matches Some(s) && s@ == v@,
                None => r.village is None,
            },
            r.url@ == value.url@,
            r.description@ == value.description@,
            r.access@ == value.access@,
    {
        Area {
            id: value.id,
            name: value.name.clone(),
            prefecture: value.prefecture.clone(),
            national_resort: value.national_resort,
            village: match &value.village {
                Some(v) => Some(v.clone()),
                None => None,
            },
            url: value.url.clone(),
            description: value.description.clone(),
            access: value.access.clone(),
        }
    }

    /// Rebuilds the entity a stored area row describes, with no
    /// springs attached yet.  Saved data is expected to satisfy the
    /// entity's rules: a nonempty name and prefecture.
    pub fn to_entity(&self) -> (r: AreaEntity)
        requires
            self.name@.len() > 0,
            self.prefecture@.len() > 0,
        ensures
            r.id == self.id,
            r.name@ == self.name@,
            r.kana@.len() == 0,
            r.prefecture@ == self.prefecture@,
            r.national_resort == self.national_resort,
            match self.village {
                Some(v) => r.village matches Some(s) && s@ == v@,
                None => r.village is None,
            },
            r.url@ == self.url@,
            r.description@ == self.description@,
            r.access@ == self.access@,
            r.onsens@.len() == 0,
    {
        proof {
            reveal_strlit("");
        }
        let built = AreaEntity::new(
            self.id,
            self.name.as_str(),
            "",
            self.prefecture.as_str(),
            self.national_resort,
            match &self.village {
                Some(v) => Some(v.as_str()),
                None => None,
            },
            self.url.as_str(),
            self.description.as_str(),
            self.access.as_str(),
            Vec::new(),
        );
        match built {
            Some(e) => e,
            None => unreached(),
        }
    }
}

impl Hotel {
    /// Flattens a lodging entity into its row.
    pub fn from(value: &HotelEntity) -> (r: Hotel)
        ensures
            r.id == value.id,
            r.name@ == value.name@,
            r.has_washitsu == value.has_washitsu,
            r.url@ == value.url@,
            r.description@ == value.description@,
    {
        Hotel {
            id: value.id,
            name: value.name.clone(),
            has_washitsu: value.has_washitsu,
            url: value.url.clone(),
            description: value.description.clone(),
        }
    }

    /// Rebuilds the entity a stored lodging row describes, with no
    /// springs attached yet.  Saved data is expected to satisfy the
    /// entity's rules: a nonempty name.  The row does not keep the
    /// solo-stay flag, so it comes back unset.
    pub fn to_entity(&self) -> (r: HotelEntity)
        requires
            self.name@.len() > 0,
        ensures
            r.id == self.id,
            r.name@ == self.name@,
            r.has_washitsu == self.has_washitsu,
            !r.solo_available,
            r.url@ == self.url@,
            r.description@ == self.description@,
            r.onsens@.len() == 0,
    {
        let built = HotelEntity::new(
            self.id,
            self.name.as_str(),
            self.has_washitsu,
            false,
            self.url.as_str(),
            self.description.as_str(),
            Vec::new(),
        );
        match built {
            Some(e) => e,
            None => unreached(),
        }
    }
}

impl OnsenEntity {
    /// Rebuilds the entity a stored row describes; a stored
    /// constituent row decodes into the classified quality through the
    /// rank codec.  Saved data is expected to satisfy the entity's
    /// rules: a nonempty name and a bath form that parses.
    pub fn create(onsen: Onsen, diesel_chemical: Option<&DieselChemical>) -> (r: OnsenEntity)
        requires
            onsen.name@.len() > 0,
            SpringForm::spec_from_str(onsen.category@) is Some,
        ensures
            r.id == onsen.id,
            r.name@ == onsen.name@,
            match diesel_chemical {
                Some(c) => r.quality matches Some(q) && spec_new(
                    q,
                    c.spec_decoded(),
                    match onsen.liquid {
                        Some(s) => SpringLiquid::spec_from_str(s@),
                        None => None,
                    },
                ),
                None => r.quality is None,
            },
            r.spring_quality@ == onsen.spring_quality@,
            r.liquid == (match onsen.liquid {
                Some(s) => SpringLiquid::spec_from_str(s@),
                None => None,
            }),
            r.osmotic_pressure == (match onsen.osmotic_pressure {
                Some(s) => crate::spring::SpringOsmoticPressure::spec_from_str(s@),
                None => None,
            }),
            r.temperature == (match onsen.temperature {
                Some(s) => crate::spring::SpringTemperature::spec_from_str(s@),
                None => None,
            }),
            Some(r.form) == SpringForm::spec_from_str(onsen.category@),
            r.is_day_use == onsen.day_use,
            r.url@ == onsen.url@,
            match onsen.img_url {
                Some(s) => r.img_url matches Some(t) && t@ == s@,
                None => r.img_url is None,
            },
            r.description@ == onsen.description@,
            r.area_id == onsen.area_id,
    {
        let liquid = match &onsen.liquid {
            Some(v) => SpringLiquid::from_str(v.as_str()),
            None => None,
        };
        let quality = match diesel_chemical {
            Some(c) => Some(c.create(liquid)),
            None => None,
        };
        let built = OnsenEntity::new(
            onsen.id,
            onsen.name.as_str(),
            quality,
            onsen.spring_quality.as_str(),
            match &onsen.liquid {
                Some(v) => Some(v.as_str()),
                None => None,
            },
            match &onsen.osmotic_pressure {
                Some(v) => Some(v.as_str()),
                None => None,
            },
            match &onsen.temperature {
                Some(v) => Some(v.as_str()),
                None => None,
            },
            onsen.category.as_str(),
            onsen.day_use,
            onsen.url.as_str(),
            match &onsen.img_url {
                Some(v) => Some(v.as_str()),
                None => None,
            },
            onsen.description.as_str(),
            onsen.area_id,
        );
        match built {
            Some(e) => e,
            None => unreached(),
        }
    }
}

} // verus!
