//! Domain entities around the water-quality core.
//!
//! Constructors parse the permissive upstream text fields into the
//! classified spring attributes and reject only what cannot be
//! represented: an empty name, or a bath form that does not parse.

use crate::quality::OnsenQuality;
use crate::spring::{
    spec_opt_liquid, spec_opt_osmotic_pressure, spec_opt_temperature, SpringForm, SpringLiquid,
    SpringOsmoticPressure, SpringTemperature,
};
use vstd::prelude::*;

verus! {

/// A construction-time rule violation, such as an empty name.
#[derive(Debug, Clone, Copy, PartialEq, Eq, Structural)]
pub struct DomainError;

/// One hot spring as the spring law defines it (not the same as a
/// named resort).
#[derive(Clone)]
pub struct OnsenEntity {
    pub id: u32,
    pub name: String,
    pub quality: Option<OnsenQuality>,
    pub spring_quality: String,
    pub liquid: Option<SpringLiquid>,
    pub osmotic_pressure: Option<SpringOsmoticPressure>,
    pub temperature: Option<SpringTemperature>,
    pub form: SpringForm,
    pub is_day_use: bool,
    pub url: String,
    pub img_url: Option<String>,
    pub description: String,
    pub area_id: Option<u32>,
}

impl OnsenEntity {
    /// Builds the entity from already-validated scalars plus the
    /// permissive text fields.  Returns `None` exactly when the name
    /// is empty or the bath form does not parse; an unknown liquid,
    /// osmotic pressure or temperature is kept as `None` instead of
    /// failing the whole construction.
    pub fn new(
        id: u32,
        name: &str,
        quality: Option<OnsenQuality>,
        spring_quality: &str,
        liquid: Option<&str>,
        osmotic_pressure: Option<&str>,
        temperature: Option<&str>,
        form: &str,
        is_day_use: bool,
        url: &str,
        img_url: Option<&str>,
        description: &str,
        area_id: Option<u32>,
    ) -> (r: Option<OnsenEntity>)
        ensures
            r is Some <==> (name@.len() > 0 && SpringForm::spec_from_str(form@) is Some),
            r matches Some(e) ==> {
                &&& e.id == id
                &&& e.name@ == name@
                &&& e.quality == quality
                &&& e.spring_quality@ == spring_quality@
                &&& e.liquid == spec_opt_liquid(liquid)
                &&& e.osmotic_pressure == spec_opt_osmotic_pressure(osmotic_pressure)
                &&& e.temperature == spec_opt_temperature(temperature)
                &&& Some(e.form) == SpringForm::spec_from_str(form@)
                &&& e.is_day_use == is_day_use
                &&& e.url@ == url@
                &&& match img_url {
                    Some(s) => e.img_url matches Some(t) && t@ == s@,
                    None => e.img_url is None,
                }
                &&& e.description@ == description@
                &&& e.area_id == area_id
            },
    {
        if name.is_empty() {
            return None;
        }
        let liquid = match liquid {
            Some(v) => SpringLiquid::from_str(v),
            None => None,
        };
        let osmotic_pressure = match osmotic_pressure {
            Some(v) => SpringOsmoticPressure::from_str(v),
            None => None,
        };
        let temperature = match temperature {
            Some(v) => SpringTemperature::from_str(v),
            None => None,
        };
        let form = match SpringForm::from_str(form) {
            Some(f) => f,
            None => {
                return None;
            },
        };
        Some(
            OnsenEntity {
                id,
                name: name.to_owned(),
                quality,
                spring_quality: spring_quality.to_owned(),
                liquid,
                osmotic_pressure,
                temperature,
                form,
                is_day_use,
                url: url.to_owned(),
                img_url: match img_url {
                    Some(v) => Some(v.to_owned()),
                    None => None,
                },
                description: description.to_owned(),
                area_id,
            },
        )
    }
}

/// A resort area grouping several springs.
#[derive(Clone)]
pub struct AreaEntity {
    pub id: u32,
    pub name: String,
    pub kana: String,
    pub prefecture: String,
    pub national_resort: bool,
    pub village: Option<String>,
    pub url: String,
    pub description: String,
    pub access: String,
    pub onsens: Vec<OnsenEntity>,
}

impl AreaEntity {
    /// Returns `None` exactly when the name or the prefecture is
    /// empty.
    pub fn new(
        id: u32,
        name: &str,
        kana: &str,
        prefecture: &str,
        national_resort: bool,
        village: Option<&str>,
        url: &str,
        description: &str,
        access: &str,
        onsens: Vec<OnsenEntity>,
    ) -> (r: Option<AreaEntity>)
        ensures
            r is Some <==> (name@.len() > 0 && prefecture@.len() > 0),
            r matches Some(e) ==> {
                &&& e.id == id
                &&& e.name@ == name@
                &&& e.kana@ == kana@
                &&& e.prefecture@ == prefecture@
                &&& e.national_resort == national_resort
                &&& match village {
                    Some(s) => e.village matches Some(t) && t@ == s@,
                    None => e.village is None,
                }
                &&& e.url@ == url@
                &&& e.description@ == description@
                &&& e.access@ == access@
                &&& e.onsens == onsens
            },
    {
        if name.is_empty() {
            return None;
        }
        if prefecture.is_empty() {
            return None;
        }
        Some(
            AreaEntity {
                id,
                name: name.to_owned(),
                kana: kana.to_owned(),
                prefecture: prefecture.to_owned(),
                national_resort,
                village: match village {
                    Some(v) => Some(v.to_owned()),
                    None => None,
                },
                url: url.to_owned(),
                description: description.to_owned(),
                access: access.to_owned(),
                onsens,
            },
        )
    }
}

/// A lodging with its own springs.
#[derive(Clone)]
pub struct HotelEntity {
    pub id: u32,
    pub name: String,
    pub has_washitsu: bool,
    pub solo_available: bool,
    pub url: String,
    pub description: String,
    pub onsens: Vec<OnsenEntity>,
}

impl HotelEntity {
    /// Returns `None` exactly when the name is empty.
    pub fn new(
        id: u32,
        name: &str,
        has_washitsu: bool,
        solo_available: bool,
        url: &str,
        description: &str,
        onsens: Vec<OnsenEntity>,
    ) -> (r: Option<HotelEntity>)
        ensures
            r is Some <==> name@.len() > 0,
            r matches Some(e) ==> {
                &&& e.id == id
                &&& e.name@ == name@
                &&& e.has_washitsu == has_washitsu
                &&& e.solo_available == solo_available
                &&& e.url@ == url@
                &&& e.description@ == description@
                &&& e.onsens == onsens
            },
    {
        if name.is_empty() {
            return None;
        }
        Some(
            HotelEntity {
                id,
                name: name.to_owned(),
                has_washitsu,
                solo_available,
                url: url.to_owned(),
                description: description.to_owned(),
                onsens,
            },
        )
    }
}

/// A bare lodging record for callers that only track the room style.
pub struct Hotel {
    pub name: String,
    pub has_washitsu: bool,
}

impl Hotel {
    /// Rejects an empty name.
    pub fn new(name: &str, has_washitsu: bool) -> (r: Result<Hotel, DomainError>)
        ensures
            r is Ok <==> name@.len() > 0,
            r matches Ok(h) ==> h.name@ == name@ && h.has_washitsu == has_washitsu,
    {
        if name.is_empty() {
            return Err(DomainError);
        }
        Ok(Hotel { name: name.to_owned(), has_washitsu })
    }
}

/// A bare spring record whose classified attributes are mandatory.
pub struct Onsen {
    pub name: String,
    pub spring_quality: String,
    pub liquid: SpringLiquid,
    pub osmotic_pressure: SpringOsmoticPressure,
    pub form: SpringForm,
}

impl Onsen {
    /// Rejects an empty name.
    pub fn new(
        name: &str,
        spring_quality: &str,
        liquid: SpringLiquid,
        osmotic_pressure: SpringOsmoticPressure,
        form: SpringForm,
    ) -> (r: Result<Onsen, DomainError>)
        ensures
            r is Ok <==> name@.len() > 0,
            r matches Ok(o) ==> {
                &&& o.name@ == name@
                &&& o.spring_quality@ == spring_quality@
                &&& o.liquid == liquid
                &&& o.osmotic_pressure == osmotic_pressure
                &&& o.form == form
            },
    {
        if name.is_empty() {
            return Err(DomainError);
        }
        Ok(
            Onsen {
                name: name.to_owned(),
                spring_quality: spring_quality.to_owned(),
                liquid,
                osmotic_pressure,
                form,
            },
        )
    }
}

} // verus!
