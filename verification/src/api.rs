//! Request and response shapes of the HTTP boundary.
//!
//! The structs here hold plain values only; the serialization wrappers
//! that the transport needs live with the transport.  The mappers are
//! pure: a request builds an entity, an entity is flattened into a
//! response.

use crate::chemical::{ClType, FeType, RnType};
use crate::codec::{chems_of, sort_pairs, spec_cl_of, spec_fe_of, spec_rn_of, DieselChemical};
use crate::entity::{AreaEntity, HotelEntity, OnsenEntity};
use crate::quality::{spec_new, OnsenQuality};
use crate::spring::{spec_opt_liquid, SpringForm, SpringLiquid};
use vstd::prelude::*;

verus! {

/// An inbound area payload.
#[derive(Debug, Clone)]
pub struct AreaRequest {
    pub name: String,
    pub prefecture: String,
    pub national_resort: bool,
    pub village: Option<String>,
    pub url: String,
    pub description: String,
    pub access: String,
}

impl AreaRequest {
    /// Whether the payload builds an entity.
    pub open spec fn spec_valid(self) -> bool {
        self.name@.len() > 0 && self.prefecture@.len() > 0
    }

    /// Whether `e` is the entity this payload builds under `id`.
    pub open spec fn spec_entity(self, id: u32, e: AreaEntity) -> bool {
        &&& e.id == id
        &&& e.name@ == self.name@
        &&& e.kana@.len() == 0
        &&& e.prefecture@ == self.prefecture@
        &&& e.national_resort == self.national_resort
        &&& match self.village {
            Some(s) => e.village matches Some(t) && t@ == s@,
            None => e.village is None,
        }
        &&& e.url@ == self.url@
        &&& e.description@ == self.description@
        &&& e.access@ == self.access@
        &&& e.onsens@.len() == 0
    }

    /// Builds the area entity named by this payload; the payload does
    /// not carry a reading or any springs, so both stay empty.
    pub fn create_entity(&self, id: u32) -> (r: Option<AreaEntity>)
        ensures
            r is Some <==> self.spec_valid(),
            r matches Some(e) ==> self.spec_entity(id, e),
    {
        proof {
            reveal_strlit("");
        }
        AreaEntity::new(
            id,
            self.name.as_str(),
            "",
            self.prefecture.as_str(),
            self.national_resort,
            match &self.village {
                Some(v) => Some(v.as_str()),
                None => None,
            },
            self.url.as_str(),
            self.description.as_str(),
            self.access.as_str(),
            Vec::new(),
        )
    }
}

/// An outbound area payload.
#[derive(Debug)]
pub struct AreaResponse {
    pub id: u32,
    pub name: String,
    pub kana: String,
    pub prefecture: String,
    pub national_resort: bool,
    pub village: Option<String>,
    pub url: String,
    pub description: String,
    pub access: String,
    pub onsen_ids: Vec<u32>,
}

impl AreaResponse {
    /// Whether `r` is the response that flattens `value`.
    pub open spec fn spec_respond(value: AreaEntity, r: AreaResponse) -> bool {
        &&& r.id == value.id
        &&& r.name@ == value.name@
        &&& r.kana@ == value.kana@
        &&& r.prefecture@ == value.prefecture@
        &&& r.national_resort == value.national_resort
        &&& match value.village {
            Some(s) => r.village matches Some(t) && t@ == s@,
            None => r.village is None,
        }
        &&& r.url@ == value.url@
        &&& r.description@ == value.description@
        &&& r.access@ == value.access@
        &&& r.onsen_ids@.len() == value.onsens@.len()
        &&& forall|i: int|
            0 <= i < value.onsens@.len() ==> r.onsen_ids@[i] == (#[trigger] value.onsens@[i]).id
    }

    /// Flattens an area entity: the springs are reduced to their ids.
    pub fn from(value: &AreaEntity) -> (r: AreaResponse)
        ensures
            AreaResponse::spec_respond(*value, r),
    {
        let mut onsen_ids: Vec<u32> = Vec::new();
        let mut i: usize = 0;
        while i < value.onsens.len()
            invariant
                i <= value.onsens@.len(),
                onsen_ids@.len() == i,
                forall|j: int| 0 <= j < i ==> onsen_ids@[j] == (#[trigger] value.onsens@[j]).id,
            decreases value.onsens@.len() - i,
        {
            onsen_ids.push(value.onsens[i].id);
            i = i + 1;
        }
        AreaResponse {
            id: value.id,
            name: value.name.clone(),
            kana: value.kana.clone(),
            prefecture: value.prefecture.clone(),
            national_resort: value.national_resort,
            village: match &value.village {
                Some(v) => Some(v.clone()),
                None => None,
            },
            url: value.url.clone(),
            description: value.description.clone(),
            access: value.access.clone(),
            onsen_ids,
        }
    }
}

/// An inbound lodging payload.
#[derive(Debug, Clone)]
pub struct HotelRequest {
    pub name: String,
    pub has_washitsu: bool,
    pub solo_available: bool,
    pub url: String,
    pub description: String,
}

impl HotelRequest {
    /// Whether the payload builds an entity.
    pub open spec fn spec_valid(self) -> bool {
        self.name@.len() > 0
    }

    /// Whether `e` is the entity this payload builds under `id`.
    pub open spec fn spec_entity(self, id: u32, e: HotelEntity) -> bool {
        &&& e.id == id
        &&& e.name@ == self.name@
        &&& e.has_washitsu == self.has_washitsu
        &&& e.solo_available == self.solo_available
        &&& e.url@ == self.url@
        &&& e.description@ == self.description@
        &&& e.onsens@.len() == 0
    }

    /// Builds the lodging entity named by this payload, with no
    /// springs attached yet.
    pub fn create_entity(&self, id: u32) -> (r: Option<HotelEntity>)
        ensures
            r is Some <==> self.spec_valid(),
            r matches Some(e) ==> self.spec_entity(id, e),
    {
        HotelEntity::new(
            id,
            self.name.as_str(),
            self.has_washitsu,
            self.solo_available,
            self.url.as_str(),
            self.description.as_str(),
            Vec::new(),
        )
    }
}

/// The per-constituent concentration ranks of an inbound spring
/// payload: `0` marks an absent constituent, a positive value its
/// rank, plus the three modifier flags.
#[derive(Debug, Clone)]
pub struct OnsenChemicalsRequestModel {
    pub na_ion: u32,
    pub ca_ion: u32,
    pub mg_ion: u32,
    pub cl_ion: u32,
    pub hco3_ion: u32,
    pub so4_ion: u32,
    pub co2_ion: u32,
    pub fe_ion: u32,
    pub al_ion: u32,
    pub cu_ion: u32,
    pub h_ion: u32,
    pub i_ion: u32,
    pub s: u32,
    pub rn: u32,
    pub is_strong_na_cl: bool,
    pub fe_type: String,
    pub is_weak_rn: bool,
}

impl OnsenChemicalsRequestModel {
    /// The chloride modifier this payload carries.
    pub open spec fn spec_cl_type(self) -> ClType {
        spec_cl_of(self.is_strong_na_cl)
    }

    /// The iron valence this payload carries.
    pub open spec fn spec_fe_type(self) -> FeType {
        spec_fe_of(self.fe_type@)
    }

    /// The radon modifier this payload carries.
    pub open spec fn spec_rn_type(self) -> RnType {
        spec_rn_of(self.is_weak_rn)
    }

    /// The row shape holding the same columns and flags.
    pub open spec fn spec_record(self) -> DieselChemical {
        DieselChemical {
            id: 0,
            na_ion: self.na_ion,
            ca_ion: self.ca_ion,
            mg_ion: self.mg_ion,
            cl_ion: self.cl_ion,
            hco3_ion: self.hco3_ion,
            so4_ion: self.so4_ion,
            co2_ion: self.co2_ion,
            fe_ion: self.fe_ion,
            h_ion: self.h_ion,
            i_ion: self.i_ion,
            al_ion: self.al_ion,
            cu_ion: self.cu_ion,
            s: self.s,
            rn: self.rn,
            strong_na_cl: self.is_strong_na_cl,
            fe_type: self.fe_type,
            weak_rn: self.is_weak_rn,
        }
    }

    /// The constituent list this payload describes: the present
    /// constituents sorted ascending by their concentration rank,
    /// ties in column order.
    pub open spec fn spec_chemicals(self) -> Seq<crate::chemical::Chemical> {
        chems_of(sort_pairs(self.spec_record().spec_pairs()))
    }

    /// Builds the aggregate: present constituents, ordered by
    /// concentration rank, with the modifier flags applied, and the
    /// liquid parsed permissively.
    pub fn create(&self, liquid: Option<&str>) -> (r: OnsenQuality)
        ensures
            spec_new(r, self.spec_chemicals(), spec_opt_liquid(liquid)),
    {
        let record = DieselChemical {
            id: 0,
            na_ion: self.na_ion,
            ca_ion: self.ca_ion,
            mg_ion: self.mg_ion,
            cl_ion: self.cl_ion,
            hco3_ion: self.hco3_ion,
            so4_ion: self.so4_ion,
            co2_ion: self.co2_ion,
            fe_ion: self.fe_ion,
            h_ion: self.h_ion,
            i_ion: self.i_ion,
            al_ion: self.al_ion,
            cu_ion: self.cu_ion,
            s: self.s,
            rn: self.rn,
            strong_na_cl: self.is_strong_na_cl,
            fe_type: self.fe_type.clone(),
            weak_rn: self.is_weak_rn,
        };
        let parsed = match liquid {
            Some(v) => SpringLiquid::from_str(v),
            None => None,
        };
        let q = record.create(parsed);
        proof {
            assert(record.spec_pairs() == self.spec_record().spec_pairs());
        }
        q
    }
}

/// An inbound spring payload.
#[derive(Debug)]
pub struct OnsenRequest {
    pub name: String,
    pub chemicals: Option<OnsenChemicalsRequestModel>,
    pub other_spring_quality: String,
    pub osmotic_pressure: Option<String>,
    pub liquid: Option<String>,
    pub temperature: Option<String>,
    pub form: String,
    pub is_day_use: bool,
    pub url: String,
    pub img_url: Option<String>,
    pub description: String,
}

impl OnsenRequest {
    /// Whether the payload builds an entity.
    pub open spec fn spec_valid(self) -> bool {
        self.name@.len() > 0 && SpringForm::spec_from_str(self.form@) is Some
    }

    /// The liquid text as the permissive parsers see it.
    pub open spec fn spec_liquid(self) -> Option<SpringLiquid> {
        match self.liquid {
            Some(s) => SpringLiquid::spec_from_str(s@),
            None => None,
        }
    }

    /// Builds the spring entity named by this payload under `id`; the
    /// constituent model, if present, becomes the classified quality.
    pub fn create_entity(&self, id: u32) -> (r: Option<OnsenEntity>)
        ensures
            r is Some <==> self.spec_valid(),
            r matches Some(e) ==> {
                &&& e.id == id
                &&& e.name@ == self.name@
                &&& match self.chemicals {
                    Some(c) => e.quality matches Some(q) && spec_new(
                        q,
                        c.spec_chemicals(),
                        self.spec_liquid(),
                    ),
                    None => e.quality is None,
                }
                &&& e.spring_quality@ == self.other_spring_quality@
                &&& e.liquid == self.spec_liquid()
                &&& e.osmotic_pressure == (match self.osmotic_pressure {
                    Some(s) => crate::spring::SpringOsmoticPressure::spec_from_str(s@),
                    None => None,
                })
                &&& e.temperature == (match self.temperature {
                    Some(s) => crate::spring::SpringTemperature::spec_from_str(s@),
                    None => None,
                })
                &&& Some(e.form) == SpringForm::spec_from_str(self.form@)
                &&& e.is_day_use == self.is_day_use
                &&& e.url@ == self.url@
                &&& match self.img_url {
                    Some(s) => e.img_url matches Some(t) && t@ == s@,
                    None => e.img_url is None,
                }
                &&& e.description@ == self.description@
                &&& e.area_id is None
            },
    {
        let quality = match &self.chemicals {
            Some(c) => Some(
                c.create(
                    match &self.liquid {
                        Some(v) => Some(v.as_str()),
                        None => None,
                    },
                ),
            ),
            None => None,
        };
        OnsenEntity::new(
            id,
            self.name.as_str(),
            quality,
            self.other_spring_quality.as_str(),
            match &self.liquid {
                Some(v) => Some(v.as_str()),
                None => None,
            },
            match &self.osmotic_pressure {
                Some(v) => Some(v.as_str()),
                None => None,
            },
            match &self.temperature {
                Some(v) => Some(v.as_str()),
                None => None,
            },
            self.form.as_str(),
            self.is_day_use,
            self.url.as_str(),
            match &self.img_url {
                Some(v) => Some(v.as_str()),
                None => None,
            },
            self.description.as_str(),
            None,
        )
    }
}

/// The machine-readable quality block of an outbound spring payload.
#[derive(Debug)]
pub struct OnsenQualityResponseModel {
    pub name: String,
    pub chemicals: Vec<String>,
    pub is_strong_na_cl: bool,
    pub fe_type: String,
    pub is_weak_rn: bool,
}

impl OnsenQualityResponseModel {
    /// Whether `m` is the block that flattens `q`: the rendered name,
    /// the bare identifiers in bucket order, and the derived flags.
    pub open spec fn spec_respond(q: OnsenQuality, m: OnsenQualityResponseModel) -> bool {
        &&& m.name@ == q.spec_display()
        &&& m.chemicals@.len() == q.spec_chemicals().len()
        &&& forall|i: int|
            0 <= i < m.chemicals@.len() ==> m.chemicals@[i]@ == (#[trigger] q.spec_chemicals()[
                i
            ]).spec_id()
        &&& m.is_strong_na_cl == q.spec_is_strong_na_cl()
        &&& m.fe_type@ == q.spec_fe_type()
        &&& m.is_weak_rn == q.spec_is_weak_rn()
    }
}

/// The area block of an outbound spring payload.
#[derive(Debug)]
pub struct OnsenAreaResponseModel {
    pub id: u32,
    pub name: String,
}

/// An outbound spring payload.
#[derive(Debug)]
pub struct OnsenResponse {
    pub id: u32,
    pub name: String,
    pub quality: Option<OnsenQualityResponseModel>,
    pub other_spring_quality: String,
    pub liquid: Option<String>,
    pub osmotic_pressure: Option<String>,
    pub temperature: Option<String>,
    pub form: String,
    pub is_day_use: bool,
    pub url: String,
    pub img_url: Option<String>,
    pub description: String,
    pub area: Option<OnsenAreaResponseModel>,
}

impl OnsenResponse {
    /// Whether `r` is the response that flattens `onsen` and `area`.
    pub open spec fn spec_respond(
        onsen: OnsenEntity,
        area: Option<AreaEntity>,
        r: OnsenResponse,
    ) -> bool {
        &&& r.id == onsen.id
        &&& r.name@ == onsen.name@
        &&& match onsen.quality {
            Some(q) => r.quality matches Some(m) && OnsenQualityResponseModel::spec_respond(q, m),
            None => r.quality is None,
        }
        &&& r.other_spring_quality@ == onsen.spring_quality@
        &&& match onsen.liquid {
            Some(l) => r.liquid matches Some(s) && s@ == l.spec_str(),
            None => r.liquid is None,
        }
        &&& match onsen.osmotic_pressure {
            Some(o) => r.osmotic_pressure matches Some(s) && s@ == o.spec_str(),
            None => r.osmotic_pressure is None,
        }
        &&& match onsen.temperature {
            Some(t) => r.temperature matches Some(s) && s@ == t.spec_str(),
            None => r.temperature is None,
        }
        &&& r.form@ == onsen.form.spec_str()
        &&& r.is_day_use == onsen.is_day_use
        &&& r.url@ == onsen.url@
        &&& match onsen.img_url {
            Some(u) => r.img_url matches Some(s) && s@ == u@,
            None => r.img_url is None,
        }
        &&& r.description@ == onsen.description@
        &&& match area {
            Some(a) => r.area matches Some(m) && m.id == a.id && m.name@ == a.name@,
            None => r.area is None,
        }
    }

    /// Flattens a spring entity (and the area it sits in, if one was
    /// looked up) into the outbound shape: the classified quality
    /// becomes its rendered name, its identifier list and its derived
    /// flags; the classified attributes become their wire strings.
    pub fn create(onsen: &OnsenEntity, area: Option<&AreaEntity>) -> (r: OnsenResponse)
        ensures
            match area {
                Some(a) => OnsenResponse::spec_respond(*onsen, Some(*a), r),
                None => OnsenResponse::spec_respond(*onsen, None, r),
            },
    {
        OnsenResponse {
            id: onsen.id,
            name: onsen.name.clone(),
            quality: match &onsen.quality {
                Some(q) => Some(
                    OnsenQualityResponseModel {
                        name: q.to_string(),
                        chemicals: q.to_string_vec(),
                        is_strong_na_cl: q.is_strong_na_cl(),
                        fe_type: q.fe_type(),
                        is_weak_rn: q.is_weak_rn(),
                    },
                ),
                None => None,
            },
            other_spring_quality: onsen.spring_quality.clone(),
            liquid: match &onsen.liquid {
                Some(l) => Some(l.to_string()),
                None => None,
            },
            osmotic_pressure: match &onsen.osmotic_pressure {
                Some(o) => Some(o.to_string()),
                None => None,
            },
            temperature: match &onsen.temperature {
                Some(t) => Some(t.to_string()),
                None => None,
            },
            form: onsen.form.to_string(),
            is_day_use: onsen.is_day_use,
            url: onsen.url.clone(),
            img_url: match &onsen.img_url {
                Some(u) => Some(u.clone()),
                None => None,
            },
            description: onsen.description.clone(),
            area: match area {
                Some(a) => Some(OnsenAreaResponseModel { id: a.id, name: a.name.clone() }),
                None => None,
            },
        }
    }
}

/// An outbound lodging payload.
#[derive(Debug)]
pub struct HotelResponse {
    pub id: i32,
    pub name: String,
    pub has_washitsu: bool,
    pub solo_available: bool,
    pub url: String,
    pub description: String,
    pub onsens: Vec<OnsenResponse>,
}

impl HotelResponse {
    /// Whether `r` is the response that flattens `value`.
    pub open spec fn spec_respond(value: HotelEntity, r: HotelResponse) -> bool {
        &&& r.id == value.id as i32
        &&& r.name@ == value.name@
        &&& r.has_washitsu == value.has_washitsu
        &&& r.solo_available == value.solo_available
        &&& r.url@ == value.url@
        &&& r.description@ == value.description@
        &&& r.onsens@.len() == value.onsens@.len()
        &&& forall|i: int|
            0 <= i < value.onsens@.len() ==> OnsenResponse::spec_respond(
                #[trigger] value.onsens@[i],
                None,
                r.onsens@[i],
            )
    }

    /// Flattens a lodging entity; each attached spring is flattened
    /// without an area block.
    pub fn from(value: &HotelEntity) -> (r: HotelResponse)
        ensures
            HotelResponse::spec_respond(*value, r),
    {
        let mut onsens: Vec<OnsenResponse> = Vec::new();
        let mut i: usize = 0;
        while i < value.onsens.len()
            invariant
                i <= value.onsens@.len(),
                onsens@.len() == i,
                forall|j: int|
                    0 <= j < i ==> OnsenResponse::spec_respond(
                        #[trigger] value.onsens@[j],
                        None,
                        onsens@[j],
                    ),
            decreases value.onsens@.len() - i,
        {
            onsens.push(OnsenResponse::create(&value.onsens[i], None));
            i = i + 1;
        }
        HotelResponse {
            id: value.id as i32,
            name: value.name.clone(),
            has_washitsu: value.has_washitsu,
            solo_available: value.solo_available,
            url: value.url.clone(),
            description: value.description.clone(),
            onsens,
        }
    }
}

/// An inbound payload that replaces only a spring's description.
#[derive(Debug, Clone)]
pub struct OnsenDescriptionRequest {
    pub description: String,
}

/// An inbound credentials payload.
#[derive(Debug, Clone)]
pub struct AuthRequest {
    pub email: String,
    pub password: String,
}

/// An outbound token payload.
#[derive(Debug, Clone)]
pub struct AuthResponse {
    pub token: String,
}

} // verus!
