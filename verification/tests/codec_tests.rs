use onsen::chemical::Chemical::{AlIon, CaIon, ClIon, CuIon, FeIon, HCO3Ion, HIon, IIon, MgIon, NaIon, Rn, S, SO4Ion, CO2};
use onsen::chemical::{ClType, FeType, RnType};
use onsen::codec::DieselChemical;
use onsen::quality::OnsenQuality;
use onsen::spring::SpringLiquid;
use onsen::store::Onsen;

#[test]
fn encode_assigns_bucket_ranks() {
    let quality = OnsenQuality::new(
        &vec![CaIon, NaIon, ClIon(ClType::Normal), SO4Ion, S, FeIon(FeType::Two)],
        None,
    );
    let record = DieselChemical::from(&quality);
    assert_eq!(record.ca_ion, 1);
    assert_eq!(record.na_ion, 2);
    assert_eq!(record.mg_ion, 0);
    assert_eq!(record.cl_ion, 4);
    assert_eq!(record.so4_ion, 5);
    assert_eq!(record.hco3_ion, 0);
    assert_eq!(record.s, 7);
    assert_eq!(record.fe_ion, 8);
    assert_eq!(record.co2_ion, 0);
    assert_eq!(record.strong_na_cl, false);
    assert_eq!(record.fe_type, "Two");
    assert_eq!(record.weak_rn, false);
}

#[test]
fn encode_of_empty_quality_leaves_all_columns_zero() {
    let quality = OnsenQuality::new(&vec![], Some(SpringLiquid::Alkaline));
    let record = DieselChemical::from(&quality);
    assert_eq!(record.na_ion, 0);
    assert_eq!(record.ca_ion, 0);
    assert_eq!(record.mg_ion, 0);
    assert_eq!(record.cl_ion, 0);
    assert_eq!(record.hco3_ion, 0);
    assert_eq!(record.so4_ion, 0);
    assert_eq!(record.co2_ion, 0);
    assert_eq!(record.fe_ion, 0);
    assert_eq!(record.al_ion, 0);
    assert_eq!(record.cu_ion, 0);
    assert_eq!(record.h_ion, 0);
    assert_eq!(record.i_ion, 0);
    assert_eq!(record.s, 0);
    assert_eq!(record.rn, 0);
    assert_eq!(record.fe_type, "");
}

#[test]
fn decode_of_all_zero_record_is_the_simple_spring() {
    let record = DieselChemical {
        id: 0,
        na_ion: 0,
        ca_ion: 0,
        mg_ion: 0,
        cl_ion: 0,
        hco3_ion: 0,
        so4_ion: 0,
        co2_ion: 0,
        fe_ion: 0,
        h_ion: 0,
        i_ion: 0,
        al_ion: 0,
        cu_ion: 0,
        s: 0,
        rn: 0,
        strong_na_cl: false,
        fe_type: "".to_string(),
        weak_rn: false,
    };
    let quality = record.create(None);
    assert!(quality.cations.is_empty());
    assert!(quality.anions.is_empty());
    assert!(quality.inclusions.is_empty());
    assert_eq!(quality.to_string(), "単純温泉");
}

#[test]
fn round_trip_keeps_buckets_and_order() {
    let quality = OnsenQuality::new(
        &vec![CaIon, NaIon, ClIon(ClType::Normal), SO4Ion, S, FeIon(FeType::Two)],
        Some(SpringLiquid::Neutral),
    );
    let record = DieselChemical::from(&quality);
    let decoded = record.create(quality.liquid);
    assert_eq!(decoded.cations, quality.cations);
    assert_eq!(decoded.anions, quality.anions);
    assert_eq!(decoded.inclusions, quality.inclusions);
    assert_eq!(decoded.is_simple, quality.is_simple);
    assert_eq!(decoded.to_string(), quality.to_string());
}

#[test]
fn round_trip_keeps_every_identity() {
    let quality = OnsenQuality::new(
        &vec![
            Rn(RnType::Weak),
            S,
            IIon,
            HIon,
            CuIon,
            AlIon,
            FeIon(FeType::Three),
            CO2,
            SO4Ion,
            HCO3Ion,
            ClIon(ClType::Strong),
            MgIon,
            CaIon,
            NaIon,
        ],
        Some(SpringLiquid::Acidic),
    );
    let record = DieselChemical::from(&quality);
    let decoded = record.create(quality.liquid);
    assert_eq!(decoded.cations, quality.cations);
    assert_eq!(decoded.anions, quality.anions);
    assert_eq!(decoded.inclusions, quality.inclusions);
}

#[test]
fn round_trip_keeps_the_modifiers() {
    let quality = OnsenQuality::new(
        &vec![NaIon, ClIon(ClType::Strong), FeIon(FeType::Normal), Rn(RnType::Weak)],
        None,
    );
    let record = DieselChemical::from(&quality);
    assert_eq!(record.strong_na_cl, true);
    assert_eq!(record.fe_type, "Normal");
    assert_eq!(record.weak_rn, true);
    let decoded = record.create(None);
    assert_eq!(decoded.anions, vec![ClIon(ClType::Strong)]);
    assert_eq!(
        decoded.inclusions,
        vec![FeIon(FeType::Normal), Rn(RnType::Weak)]
    );
}

#[test]
fn lone_strong_chloride_decodes_as_normal() {
    // The record stores the strong modifier only as the combined
    // strong-sodium-chloride flag, so a strong chloride without sodium
    // is not round-trippable: it comes back as normal chloride.
    let quality = OnsenQuality::new(&vec![ClIon(ClType::Strong)], None);
    let record = DieselChemical::from(&quality);
    assert_eq!(record.strong_na_cl, false);
    let decoded = record.create(None);
    assert_eq!(decoded.anions, vec![ClIon(ClType::Normal)]);
}

#[test]
fn decode_orders_by_rank_with_column_ties_in_column_order() {
    let record = DieselChemical {
        id: 0,
        na_ion: 3,
        ca_ion: 3,
        mg_ion: 1,
        cl_ion: 2,
        hco3_ion: 0,
        so4_ion: 0,
        co2_ion: 0,
        fe_ion: 0,
        h_ion: 0,
        i_ion: 0,
        al_ion: 0,
        cu_ion: 0,
        s: 0,
        rn: 0,
        strong_na_cl: false,
        fe_type: "".to_string(),
        weak_rn: false,
    };
    let quality = record.create(None);
    assert_eq!(quality.cations, vec![MgIon, NaIon, CaIon]);
    assert_eq!(quality.anions, vec![ClIon(ClType::Normal)]);
}

#[test]
fn stored_row_rebuilds_the_entity() {
    let row = Onsen {
        id: 7,
        name: "元禄の湯".to_string(),
        spring_quality: "ナトリウム－塩化物泉".to_string(),
        liquid: Some("neutral".to_string()),
        osmotic_pressure: Some("hypotonic".to_string()),
        temperature: Some("hot".to_string()),
        category: "uchiyu".to_string(),
        day_use: true,
        url: "https://www.sekizenkan.co.jp/spa/#ank-spa1".to_string(),
        img_url: None,
        description: "".to_string(),
        hotel_id: None,
        chemical_id: Some(3),
        area_id: Some(2),
    };
    let source = OnsenQuality::new(
        &vec![NaIon, ClIon(ClType::Normal)],
        Some(SpringLiquid::Neutral),
    );
    let record = DieselChemical::from(&source);
    let entity = onsen::entity::OnsenEntity::create(row, Some(&record));
    assert_eq!(entity.id, 7);
    assert_eq!(entity.name, "元禄の湯");
    assert_eq!(entity.area_id, Some(2));
    let quality = entity.quality.unwrap();
    assert_eq!(quality.cations, vec![NaIon]);
    assert_eq!(quality.anions, vec![ClIon(ClType::Normal)]);
    assert_eq!(quality.to_string(), "ナトリウム－塩化物泉");
}
