use onsen::api::{
    AreaRequest, HotelRequest, HotelResponse, OnsenChemicalsRequestModel, OnsenRequest,
    OnsenResponse,
};
use onsen::chemical::Chemical;
use onsen::chemical::{ClType, FeType, RnType};
use onsen::entity::{AreaEntity, HotelEntity, OnsenEntity};
use onsen::quality::OnsenQuality;

fn common_chemicals() -> OnsenChemicalsRequestModel {
    OnsenChemicalsRequestModel {
        na_ion: 2,
        ca_ion: 1,
        mg_ion: 0,
        cl_ion: 5,
        hco3_ion: 4,
        so4_ion: 0,
        co2_ion: 0,
        fe_ion: 7,
        al_ion: 0,
        cu_ion: 0,
        h_ion: 0,
        i_ion: 0,
        s: 0,
        rn: 0,
        is_strong_na_cl: false,
        fe_type: "Two".to_string(),
        is_weak_rn: false,
    }
}

fn common_request(chemicals: OnsenChemicalsRequestModel) -> OnsenRequest {
    OnsenRequest {
        name: "元禄の湯".to_string(),
        chemicals: Some(chemicals),
        other_spring_quality: "温泉法の温泉".to_string(),
        liquid: Some("neutral".to_string()),
        osmotic_pressure: Some("hypotonic".to_string()),
        temperature: Some("hot".to_string()),
        form: "uchiyu".to_string(),
        is_day_use: true,
        url: "https://www.sekizenkan.co.jp/spa/#ank-spa1".to_string(),
        img_url: Some("https://placehold.jp/150x150.png".to_string()),
        description: "description".to_string(),
    }
}

#[test]
fn onsen_request_test_onsen_request_create_entity() {
    let request = common_request(common_chemicals());
    let entity = request.create_entity(1).unwrap();
    assert_eq!(entity.id, 1);
    assert_eq!(entity.name, "元禄の湯");
    let quality = entity.quality.clone().unwrap();
    assert_eq!(quality.cations, vec![Chemical::CaIon, Chemical::NaIon]);
    assert_eq!(
        quality.anions,
        vec![Chemical::HCO3Ion, Chemical::ClIon(ClType::Normal)]
    );
    assert_eq!(quality.inclusions, vec![Chemical::FeIon(FeType::Two)]);
    assert_eq!(entity.spring_quality, "温泉法の温泉");
    assert_eq!(
        entity.quality.unwrap().to_string(),
        "含鉄（Ⅱ）－カルシウム・ナトリウム－炭酸水素塩・塩化物泉"
    );
    assert_eq!(entity.is_day_use, true);
    assert_eq!(entity.url, "https://www.sekizenkan.co.jp/spa/#ank-spa1");
    assert_eq!(entity.img_url.unwrap(), "https://placehold.jp/150x150.png");
    assert_eq!(entity.description, "description");
}

#[test]
fn test_onsen_request_create_entity_na_cl_strong() {
    let request = common_request(OnsenChemicalsRequestModel {
        is_strong_na_cl: true,
        ..common_chemicals()
    });
    let entity = request.create_entity(1).unwrap();
    assert_eq!(entity.id, 1);
    let quality = entity.quality.clone().unwrap();
    assert_eq!(quality.cations, vec![Chemical::CaIon, Chemical::NaIon]);
    assert_eq!(
        quality.anions,
        vec![Chemical::HCO3Ion, Chemical::ClIon(ClType::Strong)]
    );
    assert_eq!(quality.inclusions, vec![Chemical::FeIon(FeType::Two)]);
    assert_eq!(
        entity.quality.unwrap().to_string(),
        "含鉄（Ⅱ）－カルシウム・ナトリウム－炭酸水素塩・塩化物強塩泉"
    );
}

#[test]
fn test_onsen_request_create_entity_fe_type_normal() {
    let request = common_request(OnsenChemicalsRequestModel {
        fe_type: "Normal".to_string(),
        ..common_chemicals()
    });
    let entity = request.create_entity(1).unwrap();
    assert_eq!(entity.id, 1);
    let quality = entity.quality.clone().unwrap();
    assert_eq!(quality.cations, vec![Chemical::CaIon, Chemical::NaIon]);
    assert_eq!(
        quality.anions,
        vec![Chemical::HCO3Ion, Chemical::ClIon(ClType::Normal)]
    );
    assert_eq!(quality.inclusions, vec![Chemical::FeIon(FeType::Normal)]);
    assert_eq!(
        entity.quality.unwrap().to_string(),
        "含鉄－カルシウム・ナトリウム－炭酸水素塩・塩化物泉"
    );
}

#[test]
fn test_onsen_request_create_entity_fe_type_two() {
    let request = common_request(OnsenChemicalsRequestModel {
        fe_type: "Two".to_string(),
        ..common_chemicals()
    });
    let entity = request.create_entity(1).unwrap();
    assert_eq!(entity.id, 1);
    let quality = entity.quality.clone().unwrap();
    assert_eq!(quality.cations, vec![Chemical::CaIon, Chemical::NaIon]);
    assert_eq!(
        quality.anions,
        vec![Chemical::HCO3Ion, Chemical::ClIon(ClType::Normal)]
    );
    assert_eq!(quality.inclusions, vec![Chemical::FeIon(FeType::Two)]);
    assert_eq!(
        entity.quality.unwrap().to_string(),
        "含鉄（Ⅱ）－カルシウム・ナトリウム－炭酸水素塩・塩化物泉"
    );
}

#[test]
fn test_onsen_request_create_entity_fe_type_three() {
    let request = common_request(OnsenChemicalsRequestModel {
        fe_type: "Three".to_string(),
        ..common_chemicals()
    });
    let entity = request.create_entity(1).unwrap();
    assert_eq!(entity.id, 1);
    let quality = entity.quality.clone().unwrap();
    assert_eq!(quality.cations, vec![Chemical::CaIon, Chemical::NaIon]);
    assert_eq!(
        quality.anions,
        vec![Chemical::HCO3Ion, Chemical::ClIon(ClType::Normal)]
    );
    assert_eq!(quality.inclusions, vec![Chemical::FeIon(FeType::Three)]);
    assert_eq!(
        entity.quality.unwrap().to_string(),
        "含鉄（Ⅲ）－カルシウム・ナトリウム－炭酸水素塩・塩化物泉"
    );
}

#[test]
fn test_onsen_request_create_entity_rn_is_weak() {
    let request = common_request(OnsenChemicalsRequestModel {
        rn: 8,
        is_weak_rn: true,
        ..common_chemicals()
    });
    let entity = request.create_entity(1).unwrap();
    let quality = entity.quality.clone().unwrap();
    assert_eq!(quality.cations, vec![Chemical::CaIon, Chemical::NaIon]);
    assert_eq!(
        quality.anions,
        vec![Chemical::HCO3Ion, Chemical::ClIon(ClType::Normal)]
    );
    assert_eq!(
        quality.inclusions,
        vec![Chemical::FeIon(FeType::Two), Chemical::Rn(RnType::Weak)]
    );
    assert_eq!(entity.spring_quality, "温泉法の温泉");
    assert_eq!(
        entity.quality.unwrap().to_string(),
        "含鉄（Ⅱ）・弱放射能－カルシウム・ナトリウム－炭酸水素塩・塩化物泉"
    );
}

#[test]
fn test_onsen_request_create_entity_rn_is_not_weak() {
    let request = common_request(OnsenChemicalsRequestModel {
        rn: 8,
        is_weak_rn: false,
        ..common_chemicals()
    });
    let entity = request.create_entity(1).unwrap();
    let quality = entity.quality.clone().unwrap();
    assert_eq!(quality.cations, vec![Chemical::CaIon, Chemical::NaIon]);
    assert_eq!(
        quality.anions,
        vec![Chemical::HCO3Ion, Chemical::ClIon(ClType::Normal)]
    );
    assert_eq!(
        quality.inclusions,
        vec![Chemical::FeIon(FeType::Two), Chemical::Rn(RnType::Normal)]
    );
    assert_eq!(entity.spring_quality, "温泉法の温泉");
    assert_eq!(
        entity.quality.unwrap().to_string(),
        "含鉄（Ⅱ）・放射能－カルシウム・ナトリウム－炭酸水素塩・塩化物泉"
    );
}

#[test]
fn onsen_request_test_onsen_request_create_entity_if_data_is_not_migrated() {
    // Older rows held 1 for a present constituent and 0 otherwise.
    let request = common_request(OnsenChemicalsRequestModel {
        na_ion: 1,
        ca_ion: 1,
        cl_ion: 1,
        hco3_ion: 1,
        fe_ion: 1,
        ..common_chemicals()
    });
    let entity = request.create_entity(1).unwrap();
    assert_eq!(entity.id, 1);
    assert_eq!(entity.name, "元禄の湯");
    let quality = entity.quality.clone().unwrap();
    assert_eq!(quality.cations, vec![Chemical::NaIon, Chemical::CaIon]);
    assert_eq!(
        quality.anions,
        vec![Chemical::ClIon(ClType::Normal), Chemical::HCO3Ion]
    );
    assert_eq!(quality.inclusions, vec![Chemical::FeIon(FeType::Two)]);
    assert_eq!(entity.spring_quality, "温泉法の温泉");
    assert_eq!(
        entity.quality.unwrap().to_string(),
        "含鉄（Ⅱ）－ナトリウム・カルシウム－塩化物・炭酸水素塩泉"
    );
    assert_eq!(entity.is_day_use, true);
    assert_eq!(entity.url, "https://www.sekizenkan.co.jp/spa/#ank-spa1");
    assert_eq!(entity.img_url.unwrap(), "https://placehold.jp/150x150.png");
    assert_eq!(entity.description, "description");
}

#[test]
fn onsen_api_model_test_onsen_request_create_entity() {
    let request = common_request(common_chemicals());
    let entity = request.create_entity(1).unwrap();
    assert_eq!(entity.id, 1);
    assert_eq!(entity.name, "元禄の湯");
    let quality = entity.quality.clone().unwrap();
    assert_eq!(quality.cations, vec![Chemical::CaIon, Chemical::NaIon]);
    assert_eq!(
        quality.anions,
        vec![Chemical::HCO3Ion, Chemical::ClIon(ClType::Normal)]
    );
    assert_eq!(quality.inclusions, vec![Chemical::FeIon(FeType::Two)]);
    assert_eq!(entity.spring_quality, "温泉法の温泉");
    assert_eq!(
        entity.quality.unwrap().to_string(),
        "含鉄（Ⅱ）－カルシウム・ナトリウム－炭酸水素塩・塩化物泉"
    );
    assert_eq!(entity.is_day_use, true);
    assert_eq!(entity.url, "https://www.sekizenkan.co.jp/spa/#ank-spa1");
    assert_eq!(entity.img_url.unwrap(), "https://placehold.jp/150x150.png");
    assert_eq!(entity.description, "description");
}

#[test]
fn onsen_api_model_test_onsen_request_create_entity_if_data_is_not_migrated() {
    let request = common_request(OnsenChemicalsRequestModel {
        na_ion: 1,
        ca_ion: 1,
        cl_ion: 1,
        hco3_ion: 1,
        fe_ion: 1,
        ..common_chemicals()
    });
    let entity = request.create_entity(1).unwrap();
    assert_eq!(entity.id, 1);
    assert_eq!(entity.name, "元禄の湯");
    let quality = entity.quality.clone().unwrap();
    assert_eq!(quality.cations, vec![Chemical::NaIon, Chemical::CaIon]);
    assert_eq!(
        quality.anions,
        vec![Chemical::ClIon(ClType::Normal), Chemical::HCO3Ion]
    );
    assert_eq!(quality.inclusions, vec![Chemical::FeIon(FeType::Two)]);
    assert_eq!(entity.spring_quality, "温泉法の温泉");
    assert_eq!(
        entity.quality.unwrap().to_string(),
        "含鉄（Ⅱ）－ナトリウム・カルシウム－塩化物・炭酸水素塩泉"
    );
    assert_eq!(entity.is_day_use, true);
    assert_eq!(entity.url, "https://www.sekizenkan.co.jp/spa/#ank-spa1");
    assert_eq!(entity.img_url.unwrap(), "https://placehold.jp/150x150.png");
    assert_eq!(entity.description, "description");
}

#[test]
fn test_create_entity() {
    let area_request = AreaRequest {
        name: "四万".to_string(),
        prefecture: "群馬県".to_string(),
        national_resort: true,
        village: None,
        url: "https://nakanojo-kanko.jp/shima/".to_string(),
        description: "".to_string(),
        access: "".to_string(),
    };
    let area_entity: AreaEntity = area_request.create_entity(1).unwrap();
    assert_eq!(area_entity.id, 1);
    assert_eq!(area_entity.name, "四万");
    assert_eq!(area_entity.prefecture, "群馬県");
    assert_eq!(area_entity.national_resort, true);
    assert_eq!(area_entity.village, None);
    assert_eq!(area_entity.url, "https://nakanojo-kanko.jp/shima/");
    assert_eq!(area_entity.description, "");
    assert_eq!(area_entity.access, "");
    assert_eq!(area_entity.onsens.len(), 0);
}

#[test]
fn test_area_response() {
    let onsen = OnsenEntity::new(
        2,
        "元禄の湯",
        Some(OnsenQuality::new(
            &vec![Chemical::NaIon, Chemical::CaIon, Chemical::SO4Ion],
            None,
        )),
        "",
        Some("neutral"),
        Some("hypotonic"),
        Some("hot"),
        "uchiyu",
        true,
        "https://www.sekizenkan.co.jp/spa/#ank-spa1",
        Some("https://placehold.jp/150x150.png"),
        "",
        None,
    )
    .expect("");
    let area = AreaEntity::new(
        1,
        "四万",
        "しま",
        "群馬県",
        true,
        None,
        "https://nakanojo-kanko.jp/shima/",
        "",
        "",
        vec![onsen],
    )
    .expect("");
    let response = onsen::api::AreaResponse::from(&area);
    assert_eq!(response.id, 1);
    assert_eq!(response.name, "四万");
    assert_eq!(response.kana, "しま");
    assert_eq!(response.prefecture, "群馬県");
    assert_eq!(response.national_resort, true);
    assert_eq!(response.village, None);
    assert_eq!(response.url, "https://nakanojo-kanko.jp/shima/");
    assert_eq!(response.description, "");
    assert_eq!(response.access, "");
    assert_eq!(response.onsen_ids, vec![2]);
}

#[test]
fn test_hotel_request_create_entity() {
    let request = HotelRequest {
        name: "ホテル".to_string(),
        has_washitsu: true,
        solo_available: true,
        url: "https://example.com/hotel".to_string(),
        description: "いい感じのホテル".to_string(),
    };
    let entity = request.create_entity(1).unwrap();
    assert_eq!(entity.id, 1);
    assert_eq!(entity.name, "ホテル");
    assert_eq!(entity.has_washitsu, true);
    assert_eq!(entity.solo_available, true);
    assert_eq!(entity.url, "https://example.com/hotel");
    assert_eq!(entity.description, "いい感じのホテル");
}

#[test]
fn test_hotel_response_from() {
    let hotel = HotelEntity::new(
        1,
        "ホテル",
        true,
        true,
        "https://example.com/hotel",
        "いい感じのホテル",
        vec![],
    )
    .unwrap();
    let response = HotelResponse::from(&hotel);
    assert_eq!(response.id, 1);
    assert_eq!(response.name, "ホテル");
    assert_eq!(response.has_washitsu, true);
    assert_eq!(response.solo_available, true);
    assert_eq!(response.url, "https://example.com/hotel");
    assert_eq!(response.description, "いい感じのホテル");
    assert_eq!(response.onsens.len(), 0);
}

#[test]
fn test_onsen_response_from_onsen_entity() {
    let onsen = OnsenEntity::new(
        1,
        "元禄の湯",
        Some(OnsenQuality::new(
            &vec![Chemical::NaIon, Chemical::CaIon, Chemical::SO4Ion],
            None,
        )),
        "",
        Some("neutral"),
        Some("hypotonic"),
        Some("hot"),
        "uchiyu",
        true,
        "https://www.sekizenkan.co.jp/spa/#ank-spa1",
        Some("https://placehold.jp/150x150.png"),
        "",
        None,
    );
    let response: OnsenResponse = OnsenResponse::create(&onsen.unwrap(), None);
    assert_eq!(response.name, "元禄の湯");
    assert_eq!(
        response.quality.unwrap().name,
        "ナトリウム・カルシウム－硫酸塩泉"
    );
    assert_eq!(response.liquid.unwrap(), "neutral");
    assert_eq!(response.osmotic_pressure.unwrap(), "hypotonic");
    assert_eq!(response.temperature.unwrap(), "hot");
    assert_eq!(response.form, "uchiyu");
    assert_eq!(response.is_day_use, true);
    assert_eq!(response.url, "https://www.sekizenkan.co.jp/spa/#ank-spa1");
    assert_eq!(
        response.img_url.unwrap(),
        "https://placehold.jp/150x150.png"
    );
    assert_eq!(response.description, "");
}

#[test]
fn quality_response_carries_identifiers_and_flags() {
    let onsen = OnsenEntity::new(
        1,
        "元禄の湯",
        Some(OnsenQuality::new(
            &vec![
                Chemical::NaIon,
                Chemical::ClIon(ClType::Strong),
                Chemical::Rn(RnType::Weak),
            ],
            None,
        )),
        "",
        None,
        None,
        None,
        "uchiyu",
        false,
        "",
        None,
        "",
        None,
    )
    .unwrap();
    let response = OnsenResponse::create(&onsen, None);
    let quality = response.quality.unwrap();
    assert_eq!(quality.chemicals, vec!["NaIon", "ClIon", "Rn"]);
    assert_eq!(quality.is_strong_na_cl, true);
    assert_eq!(quality.fe_type, "");
    assert_eq!(quality.is_weak_rn, true);
}
