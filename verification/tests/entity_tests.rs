use onsen::chemical::Chemical::{AlIon, CaIon, ClIon, CuIon, FeIon, HCO3Ion, HIon, IIon, MgIon, NaIon, Rn, S, SO4Ion, CO2};
use onsen::entity::{AreaEntity, DomainError, Hotel, HotelEntity, Onsen, OnsenEntity};
use onsen::quality::OnsenQuality;
use onsen::spring::{SpringForm, SpringLiquid, SpringOsmoticPressure};

fn common_onsen_quality() -> OnsenQuality {
    OnsenQuality::new(&vec![NaIon, CaIon, SO4Ion], None)
}

fn common_onsen() -> OnsenEntity {
    OnsenEntity::new(
        1,
        "積善館 元禄の湯",
        None,
        "単純温泉",
        Some("neutral"),
        Some("isotonic"),
        Some("hot"),
        "sotoyu",
        true,
        "https://www.sekizenkan.co.jp/spa/#ank-spa1",
        Some("https://placehold.jp/150x150.png"),
        "",
        None,
    )
    .expect("")
}

#[test]
fn onsen_entity_new_test() {
    let onsen = OnsenEntity::new(
        1,
        "元禄の湯",
        Some(common_onsen_quality()),
        "ナトリウム・カルシウム 塩化物硫酸塩温泉",
        Some("neutral"),
        Some("hypotonic"),
        Some("hot"),
        "uchiyu",
        true,
        "https://www.sekizenkan.co.jp/spa/#ank-spa1",
        Some("https://placehold.jp/150x150.png"),
        "",
        None,
    );
    let inside: OnsenEntity = onsen.expect("");
    assert!(inside.name == "元禄の湯");
}

#[test]
#[should_panic]
fn onsen_entity_new_test_return_none_when_name_is_empty() {
    let onsen = OnsenEntity::new(
        1,
        "",
        Some(common_onsen_quality()),
        "ナトリウム・カルシウム 塩化物硫酸塩温泉",
        Some("neutral"),
        Some("hypotonic"),
        Some("hot"),
        "uchiyu",
        true,
        "https://www.sekizenkan.co.jp/spa/#ank-spa1",
        Some("https://placehold.jp/150x150.png"),
        "",
        None,
    );
    onsen.expect("");
}

#[test]
#[should_panic]
fn onsen_entity_new_test_none() {
    let onsen = OnsenEntity::new(
        1,
        "",
        None,
        "ナトリウム・カルシウム 塩化物硫酸塩温泉",
        Some("neutral"),
        Some("hypotonic"),
        None,
        "uchiyu",
        true,
        "https://www.sekizenkan.co.jp/spa/#ank-spa1",
        None,
        "",
        None,
    );
    onsen.expect("");
}

#[test]
fn onsen_entity_rejects_unknown_form() {
    let onsen = OnsenEntity::new(
        1,
        "元禄の湯",
        None,
        "",
        Some("neutral"),
        None,
        None,
        "rotenburo",
        true,
        "",
        None,
        "",
        None,
    );
    assert!(onsen.is_none());
}

#[test]
fn onsen_entity_keeps_unknown_liquid_as_none() {
    let onsen = OnsenEntity::new(
        1,
        "元禄の湯",
        None,
        "",
        Some("fizzy"),
        None,
        None,
        "uchiyu",
        true,
        "",
        None,
        "",
        None,
    )
    .expect("");
    assert!(onsen.liquid.is_none());
    assert_eq!(onsen.form, SpringForm::Uchiyu);
}

#[test]
fn area_entity_new_and_clone_test() {
    let area = AreaEntity::new(
        1,
        "四万",
        "",
        "群馬県",
        true,
        None,
        "https://nakanojo-kanko.jp/shima/",
        "",
        "",
        vec![],
    );
    let area: AreaEntity = area.expect("");
    assert!(area.name == "四万");
    let cloned_area = area.clone();
    assert!(cloned_area.name == "四万");
}

#[test]
#[should_panic]
fn new_test_return_none_if_name_is_empty() {
    let area = AreaEntity::new(
        1,
        "",
        "",
        "群馬県",
        false,
        None,
        "https://nakanojo-kanko.jp/shima/",
        "",
        "",
        vec![],
    );
    area.unwrap();
}

#[test]
#[should_panic]
fn new_test_return_none_if_prefecture_is_empty() {
    let area = AreaEntity::new(
        1,
        "四万",
        "",
        "",
        false,
        None,
        "https://nakanojo-kanko.jp/shima/",
        "",
        "",
        vec![],
    );
    area.unwrap();
}

#[test]
fn hotel_new_test() {
    let hotel: Result<Hotel, DomainError> = Hotel::new("積善館", true);
    let inside: Hotel = hotel.expect("");
    assert!(inside.name == "積善館");
    assert!(inside.has_washitsu == true);
}

#[test]
#[should_panic]
fn hotel_new_test_none() {
    let hotel: Result<Hotel, DomainError> = Hotel::new("", true);
    hotel.unwrap();
}

#[test]
fn hotel_entity_new_and_clone_test() {
    let hotel = HotelEntity::new(
        1,
        "積善館",
        true,
        false,
        "https://www.sekizenkan.co.jp/",
        "",
        vec![common_onsen()],
    );
    let hotel: HotelEntity = hotel.expect("");
    assert!(hotel.name == "積善館");
    assert!(hotel.has_washitsu == true);
    let cloned_hotel = hotel.clone();
    assert!(cloned_hotel.name == "積善館");
    assert!(cloned_hotel.has_washitsu == true);
}

#[test]
#[should_panic]
fn hotel_entity_new_test_return_none_when_name_is_empty() {
    let hotel = HotelEntity::new(
        1,
        "",
        true,
        true,
        "https://www.sekizenkan.co.jp/",
        "",
        vec![],
    );
    hotel.unwrap();
}

#[test]
fn onsen_new_test() {
    let onsen = Onsen::new(
        "元禄の湯",
        "ナトリウム・カルシウム 塩化物硫酸塩温泉",
        SpringLiquid::Neutral,
        SpringOsmoticPressure::Hypotonic,
        SpringForm::Uchiyu,
    );
    let inside: Onsen = onsen.expect("");
    assert!(inside.name == "元禄の湯");
}
