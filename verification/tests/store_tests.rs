use onsen::auth::Claims;
use onsen::entity::{AreaEntity, HotelEntity, OnsenEntity};
use onsen::store::{Area, Hotel, Onsen};

#[test]
fn spring_entity_flattens_to_its_row() {
    let entity = OnsenEntity::new(
        9,
        "元禄の湯",
        None,
        "単純温泉",
        Some("alkaline"),
        Some("hypertonic"),
        Some("cold"),
        "sotoyu",
        false,
        "https://example.com/onsen",
        None,
        "静かな湯",
        Some(4),
    )
    .unwrap();
    let row = Onsen::from(&entity);
    assert_eq!(row.id, 9);
    assert_eq!(row.name, "元禄の湯");
    assert_eq!(row.liquid, Some("alkaline".to_string()));
    assert_eq!(row.osmotic_pressure, Some("hypertonic".to_string()));
    assert_eq!(row.temperature, Some("cold".to_string()));
    assert_eq!(row.category, "sotoyu");
    assert_eq!(row.day_use, false);
    assert_eq!(row.img_url, None);
    assert_eq!(row.description, "静かな湯");
    assert_eq!(row.hotel_id, None);
    assert_eq!(row.chemical_id, None);
    assert_eq!(row.area_id, Some(4));
}

#[test]
fn area_row_round_trips_through_the_entity() {
    let entity = AreaEntity::new(
        2,
        "四万",
        "",
        "群馬県",
        false,
        Some("中之条町"),
        "https://example.com/area",
        "",
        "バスで40分",
        vec![],
    )
    .unwrap();
    let row = Area::from(&entity);
    assert_eq!(row.village, Some("中之条町".to_string()));
    let back = row.to_entity();
    assert_eq!(back.id, 2);
    assert_eq!(back.name, "四万");
    assert_eq!(back.prefecture, "群馬県");
    assert_eq!(back.access, "バスで40分");
    assert!(back.onsens.is_empty());
}

#[test]
fn hotel_row_round_trips_through_the_entity() {
    let entity = HotelEntity::new(3, "積善館", true, true, "https://example.com", "", vec![])
        .unwrap();
    let row = Hotel::from(&entity);
    assert_eq!(row.name, "積善館");
    let back = row.to_entity();
    assert_eq!(back.id, 3);
    assert_eq!(back.has_washitsu, true);
    // The row does not keep the solo-stay flag.
    assert_eq!(back.solo_available, false);
}

#[test]
fn claims_expire_one_day_after_minting() {
    let claims = Claims::new("a@example.com", 1_000_000);
    assert_eq!(claims.email, "a@example.com");
    assert_eq!(claims.iat, 1_000_000);
    assert_eq!(claims.exp, 1_086_400);
}
