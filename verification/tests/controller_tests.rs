use onsen::api::{AreaRequest, HotelRequest};
use onsen::auth::{bearer_token, validate_user, ApiTokenError, Claims, ValidatedUser};
use onsen::controller::{
    get_area, get_areas, get_hotel, get_onsen, post_area, post_hotel, post_signin, post_signup,
    put_area, put_hotel, ApiError,
};
use onsen::entity::{AreaEntity, HotelEntity, OnsenEntity};
use onsen::spring::{
    SpringForm, SpringLiquid, SpringOsmoticPressure, SpringTemperature,
};
use onsen::store::User;

fn admin() -> ValidatedUser {
    ValidatedUser {
        email: "admin@example.com".to_string(),
        role: "admin".to_string(),
    }
}

fn visitor() -> ValidatedUser {
    ValidatedUser {
        email: "visitor@example.com".to_string(),
        role: "user".to_string(),
    }
}

fn sample_area_request() -> AreaRequest {
    AreaRequest {
        name: "四万".to_string(),
        prefecture: "群馬県".to_string(),
        national_resort: true,
        village: None,
        url: "https://nakanojo-kanko.jp/shima/".to_string(),
        description: "".to_string(),
        access: "".to_string(),
    }
}

#[test]
fn get_areas_flattens_each_area() {
    let area = AreaEntity::new(1, "四万", "しま", "群馬県", true, None, "", "", "", vec![])
        .unwrap();
    let responses = get_areas(vec![area]);
    assert_eq!(responses.len(), 1);
    assert_eq!(responses[0].id, 1);
    assert_eq!(responses[0].name, "四万");
}

#[test]
fn get_area_answers_not_found_for_a_missing_id() {
    assert!(matches!(get_area(None), Err(ApiError::NotFound)));
}

#[test]
fn put_area_requires_the_admin_role() {
    let r = put_area(1, &sample_area_request(), &visitor());
    assert!(matches!(r, Err(ApiError::Forbidden)));
}

#[test]
fn put_area_rejects_an_invalid_payload() {
    let req = AreaRequest {
        name: "".to_string(),
        ..sample_area_request()
    };
    let r = put_area(1, &req, &admin());
    assert!(matches!(r, Err(ApiError::BadRequest)));
}

#[test]
fn put_area_builds_the_entity_to_store() {
    let r = put_area(5, &sample_area_request(), &admin()).unwrap();
    assert_eq!(r.id, 5);
    assert_eq!(r.name, "四万");
}

#[test]
fn post_area_builds_a_fresh_entity() {
    let r = post_area(&sample_area_request(), &admin()).unwrap();
    assert_eq!(r.id, 0);
}

#[test]
fn hotel_handlers_follow_the_same_rules() {
    let req = HotelRequest {
        name: "積善館".to_string(),
        has_washitsu: true,
        solo_available: false,
        url: "".to_string(),
        description: "".to_string(),
    };
    assert!(matches!(put_hotel(1, &req, &visitor()), Err(ApiError::Forbidden)));
    let created = post_hotel(&req, &admin()).unwrap();
    assert_eq!(created.name, "積善館");
    assert!(matches!(get_hotel(None), Err(ApiError::NotFound)));
    let entity = HotelEntity::new(4, "積善館", true, false, "", "", vec![]).unwrap();
    let resp = get_hotel(Some(entity)).unwrap();
    assert_eq!(resp.id, 4);
}

#[test]
fn get_onsen_carries_the_area_block() {
    let onsen = OnsenEntity::new(
        3,
        "元禄の湯",
        None,
        "",
        None,
        None,
        None,
        "uchiyu",
        true,
        "",
        None,
        "",
        Some(1),
    )
    .unwrap();
    let area = AreaEntity::new(1, "四万", "しま", "群馬県", true, None, "", "", "", vec![])
        .unwrap();
    let resp = get_onsen(Some(onsen), Some(area)).unwrap();
    let block = resp.area.unwrap();
    assert_eq!(block.id, 1);
    assert_eq!(block.name, "四万");
    assert!(matches!(get_onsen(None, None), Err(ApiError::NotFound)));
}

#[test]
fn signup_conflicts_when_the_address_is_taken() {
    let r = post_signup(true, "token".to_string());
    assert!(matches!(r, Err(ApiError::Conflict)));
    let ok = post_signup(false, "token".to_string()).unwrap();
    assert_eq!(ok.token, "token");
}

#[test]
fn signin_rejects_a_missing_user_and_a_wrong_password() {
    let user = User {
        id: 1,
        email: "a@example.com".to_string(),
        hashed_password: "SECRET-REDACTED".to_string(),
        role: "admin".to_string(),
    };
    assert!(matches!(
        post_signin(None, true, "token".to_string()),
        Err(ApiError::Unauthorized)
    ));
    assert!(matches!(
        post_signin(Some(&user), false, "token".to_string()),
        Err(ApiError::Unauthorized)
    ));
    let ok = post_signin(Some(&user), true, "token".to_string()).unwrap();
    assert_eq!(ok.token, "token");
}

#[test]
fn bearer_token_strips_the_scheme_word() {
    assert_eq!(bearer_token("Bearer abc.def").unwrap(), "abc.def");
    assert!(bearer_token("Basic abc.def").is_none());
    assert!(bearer_token("Bearer").is_none());
    assert!(bearer_token("").is_none());
}

#[test]
fn validate_user_checks_expiry_and_account() {
    let claims = Claims {
        email: "a@example.com".to_string(),
        iat: 100,
        exp: 200,
    };
    let user = User {
        id: 1,
        email: "a@example.com".to_string(),
        hashed_password: "SECRET-REDACTED".to_string(),
        role: "admin".to_string(),
    };
    let ok = validate_user(Some(&claims), 150, Some(&user)).unwrap();
    assert_eq!(ok.email, "a@example.com");
    assert_eq!(ok.role, "admin");
    assert!(matches!(
        validate_user(Some(&claims), 250, Some(&user)),
        Err(ApiTokenError::Missing)
    ));
    assert!(matches!(
        validate_user(None, 150, Some(&user)),
        Err(ApiTokenError::Missing)
    ));
    assert!(matches!(
        validate_user(Some(&claims), 150, None),
        Err(ApiTokenError::Missing)
    ));
}

#[test]
fn spring_attributes_parse_their_wire_strings() {
    assert_eq!(SpringLiquid::from_str("acidic"), Some(SpringLiquid::Acidic));
    assert_eq!(
        SpringLiquid::from_str("mildly_alkaline"),
        Some(SpringLiquid::MildlyAlkaline)
    );
    assert_eq!(SpringLiquid::from_str("lukewarm"), None);
    assert_eq!(
        SpringOsmoticPressure::from_str("isotonic"),
        Some(SpringOsmoticPressure::Isotonic)
    );
    assert_eq!(
        SpringTemperature::from_str("normal"),
        Some(SpringTemperature::Warm)
    );
    assert_eq!(SpringTemperature::Warm.to_string(), "normal");
    assert_eq!(SpringForm::from_str("sotoyu"), Some(SpringForm::Sotoyu));
    assert_eq!(SpringForm::from_str("indoor"), None);
    assert_eq!(SpringLiquid::Alkaline.to_string(), "alkaline");
}
