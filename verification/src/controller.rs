//! The decisions of the HTTP handlers.
//!
//! Each handler's reads and writes of the store are outside work; the
//! functions here take what was read (or what is about to be written)
//! as plain values and decide the outcome: which response to build,
//! which entity to store, or which error to answer.  Writes only
//! happen for an administrator, and a payload that builds no entity is
//! a bad request.

use crate::api::{
    AreaRequest, AreaResponse, AuthResponse, HotelRequest, HotelResponse, OnsenRequest,
    OnsenResponse,
};
use crate::auth::ValidatedUser;
use crate::entity::{AreaEntity, HotelEntity, OnsenEntity};
use crate::eq_str;
use crate::store::User;
use vstd::prelude::*;

verus! {

/// The error statuses the handlers answer with.
#[derive(Debug, Clone, Copy, PartialEq, Eq, Structural)]
pub enum ApiError {
    BadRequest,
    Unauthorized,
    Forbidden,
    NotFound,
    Conflict,
}

/// Whether the caller may write.
pub open spec fn spec_is_admin(user: ValidatedUser) -> bool {
    user.role@ == "admin"@
}

fn is_admin(user: &ValidatedUser) -> (r: bool)
    ensures
        r == spec_is_admin(*user),
{
    eq_str(user.role.as_str(), "admin")
}

/// Flattens every listed area.
pub fn get_areas(areas: Vec<AreaEntity>) -> (r: Vec<AreaResponse>)
    ensures
        r@.len() == areas@.len(),
        forall|i: int|
            0 <= i < areas@.len() ==> AreaResponse::spec_respond(#[trigger] areas@[i], r@[i]),
{
    let mut out: Vec<AreaResponse> = Vec::new();
    let mut i: usize = 0;
    while i < areas.len()
        invariant
            i <= areas@.len(),
            out@.len() == i,
            forall|j: int|
                0 <= j < i ==> AreaResponse::spec_respond(#[trigger] areas@[j], out@[j]),
        decreases areas@.len() - i,
    {
        out.push(AreaResponse::from(&areas[i]));
        i = i + 1;
    }
    out
}

/// Flattens the looked-up area, or answers not-found.
pub fn get_area(area: Option<AreaEntity>) -> (r: Result<AreaResponse, ApiError>)
    ensures
        r is Ok <==> area is Some,
        area matches Some(a) ==> r matches Ok(resp) && AreaResponse::spec_respond(a, resp),
        area is None ==> r matches Err(ApiError::NotFound),
{
    match area {
        Some(a) => Ok(AreaResponse::from(&a)),
        None => Err(ApiError::NotFound),
    }
}

/// Decides an area update: only an administrator may write, and the
/// payload must build an entity, which the caller then stores under
/// `area_id`.
pub fn put_area(area_id: u32, area_req: &AreaRequest, user: &ValidatedUser) -> (r: Result<
    AreaEntity,
    ApiError,
>)
    ensures
        r is Ok <==> (spec_is_admin(*user) && area_req.spec_valid()),
        r matches Ok(e) ==> area_req.spec_entity(area_id, e),
        !spec_is_admin(*user) ==> r matches Err(ApiError::Forbidden),
        spec_is_admin(*user) && !area_req.spec_valid() ==> r matches Err(ApiError::BadRequest),
{
    if !is_admin(user) {
        return Err(ApiError::Forbidden);
    }
    match area_req.create_entity(area_id) {
        Some(e) => Ok(e),
        None => Err(ApiError::BadRequest),
    }
}

/// Decides an area creation; the caller stores the entity and answers
/// with the flattened stored row.
pub fn post_area(area_req: &AreaRequest, user: &ValidatedUser) -> (r: Result<AreaEntity, ApiError>)
    ensures
        r is Ok <==> (spec_is_admin(*user) && area_req.spec_valid()),
        r matches Ok(e) ==> area_req.spec_entity(0, e),
        !spec_is_admin(*user) ==> r matches Err(ApiError::Forbidden),
        spec_is_admin(*user) && !area_req.spec_valid() ==> r matches Err(ApiError::BadRequest),
{
    if !is_admin(user) {
        return Err(ApiError::Forbidden);
    }
    match area_req.create_entity(0) {
        Some(e) => Ok(e),
        None => Err(ApiError::BadRequest),
    }
}

/// Flattens every listed lodging.
pub fn get_hotels(hotels: Vec<HotelEntity>) -> (r: Vec<HotelResponse>)
    ensures
        r@.len() == hotels@.len(),
        forall|i: int|
            0 <= i < hotels@.len() ==> HotelResponse::spec_respond(#[trigger] hotels@[i], r@[i]),
{
    let mut out: Vec<HotelResponse> = Vec::new();
    let mut i: usize = 0;
    while i < hotels.len()
        invariant
            i <= hotels@.len(),
            out@.len() == i,
            forall|j: int|
                0 <= j < i ==> HotelResponse::spec_respond(#[trigger] hotels@[j], out@[j]),
        decreases hotels@.len() - i,
    {
        out.push(HotelResponse::from(&hotels[i]));
        i = i + 1;
    }
    out
}

/// Flattens the looked-up lodging, or answers not-found.
pub fn get_hotel(hotel: Option<HotelEntity>) -> (r: Result<HotelResponse, ApiError>)
    ensures
        r is Ok <==> hotel is Some,
        hotel matches Some(h) ==> r matches Ok(resp) && HotelResponse::spec_respond(h, resp),
        hotel is None ==> r matches Err(ApiError::NotFound),
{
    match hotel {
        Some(h) => Ok(HotelResponse::from(&h)),
        None => Err(ApiError::NotFound),
    }
}

/// Decides a lodging update.
pub fn put_hotel(hotel_id: u32, hotel_req: &HotelRequest, user: &ValidatedUser) -> (r: Result<
    HotelEntity,
    ApiError,
>)
    ensures
        r is Ok <==> (spec_is_admin(*user) && hotel_req.spec_valid()),
        r matches Ok(e) ==> hotel_req.spec_entity(hotel_id, e),
        !spec_is_admin(*user) ==> r matches Err(ApiError::Forbidden),
        spec_is_admin(*user) && !hotel_req.spec_valid() ==> r matches Err(ApiError::BadRequest),
{
    if !is_admin(user) {
        return Err(ApiError::Forbidden);
    }
    match hotel_req.create_entity(hotel_id) {
        Some(e) => Ok(e),
        None => Err(ApiError::BadRequest),
    }
}

/// Decides a lodging creation.
pub fn post_hotel(hotel_req: &HotelRequest, user: &ValidatedUser) -> (r: Result<
    HotelEntity,
    ApiError,
>)
    ensures
        r is Ok <==> (spec_is_admin(*user) && hotel_req.spec_valid()),
        r matches Ok(e) ==> hotel_req.spec_entity(0, e),
        !spec_is_admin(*user) ==> r matches Err(ApiError::Forbidden),
        spec_is_admin(*user) && !hotel_req.spec_valid() ==> r matches Err(ApiError::BadRequest),
{
    if !is_admin(user) {
        return Err(ApiError::Forbidden);
    }
    match hotel_req.create_entity(0) {
        Some(e) => Ok(e),
        None => Err(ApiError::BadRequest),
    }
}

/// Flattens every listed spring, without area blocks.
pub fn get_onsens(onsens: Vec<OnsenEntity>) -> (r: Vec<OnsenResponse>)
    ensures
        r@.len() == onsens@.len(),
        forall|i: int|
            0 <= i < onsens@.len() ==> OnsenResponse::spec_respond(
                #[trigger] onsens@[i],
                None,
                r@[i],
            ),
{
    let mut out: Vec<OnsenResponse> = Vec::new();
    let mut i: usize = 0;
    while i < onsens.len()
        invariant
            i <= onsens@.len(),
            out@.len() == i,
            forall|j: int|
                0 <= j < i ==> OnsenResponse::spec_respond(#[trigger] onsens@[j], None, out@[j]),
        decreases onsens@.len() - i,
    {
        out.push(OnsenResponse::create(&onsens[i], None));
        i = i + 1;
    }
    out
}

/// Flattens the looked-up spring together with the area the caller
/// looked up for it, or answers not-found.
pub fn get_onsen(onsen: Option<OnsenEntity>, area: Option<AreaEntity>) -> (r: Result<
    OnsenResponse,
    ApiError,
>)
    ensures
        r is Ok <==> onsen is Some,
        onsen matches Some(o) ==> r matches Ok(resp) && (match area {
            Some(a) => OnsenResponse::spec_respond(o, Some(a), resp),
            None => OnsenResponse::spec_respond(o, None, resp),
        }),
        onsen is None ==> r matches Err(ApiError::NotFound),
{
    match onsen {
        Some(o) => match area {
            Some(a) => Ok(OnsenResponse::create(&o, Some(&a))),
            None => Ok(OnsenResponse::create(&o, None)),
        },
        None => Err(ApiError::NotFound),
    }
}

/// Decides a spring update.
pub fn put_onsen(onsen_id: u32, onsen_req: &OnsenRequest, user: &ValidatedUser) -> (r: Result<
    OnsenEntity,
    ApiError,
>)
    ensures
        r is Ok <==> (spec_is_admin(*user) && onsen_req.spec_valid()),
        !spec_is_admin(*user) ==> r matches Err(ApiError::Forbidden),
        spec_is_admin(*user) && !onsen_req.spec_valid() ==> r matches Err(ApiError::BadRequest),
        r matches Ok(e) ==> e.id == onsen_id && e.name@ == onsen_req.name@,
{
    if !is_admin(user) {
        return Err(ApiError::Forbidden);
    }
    match onsen_req.create_entity(onsen_id) {
        Some(e) => Ok(e),
        None => Err(ApiError::BadRequest),
    }
}

/// Decides a spring creation.
pub fn post_onsen(onsen_req: &OnsenRequest, user: &ValidatedUser) -> (r: Result<
    OnsenEntity,
    ApiError,
>)
    ensures
        r is Ok <==> (spec_is_admin(*user) && onsen_req.spec_valid()),
        !spec_is_admin(*user) ==> r matches Err(ApiError::Forbidden),
        spec_is_admin(*user) && !onsen_req.spec_valid() ==> r matches Err(ApiError::BadRequest),
        r matches Ok(e) ==> e.id == 0 && e.name@ == onsen_req.name@,
{
    if !is_admin(user) {
        return Err(ApiError::Forbidden);
    }
    match onsen_req.create_entity(0) {
        Some(e) => Ok(e),
        None => Err(ApiError::BadRequest),
    }
}

/// Decides a signup: an address that already has an account is a
/// conflict; otherwise the caller stores the new account and answers
/// with the token it minted.
pub fn post_signup(exists_user: bool, token: String) -> (r: Result<AuthResponse, ApiError>)
    ensures
        r is Ok <==> !exists_user,
        exists_user ==> r matches Err(ApiError::Conflict),
        r matches Ok(a) ==> a.token == token,
{
    if exists_user {
        return Err(ApiError::Conflict);
    }
    Ok(AuthResponse { token })
}

/// Decides a signin: the account must exist and the password hash
/// must have matched; the caller then answers with the token it
/// minted.
pub fn post_signin(user: Option<&User>, password_matches: bool, token: String) -> (r: Result<
    AuthResponse,
    ApiError,
>)
    ensures
        r is Ok <==> (user is Some && password_matches),
        (user is None || !password_matches) ==> r matches Err(ApiError::Unauthorized),
        r matches Ok(a) ==> a.token == token,
{
    if user.is_none() {
        return Err(ApiError::Unauthorized);
    }
    if !password_matches {
        return Err(ApiError::Unauthorized);
    }
    Ok(AuthResponse { token })
}

} // verus!
