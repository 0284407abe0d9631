//! Records of the credential store and of the user store.

use vstd::prelude::*;

verus! {

/// Declares `uuid::Uuid`, which identifies stored rows; carried through opaque.
#[verifier::external_type_specification]
#[verifier::external_body]
pub struct ExUuid(uuid::Uuid);

/// Declares `chrono::NaiveDateTime`, the store's row timestamps; carried
/// through opaque.
#[verifier::external_type_specification]
#[verifier::external_body]
pub struct ExNaiveDateTime(chrono::NaiveDateTime);

/// A stored upstream credential. `token` already carries the scheme prefix.
#[derive(Debug)]
pub struct UbiUser {
    pub id: uuid::Uuid,
    pub email: String,
    pub password: String,
    pub token: String,
    pub expiration: String,
    pub created_at: chrono::NaiveDateTime,
    pub updated_at: chrono::NaiveDateTime,
}

/// A credential to insert into the store.
#[derive(Clone, Debug)]
pub struct NewUbiUser {
    pub email: String,
    pub password: String,
    pub token: String,
    pub expiration: String,
}

/// The part of a stored credential that a refresh changes.
#[derive(Clone, Debug)]
pub struct UpdateUbiUser {
    pub token: String,
    pub expiration: String,
}

/// A user account as stored.
#[derive(Debug)]
pub struct User {
    pub id: uuid::Uuid,
    pub username: String,
    pub email: String,
    pub password_hash: String,
    pub full_name: Option<String>,
    pub bio: Option<String>,
    pub image: Option<String>,
    pub created_at: chrono::NaiveDateTime,
    pub updated_at: chrono::NaiveDateTime,
}

/// A user account with its location parts, without the password hash.
#[derive(Debug)]
pub struct UserWithLocation {
    pub id: uuid::Uuid,
    pub username: String,
    pub email: String,
    pub full_name: Option<String>,
    pub bio: Option<String>,
    pub image: Option<String>,
    pub created_at: chrono::NaiveDateTime,
    pub updated_at: chrono::NaiveDateTime,
    pub locations: Vec<String>,
}

/// The view of an optional text.
pub open spec fn opt_view(o: Option<String>) -> Option<Seq<char>> {
    match o {
        Some(s) => Some(s@),
        None => None,
    }
}

fn clone_opt(o: &Option<String>) -> (r: Option<String>)
    ensures
        opt_view(r) == opt_view(*o),
{
    match o {
        Some(s) => Some(s.clone()),
        None => None,
    }
}

impl User {
    /// The account with the given location parts, and no password hash.
    pub fn with_locations(&self, locations: Vec<String>) -> (r: UserWithLocation)
        ensures
            r.id == self.id,
            r.username@ == self.username@,
            r.email@ == self.email@,
            opt_view(r.full_name) == opt_view(self.full_name),
            opt_view(r.bio) == opt_view(self.bio),
            opt_view(r.image) == opt_view(self.image),
            r.created_at == self.created_at,
            r.updated_at == self.updated_at,
            r.locations == locations,
    {
        UserWithLocation {
            id: self.id,
            username: self.username.clone(),
            email: self.email.clone(),
            full_name: clone_opt(&self.full_name),
            bio: clone_opt(&self.bio),
            image: clone_opt(&self.image),
            created_at: self.created_at,
            updated_at: self.updated_at,
            locations,
        }
    }
}

/// A stored location of a user, each part optional.
#[derive(Debug)]
pub struct UserLocation {
    pub id: uuid::Uuid,
    pub user_id: uuid::Uuid,
    pub street: Option<String>,
    pub city: Option<String>,
    pub state: Option<String>,
    pub country: Option<String>,
}

/// The parts of an optional text: one if it is there, none if not.
pub open spec fn part(o: Option<String>) -> Seq<Seq<char>> {
    match o {
        Some(s) => seq![s@],
        None => Seq::empty(),
    }
}

/// The location parts that are there, from street to country.
pub open spec fn location_parts(l: UserLocation) -> Seq<Seq<char>> {
    part(l.street) + part(l.city) + part(l.state) + part(l.country)
}

/// The views of a list of texts.
pub open spec fn texts_view(v: Seq<String>) -> Seq<Seq<char>> {
    v.map_values(|s: String| s@)
}

fn push_part(parts: &mut Vec<String>, o: &Option<String>)
    ensures
        texts_view(final(parts)@) == texts_view(old(parts)@) + part(*o),
{
    if let Some(s) = o {
        parts.push(s.clone());
    }
    assert(texts_view(final(parts)@) =~= texts_view(old(parts)@) + part(*o));
}

impl UserLocation {
    /// The parts of the location that are there, in the order street, city,
    /// state, country.
    pub fn to_array(&self) -> (r: Vec<String>)
        ensures
            texts_view(r@) == location_parts(*self),
    {
        let mut locations: Vec<String> = Vec::new();
        assert(texts_view(locations@) =~= Seq::empty());
        push_part(&mut locations, &self.street);
        push_part(&mut locations, &self.city);
        push_part(&mut locations, &self.state);
        push_part(&mut locations, &self.country);
        locations
    }
}

/// A sign-up request.
#[derive(Debug)]
pub struct NewUser {
    pub username: String,
    pub email: String,
    pub password: String,
}

/// A profile change request.
#[derive(Debug)]
pub struct UpdateProfile {
    pub full_name: Option<String>,
    pub bio: Option<String>,
    pub image: Option<String>,
    pub locations: Option<Vec<String>>,
}

/// The location parts to write, each optional.
#[derive(Debug)]
pub struct UpdateUserLocation {
    pub street: Option<String>,
    pub city: Option<String>,
    pub state: Option<String>,
    pub country: Option<String>,
}

/// The last element of `s`, if any, and `s` without it.
pub open spec fn take_last(s: Seq<String>) -> (Option<String>, Seq<String>) {
    if s.len() == 0 {
        (None, s)
    } else {
        (Some(s.last()), s.drop_last())
    }
}

impl UpdateUserLocation {
    /// Takes up to four parts off the end of `locations`: the last is the
    /// country, then the state, the city and the street. Parts that are
    /// missing stay `None`; anything before the last four stays in
    /// `locations`.
    pub fn create_from_vec(locations: &mut Vec<String>) -> (r: UpdateUserLocation)
        ensures
            r.country == take_last(old(locations)@).0,
            r.state == take_last(take_last(old(locations)@).1).0,
            r.city == take_last(take_last(take_last(old(locations)@).1).1).0,
            r.street == take_last(take_last(take_last(take_last(old(locations)@).1).1).1).0,
            final(locations)@ == take_last(take_last(take_last(take_last(old(locations)@).1).1).1).1,
    {
        let country: Option<String> = locations.pop();
        let state: Option<String> = locations.pop();
        let city: Option<String> = locations.pop();
        let street: Option<String> = locations.pop();
        UpdateUserLocation { street, city, state, country }
    }
}

} // verus!
