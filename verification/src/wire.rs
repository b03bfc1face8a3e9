//! The wire representation of each entity: the JSON shape that the service
//! sends, with the service's own member names.

use crate::entities::{
    AddressModel, AlbumModel, CommentModel, CompanyModel, GeoModel, PhotoModel, PostModel,
    TodoModel, UserModel,
};
use crate::json::{lemma_member_found, Json, JsonModel, Number};
use crate::models::opt_view;
use vstd::prelude::*;

verus! {

/// The wire representation of a position.
#[derive(Clone, Debug, PartialEq, Eq)]
pub struct WireGeo {
    pub lat: String,
    pub lng: String,
}

impl View for WireGeo {
    type V = GeoModel;

    open spec fn view(&self) -> GeoModel {
        GeoModel {
            lat: self.lat@,
            lng: self.lng@,
        }
    }
}

/// What the wire schema of a position makes of a JSON value: the record of the
/// members `lat` and `lng`, where the value is an object that has each of them
/// with the type that the schema asks for, and nothing otherwise. Other
/// members are ignored.
pub open spec fn geo_schema(j: JsonModel) -> Option<GeoModel> {
    match (
        j.text_member("lat"@),
        j.text_member("lng"@),
    ) {
        (Some(lat), Some(lng)) => Some(
            GeoModel { lat, lng },
        ),
        _ => None,
    }
}

/// What the wire schema of a position makes of the member `name` of `j`.
pub open spec fn geo_member(j: JsonModel, name: Seq<char>) -> Option<GeoModel> {
    match j.member(name) {
        Some(v) => geo_schema(v),
        None => None,
    }
}

impl WireGeo {
    /// Decodes the wire representation of a position.
    pub fn from_json(j: &Json) -> (r: Option<WireGeo>)
        ensures
            opt_view(r) == geo_schema(j@),
    {
        let lat = match j.text_member("lat") {
            Some(v) => v,
            None => return None,
        };
        let lng = match j.text_member("lng") {
            Some(v) => v,
            None => return None,
        };
        Some(WireGeo { lat, lng })
    }
}

/// The wire representation of an address.
#[derive(Clone, Debug, PartialEq, Eq)]
pub struct WireAddress {
    pub street: String,
    pub suite: String,
    pub city: String,
    pub zipcode: String,
    pub geo: WireGeo,
}

impl View for WireAddress {
    type V = AddressModel;

    open spec fn view(&self) -> AddressModel {
        AddressModel {
            street: self.street@,
            suite: self.suite@,
            city: self.city@,
            zipcode: self.zipcode@,
            geo: self.geo@,
        }
    }
}

/// What the wire schema of an address makes of a JSON value: the record of the
/// members `street`, `suite`, `city`, `zipcode` and `geo`, where the value is
/// an object that has each of them with the type that the schema asks for, and
/// nothing otherwise. Other members are ignored.
pub open spec fn address_schema(j: JsonModel) -> Option<AddressModel> {
    match (
        j.text_member("street"@),
        j.text_member("suite"@),
        j.text_member("city"@),
        j.text_member("zipcode"@),
        geo_member(j, "geo"@),
    ) {
        (Some(street), Some(suite), Some(city), Some(zipcode), Some(geo)) => Some(
            AddressModel { street, suite, city, zipcode, geo },
        ),
        _ => None,
    }
}

/// What the wire schema of an address makes of the member `name` of `j`.
pub open spec fn address_member(j: JsonModel, name: Seq<char>) -> Option<AddressModel> {
    match j.member(name) {
        Some(v) => address_schema(v),
        None => None,
    }
}

impl WireAddress {
    /// Decodes the wire representation of an address.
    pub fn from_json(j: &Json) -> (r: Option<WireAddress>)
        ensures
            opt_view(r) == address_schema(j@),
    {
        let street = match j.text_member("street") {
            Some(v) => v,
            None => return None,
        };
        let suite = match j.text_member("suite") {
            Some(v) => v,
            None => return None,
        };
        let city = match j.text_member("city") {
            Some(v) => v,
            None => return None,
        };
        let zipcode = match j.text_member("zipcode") {
            Some(v) => v,
            None => return None,
        };
        let geo = match j.member("geo") {
            Some(v) => match WireGeo::from_json(v) {
                Some(w) => w,
                None => return None,
            },
            None => return None,
        };
        Some(WireAddress { street, suite, city, zipcode, geo })
    }
}

/// The wire representation of a company.
#[derive(Clone, Debug, PartialEq, Eq)]
pub struct WireCompany {
    pub name: String,
    pub catch_phrase: String,
    pub bs: String,
}

impl View for WireCompany {
    type V = CompanyModel;

    open spec fn view(&self) -> CompanyModel {
        CompanyModel {
            name: self.name@,
            catch_phrase: self.catch_phrase@,
            bs: self.bs@,
        }
    }
}

/// What the wire schema of a company makes of a JSON value: the record of the
/// members `name`, `catchPhrase` and `bs`, where the value is an object that
/// has each of them with the type that the schema asks for, and nothing
/// otherwise. Other members are ignored.
pub open spec fn company_schema(j: JsonModel) -> Option<CompanyModel> {
    match (
        j.text_member("name"@),
        j.text_member("catchPhrase"@),
        j.text_member("bs"@),
    ) {
        (Some(name), Some(catch_phrase), Some(bs)) => Some(
            CompanyModel { name, catch_phrase, bs },
        ),
        _ => None,
    }
}

/// What the wire schema of a company makes of the member `name` of `j`.
pub open spec fn company_member(j: JsonModel, name: Seq<char>) -> Option<CompanyModel> {
    match j.member(name) {
        Some(v) => company_schema(v),
        None => None,
    }
}

impl WireCompany {
    /// Decodes the wire representation of a company.
    pub fn from_json(j: &Json) -> (r: Option<WireCompany>)
        ensures
            opt_view(r) == company_schema(j@),
    {
        let name = match j.text_member("name") {
            Some(v) => v,
            None => return None,
        };
        let catch_phrase = match j.text_member("catchPhrase") {
            Some(v) => v,
            None => return None,
        };
        let bs = match j.text_member("bs") {
            Some(v) => v,
            None => return None,
        };
        Some(WireCompany { name, catch_phrase, bs })
    }
}

/// The wire representation of a post.
#[derive(Clone, Debug, PartialEq, Eq)]
pub struct WirePost {
    pub id: u64,
    pub user_id: u64,
    pub title: String,
    pub body: String,
}

impl View for WirePost {
    type V = PostModel;

    open spec fn view(&self) -> PostModel {
        PostModel {
            id: self.id,
            user_id: self.user_id,
            title: self.title@,
            body: self.body@,
        }
    }
}

/// What the wire schema of a post makes of a JSON value: the record of the
/// members `id`, `userId`, `title` and `body`, where the value is an object
/// that has each of them with the type that the schema asks for, and nothing
/// otherwise. Other members are ignored.
pub open spec fn post_schema(j: JsonModel) -> Option<PostModel> {
    match (
        j.unsigned_member("id"@),
        j.unsigned_member("userId"@),
        j.text_member("title"@),
        j.text_member("body"@),
    ) {
        (Some(id), Some(user_id), Some(title), Some(body)) => Some(
            PostModel { id, user_id, title, body },
        ),
        _ => None,
    }
}

impl WirePost {
    /// Decodes the wire representation of a post.
    pub fn from_json(j: &Json) -> (r: Option<WirePost>)
        ensures
            opt_view(r) == post_schema(j@),
    {
        let id = match j.unsigned_member("id") {
            Some(v) => v,
            None => return None,
        };
        let user_id = match j.unsigned_member("userId") {
            Some(v) => v,
            None => return None,
        };
        let title = match j.text_member("title") {
            Some(v) => v,
            None => return None,
        };
        let body = match j.text_member("body") {
            Some(v) => v,
            None => return None,
        };
        Some(WirePost { id, user_id, title, body })
    }
}

/// The wire representation of a comment.
#[derive(Clone, Debug, PartialEq, Eq)]
pub struct WireComment {
    pub id: u64,
    pub post_id: u64,
    pub name: String,
    pub email: String,
    pub body: String,
}

impl View for WireComment {
    type V = CommentModel;

    open spec fn view(&self) -> CommentModel {
        CommentModel {
            id: self.id,
            post_id: self.post_id,
            name: self.name@,
            email: self.email@,
            body: self.body@,
        }
    }
}

/// What the wire schema of a comment makes of a JSON value: the record of the
/// members `id`, `postId`, `name`, `email` and `body`, where the value is an
/// object that has each of them with the type that the schema asks for, and
/// nothing otherwise. Other members are ignored.
pub open spec fn comment_schema(j: JsonModel) -> Option<CommentModel> {
    match (
        j.unsigned_member("id"@),
        j.unsigned_member("postId"@),
        j.text_member("name"@),
        j.text_member("email"@),
        j.text_member("body"@),
    ) {
        (Some(id), Some(post_id), Some(name), Some(email), Some(body)) => Some(
            CommentModel { id, post_id, name, email, body },
        ),
        _ => None,
    }
}

impl WireComment {
    /// Decodes the wire representation of a comment.
    pub fn from_json(j: &Json) -> (r: Option<WireComment>)
        ensures
            opt_view(r) == comment_schema(j@),
    {
        let id = match j.unsigned_member("id") {
            Some(v) => v,
            None => return None,
        };
        let post_id = match j.unsigned_member("postId") {
            Some(v) => v,
            None => return None,
        };
        let name = match j.text_member("name") {
            Some(v) => v,
            None => return None,
        };
        let email = match j.text_member("email") {
            Some(v) => v,
            None => return None,
        };
        let body = match j.text_member("body") {
            Some(v) => v,
            None => return None,
        };
        Some(WireComment { id, post_id, name, email, body })
    }
}

/// The wire representation of an album.
#[derive(Clone, Debug, PartialEq, Eq)]
pub struct WireAlbum {
    pub id: u64,
    pub user_id: u64,
    pub title: String,
}

impl View for WireAlbum {
    type V = AlbumModel;

    open spec fn view(&self) -> AlbumModel {
        AlbumModel {
            id: self.id,
            user_id: self.user_id,
            title: self.title@,
        }
    }
}

/// What the wire schema of an album makes of a JSON value: the record of the
/// members `id`, `userId` and `title`, where the value is an object that has
/// each of them with the type that the schema asks for, and nothing otherwise.
/// Other members are ignored.
pub open spec fn album_schema(j: JsonModel) -> Option<AlbumModel> {
    match (
        j.unsigned_member("id"@),
        j.unsigned_member("userId"@),
        j.text_member("title"@),
    ) {
        (Some(id), Some(user_id), Some(title)) => Some(
            AlbumModel { id, user_id, title },
        ),
        _ => None,
    }
}

impl WireAlbum {
    /// Decodes the wire representation of an album.
    pub fn from_json(j: &Json) -> (r: Option<WireAlbum>)
        ensures
            opt_view(r) == album_schema(j@),
    {
        let id = match j.unsigned_member("id") {
            Some(v) => v,
            None => return None,
        };
        let user_id = match j.unsigned_member("userId") {
            Some(v) => v,
            None => return None,
        };
        let title = match j.text_member("title") {
            Some(v) => v,
            None => return None,
        };
        Some(WireAlbum { id, user_id, title })
    }
}

/// The wire representation of a photo.
#[derive(Clone, Debug, PartialEq, Eq)]
pub struct WirePhoto {
    pub id: u64,
    pub album_id: u64,
    pub title: String,
    pub url: String,
    pub thumbnail_url: String,
}

impl View for WirePhoto {
    type V = PhotoModel;

    open spec fn view(&self) -> PhotoModel {
        PhotoModel {
            id: self.id,
            album_id: self.album_id,
            title: self.title@,
            url: self.url@,
            thumbnail_url: self.thumbnail_url@,
        }
    }
}

/// What the wire schema of a photo makes of a JSON value: the record of the
/// members `id`, `albumId`, `title`, `url` and `thumbnailUrl`, where the value
/// is an object that has each of them with the type that the schema asks for,
/// and nothing otherwise. Other members are ignored.
pub open spec fn photo_schema(j: JsonModel) -> Option<PhotoModel> {
    match (
        j.unsigned_member("id"@),
        j.unsigned_member("albumId"@),
        j.text_member("title"@),
        j.text_member("url"@),
        j.text_member("thumbnailUrl"@),
    ) {
        (Some(id), Some(album_id), Some(title), Some(url), Some(thumbnail_url)) => Some(
            PhotoModel { id, album_id, title, url, thumbnail_url },
        ),
        _ => None,
    }
}

impl WirePhoto {
    /// Decodes the wire representation of a photo.
    pub fn from_json(j: &Json) -> (r: Option<WirePhoto>)
        ensures
            opt_view(r) == photo_schema(j@),
    {
        let id = match j.unsigned_member("id") {
            Some(v) => v,
            None => return None,
        };
        let album_id = match j.unsigned_member("albumId") {
            Some(v) => v,
            None => return None,
        };
        let title = match j.text_member("title") {
            Some(v) => v,
            None => return None,
        };
        let url = match j.text_member("url") {
            Some(v) => v,
            None => return None,
        };
        let thumbnail_url = match j.text_member("thumbnailUrl") {
            Some(v) => v,
            None => return None,
        };
        Some(WirePhoto { id, album_id, title, url, thumbnail_url })
    }
}

/// The wire representation of a task.
#[derive(Clone, Debug, PartialEq, Eq)]
pub struct WireTodo {
    pub id: u64,
    pub user_id: u64,
    pub title: String,
    pub completed: bool,
}

impl View for WireTodo {
    type V = TodoModel;

    open spec fn view(&self) -> TodoModel {
        TodoModel {
            id: self.id,
            user_id: self.user_id,
            title: self.title@,
            completed: self.completed,
        }
    }
}

/// What the wire schema of a task makes of a JSON value: the record of the
/// members `id`, `userId`, `title` and `completed`, where the value is an
/// object that has each of them with the type that the schema asks for, and
/// nothing otherwise. Other members are ignored.
pub open spec fn todo_schema(j: JsonModel) -> Option<TodoModel> {
    match (
        j.unsigned_member("id"@),
        j.unsigned_member("userId"@),
        j.text_member("title"@),
        j.bool_member("completed"@),
    ) {
        (Some(id), Some(user_id), Some(title), Some(completed)) => Some(
            TodoModel { id, user_id, title, completed },
        ),
        _ => None,
    }
}

impl WireTodo {
    /// Decodes the wire representation of a task.
    pub fn from_json(j: &Json) -> (r: Option<WireTodo>)
        ensures
            opt_view(r) == todo_schema(j@),
    {
        let id = match j.unsigned_member("id") {
            Some(v) => v,
            None => return None,
        };
        let user_id = match j.unsigned_member("userId") {
            Some(v) => v,
            None => return None,
        };
        let title = match j.text_member("title") {
            Some(v) => v,
            None => return None,
        };
        let completed = match j.bool_member("completed") {
            Some(v) => v,
            None => return None,
        };
        Some(WireTodo { id, user_id, title, completed })
    }
}

/// The wire representation of a user.
#[derive(Clone, Debug, PartialEq, Eq)]
pub struct WireUser {
    pub id: u64,
    pub name: String,
    pub username: String,
    pub email: String,
    pub phone: String,
    pub website: String,
    pub company: WireCompany,
    pub address: WireAddress,
}

impl View for WireUser {
    type V = UserModel;

    open spec fn view(&self) -> UserModel {
        UserModel {
            id: self.id,
            name: self.name@,
            username: self.username@,
            email: self.email@,
            phone: self.phone@,
            website: self.website@,
            company: self.company@,
            address: self.address@,
        }
    }
}

/// What the wire schema of a user makes of a JSON value: the record of the
/// members `id`, `name`, `username`, `email`, `phone`, `website`, `company`
/// and `address`, where the value is an object that has each of them with the
/// type that the schema asks for, and nothing otherwise. Other members are
/// ignored.
pub open spec fn user_schema(j: JsonModel) -> Option<UserModel> {
    match (
        j.unsigned_member("id"@),
        j.text_member("name"@),
        j.text_member("username"@),
        j.text_member("email"@),
        j.text_member("phone"@),
        j.text_member("website"@),
        company_member(j, "company"@),
        address_member(j, "address"@),
    ) {
        (
            Some(id),
            Some(name),
            Some(username),
            Some(email),
            Some(phone),
            Some(website),
            Some(company),
            Some(address),
        ) => Some(UserModel { id, name, username, email, phone, website, company, address }),
        _ => None,
    }
}

impl WireUser {
    /// Decodes the wire representation of a user.
    pub fn from_json(j: &Json) -> (r: Option<WireUser>)
        ensures
            opt_view(r) == user_schema(j@),
    {
        let id = match j.unsigned_member("id") {
            Some(v) => v,
            None => return None,
        };
        let name = match j.text_member("name") {
            Some(v) => v,
            None => return None,
        };
        let username = match j.text_member("username") {
            Some(v) => v,
            None => return None,
        };
        let email = match j.text_member("email") {
            Some(v) => v,
            None => return None,
        };
        let phone = match j.text_member("phone") {
            Some(v) => v,
            None => return None,
        };
        let website = match j.text_member("website") {
            Some(v) => v,
            None => return None,
        };
        let company = match j.member("company") {
            Some(v) => match WireCompany::from_json(v) {
                Some(w) => w,
                None => return None,
            },
            None => return None,
        };
        let address = match j.member("address") {
            Some(v) => match WireAddress::from_json(v) {
                Some(w) => w,
                None => return None,
            },
            None => return None,
        };
        Some(WireUser { id, name, username, email, phone, website, company, address })
    }
}

/// The wire representation of a position: an object that has each member once,
/// under the name that the service gives it.
pub open spec fn geo_wire(g: GeoModel) -> JsonModel {
    JsonModel::Object(
        seq![
            ("lat"@, JsonModel::Text(g.lat)),
            ("lng"@, JsonModel::Text(g.lng)),
        ],
    )
}

/// Decoding the wire representation of a position gives it back: every member
/// under its domain name, with its value unchanged.
pub proof fn lemma_geo_round_trip(g: GeoModel)
    ensures
        geo_schema(geo_wire(g)) == Some(g),
{
    reveal_strlit("lat");
    reveal_strlit("lng");
    assert("lat"@.len() == 3 && "lat"@[0] == 'l' && "lat"@[1] == 'a');
    assert("lng"@.len() == 3 && "lng"@[0] == 'l' && "lng"@[1] == 'n');
    let members = geo_wire(g)->Object_0;
    lemma_member_found(members, 0);
    lemma_member_found(members, 1);
}

/// The wire representation of an address: an object that has each member once,
/// under the name that the service gives it.
pub open spec fn address_wire(a: AddressModel) -> JsonModel {
    JsonModel::Object(
        seq![
            ("street"@, JsonModel::Text(a.street)),
            ("suite"@, JsonModel::Text(a.suite)),
            ("city"@, JsonModel::Text(a.city)),
            ("zipcode"@, JsonModel::Text(a.zipcode)),
            ("geo"@, geo_wire(a.geo)),
        ],
    )
}

/// Decoding the wire representation of an address gives it back: every member
/// under its domain name, with its value unchanged.
pub proof fn lemma_address_round_trip(a: AddressModel)
    ensures
        address_schema(address_wire(a)) == Some(a),
{
    reveal_strlit("street");
    reveal_strlit("suite");
    reveal_strlit("city");
    reveal_strlit("zipcode");
    reveal_strlit("geo");
    assert("street"@.len() == 6 && "street"@[0] == 's' && "street"@[1] == 't');
    assert("suite"@.len() == 5 && "suite"@[0] == 's' && "suite"@[1] == 'u');
    assert("city"@.len() == 4 && "city"@[0] == 'c' && "city"@[1] == 'i');
    assert("zipcode"@.len() == 7 && "zipcode"@[0] == 'z' && "zipcode"@[1] == 'i');
    assert("geo"@.len() == 3 && "geo"@[0] == 'g' && "geo"@[1] == 'e');
    lemma_geo_round_trip(a.geo);
    let members = address_wire(a)->Object_0;
    lemma_member_found(members, 0);
    lemma_member_found(members, 1);
    lemma_member_found(members, 2);
    lemma_member_found(members, 3);
    lemma_member_found(members, 4);
}

/// The wire representation of a company: an object that has each member once,
/// under the name that the service gives it.
pub open spec fn company_wire(c: CompanyModel) -> JsonModel {
    JsonModel::Object(
        seq![
            ("name"@, JsonModel::Text(c.name)),
            ("catchPhrase"@, JsonModel::Text(c.catch_phrase)),
            ("bs"@, JsonModel::Text(c.bs)),
        ],
    )
}

/// Decoding the wire representation of a company gives it back: every member
/// under its domain name, with its value unchanged.
pub proof fn lemma_company_round_trip(c: CompanyModel)
    ensures
        company_schema(company_wire(c)) == Some(c),
{
    reveal_strlit("name");
    reveal_strlit("catchPhrase");
    reveal_strlit("bs");
    assert("name"@.len() == 4 && "name"@[0] == 'n' && "name"@[1] == 'a');
    assert("catchPhrase"@.len() == 11 && "catchPhrase"@[0] == 'c' && "catchPhrase"@[1] == 'a');
    assert("bs"@.len() == 2 && "bs"@[0] == 'b' && "bs"@[1] == 's');
    let members = company_wire(c)->Object_0;
    lemma_member_found(members, 0);
    lemma_member_found(members, 1);
    lemma_member_found(members, 2);
}

/// The wire representation of a post: an object that has each member once,
/// under the name that the service gives it.
pub open spec fn post_wire(p: PostModel) -> JsonModel {
    JsonModel::Object(
        seq![
            ("id"@, JsonModel::Number(Number::Unsigned(p.id))),
            ("userId"@, JsonModel::Number(Number::Unsigned(p.user_id))),
            ("title"@, JsonModel::Text(p.title)),
            ("body"@, JsonModel::Text(p.body)),
        ],
    )
}

/// Decoding the wire representation of a post gives it back: every member
/// under its domain name, with its value unchanged.
pub proof fn lemma_post_round_trip(p: PostModel)
    ensures
        post_schema(post_wire(p)) == Some(p),
{
    reveal_strlit("id");
    reveal_strlit("userId");
    reveal_strlit("title");
    reveal_strlit("body");
    assert("id"@.len() == 2 && "id"@[0] == 'i' && "id"@[1] == 'd');
    assert("userId"@.len() == 6 && "userId"@[0] == 'u' && "userId"@[1] == 's');
    assert("title"@.len() == 5 && "title"@[0] == 't' && "title"@[1] == 'i');
    assert("body"@.len() == 4 && "body"@[0] == 'b' && "body"@[1] == 'o');
    let members = post_wire(p)->Object_0;
    lemma_member_found(members, 0);
    lemma_member_found(members, 1);
    lemma_member_found(members, 2);
    lemma_member_found(members, 3);
}

/// The wire representation of a comment: an object that has each member once,
/// under the name that the service gives it.
pub open spec fn comment_wire(c: CommentModel) -> JsonModel {
    JsonModel::Object(
        seq![
            ("id"@, JsonModel::Number(Number::Unsigned(c.id))),
            ("postId"@, JsonModel::Number(Number::Unsigned(c.post_id))),
            ("name"@, JsonModel::Text(c.name)),
            ("email"@, JsonModel::Text(c.email)),
            ("body"@, JsonModel::Text(c.body)),
        ],
    )
}

/// Decoding the wire representation of a comment gives it back: every member
/// under its domain name, with its value unchanged.
pub proof fn lemma_comment_round_trip(c: CommentModel)
    ensures
        comment_schema(comment_wire(c)) == Some(c),
{
    reveal_strlit("id");
    reveal_strlit("postId");
    reveal_strlit("name");
    reveal_strlit("email");
    reveal_strlit("body");
    assert("id"@.len() == 2 && "id"@[0] == 'i' && "id"@[1] == 'd');
    assert("postId"@.len() == 6 && "postId"@[0] == 'p' && "postId"@[1] == 'o');
    assert("name"@.len() == 4 && "name"@[0] == 'n' && "name"@[1] == 'a');
    assert("email"@.len() == 5 && "email"@[0] == 'e' && "email"@[1] == 'm');
    assert("body"@.len() == 4 && "body"@[0] == 'b' && "body"@[1] == 'o');
    let members = comment_wire(c)->Object_0;
    lemma_member_found(members, 0);
    lemma_member_found(members, 1);
    lemma_member_found(members, 2);
    lemma_member_found(members, 3);
    lemma_member_found(members, 4);
}

/// The wire representation of an album: an object that has each member once,
/// under the name that the service gives it.
pub open spec fn album_wire(a: AlbumModel) -> JsonModel {
    JsonModel::Object(
        seq![
            ("id"@, JsonModel::Number(Number::Unsigned(a.id))),
            ("userId"@, JsonModel::Number(Number::Unsigned(a.user_id))),
            ("title"@, JsonModel::Text(a.title)),
        ],
    )
}

/// Decoding the wire representation of an album gives it back: every member
/// under its domain name, with its value unchanged.
pub proof fn lemma_album_round_trip(a: AlbumModel)
    ensures
        album_schema(album_wire(a)) == Some(a),
{
    reveal_strlit("id");
    reveal_strlit("userId");
    reveal_strlit("title");
    assert("id"@.len() == 2 && "id"@[0] == 'i' && "id"@[1] == 'd');
    assert("userId"@.len() == 6 && "userId"@[0] == 'u' && "userId"@[1] == 's');
    assert("title"@.len() == 5 && "title"@[0] == 't' && "title"@[1] == 'i');
    let members = album_wire(a)->Object_0;
    lemma_member_found(members, 0);
    lemma_member_found(members, 1);
    lemma_member_found(members, 2);
}

/// The wire representation of a photo: an object that has each member once,
/// under the name that the service gives it.
pub open spec fn photo_wire(p: PhotoModel) -> JsonModel {
    JsonModel::Object(
        seq![
            ("id"@, JsonModel::Number(Number::Unsigned(p.id))),
            ("albumId"@, JsonModel::Number(Number::Unsigned(p.album_id))),
            ("title"@, JsonModel::Text(p.title)),
            ("url"@, JsonModel::Text(p.url)),
            ("thumbnailUrl"@, JsonModel::Text(p.thumbnail_url)),
        ],
    )
}

/// Decoding the wire representation of a photo gives it back: every member
/// under its domain name, with its value unchanged.
pub proof fn lemma_photo_round_trip(p: PhotoModel)
    ensures
        photo_schema(photo_wire(p)) == Some(p),
{
    reveal_strlit("id");
    reveal_strlit("albumId");
    reveal_strlit("title");
    reveal_strlit("url");
    reveal_strlit("thumbnailUrl");
    assert("id"@.len() == 2 && "id"@[0] == 'i' && "id"@[1] == 'd');
    assert("albumId"@.len() == 7 && "albumId"@[0] == 'a' && "albumId"@[1] == 'l');
    assert("title"@.len() == 5 && "title"@[0] == 't' && "title"@[1] == 'i');
    assert("url"@.len() == 3 && "url"@[0] == 'u' && "url"@[1] == 'r');
    assert("thumbnailUrl"@.len() == 12 && "thumbnailUrl"@[0] == 't' && "thumbnailUrl"@[1] == 'h');
    let members = photo_wire(p)->Object_0;
    lemma_member_found(members, 0);
    lemma_member_found(members, 1);
    lemma_member_found(members, 2);
    lemma_member_found(members, 3);
    lemma_member_found(members, 4);
}

/// The wire representation of a task: an object that has each member once,
/// under the name that the service gives it.
pub open spec fn todo_wire(t: TodoModel) -> JsonModel {
    JsonModel::Object(
        seq![
            ("id"@, JsonModel::Number(Number::Unsigned(t.id))),
            ("userId"@, JsonModel::Number(Number::Unsigned(t.user_id))),
            ("title"@, JsonModel::Text(t.title)),
            ("completed"@, JsonModel::Bool(t.completed)),
        ],
    )
}

/// Decoding the wire representation of a task gives it back: every member
/// under its domain name, with its value unchanged.
pub proof fn lemma_todo_round_trip(t: TodoModel)
    ensures
        todo_schema(todo_wire(t)) == Some(t),
{
    reveal_strlit("id");
    reveal_strlit("userId");
    reveal_strlit("title");
    reveal_strlit("completed");
    assert("id"@.len() == 2 && "id"@[0] == 'i' && "id"@[1] == 'd');
    assert("userId"@.len() == 6 && "userId"@[0] == 'u' && "userId"@[1] == 's');
    assert("title"@.len() == 5 && "title"@[0] == 't' && "title"@[1] == 'i');
    assert("completed"@.len() == 9 && "completed"@[0] == 'c' && "completed"@[1] == 'o');
    let members = todo_wire(t)->Object_0;
    lemma_member_found(members, 0);
    lemma_member_found(members, 1);
    lemma_member_found(members, 2);
    lemma_member_found(members, 3);
}

/// The wire representation of a user: an object that has each member once,
/// under the name that the service gives it.
pub open spec fn user_wire(u: UserModel) -> JsonModel {
    JsonModel::Object(
        seq![
            ("id"@, JsonModel::Number(Number::Unsigned(u.id))),
            ("name"@, JsonModel::Text(u.name)),
            ("username"@, JsonModel::Text(u.username)),
            ("email"@, JsonModel::Text(u.email)),
            ("phone"@, JsonModel::Text(u.phone)),
            ("website"@, JsonModel::Text(u.website)),
            ("company"@, company_wire(u.company)),
            ("address"@, address_wire(u.address)),
        ],
    )
}

/// Decoding the wire representation of a user gives it back: every member
/// under its domain name, with its value unchanged.
pub proof fn lemma_user_round_trip(u: UserModel)
    ensures
        user_schema(user_wire(u)) == Some(u),
{
    reveal_strlit("id");
    reveal_strlit("name");
    reveal_strlit("username");
    reveal_strlit("email");
    reveal_strlit("phone");
    reveal_strlit("website");
    reveal_strlit("company");
    reveal_strlit("address");
    assert("id"@.len() == 2 && "id"@[0] == 'i' && "id"@[1] == 'd');
    assert("name"@.len() == 4 && "name"@[0] == 'n' && "name"@[1] == 'a');
    assert("username"@.len() == 8 && "username"@[0] == 'u' && "username"@[1] == 's');
    assert("email"@.len() == 5 && "email"@[0] == 'e' && "email"@[1] == 'm');
    assert("phone"@.len() == 5 && "phone"@[0] == 'p' && "phone"@[1] == 'h');
    assert("website"@.len() == 7 && "website"@[0] == 'w' && "website"@[1] == 'e');
    assert("company"@.len() == 7 && "company"@[0] == 'c' && "company"@[1] == 'o');
    assert("address"@.len() == 7 && "address"@[0] == 'a' && "address"@[1] == 'd');
    lemma_company_round_trip(u.company);
    lemma_address_round_trip(u.address);
    let members = user_wire(u)->Object_0;
    lemma_member_found(members, 0);
    lemma_member_found(members, 1);
    lemma_member_found(members, 2);
    lemma_member_found(members, 3);
    lemma_member_found(members, 4);
    lemma_member_found(members, 5);
    lemma_member_found(members, 6);
    lemma_member_found(members, 7);
}

/// A JSON value decodes to a position exactly where each member of the wire
/// schema holds the value that the entity has under its domain name. So a
/// value that lacks a member, or holds one of another type, decodes to
/// nothing, and two values that decode to the same entity agree on every
/// member of the schema.
pub proof fn lemma_geo_members(j: JsonModel, g: GeoModel)
    ensures
        geo_schema(j) == Some(g) <==> {
            &&& j.text_member("lat"@) == Some(g.lat)
            &&& j.text_member("lng"@) == Some(g.lng)
        },
{
}

/// A JSON value decodes to an address exactly where each member of the wire
/// schema holds the value that the entity has under its domain name. So a
/// value that lacks a member, or holds one of another type, decodes to
/// nothing, and two values that decode to the same entity agree on every
/// member of the schema.
pub proof fn lemma_address_members(j: JsonModel, a: AddressModel)
    ensures
        address_schema(j) == Some(a) <==> {
            &&& j.text_member("street"@) == Some(a.street)
            &&& j.text_member("suite"@) == Some(a.suite)
            &&& j.text_member("city"@) == Some(a.city)
            &&& j.text_member("zipcode"@) == Some(a.zipcode)
            &&& geo_member(j, "geo"@) == Some(a.geo)
        },
{
}

/// A JSON value decodes to a company exactly where each member of the wire
/// schema holds the value that the entity has under its domain name. So a
/// value that lacks a member, or holds one of another type, decodes to
/// nothing, and two values that decode to the same entity agree on every
/// member of the schema.
pub proof fn lemma_company_members(j: JsonModel, c: CompanyModel)
    ensures
        company_schema(j) == Some(c) <==> {
            &&& j.text_member("name"@) == Some(c.name)
            &&& j.text_member("catchPhrase"@) == Some(c.catch_phrase)
            &&& j.text_member("bs"@) == Some(c.bs)
        },
{
}

/// A JSON value decodes to a post exactly where each member of the wire
/// schema holds the value that the entity has under its domain name. So a
/// value that lacks a member, or holds one of another type, decodes to
/// nothing, and two values that decode to the same entity agree on every
/// member of the schema.
pub proof fn lemma_post_members(j: JsonModel, p: PostModel)
    ensures
        post_schema(j) == Some(p) <==> {
            &&& j.unsigned_member("id"@) == Some(p.id)
            &&& j.unsigned_member("userId"@) == Some(p.user_id)
            &&& j.text_member("title"@) == Some(p.title)
            &&& j.text_member("body"@) == Some(p.body)
        },
{
}

/// A JSON value decodes to a comment exactly where each member of the wire
/// schema holds the value that the entity has under its domain name. So a
/// value that lacks a member, or holds one of another type, decodes to
/// nothing, and two values that decode to the same entity agree on every
/// member of the schema.
pub proof fn lemma_comment_members(j: JsonModel, c: CommentModel)
    ensures
        comment_schema(j) == Some(c) <==> {
            &&& j.unsigned_member("id"@) == Some(c.id)
            &&& j.unsigned_member("postId"@) == Some(c.post_id)
            &&& j.text_member("name"@) == Some(c.name)
            &&& j.text_member("email"@) == Some(c.email)
            &&& j.text_member("body"@) == Some(c.body)
        },
{
}

/// A JSON value decodes to an album exactly where each member of the wire
/// schema holds the value that the entity has under its domain name. So a
/// value that lacks a member, or holds one of another type, decodes to
/// nothing, and two values that decode to the same entity agree on every
/// member of the schema.
pub proof fn lemma_album_members(j: JsonModel, a: AlbumModel)
    ensures
        album_schema(j) == Some(a) <==> {
            &&& j.unsigned_member("id"@) == Some(a.id)
            &&& j.unsigned_member("userId"@) == Some(a.user_id)
            &&& j.text_member("title"@) == Some(a.title)
        },
{
}

/// A JSON value decodes to a photo exactly where each member of the wire
/// schema holds the value that the entity has under its domain name. So a
/// value that lacks a member, or holds one of another type, decodes to
/// nothing, and two values that decode to the same entity agree on every
/// member of the schema.
pub proof fn lemma_photo_members(j: JsonModel, p: PhotoModel)
    ensures
        photo_schema(j) == Some(p) <==> {
            &&& j.unsigned_member("id"@) == Some(p.id)
            &&& j.unsigned_member("albumId"@) == Some(p.album_id)
            &&& j.text_member("title"@) == Some(p.title)
            &&& j.text_member("url"@) == Some(p.url)
            &&& j.text_member("thumbnailUrl"@) == Some(p.thumbnail_url)
        },
{
}

/// A JSON value decodes to a task exactly where each member of the wire
/// schema holds the value that the entity has under its domain name. So a
/// value that lacks a member, or holds one of another type, decodes to
/// nothing, and two values that decode to the same entity agree on every
/// member of the schema.
pub proof fn lemma_todo_members(j: JsonModel, t: TodoModel)
    ensures
        todo_schema(j) == Some(t) <==> {
            &&& j.unsigned_member("id"@) == Some(t.id)
            &&& j.unsigned_member("userId"@) == Some(t.user_id)
            &&& j.text_member("title"@) == Some(t.title)
            &&& j.bool_member("completed"@) == Some(t.completed)
        },
{
}

/// A JSON value decodes to a user exactly where each member of the wire
/// schema holds the value that the entity has under its domain name. So a
/// value that lacks a member, or holds one of another type, decodes to
/// nothing, and two values that decode to the same entity agree on every
/// member of the schema.
pub proof fn lemma_user_members(j: JsonModel, u: UserModel)
    ensures
        user_schema(j) == Some(u) <==> {
            &&& j.unsigned_member("id"@) == Some(u.id)
            &&& j.text_member("name"@) == Some(u.name)
            &&& j.text_member("username"@) == Some(u.username)
            &&& j.text_member("email"@) == Some(u.email)
            &&& j.text_member("phone"@) == Some(u.phone)
            &&& j.text_member("website"@) == Some(u.website)
            &&& company_member(j, "company"@) == Some(u.company)
            &&& address_member(j, "address"@) == Some(u.address)
        },
{
}

/// The members that the wire schema of a position asks for.
pub open spec fn geo_member_names() -> Seq<Seq<char>> {
    seq!["lat"@, "lng"@]
}

/// A JSON value that lacks a member of the wire schema of a position decodes to
/// nothing.
pub proof fn lemma_geo_needs_every_member(j: JsonModel, i: int)
    requires
        0 <= i < geo_member_names().len(),
        j.member(geo_member_names()[i]) is None,
    ensures
        geo_schema(j) is None,
{
}

/// The members that the wire schema of an address asks for.
pub open spec fn address_member_names() -> Seq<Seq<char>> {
    seq!["street"@, "suite"@, "city"@, "zipcode"@, "geo"@]
}

/// A JSON value that lacks a member of the wire schema of an address decodes to
/// nothing.
pub proof fn lemma_address_needs_every_member(j: JsonModel, i: int)
    requires
        0 <= i < address_member_names().len(),
        j.member(address_member_names()[i]) is None,
    ensures
        address_schema(j) is None,
{
}

/// The members that the wire schema of a company asks for.
pub open spec fn company_member_names() -> Seq<Seq<char>> {
    seq!["name"@, "catchPhrase"@, "bs"@]
}

/// A JSON value that lacks a member of the wire schema of a company decodes to
/// nothing.
pub proof fn lemma_company_needs_every_member(j: JsonModel, i: int)
    requires
        0 <= i < company_member_names().len(),
        j.member(company_member_names()[i]) is None,
    ensures
        company_schema(j) is None,
{
}

/// The members that the wire schema of a post asks for.
pub open spec fn post_member_names() -> Seq<Seq<char>> {
    seq!["id"@, "userId"@, "title"@, "body"@]
}

/// A JSON value that lacks a member of the wire schema of a post decodes to
/// nothing.
pub proof fn lemma_post_needs_every_member(j: JsonModel, i: int)
    requires
        0 <= i < post_member_names().len(),
        j.member(post_member_names()[i]) is None,
    ensures
        post_schema(j) is None,
{
}

/// The members that the wire schema of a comment asks for.
pub open spec fn comment_member_names() -> Seq<Seq<char>> {
    seq!["id"@, "postId"@, "name"@, "email"@, "body"@]
}

/// A JSON value that lacks a member of the wire schema of a comment decodes to
/// nothing.
pub proof fn lemma_comment_needs_every_member(j: JsonModel, i: int)
    requires
        0 <= i < comment_member_names().len(),
        j.member(comment_member_names()[i]) is None,
    ensures
        comment_schema(j) is None,
{
}

/// The members that the wire schema of an album asks for.
pub open spec fn album_member_names() -> Seq<Seq<char>> {
    seq!["id"@, "userId"@, "title"@]
}

/// A JSON value that lacks a member of the wire schema of an album decodes to
/// nothing.
pub proof fn lemma_album_needs_every_member(j: JsonModel, i: int)
    requires
        0 <= i < album_member_names().len(),
        j.member(album_member_names()[i]) is None,
    ensures
        album_schema(j) is None,
{
}

/// The members that the wire schema of a photo asks for.
pub open spec fn photo_member_names() -> Seq<Seq<char>> {
    seq!["id"@, "albumId"@, "title"@, "url"@, "thumbnailUrl"@]
}

/// A JSON value that lacks a member of the wire schema of a photo decodes to
/// nothing.
pub proof fn lemma_photo_needs_every_member(j: JsonModel, i: int)
    requires
        0 <= i < photo_member_names().len(),
        j.member(photo_member_names()[i]) is None,
    ensures
        photo_schema(j) is None,
{
}

/// The members that the wire schema of a task asks for.
pub open spec fn todo_member_names() -> Seq<Seq<char>> {
    seq!["id"@, "userId"@, "title"@, "completed"@]
}

/// A JSON value that lacks a member of the wire schema of a task decodes to
/// nothing.
pub proof fn lemma_todo_needs_every_member(j: JsonModel, i: int)
    requires
        0 <= i < todo_member_names().len(),
        j.member(todo_member_names()[i]) is None,
    ensures
        todo_schema(j) is None,
{
}

/// The members that the wire schema of a user asks for.
pub open spec fn user_member_names() -> Seq<Seq<char>> {
    seq!["id"@, "name"@, "username"@, "email"@, "phone"@, "website"@, "company"@, "address"@]
}

/// A JSON value that lacks a member of the wire schema of a user decodes to
/// nothing.
pub proof fn lemma_user_needs_every_member(j: JsonModel, i: int)
    requires
        0 <= i < user_member_names().len(),
        j.member(user_member_names()[i]) is None,
    ensures
        user_schema(j) is None,
{
}

} // verus!
