//! The domain entities and their models.

use vstd::prelude::*;

verus! {

/// A position on the globe. Latitude and longitude are kept as the wire
/// gives them: text.
#[derive(Clone, Debug, PartialEq, Eq)]
pub struct Geo {
    pub lat: String,
    pub lng: String,
}

/// The model of a [`Geo`], and of its wire representation.
pub struct GeoModel {
    pub lat: Seq<char>,
    pub lng: Seq<char>,
}

impl View for Geo {
    type V = GeoModel;

    open spec fn view(&self) -> GeoModel {
        GeoModel {
            lat: self.lat@,
            lng: self.lng@,
        }
    }
}

/// A postal address.
#[derive(Clone, Debug, PartialEq, Eq)]
pub struct Address {
    pub street: String,
    pub suite: String,
    pub city: String,
    pub zipcode: String,
    pub geo: Geo,
}

/// The model of a [`Address`], and of its wire representation.
pub struct AddressModel {
    pub street: Seq<char>,
    pub suite: Seq<char>,
    pub city: Seq<char>,
    pub zipcode: Seq<char>,
    pub geo: GeoModel,
}

impl View for Address {
    type V = AddressModel;

    open spec fn view(&self) -> AddressModel {
        AddressModel {
            street: self.street@,
            suite: self.suite@,
            city: self.city@,
            zipcode: self.zipcode@,
            geo: self.geo@,
        }
    }
}

/// The company of a user.
#[derive(Clone, Debug, PartialEq, Eq)]
pub struct Company {
    pub name: String,
    pub catch_phrase: String,
    pub bs: String,
}

/// The model of a [`Company`], and of its wire representation.
pub struct CompanyModel {
    pub name: Seq<char>,
    pub catch_phrase: Seq<char>,
    pub bs: Seq<char>,
}

impl View for Company {
    type V = CompanyModel;

    open spec fn view(&self) -> CompanyModel {
        CompanyModel {
            name: self.name@,
            catch_phrase: self.catch_phrase@,
            bs: self.bs@,
        }
    }
}

/// A post of a user.
#[derive(Clone, Debug, PartialEq, Eq)]
pub struct Post {
    pub id: u64,
    pub user_id: u64,
    pub title: String,
    pub body: String,
}

/// The model of a [`Post`], and of its wire representation.
pub struct PostModel {
    pub id: u64,
    pub user_id: u64,
    pub title: Seq<char>,
    pub body: Seq<char>,
}

impl View for Post {
    type V = PostModel;

    open spec fn view(&self) -> PostModel {
        PostModel {
            id: self.id,
            user_id: self.user_id,
            title: self.title@,
            body: self.body@,
        }
    }
}

/// A comment on a post.
#[derive(Clone, Debug, PartialEq, Eq)]
pub struct Comment {
    pub id: u64,
    pub post_id: u64,
    pub name: String,
    pub email: String,
    pub body: String,
}

/// The model of a [`Comment`], and of its wire representation.
pub struct CommentModel {
    pub id: u64,
    pub post_id: u64,
    pub name: Seq<char>,
    pub email: Seq<char>,
    pub body: Seq<char>,
}

impl View for Comment {
    type V = CommentModel;

    open spec fn view(&self) -> CommentModel {
        CommentModel {
            id: self.id,
            post_id: self.post_id,
            name: self.name@,
            email: self.email@,
            body: self.body@,
        }
    }
}

/// An album of a user.
#[derive(Clone, Debug, PartialEq, Eq)]
pub struct Album {
    pub id: u64,
    pub user_id: u64,
    pub title: String,
}

/// The model of a [`Album`], and of its wire representation.
pub struct AlbumModel {
    pub id: u64,
    pub user_id: u64,
    pub title: Seq<char>,
}

impl View for Album {
    type V = AlbumModel;

    open spec fn view(&self) -> AlbumModel {
        AlbumModel {
            id: self.id,
            user_id: self.user_id,
            title: self.title@,
        }
    }
}

/// A photo in an album.
#[derive(Clone, Debug, PartialEq, Eq)]
pub struct Photo {
    pub id: u64,
    pub album_id: u64,
    pub title: String,
    pub url: String,
    pub thumbnail_url: String,
}

/// The model of a [`Photo`], and of its wire representation.
pub struct PhotoModel {
    pub id: u64,
    pub album_id: u64,
    pub title: Seq<char>,
    pub url: Seq<char>,
    pub thumbnail_url: Seq<char>,
}

impl View for Photo {
    type V = PhotoModel;

    open spec fn view(&self) -> PhotoModel {
        PhotoModel {
            id: self.id,
            album_id: self.album_id,
            title: self.title@,
            url: self.url@,
            thumbnail_url: self.thumbnail_url@,
        }
    }
}

/// A task of a user.
#[derive(Clone, Debug, PartialEq, Eq)]
pub struct Todo {
    pub id: u64,
    pub user_id: u64,
    pub title: String,
    pub completed: bool,
}

/// The model of a [`Todo`], and of its wire representation.
pub struct TodoModel {
    pub id: u64,
    pub user_id: u64,
    pub title: Seq<char>,
    pub completed: bool,
}

impl View for Todo {
    type V = TodoModel;

    open spec fn view(&self) -> TodoModel {
        TodoModel {
            id: self.id,
            user_id: self.user_id,
            title: self.title@,
            completed: self.completed,
        }
    }
}

/// A user, with company and address.
#[derive(Clone, Debug, PartialEq, Eq)]
pub struct User {
    pub id: u64,
    pub name: String,
    pub username: String,
    pub email: String,
    pub phone: String,
    pub website: String,
    pub company: Company,
    pub address: Address,
}

/// The model of a [`User`], and of its wire representation.
pub struct UserModel {
    pub id: u64,
    pub name: Seq<char>,
    pub username: Seq<char>,
    pub email: Seq<char>,
    pub phone: Seq<char>,
    pub website: Seq<char>,
    pub company: CompanyModel,
    pub address: AddressModel,
}

impl View for User {
    type V = UserModel;

    open spec fn view(&self) -> UserModel {
        UserModel {
            id: self.id,
            name: self.name@,
            username: self.username@,
            email: self.email@,
            phone: self.phone@,
            website: self.website@,
            company: self.company@,
            address: self.address@,
        }
    }
}

/// The one failure that a caller of a fallible operation sees.
#[derive(Clone, Debug, PartialEq, Eq)]
pub struct NotFoundError {
    pub message: String,
}

impl NotFoundError {
    /// The failure with its fixed message, `Not found`.
    pub fn new() -> (e: NotFoundError)
        ensures
            e.message@ == "Not found"@,
    {
        NotFoundError { message: String::from_str("Not found") }
    }
}

} // verus!
