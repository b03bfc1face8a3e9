//! The mapping from wire representations to domain entities: every member
//! is carried over under its domain name, nested records are rebuilt, and no
//! value is changed.

use crate::entities::{Address, Album, Comment, Company, Geo, Photo, Post, Todo, User};
use crate::wire::{
    WireAddress, WireAlbum, WireComment, WireCompany, WireGeo, WirePhoto, WirePost, WireTodo,
    WireUser,
};
use vstd::prelude::*;
use vstd::std_specs::convert::FromSpec;

verus! {

impl From<WireGeo> for Geo {
    fn from(w: WireGeo) -> (e: Geo)
        ensures
            e@ == w@,
    {
        Geo {
            lat: w.lat,
            lng: w.lng,
        }
    }
}

impl vstd::std_specs::convert::FromSpecImpl<WireGeo> for Geo {
    open spec fn obeys_from_spec() -> bool {
        true
    }

    open spec fn from_spec(w: WireGeo) -> Geo {
        Geo {
            lat: w.lat,
            lng: w.lng,
        }
    }
}

impl From<WireAddress> for Address {
    fn from(w: WireAddress) -> (e: Address)
        ensures
            e@ == w@,
    {
        Address {
            street: w.street,
            suite: w.suite,
            city: w.city,
            zipcode: w.zipcode,
            geo: Geo::from(w.geo),
        }
    }
}

impl vstd::std_specs::convert::FromSpecImpl<WireAddress> for Address {
    open spec fn obeys_from_spec() -> bool {
        true
    }

    open spec fn from_spec(w: WireAddress) -> Address {
        Address {
            street: w.street,
            suite: w.suite,
            city: w.city,
            zipcode: w.zipcode,
            geo: <Geo as FromSpec<WireGeo>>::from_spec(w.geo),
        }
    }
}

impl From<WireCompany> for Company {
    fn from(w: WireCompany) -> (e: Company)
        ensures
            e@ == w@,
    {
        Company {
            name: w.name,
            catch_phrase: w.catch_phrase,
            bs: w.bs,
        }
    }
}

impl vstd::std_specs::convert::FromSpecImpl<WireCompany> for Company {
    open spec fn obeys_from_spec() -> bool {
        true
    }

    open spec fn from_spec(w: WireCompany) -> Company {
        Company {
            name: w.name,
            catch_phrase: w.catch_phrase,
            bs: w.bs,
        }
    }
}

impl From<WirePost> for Post {
    fn from(w: WirePost) -> (e: Post)
        ensures
            e@ == w@,
    {
        Post {
            id: w.id,
            user_id: w.user_id,
            title: w.title,
            body: w.body,
        }
    }
}

impl vstd::std_specs::convert::FromSpecImpl<WirePost> for Post {
    open spec fn obeys_from_spec() -> bool {
        true
    }

    open spec fn from_spec(w: WirePost) -> Post {
        Post {
            id: w.id,
            user_id: w.user_id,
            title: w.title,
            body: w.body,
        }
    }
}

impl From<WireUser> for User {
    fn from(w: WireUser) -> (e: User)
        ensures
            e@ == w@,
    {
        User {
            id: w.id,
            name: w.name,
            username: w.username,
            email: w.email,
            phone: w.phone,
            website: w.website,
            company: Company::from(w.company),
            address: Address::from(w.address),
        }
    }
}

impl vstd::std_specs::convert::FromSpecImpl<WireUser> for User {
    open spec fn obeys_from_spec() -> bool {
        true
    }

    open spec fn from_spec(w: WireUser) -> User {
        User {
            id: w.id,
            name: w.name,
            username: w.username,
            email: w.email,
            phone: w.phone,
            website: w.website,
            company: <Company as FromSpec<WireCompany>>::from_spec(w.company),
            address: <Address as FromSpec<WireAddress>>::from_spec(w.address),
        }
    }
}

impl From<WireComment> for Comment {
    fn from(w: WireComment) -> (e: Comment)
        ensures
            e@ == w@,
    {
        Comment {
            id: w.id,
            post_id: w.post_id,
            name: w.name,
            email: w.email,
            body: w.body,
        }
    }
}

impl vstd::std_specs::convert::FromSpecImpl<WireComment> for Comment {
    open spec fn obeys_from_spec() -> bool {
        true
    }

    open spec fn from_spec(w: WireComment) -> Comment {
        Comment {
            id: w.id,
            post_id: w.post_id,
            name: w.name,
            email: w.email,
            body: w.body,
        }
    }
}

impl From<WireAlbum> for Album {
    fn from(w: WireAlbum) -> (e: Album)
        ensures
            e@ == w@,
    {
        Album {
            id: w.id,
            user_id: w.user_id,
            title: w.title,
        }
    }
}

impl vstd::std_specs::convert::FromSpecImpl<WireAlbum> for Album {
    open spec fn obeys_from_spec() -> bool {
        true
    }

    open spec fn from_spec(w: WireAlbum) -> Album {
        Album {
            id: w.id,
            user_id: w.user_id,
            title: w.title,
        }
    }
}

impl From<WirePhoto> for Photo {
    fn from(w: WirePhoto) -> (e: Photo)
        ensures
            e@ == w@,
    {
        Photo {
            id: w.id,
            album_id: w.album_id,
            title: w.title,
            url: w.url,
            thumbnail_url: w.thumbnail_url,
        }
    }
}

impl vstd::std_specs::convert::FromSpecImpl<WirePhoto> for Photo {
    open spec fn obeys_from_spec() -> bool {
        true
    }

    open spec fn from_spec(w: WirePhoto) -> Photo {
        Photo {
            id: w.id,
            album_id: w.album_id,
            title: w.title,
            url: w.url,
            thumbnail_url: w.thumbnail_url,
        }
    }
}

impl From<WireTodo> for Todo {
    fn from(w: WireTodo) -> (e: Todo)
        ensures
            e@ == w@,
    {
        Todo {
            id: w.id,
            user_id: w.user_id,
            title: w.title,
            completed: w.completed,
        }
    }
}

impl vstd::std_specs::convert::FromSpecImpl<WireTodo> for Todo {
    open spec fn obeys_from_spec() -> bool {
        true
    }

    open spec fn from_spec(w: WireTodo) -> Todo {
        Todo {
            id: w.id,
            user_id: w.user_id,
            title: w.title,
            completed: w.completed,
        }
    }
}

} // verus!
