//! Decoding of response bodies into domain entities.

use crate::entities::{Album, AlbumModel, Comment, CommentModel, Photo, PhotoModel, Post, PostModel};
use crate::entities::{Todo, TodoModel, User, UserModel};
use crate::json::{document, parse, Json, JsonModel};
use crate::models::{item_view, list_view, opt_seq_view, opt_view, seq_view};
use crate::wire::{
    album_schema, comment_schema, photo_schema, post_schema, todo_schema, user_schema,
};
use crate::wire::{album_wire, comment_wire, photo_wire, post_wire, todo_wire, user_wire};
use crate::wire::{
    lemma_album_round_trip, lemma_comment_round_trip, lemma_photo_round_trip,
    lemma_post_round_trip, lemma_todo_round_trip, lemma_user_round_trip,
};
use crate::wire::{WireAlbum, WireComment, WirePhoto, WirePost, WireTodo, WireUser};
use vstd::prelude::*;

verus! {

/// Why a body could not be decoded.
#[derive(Clone, Copy, Debug, PartialEq, Eq)]
pub enum DecodeFailure {
    /// The body is no JSON document.
    Syntax,
    /// The body is a JSON document that the wire schema does not accept: a
    /// member is missing or has another type than the schema asks for.
    Schema,
}

/// An entity that the service sends as a JSON object.
pub trait Entity: View + Sized {
    /// What the wire schema of the entity makes of a JSON value.
    spec fn schema(j: JsonModel) -> Option<Self::V>;

    /// The wire representation of an entity.
    spec fn wire(e: Self::V) -> JsonModel;

    /// Decodes the wire representation of the entity and maps it to the
    /// entity.
    fn from_json(j: &Json) -> (r: Option<Self>)
        ensures
            opt_view(r) == Self::schema(j@),
    ;

    /// Decoding the wire representation of an entity gives the entity back.
    proof fn lemma_round_trip(e: Self::V)
        ensures
            Self::schema(Self::wire(e)) == Some(e),
    ;
}

impl Entity for Post {
    open spec fn schema(j: JsonModel) -> Option<PostModel> {
        post_schema(j)
    }

    open spec fn wire(e: PostModel) -> JsonModel {
        post_wire(e)
    }

    fn from_json(j: &Json) -> (r: Option<Post>) {
        match WirePost::from_json(j) {
            Some(w) => Some(Post::from(w)),
            None => None,
        }
    }

    proof fn lemma_round_trip(e: PostModel) {
        lemma_post_round_trip(e);
    }
}

impl Entity for Comment {
    open spec fn schema(j: JsonModel) -> Option<CommentModel> {
        comment_schema(j)
    }

    open spec fn wire(e: CommentModel) -> JsonModel {
        comment_wire(e)
    }

    fn from_json(j: &Json) -> (r: Option<Comment>) {
        match WireComment::from_json(j) {
            Some(w) => Some(Comment::from(w)),
            None => None,
        }
    }

    proof fn lemma_round_trip(e: CommentModel) {
        lemma_comment_round_trip(e);
    }
}

impl Entity for Album {
    open spec fn schema(j: JsonModel) -> Option<AlbumModel> {
        album_schema(j)
    }

    open spec fn wire(e: AlbumModel) -> JsonModel {
        album_wire(e)
    }

    fn from_json(j: &Json) -> (r: Option<Album>) {
        match WireAlbum::from_json(j) {
            Some(w) => Some(Album::from(w)),
            None => None,
        }
    }

    proof fn lemma_round_trip(e: AlbumModel) {
        lemma_album_round_trip(e);
    }
}

impl Entity for Photo {
    open spec fn schema(j: JsonModel) -> Option<PhotoModel> {
        photo_schema(j)
    }

    open spec fn wire(e: PhotoModel) -> JsonModel {
        photo_wire(e)
    }

    fn from_json(j: &Json) -> (r: Option<Photo>) {
        match WirePhoto::from_json(j) {
            Some(w) => Some(Photo::from(w)),
            None => None,
        }
    }

    proof fn lemma_round_trip(e: PhotoModel) {
        lemma_photo_round_trip(e);
    }
}

impl Entity for Todo {
    open spec fn schema(j: JsonModel) -> Option<TodoModel> {
        todo_schema(j)
    }

    open spec fn wire(e: TodoModel) -> JsonModel {
        todo_wire(e)
    }

    fn from_json(j: &Json) -> (r: Option<Todo>) {
        match WireTodo::from_json(j) {
            Some(w) => Some(Todo::from(w)),
            None => None,
        }
    }

    proof fn lemma_round_trip(e: TodoModel) {
        lemma_todo_round_trip(e);
    }
}

impl Entity for User {
    open spec fn schema(j: JsonModel) -> Option<UserModel> {
        user_schema(j)
    }

    open spec fn wire(e: UserModel) -> JsonModel {
        user_wire(e)
    }

    fn from_json(j: &Json) -> (r: Option<User>) {
        match WireUser::from_json(j) {
            Some(w) => Some(User::from(w)),
            None => None,
        }
    }

    proof fn lemma_round_trip(e: UserModel) {
        lemma_user_round_trip(e);
    }
}

/// What the wire schema of a list makes of a JSON value: for an array whose
/// every element the entity's schema accepts, the entities of the elements
/// in the order of the array; nothing for any other value. One element that
/// the schema does not accept fails the whole list.
pub open spec fn list_schema<E: Entity>(j: JsonModel) -> Option<Seq<E::V>> {
    match j {
        JsonModel::Array(items) => if forall|i: int|
            0 <= i < items.len() ==> (#[trigger] E::schema(items[i])) is Some {
            Some(Seq::new(items.len(), |i: int| E::schema(items[i])->0))
        } else {
            None
        },
        _ => None,
    }
}

/// Decodes a list of entities from a JSON value.
pub fn list_from_json<E: Entity>(j: &Json) -> (r: Option<Vec<E>>)
    ensures
        opt_seq_view(r) == list_schema::<E>(j@),
{
    match j.as_array() {
        None => None,
        Some(items) => {
            let ghost models = j@->Array_0;
            proof {
                assert forall|k: int| 0 <= k < items.len() implies (#[trigger] items@[k])@
                    == models[k] by {
                    assert(seq_view(items@)[k] == items@[k]@);
                }
            }
            let mut out: Vec<E> = Vec::new();
            let mut i: usize = 0;
            while i < items.len()
                invariant
                    i <= items.len(),
                    out.len() == i,
                    j@ == JsonModel::Array(models),
                    models.len() == items.len(),
                    forall|k: int| 0 <= k < items.len() ==> (#[trigger] items@[k])@ == models[k],
                    forall|k: int|
                        0 <= k < i ==> (#[trigger] E::schema(models[k])) == Some(out@[k]@),
                decreases items.len() - i,
            {
                match E::from_json(&items[i]) {
                    Some(e) => {
                        out.push(e);
                    },
                    None => {
                        assert(E::schema(models[i as int]) is None);
                        return None;
                    },
                }
                i = i + 1;
            }
            proof {
                assert(seq_view(out@) =~= Seq::new(models.len(), |k: int| E::schema(models[k])->0));
            }
            Some(out)
        },
    }
}

/// What decoding makes of a body that holds one entity.
pub open spec fn decoded<E: Entity>(bytes: Seq<u8>) -> Result<E::V, DecodeFailure> {
    match document(bytes) {
        None => Err(DecodeFailure::Syntax),
        Some(j) => match E::schema(j) {
            Some(e) => Ok(e),
            None => Err(DecodeFailure::Schema),
        },
    }
}

/// What decoding makes of a body that holds a list of entities.
pub open spec fn decoded_list<E: Entity>(bytes: Seq<u8>) -> Result<Seq<E::V>, DecodeFailure> {
    match document(bytes) {
        None => Err(DecodeFailure::Syntax),
        Some(j) => match list_schema::<E>(j) {
            Some(list) => Ok(list),
            None => Err(DecodeFailure::Schema),
        },
    }
}

/// Decodes a body that holds one entity.
pub fn decode<E: Entity>(bytes: &[u8]) -> (r: Result<E, DecodeFailure>)
    ensures
        item_view(r) == decoded::<E>(bytes@),
{
    match parse(bytes) {
        None => Err(DecodeFailure::Syntax),
        Some(j) => match E::from_json(&j) {
            Some(e) => Ok(e),
            None => Err(DecodeFailure::Schema),
        },
    }
}

/// Decodes a body that holds a list of entities.
pub fn decode_list<E: Entity>(bytes: &[u8]) -> (r: Result<Vec<E>, DecodeFailure>)
    ensures
        list_view(r) == decoded_list::<E>(bytes@),
{
    match parse(bytes) {
        None => Err(DecodeFailure::Syntax),
        Some(j) => match list_from_json::<E>(&j) {
            Some(list) => Ok(list),
            None => Err(DecodeFailure::Schema),
        },
    }
}

/// The wire representation of a list of entities: the array of their wire
/// representations, in their order.
pub open spec fn list_wire<E: Entity>(list: Seq<E::V>) -> JsonModel {
    JsonModel::Array(Seq::new(list.len(), |i: int| E::wire(list[i])))
}

/// Decoding is injective on wire representations: two entities whose wire
/// representations decode alike are the same entity.
pub proof fn lemma_decoding_is_injective<E: Entity>(a: E::V, b: E::V)
    requires
        E::schema(E::wire(a)) == E::schema(E::wire(b)),
    ensures
        a == b,
        E::wire(a) == E::wire(b),
{
    E::lemma_round_trip(a);
    E::lemma_round_trip(b);
}

/// An array whose every element the entity's schema accepts decodes to as
/// many entities as it has elements, each the entity of the element at its
/// place.
pub proof fn lemma_list_keeps_length_and_order<E: Entity>(items: Seq<JsonModel>)
    requires
        forall|i: int| 0 <= i < items.len() ==> (#[trigger] E::schema(items[i])) is Some,
    ensures
        list_schema::<E>(JsonModel::Array(items)) is Some,
        list_schema::<E>(JsonModel::Array(items))->0.len() == items.len(),
        forall|i: int|
            0 <= i < items.len() ==> Some(
                #[trigger] list_schema::<E>(JsonModel::Array(items))->0[i],
            ) == E::schema(items[i]),
{
}

/// An array with an element that the entity's schema does not accept decodes
/// to nothing: no part of the list is kept.
pub proof fn lemma_list_fails_as_a_whole<E: Entity>(items: Seq<JsonModel>, i: int)
    requires
        0 <= i < items.len(),
        E::schema(items[i]) is None,
    ensures
        list_schema::<E>(JsonModel::Array(items)) is None,
{
}

/// Decoding the wire representation of a list of entities gives the list
/// back: as many entities, in the same order.
pub proof fn lemma_list_round_trip<E: Entity>(list: Seq<E::V>)
    ensures
        list_schema::<E>(list_wire::<E>(list)) == Some(list),
{
    let items = Seq::new(list.len(), |i: int| E::wire(list[i]));
    assert forall|i: int| 0 <= i < items.len() implies (#[trigger] E::schema(items[i])) == Some(
        list[i],
    ) by {
        E::lemma_round_trip(list[i]);
    }
    assert(list_schema::<E>(JsonModel::Array(items))->0 =~= list);
}

/// A body that is no JSON document decodes to no entity and to no list.
pub proof fn lemma_syntax_failure<E: Entity>(bytes: Seq<u8>)
    requires
        document(bytes) is None,
    ensures
        decoded::<E>(bytes) == Err::<E::V, DecodeFailure>(DecodeFailure::Syntax),
        decoded_list::<E>(bytes) == Err::<Seq<E::V>, DecodeFailure>(DecodeFailure::Syntax),
{
}

} // verus!
