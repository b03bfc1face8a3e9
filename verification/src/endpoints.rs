//! The operations of the service. Each has two halves: one gives the path to
//! fetch, the other turns the end of the exchange into what the caller gets.
//! A list operation answers every failure with an empty list; an operation
//! on one entity, or on the children of one parent, answers it with
//! [`NotFoundError`].

use crate::decode::{
    decode, decode_list, decoded, decoded_list, lemma_list_round_trip, list_wire, Entity,
};
use crate::entities::{Album, Comment, NotFoundError, Photo, Post, Todo, User};
use crate::fetch::{after_reply, fetched_view, FetchFailure, Reply, StepModel, STATUS_OK};
use crate::json::document;
use crate::models::{opt_view, seq_view};
use crate::query::{build_path, number_filter, path_with_query, text_filter, Filter};
use crate::text::{decimal, render_decimal};
use vstd::prelude::*;

verus! {

/// The path of the entity `id` of a collection.
pub open spec fn item_path(collection: Seq<char>, id: u64) -> Seq<char> {
    collection + seq!['/'] + decimal(id as nat)
}

/// The path of the children of the entity `id` of a collection.
pub open spec fn children_path(collection: Seq<char>, id: u64, children: Seq<char>) -> Seq<char> {
    item_path(collection, id) + children
}

/// The message of every [`NotFoundError`].
pub open spec fn not_found() -> Seq<char> {
    "Not found"@
}

/// What a caller gets of an operation on one entity: the entity where the
/// exchange brought a body that decodes, and the message of the failure
/// otherwise, whatever went wrong.
pub open spec fn item_outcome<E: Entity>(fetched: Result<Seq<u8>, FetchFailure>) -> Result<
    E::V,
    Seq<char>,
> {
    match fetched {
        Ok(bytes) => match decoded::<E>(bytes) {
            Ok(e) => Ok(e),
            Err(_) => Err(not_found()),
        },
        Err(_) => Err(not_found()),
    }
}

/// What a caller gets of an operation on the children of one parent: the
/// list where the exchange brought a body that decodes, and the message of
/// the failure otherwise, whatever went wrong.
pub open spec fn children_outcome<E: Entity>(fetched: Result<Seq<u8>, FetchFailure>) -> Result<
    Seq<E::V>,
    Seq<char>,
> {
    match fetched {
        Ok(bytes) => match decoded_list::<E>(bytes) {
            Ok(list) => Ok(list),
            Err(_) => Err(not_found()),
        },
        Err(_) => Err(not_found()),
    }
}

/// What a caller gets of a list operation: the list where the exchange
/// brought a body that decodes, and the empty list otherwise, whatever went
/// wrong.
pub open spec fn list_outcome<E: Entity>(fetched: Result<Seq<u8>, FetchFailure>) -> Seq<E::V> {
    match fetched {
        Ok(bytes) => match decoded_list::<E>(bytes) {
            Ok(list) => list,
            Err(_) => Seq::empty(),
        },
        Err(_) => Seq::empty(),
    }
}

/// The model of what a caller gets of an operation on one entity.
pub open spec fn item_reply<T: View>(r: Result<T, NotFoundError>) -> Result<T::V, Seq<char>> {
    match r {
        Ok(e) => Ok(e@),
        Err(e) => Err(e.message@),
    }
}

/// The model of what a caller gets of an operation on the children of one
/// parent.
pub open spec fn children_reply<T: View>(r: Result<Vec<T>, NotFoundError>) -> Result<
    Seq<T::V>,
    Seq<char>,
> {
    match r {
        Ok(list) => Ok(seq_view(list@)),
        Err(e) => Err(e.message@),
    }
}

/// The path of one entity.
pub fn path_of_item(collection: &str, id: u64) -> (path: String)
    ensures
        path@ == item_path(collection@, id),
{
    let mut path = String::from_str(collection);
    path.append("/");
    path.append(render_decimal(id).as_str());
    proof {
        reveal_strlit("/");
        assert("/"@ =~= seq!['/']);
    }
    path
}

/// The path of the children of one entity.
pub fn path_of_children(collection: &str, id: u64, children: &str) -> (path: String)
    ensures
        path@ == children_path(collection@, id, children@),
{
    let mut path = path_of_item(collection, id);
    path.append(children);
    path
}

/// The path of a list that two filters narrow.
pub fn path_of_list(collection: &str, first: Filter, second: Filter) -> (path: String)
    ensures
        path@ == path_with_query(collection@, seq![first@, second@]),
{
    let mut filters: Vec<Filter> = Vec::new();
    filters.push(first);
    filters.push(second);
    proof {
        assert(seq_view(filters@) =~= seq![first@, second@]);
    }
    build_path(collection, &filters)
}

/// Answers an operation on one entity.
pub fn item_or_not_found<E: Entity>(fetched: &Result<Vec<u8>, FetchFailure>) -> (r: Result<
    E,
    NotFoundError,
>)
    ensures
        item_reply(r) == item_outcome::<E>(fetched_view(*fetched)),
{
    match fetched {
        Ok(bytes) => match decode::<E>(bytes.as_slice()) {
            Ok(e) => Ok(e),
            Err(_) => Err(NotFoundError::new()),
        },
        Err(_) => Err(NotFoundError::new()),
    }
}

/// Answers an operation on the children of one parent.
pub fn list_or_not_found<E: Entity>(fetched: &Result<Vec<u8>, FetchFailure>) -> (r: Result<
    Vec<E>,
    NotFoundError,
>)
    ensures
        children_reply(r) == children_outcome::<E>(fetched_view(*fetched)),
{
    match fetched {
        Ok(bytes) => match decode_list::<E>(bytes.as_slice()) {
            Ok(list) => Ok(list),
            Err(_) => Err(NotFoundError::new()),
        },
        Err(_) => Err(NotFoundError::new()),
    }
}

/// Answers a list operation.
pub fn list_or_empty<E: Entity>(fetched: &Result<Vec<u8>, FetchFailure>) -> (r: Vec<E>)
    ensures
        seq_view(r@) == list_outcome::<E>(fetched_view(*fetched)),
{
    let list = match fetched {
        Ok(bytes) => match decode_list::<E>(bytes.as_slice()) {
            Ok(list) => list,
            Err(_) => Vec::new(),
        },
        Err(_) => Vec::new(),
    };
    proof {
        assert(seq_view(list@) =~= list_outcome::<E>(fetched_view(*fetched)));
    }
    list
}

/// The path of the posts of a user: `/posts?userId=<user_id>`.
pub fn get_posts_path(user_id: u64) -> (path: String)
    ensures
        path@ == path_with_query("/posts"@, seq![number_filter("userId"@, Some(user_id))]),
{
    let mut filters: Vec<Filter> = Vec::new();
    let filter = Filter::number("userId", Some(user_id));
    proof {
        assert(seq![filter@] =~= seq![number_filter("userId"@, Some(user_id))]);
    }
    filters.push(filter);
    proof {
        assert(seq_view(filters@) =~= seq![filter@]);
    }
    build_path("/posts", &filters)
}

/// The posts of a user; none where the exchange brought none.
pub fn get_posts(fetched: &Result<Vec<u8>, FetchFailure>) -> (r: Vec<Post>)
    ensures
        seq_view(r@) == list_outcome::<Post>(fetched_view(*fetched)),
{
    list_or_empty::<Post>(fetched)
}

/// The path of a post: `/posts/<id>`.
pub fn get_post_path(id: u64) -> (path: String)
    ensures
        path@ == item_path("/posts"@, id),
{
    path_of_item("/posts", id)
}

/// A post, or the failure where the exchange brought none.
pub fn get_post(fetched: &Result<Vec<u8>, FetchFailure>) -> (r: Result<Post, NotFoundError>)
    ensures
        item_reply(r) == item_outcome::<Post>(fetched_view(*fetched)),
{
    item_or_not_found::<Post>(fetched)
}

/// The path of the comments on a post: `/posts/<id>/comments`.
pub fn get_post_comments_path(id: u64) -> (path: String)
    ensures
        path@ == children_path("/posts"@, id, "/comments"@),
{
    path_of_children("/posts", id, "/comments")
}

/// The comments on a post, or the failure where the exchange brought none.
pub fn get_post_comments(fetched: &Result<Vec<u8>, FetchFailure>) -> (r: Result<
    Vec<Comment>,
    NotFoundError,
>)
    ensures
        children_reply(r) == children_outcome::<Comment>(fetched_view(*fetched)),
{
    list_or_not_found::<Comment>(fetched)
}

/// The path of the comments: `/comments`, narrowed by `id` and `postId` where they
/// are given.
pub fn get_comments_path(id: Option<u64>, post_id: Option<u64>) -> (path: String)
    ensures
        path@ == path_with_query(
            "/comments"@,
            seq![number_filter("id"@, id), number_filter("postId"@, post_id)],
        ),
{
    path_of_list("/comments", Filter::number("id", id), Filter::number("postId", post_id))
}

/// The comments; none where the exchange brought none.
pub fn get_comments(fetched: &Result<Vec<u8>, FetchFailure>) -> (r: Vec<Comment>)
    ensures
        seq_view(r@) == list_outcome::<Comment>(fetched_view(*fetched)),
{
    list_or_empty::<Comment>(fetched)
}

/// The path of a comment: `/comments/<id>`.
pub fn get_comment_path(id: u64) -> (path: String)
    ensures
        path@ == item_path("/comments"@, id),
{
    path_of_item("/comments", id)
}

/// A comment, or the failure where the exchange brought none.
pub fn get_comment(fetched: &Result<Vec<u8>, FetchFailure>) -> (r: Result<Comment, NotFoundError>)
    ensures
        item_reply(r) == item_outcome::<Comment>(fetched_view(*fetched)),
{
    item_or_not_found::<Comment>(fetched)
}

/// The path of the albums: `/albums`, narrowed by `id` and `userId` where they
/// are given.
pub fn get_albums_path(id: Option<u64>, user_id: Option<u64>) -> (path: String)
    ensures
        path@ == path_with_query(
            "/albums"@,
            seq![number_filter("id"@, id), number_filter("userId"@, user_id)],
        ),
{
    path_of_list("/albums", Filter::number("id", id), Filter::number("userId", user_id))
}

/// The albums; none where the exchange brought none.
pub fn get_albums(fetched: &Result<Vec<u8>, FetchFailure>) -> (r: Vec<Album>)
    ensures
        seq_view(r@) == list_outcome::<Album>(fetched_view(*fetched)),
{
    list_or_empty::<Album>(fetched)
}

/// The path of an album: `/albums/<id>`.
pub fn get_album_path(id: u64) -> (path: String)
    ensures
        path@ == item_path("/albums"@, id),
{
    path_of_item("/albums", id)
}

/// An album, or the failure where the exchange brought none.
pub fn get_album(fetched: &Result<Vec<u8>, FetchFailure>) -> (r: Result<Album, NotFoundError>)
    ensures
        item_reply(r) == item_outcome::<Album>(fetched_view(*fetched)),
{
    item_or_not_found::<Album>(fetched)
}

/// The path of the photos in an album: `/albums/<id>/photos`.
pub fn get_album_photos_path(id: u64) -> (path: String)
    ensures
        path@ == children_path("/albums"@, id, "/photos"@),
{
    path_of_children("/albums", id, "/photos")
}

/// The photos in an album, or the failure where the exchange brought none.
pub fn get_album_photos(fetched: &Result<Vec<u8>, FetchFailure>) -> (r: Result<
    Vec<Photo>,
    NotFoundError,
>)
    ensures
        children_reply(r) == children_outcome::<Photo>(fetched_view(*fetched)),
{
    list_or_not_found::<Photo>(fetched)
}

/// The path of the photos: `/photos`, narrowed by `id` and `albumId` where they
/// are given.
pub fn get_photos_path(id: Option<u64>, album_id: Option<u64>) -> (path: String)
    ensures
        path@ == path_with_query(
            "/photos"@,
            seq![number_filter("id"@, id), number_filter("albumId"@, album_id)],
        ),
{
    path_of_list("/photos", Filter::number("id", id), Filter::number("albumId", album_id))
}

/// The photos; none where the exchange brought none.
pub fn get_photos(fetched: &Result<Vec<u8>, FetchFailure>) -> (r: Vec<Photo>)
    ensures
        seq_view(r@) == list_outcome::<Photo>(fetched_view(*fetched)),
{
    list_or_empty::<Photo>(fetched)
}

/// The path of a photo: `/photos/<id>`.
pub fn get_photo_path(id: u64) -> (path: String)
    ensures
        path@ == item_path("/photos"@, id),
{
    path_of_item("/photos", id)
}

/// A photo, or the failure where the exchange brought none.
pub fn get_photo(fetched: &Result<Vec<u8>, FetchFailure>) -> (r: Result<Photo, NotFoundError>)
    ensures
        item_reply(r) == item_outcome::<Photo>(fetched_view(*fetched)),
{
    item_or_not_found::<Photo>(fetched)
}

/// The path of the tasks: `/todos`, narrowed by `id` and `userId` where they
/// are given.
pub fn get_todos_path(id: Option<u64>, user_id: Option<u64>) -> (path: String)
    ensures
        path@ == path_with_query(
            "/todos"@,
            seq![number_filter("id"@, id), number_filter("userId"@, user_id)],
        ),
{
    path_of_list("/todos", Filter::number("id", id), Filter::number("userId", user_id))
}

/// The tasks; none where the exchange brought none.
pub fn get_todos(fetched: &Result<Vec<u8>, FetchFailure>) -> (r: Vec<Todo>)
    ensures
        seq_view(r@) == list_outcome::<Todo>(fetched_view(*fetched)),
{
    list_or_empty::<Todo>(fetched)
}

/// The path of a task: `/todos/<id>`.
pub fn get_todo_path(id: u64) -> (path: String)
    ensures
        path@ == item_path("/todos"@, id),
{
    path_of_item("/todos", id)
}

/// A task, or the failure where the exchange brought none.
pub fn get_todo(fetched: &Result<Vec<u8>, FetchFailure>) -> (r: Result<Todo, NotFoundError>)
    ensures
        item_reply(r) == item_outcome::<Todo>(fetched_view(*fetched)),
{
    item_or_not_found::<Todo>(fetched)
}

/// The path of the users: `/users`, narrowed by `id` and `email` where they
/// are given. The address is inserted as it stands.
pub fn get_users_path(id: Option<u64>, email: Option<String>) -> (path: String)
    ensures
        path@ == path_with_query(
            "/users"@,
            seq![number_filter("id"@, id), text_filter("email"@, opt_view(email))],
        ),
{
    path_of_list("/users", Filter::number("id", id), Filter::text("email", email))
}

/// The users; none where the exchange brought none.
pub fn get_users(fetched: &Result<Vec<u8>, FetchFailure>) -> (r: Vec<User>)
    ensures
        seq_view(r@) == list_outcome::<User>(fetched_view(*fetched)),
{
    list_or_empty::<User>(fetched)
}

/// The path of a user: `/users/<id>`.
pub fn get_user_path(id: u64) -> (path: String)
    ensures
        path@ == item_path("/users"@, id),
{
    path_of_item("/users", id)
}

/// A user, or the failure where the exchange brought none.
pub fn get_user(fetched: &Result<Vec<u8>, FetchFailure>) -> (r: Result<User, NotFoundError>)
    ensures
        item_reply(r) == item_outcome::<User>(fetched_view(*fetched)),
{
    item_or_not_found::<User>(fetched)
}

/// A body that does not decode, be it no JSON document or one that the wire
/// schema does not accept, answers an operation on one entity with the
/// failure and its fixed message.
pub proof fn lemma_malformed_item_is_not_found<E: Entity>(bytes: Seq<u8>)
    requires
        decoded::<E>(bytes) is Err,
    ensures
        item_outcome::<E>(Ok(bytes)) == Err::<E::V, Seq<char>>(not_found()),
{
}

/// A body that does not decode answers an operation on the children of one
/// parent with the failure and its fixed message.
pub proof fn lemma_malformed_children_is_not_found<E: Entity>(bytes: Seq<u8>)
    requires
        decoded_list::<E>(bytes) is Err,
    ensures
        children_outcome::<E>(Ok(bytes)) == Err::<Seq<E::V>, Seq<char>>(not_found()),
{
}

/// A body that does not decode answers a list operation with the empty
/// list.
pub proof fn lemma_malformed_list_is_empty<E: Entity>(bytes: Seq<u8>)
    requires
        decoded_list::<E>(bytes) is Err,
    ensures
        list_outcome::<E>(Ok(bytes)) == Seq::<E::V>::empty(),
{
}

/// Every failure of the exchange answers an operation alike, whatever its
/// cause: a status other than 200 as a transport failure, and both as a body
/// that does not decode.
pub proof fn lemma_failures_answer_alike<E: Entity>(
    first: FetchFailure,
    second: FetchFailure,
    item: Seq<u8>,
    list: Seq<u8>,
)
    requires
        decoded::<E>(item) is Err,
        decoded_list::<E>(list) is Err,
    ensures
        item_outcome::<E>(Err(first)) == item_outcome::<E>(Err(second)),
        item_outcome::<E>(Err(first)) == item_outcome::<E>(Ok(item)),
        children_outcome::<E>(Err(first)) == children_outcome::<E>(Err(second)),
        children_outcome::<E>(Err(first)) == children_outcome::<E>(Ok(list)),
        list_outcome::<E>(Err(first)) == list_outcome::<E>(Err(second)),
        list_outcome::<E>(Err(first)) == list_outcome::<E>(Ok(list)),
{
}

/// A status other than 200 ends the exchange, and every operation answers
/// it as it answers a transport failure.
pub proof fn lemma_status_is_a_failure<E: Entity>(status: u16)
    requires
        status != STATUS_OK,
    ensures
        after_reply(Reply::Status(status)) == StepModel::Done(Err(FetchFailure::Status(status))),
        after_reply(Reply::Unreachable) == StepModel::Done(Err(FetchFailure::Transport)),
        item_outcome::<E>(Err(FetchFailure::Status(status))) == item_outcome::<E>(
            Err(FetchFailure::Transport),
        ),
        children_outcome::<E>(Err(FetchFailure::Status(status))) == children_outcome::<E>(
            Err(FetchFailure::Transport),
        ),
        list_outcome::<E>(Err(FetchFailure::Status(status))) == list_outcome::<E>(
            Err(FetchFailure::Transport),
        ),
{
}

/// A body that holds the wire representation of an entity answers an
/// operation on one entity with that entity.
pub proof fn lemma_item_is_found<E: Entity>(bytes: Seq<u8>, e: E::V)
    requires
        document(bytes) == Some(E::wire(e)),
    ensures
        item_outcome::<E>(Ok(bytes)) == Ok::<E::V, Seq<char>>(e),
{
    E::lemma_round_trip(e);
}

/// A body that holds the wire representation of a list answers a list
/// operation, and an operation on the children of one parent, with that
/// list.
pub proof fn lemma_list_is_found<E: Entity>(bytes: Seq<u8>, list: Seq<E::V>)
    requires
        document(bytes) == Some(list_wire::<E>(list)),
    ensures
        list_outcome::<E>(Ok(bytes)) == list,
        children_outcome::<E>(Ok(bytes)) == Ok::<Seq<E::V>, Seq<char>>(list),
{
    lemma_list_round_trip::<E>(list);
}

} // verus!
