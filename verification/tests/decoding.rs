use jsonplaceholder_api::decode::{decode, decode_list, list_from_json, DecodeFailure, Entity};
use jsonplaceholder_api::entities::{
    Address, Album, Comment, Company, Geo, Photo, Post, Todo, User,
};
use jsonplaceholder_api::json::{parse, Json, Number};
use jsonplaceholder_api::wire::{
    WireAddress, WireAlbum, WireComment, WireCompany, WireGeo, WirePhoto, WirePost, WireTodo,
    WireUser,
};

const USER: &[u8] = br#"{
  "id": 1,
  "name": "Leanne Graham",
  "username": "Bret",
  "email": "Sincere@april.biz",
  "address": {
    "street": "Kulas Light",
    "suite": "Apt. 556",
    "city": "Gwenborough",
    "zipcode": "92998-3874",
    "geo": { "lat": "-37.3159", "lng": "81.1496" }
  },
  "phone": "1-770-736-8031 x56442",
  "website": "hildegard.org",
  "company": {
    "name": "Romaguera-Crona",
    "catchPhrase": "Multi-layered client-server neural-net",
    "bs": "harness real-time e-markets"
  }
}"#;

fn leanne() -> User {
    User {
        id: 1,
        name: "Leanne Graham".to_string(),
        username: "Bret".to_string(),
        email: "Sincere@april.biz".to_string(),
        phone: "1-770-736-8031 x56442".to_string(),
        website: "hildegard.org".to_string(),
        company: Company {
            name: "Romaguera-Crona".to_string(),
            catch_phrase: "Multi-layered client-server neural-net".to_string(),
            bs: "harness real-time e-markets".to_string(),
        },
        address: Address {
            street: "Kulas Light".to_string(),
            suite: "Apt. 556".to_string(),
            city: "Gwenborough".to_string(),
            zipcode: "92998-3874".to_string(),
            geo: Geo { lat: "-37.3159".to_string(), lng: "81.1496".to_string() },
        },
    }
}

fn object(members: Vec<(&str, Json)>) -> Json {
    Json::Object(members.into_iter().map(|(k, v)| (k.to_string(), v)).collect())
}

fn text(s: &str) -> Json {
    Json::Text(s.to_string())
}

fn unsigned(n: u64) -> Json {
    Json::Number(Number::Unsigned(n))
}

/// The members of `doc` without the one named `name`.
fn without(doc: &[u8], name: &str) -> Json {
    match parse(doc).unwrap() {
        Json::Object(members) => {
            Json::Object(members.into_iter().filter(|(k, _)| k != name).collect())
        }
        _ => panic!("an object was expected"),
    }
}

/// The members of `doc` with the one named `name` replaced by `value`.
fn with(doc: &[u8], name: &str, value: Json) -> Json {
    match without(doc, name) {
        Json::Object(mut members) => {
            members.push((name.to_string(), value));
            Json::Object(members)
        }
        _ => panic!("an object was expected"),
    }
}

#[test]
fn post_is_decoded_with_its_renamed_member() {
    assert_eq!(
        decode::<Post>(br#"{"userId": 3, "id": 9, "title": "qui est esse", "body": "est rerum"}"#),
        Ok(Post {
            id: 9,
            user_id: 3,
            title: "qui est esse".to_string(),
            body: "est rerum".to_string()
        })
    );
}

#[test]
fn comment_is_decoded_with_its_renamed_member() {
    assert_eq!(
        decode::<Comment>(
            br#"{"postId": 1, "id": 2, "name": "quo vero", "email": "Jayne@sydney.com", "body": "est natus"}"#
        ),
        Ok(Comment {
            id: 2,
            post_id: 1,
            name: "quo vero".to_string(),
            email: "Jayne@sydney.com".to_string(),
            body: "est natus".to_string()
        })
    );
}

#[test]
fn album_is_decoded_with_its_renamed_member() {
    assert_eq!(
        decode::<Album>(br#"{"userId": 4, "id": 31, "title": "ut pariatur"}"#),
        Ok(Album { id: 31, user_id: 4, title: "ut pariatur".to_string() })
    );
}

#[test]
fn photo_is_decoded_with_its_renamed_members() {
    assert_eq!(
        decode::<Photo>(
            br#"{"albumId": 2, "id": 51, "title": "non sunt", "url": "https://via/600", "thumbnailUrl": "https://via/150"}"#
        ),
        Ok(Photo {
            id: 51,
            album_id: 2,
            title: "non sunt".to_string(),
            url: "https://via/600".to_string(),
            thumbnail_url: "https://via/150".to_string()
        })
    );
}

#[test]
fn todo_is_decoded_with_its_flag() {
    assert_eq!(
        decode::<Todo>(br#"{"userId": 1, "id": 4, "title": "et porro", "completed": true}"#),
        Ok(Todo { id: 4, user_id: 1, title: "et porro".to_string(), completed: true })
    );
    assert_eq!(
        decode::<Todo>(br#"{"userId": 1, "id": 5, "title": "laboriosam", "completed": false}"#),
        Ok(Todo { id: 5, user_id: 1, title: "laboriosam".to_string(), completed: false })
    );
}

#[test]
fn user_is_decoded_with_its_nested_records() {
    assert_eq!(decode::<User>(USER), Ok(leanne()));
}

#[test]
fn coordinates_stay_text() {
    let user = decode::<User>(USER).unwrap();
    assert_eq!(user.address.geo.lat, "-37.3159");
    assert_eq!(user.address.geo.lng, "81.1496");
    let numeric = with(
        br#"{"lat": "1", "lng": "2"}"#,
        "lat",
        Json::Number(Number::Other),
    );
    assert_eq!(WireGeo::from_json(&numeric), None);
}

#[test]
fn members_outside_the_schema_are_ignored() {
    assert_eq!(
        decode::<Album>(br#"{"userId": 4, "extra": [1, {"a": null}], "id": 31, "title": "t", "z": 0}"#),
        Ok(Album { id: 31, user_id: 4, title: "t".to_string() })
    );
}

#[test]
fn body_that_is_no_json_fails_with_syntax() {
    assert_eq!(decode::<Post>(b""), Err(DecodeFailure::Syntax));
    assert_eq!(decode::<Post>(b"not json"), Err(DecodeFailure::Syntax));
    assert_eq!(
        decode::<Post>(br#"{"id": 1, "userId": 5, "title": "t", "body": "b""#),
        Err(DecodeFailure::Syntax)
    );
    assert_eq!(decode_list::<Post>(b"[{]"), Err(DecodeFailure::Syntax));
    assert_eq!(decode_list::<User>(b""), Err(DecodeFailure::Syntax));
}

#[test]
fn body_of_another_shape_fails_with_schema() {
    assert_eq!(decode::<Post>(b"{}"), Err(DecodeFailure::Schema));
    assert_eq!(decode::<Post>(b"null"), Err(DecodeFailure::Schema));
    assert_eq!(decode::<Post>(b"7"), Err(DecodeFailure::Schema));
    assert_eq!(decode::<Post>(b"\"post\""), Err(DecodeFailure::Schema));
    assert_eq!(decode::<Post>(br#"[1, 5, "t", "b"]"#), Err(DecodeFailure::Schema));
    assert_eq!(
        decode::<Post>(br#"[{"id": 1, "userId": 5, "title": "t", "body": "b"}]"#),
        Err(DecodeFailure::Schema)
    );
    assert_eq!(decode_list::<Post>(b"{}"), Err(DecodeFailure::Schema));
    assert_eq!(decode_list::<Post>(b"null"), Err(DecodeFailure::Schema));
    assert_eq!(
        decode_list::<Post>(br#"{"id": 1, "userId": 5, "title": "t", "body": "b"}"#),
        Err(DecodeFailure::Schema)
    );
}

#[test]
fn post_lacking_any_member_is_rejected() {
    let doc = br#"{"id": 1, "userId": 5, "title": "t", "body": "b"}"#;
    assert!(Post::from_json(&parse(doc).unwrap()).is_some());
    for name in ["id", "userId", "title", "body"] {
        assert_eq!(Post::from_json(&without(doc, name)), None, "without {name}");
        assert_eq!(WirePost::from_json(&without(doc, name)), None, "without {name}");
    }
}

#[test]
fn comment_lacking_any_member_is_rejected() {
    let doc = br#"{"id": 1, "postId": 5, "name": "n", "email": "e", "body": "b"}"#;
    assert!(Comment::from_json(&parse(doc).unwrap()).is_some());
    for name in ["id", "postId", "name", "email", "body"] {
        assert_eq!(Comment::from_json(&without(doc, name)), None, "without {name}");
        assert_eq!(WireComment::from_json(&without(doc, name)), None, "without {name}");
    }
}

#[test]
fn album_lacking_any_member_is_rejected() {
    let doc = br#"{"id": 1, "userId": 5, "title": "t"}"#;
    assert!(Album::from_json(&parse(doc).unwrap()).is_some());
    for name in ["id", "userId", "title"] {
        assert_eq!(Album::from_json(&without(doc, name)), None, "without {name}");
        assert_eq!(WireAlbum::from_json(&without(doc, name)), None, "without {name}");
    }
}

#[test]
fn photo_lacking_any_member_is_rejected() {
    let doc = br#"{"id": 1, "albumId": 5, "title": "t", "url": "u", "thumbnailUrl": "v"}"#;
    assert!(Photo::from_json(&parse(doc).unwrap()).is_some());
    for name in ["id", "albumId", "title", "url", "thumbnailUrl"] {
        assert_eq!(Photo::from_json(&without(doc, name)), None, "without {name}");
        assert_eq!(WirePhoto::from_json(&without(doc, name)), None, "without {name}");
    }
}

#[test]
fn todo_lacking_any_member_is_rejected() {
    let doc = br#"{"id": 1, "userId": 5, "title": "t", "completed": false}"#;
    assert!(Todo::from_json(&parse(doc).unwrap()).is_some());
    for name in ["id", "userId", "title", "completed"] {
        assert_eq!(Todo::from_json(&without(doc, name)), None, "without {name}");
        assert_eq!(WireTodo::from_json(&without(doc, name)), None, "without {name}");
    }
}

#[test]
fn user_lacking_any_member_is_rejected() {
    assert!(User::from_json(&parse(USER).unwrap()).is_some());
    for name in ["id", "name", "username", "email", "phone", "website", "company", "address"] {
        assert_eq!(User::from_json(&without(USER, name)), None, "without {name}");
        assert_eq!(WireUser::from_json(&without(USER, name)), None, "without {name}");
    }
}

#[test]
fn nested_records_lacking_any_member_are_rejected() {
    let geo = br#"{"lat": "1", "lng": "2"}"#;
    assert!(WireGeo::from_json(&parse(geo).unwrap()).is_some());
    for name in ["lat", "lng"] {
        assert_eq!(WireGeo::from_json(&without(geo, name)), None, "without {name}");
    }
    let company = br#"{"name": "n", "catchPhrase": "c", "bs": "b"}"#;
    assert!(WireCompany::from_json(&parse(company).unwrap()).is_some());
    for name in ["name", "catchPhrase", "bs"] {
        assert_eq!(WireCompany::from_json(&without(company, name)), None, "without {name}");
    }
    let address =
        br#"{"street": "s", "suite": "u", "city": "c", "zipcode": "z", "geo": {"lat": "1", "lng": "2"}}"#;
    assert!(WireAddress::from_json(&parse(address).unwrap()).is_some());
    for name in ["street", "suite", "city", "zipcode", "geo"] {
        assert_eq!(WireAddress::from_json(&without(address, name)), None, "without {name}");
    }
}

#[test]
fn user_with_a_broken_nested_record_is_rejected() {
    let address = br#"{"street": "s", "suite": "u", "city": "c", "zipcode": "z", "geo": {"lat": "1"}}"#;
    assert_eq!(User::from_json(&with(USER, "address", parse(address).unwrap())), None);
    assert_eq!(User::from_json(&with(USER, "address", text("Kulas Light"))), None);
    assert_eq!(User::from_json(&with(USER, "company", Json::Null)), None);
    let company = object(vec![("name", text("n")), ("bs", text("b"))]);
    assert_eq!(User::from_json(&with(USER, "company", company)), None);
}

#[test]
fn members_of_another_type_are_rejected() {
    let doc = br#"{"id": 1, "userId": 5, "title": "t", "completed": false}"#;
    assert_eq!(Todo::from_json(&with(doc, "id", text("1"))), None);
    assert_eq!(Todo::from_json(&with(doc, "id", Json::Null)), None);
    assert_eq!(Todo::from_json(&with(doc, "id", Json::Number(Number::Other))), None);
    assert_eq!(Todo::from_json(&with(doc, "userId", Json::Bool(true))), None);
    assert_eq!(Todo::from_json(&with(doc, "title", unsigned(3))), None);
    assert_eq!(Todo::from_json(&with(doc, "title", Json::Null)), None);
    assert_eq!(Todo::from_json(&with(doc, "completed", text("false"))), None);
    assert_eq!(Todo::from_json(&with(doc, "completed", unsigned(0))), None);
    assert_eq!(Todo::from_json(&with(doc, "completed", Json::Null)), None);
}

#[test]
fn identifiers_that_are_no_unsigned_integers_are_rejected() {
    assert_eq!(
        decode::<Album>(br#"{"userId": 4, "id": -31, "title": "t"}"#),
        Err(DecodeFailure::Schema)
    );
    assert_eq!(
        decode::<Album>(br#"{"userId": 4.0, "id": 31, "title": "t"}"#),
        Err(DecodeFailure::Schema)
    );
    assert_eq!(
        decode::<Album>(br#"{"userId": 4, "id": 18446744073709551616, "title": "t"}"#),
        Err(DecodeFailure::Schema)
    );
    assert_eq!(
        decode::<Album>(br#"{"userId": 4, "id": 18446744073709551615, "title": "t"}"#),
        Ok(Album { id: u64::MAX, user_id: 4, title: "t".to_string() })
    );
}

#[test]
fn member_names_are_matched_exactly() {
    assert_eq!(
        decode::<Album>(br#"{"user_id": 4, "id": 31, "title": "t"}"#),
        Err(DecodeFailure::Schema)
    );
    assert_eq!(
        decode::<Album>(br#"{"userid": 4, "id": 31, "title": "t"}"#),
        Err(DecodeFailure::Schema)
    );
    assert_eq!(
        decode::<Album>(br#"{"userId": 4, "ID": 31, "title": "t"}"#),
        Err(DecodeFailure::Schema)
    );
}

#[test]
fn list_is_decoded_in_the_order_of_the_array() {
    let body = br#"[
        {"userId": 1, "id": 3, "title": "c"},
        {"userId": 1, "id": 1, "title": "a"},
        {"userId": 2, "id": 2, "title": "b"}
    ]"#;
    assert_eq!(
        decode_list::<Album>(body),
        Ok(vec![
            Album { id: 3, user_id: 1, title: "c".to_string() },
            Album { id: 1, user_id: 1, title: "a".to_string() },
            Album { id: 2, user_id: 2, title: "b".to_string() },
        ])
    );
}

#[test]
fn list_has_as_many_entities_as_the_array_has_elements() {
    for n in [0usize, 1, 2, 17, 100] {
        let elements: Vec<String> = (0..n)
            .map(|i| {
                format!(
                    r#"{{"userId": {}, "id": {}, "title": "t{}", "completed": {}}}"#,
                    i % 3,
                    i,
                    i,
                    i % 2 == 0
                )
            })
            .collect();
        let body = format!("[{}]", elements.join(","));
        let todos = decode_list::<Todo>(body.as_bytes()).unwrap();
        assert_eq!(todos.len(), n);
        for (i, todo) in todos.iter().enumerate() {
            assert_eq!(todo.id, i as u64);
            assert_eq!(todo.user_id, (i % 3) as u64);
            assert_eq!(todo.title, format!("t{i}"));
            assert_eq!(todo.completed, i % 2 == 0);
        }
    }
}

#[test]
fn empty_array_is_the_empty_list() {
    assert_eq!(decode_list::<Post>(b"[]"), Ok(vec![]));
    assert_eq!(list_from_json::<User>(&Json::Array(vec![])), Some(vec![]));
}

#[test]
fn one_bad_element_fails_the_whole_list() {
    let good = r#"{"userId": 1, "id": 3, "title": "c"}"#;
    let bad = r#"{"userId": 1, "title": "c"}"#;
    for at in 0..4 {
        let elements: Vec<&str> = (0..4).map(|i| if i == at { bad } else { good }).collect();
        let body = format!("[{}]", elements.join(","));
        assert_eq!(decode_list::<Album>(body.as_bytes()), Err(DecodeFailure::Schema), "at {at}");
    }
    assert_eq!(decode_list::<Album>(b"[null]"), Err(DecodeFailure::Schema));
    assert_eq!(decode_list::<Album>(b"[[]]"), Err(DecodeFailure::Schema));
}

#[test]
fn list_from_json_takes_arrays_only() {
    assert_eq!(list_from_json::<Post>(&Json::Null), None);
    assert_eq!(list_from_json::<Post>(&Json::Object(vec![])), None);
    assert_eq!(list_from_json::<Post>(&text("[]")), None);
    let post = object(vec![
        ("id", unsigned(1)),
        ("userId", unsigned(5)),
        ("title", text("t")),
        ("body", text("b")),
    ]);
    assert_eq!(list_from_json::<Post>(&post), None);
    assert_eq!(
        list_from_json::<Post>(&Json::Array(vec![post])),
        Some(vec![Post { id: 1, user_id: 5, title: "t".to_string(), body: "b".to_string() }])
    );
}

#[test]
fn users_are_decoded_as_a_list() {
    let body = format!("[{0},{0}]", String::from_utf8(USER.to_vec()).unwrap());
    assert_eq!(decode_list::<User>(body.as_bytes()), Ok(vec![leanne(), leanne()]));
}

#[test]
fn wire_records_map_to_entities_member_by_member() {
    let geo = WireGeo { lat: "a".to_string(), lng: "b".to_string() };
    assert_eq!(Geo::from(geo.clone()), Geo { lat: "a".to_string(), lng: "b".to_string() });
    let address = WireAddress {
        street: "s".to_string(),
        suite: "u".to_string(),
        city: "c".to_string(),
        zipcode: "z".to_string(),
        geo,
    };
    let mapped_address = Address {
        street: "s".to_string(),
        suite: "u".to_string(),
        city: "c".to_string(),
        zipcode: "z".to_string(),
        geo: Geo { lat: "a".to_string(), lng: "b".to_string() },
    };
    assert_eq!(Address::from(address.clone()), mapped_address);
    let company =
        WireCompany { name: "n".to_string(), catch_phrase: "p".to_string(), bs: "x".to_string() };
    let mapped_company =
        Company { name: "n".to_string(), catch_phrase: "p".to_string(), bs: "x".to_string() };
    assert_eq!(Company::from(company.clone()), mapped_company);
    let user = WireUser {
        id: 8,
        name: "1".to_string(),
        username: "2".to_string(),
        email: "3".to_string(),
        phone: "4".to_string(),
        website: "5".to_string(),
        company,
        address,
    };
    assert_eq!(
        User::from(user),
        User {
            id: 8,
            name: "1".to_string(),
            username: "2".to_string(),
            email: "3".to_string(),
            phone: "4".to_string(),
            website: "5".to_string(),
            company: mapped_company,
            address: mapped_address,
        }
    );
    assert_eq!(
        Post::from(WirePost { id: 1, user_id: 2, title: "t".to_string(), body: "b".to_string() }),
        Post { id: 1, user_id: 2, title: "t".to_string(), body: "b".to_string() }
    );
    assert_eq!(
        Comment::from(WireComment {
            id: 1,
            post_id: 2,
            name: "n".to_string(),
            email: "e".to_string(),
            body: "b".to_string()
        }),
        Comment {
            id: 1,
            post_id: 2,
            name: "n".to_string(),
            email: "e".to_string(),
            body: "b".to_string()
        }
    );
    assert_eq!(
        Album::from(WireAlbum { id: 1, user_id: 2, title: "t".to_string() }),
        Album { id: 1, user_id: 2, title: "t".to_string() }
    );
    assert_eq!(
        Photo::from(WirePhoto {
            id: 1,
            album_id: 2,
            title: "t".to_string(),
            url: "u".to_string(),
            thumbnail_url: "v".to_string()
        }),
        Photo {
            id: 1,
            album_id: 2,
            title: "t".to_string(),
            url: "u".to_string(),
            thumbnail_url: "v".to_string()
        }
    );
    assert_eq!(
        Todo::from(WireTodo { id: 1, user_id: 2, title: "t".to_string(), completed: true }),
        Todo { id: 1, user_id: 2, title: "t".to_string(), completed: true }
    );
}

#[test]
fn wire_record_is_decoded_before_it_is_mapped() {
    let doc = parse(br#"{"id": 1, "albumId": 5, "title": "t", "url": "u", "thumbnailUrl": "v"}"#).unwrap();
    let wire = WirePhoto::from_json(&doc).unwrap();
    assert_eq!(
        wire,
        WirePhoto {
            id: 1,
            album_id: 5,
            title: "t".to_string(),
            url: "u".to_string(),
            thumbnail_url: "v".to_string()
        }
    );
    assert_eq!(Some(Photo::from(wire)), Photo::from_json(&doc));
}
