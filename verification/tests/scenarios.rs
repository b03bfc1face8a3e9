use jsonplaceholder_api::endpoints::{get_comments, get_comments_path, get_post, get_post_path};
use jsonplaceholder_api::entities::{NotFoundError, Post};
use jsonplaceholder_api::fetch::{
    on_read, on_reply, request, FetchFailure, Method, Read, Reply, Scheme, Step,
};

/// A transport that answers with a fixed status and body, in chunks of at
/// most `chunk` bytes.
fn stub(status: u16, body: &[u8], chunk: usize) -> Result<Vec<u8>, FetchFailure> {
    let mut step = on_reply(Reply::Status(status));
    let mut at = 0;
    loop {
        match step {
            Step::Done(fetched) => return fetched,
            Step::Read { body: so_far, limit } => {
                let end = body.len().min(at + chunk.min(limit as usize));
                let read = Read::Chunk(body[at..end].to_vec());
                at = end;
                step = on_read(so_far, read);
            }
        }
    }
}

#[test]
fn get_post_returns_the_decoded_post() {
    let path = get_post_path(1);
    assert_eq!(path, "/posts/1");
    let req = request(&path);
    assert_eq!(req.method, Method::Get);
    assert_eq!(req.scheme, Scheme::Https);
    assert_eq!(req.authority, "jsonplaceholder.typicode.com");
    assert_eq!(req.path_with_query, "/posts/1");
    let fetched = stub(200, br#"{"id":1,"userId":5,"title":"t","body":"b"}"#, 7);
    assert_eq!(
        get_post(&fetched),
        Ok(Post { id: 1, user_id: 5, title: "t".to_string(), body: "b".to_string() })
    );
}

#[test]
fn get_post_with_status_404_is_not_found() {
    assert_eq!(get_post_path(999), "/posts/999");
    let fetched = stub(404, b"{}", 8192);
    assert_eq!(fetched, Err(FetchFailure::Status(404)));
    assert_eq!(get_post(&fetched), Err(NotFoundError { message: "Not found".to_string() }));
}

#[test]
fn get_comments_by_post_returns_one_comment() {
    assert_eq!(get_comments_path(None, Some(3)), "/comments?postId=3");
    let fetched = stub(200, br#"[{"id":1,"postId":3,"name":"n","email":"e","body":"b"}]"#, 8192);
    let comments = get_comments(&fetched);
    assert_eq!(comments.len(), 1);
    assert_eq!(comments[0].post_id, 3);
    assert_eq!(comments[0].id, 1);
    assert_eq!(comments[0].name, "n");
    assert_eq!(comments[0].email, "e");
    assert_eq!(comments[0].body, "b");
}
