use my_app::controller::posts::delete;
use my_app::db::posts::{NewPost, Post, PostUpdateAccess};
use my_app::reply::{Body, Reply, Status};
use my_app::routes::posts::{find, update};
use my_app::routes::{create_post, show_post};

fn post(id: i32, title: &str, body: &str, published: bool) -> Post {
    Post { id, title: title.to_string(), body: body.to_string(), published }
}

#[test]
fn status_codes() {
    assert_eq!(Status::Success.code(), 200);
    assert_eq!(Status::InternalServerError.code(), 500);
}

#[test]
fn ok_reply_carries_its_body() {
    let reply = Reply::ok(Body::Text("done".to_string()));
    assert_eq!(reply, Reply { status: Status::Success, body: Body::Text("done".to_string()) });
}

#[test]
fn failure_reply_carries_the_text() {
    let reply = Reply::internal_server_error("connection refused".to_string());
    assert_eq!(reply.status, Status::InternalServerError);
    assert_eq!(reply.status.code(), 500);
    assert_eq!(reply.body, Body::Text("connection refused".to_string()));
}

#[test]
fn created_post_is_sent_as_stored() {
    let request = create_post::PostJson::new("unit test title".to_string(), "unit test body".to_string());
    let values = request.new_post();
    assert_eq!(values, NewPost { title: "unit test title", body: "unit test body" });
    let stored = post(31, values.title, values.body, false);
    let reply = create_post::respond(Ok(stored.clone()));
    assert_eq!(reply.status.code(), 200);
    assert_eq!(reply.body, Body::Post(stored));
}

#[test]
fn new_post_keeps_empty_and_long_texts() {
    let request = create_post::PostJson::new(String::new(), "a\nb \"c\" d".to_string());
    assert_eq!(request.new_post().title, "");
    assert_eq!(request.new_post().body, "a\nb \"c\" d");
}

#[test]
fn failed_creation_is_an_internal_server_error() {
    let reply = create_post::respond(Err("null value in column \"title\"".to_string()));
    assert_eq!(reply, Reply {
        status: Status::InternalServerError,
        body: Body::Text("null value in column \"title\"".to_string()),
    });
}

#[test]
fn listing_is_sent_in_the_order_it_came() {
    let newer = post(2, "unit test title222", "unit test body222", true);
    let older = post(1, "unit test title111", "unit test body111", true);
    let reply = show_post::respond(Ok(vec![newer.clone(), older.clone()]));
    assert_eq!(reply.status, Status::Success);
    match reply.body {
        Body::Posts(page) => {
            assert_eq!(page.result, vec![newer, older]);
            let titles: Vec<String> = page.result.iter().map(|item| item.title.clone()).collect();
            assert_eq!(titles, ["unit test title222", "unit test title111"]);
        }
        other => panic!("not a page: {:?}", other),
    }
}

#[test]
fn empty_listing_is_a_success() {
    let reply = show_post::respond(Ok(Vec::new()));
    assert_eq!(reply, Reply {
        status: Status::Success,
        body: Body::Posts(show_post::Response { result: Vec::new() }),
    });
}

#[test]
fn failed_listing_is_an_internal_server_error() {
    let reply = show_post::respond(Err("LIMIT must not be negative".to_string()));
    assert_eq!(reply.status.code(), 500);
    assert_eq!(reply.body, Body::Text("LIMIT must not be negative".to_string()));
}

#[test]
fn found_post_is_sent_as_stored() {
    let stored = post(12, "unit test title", "unit test body", true);
    assert_eq!(find::found(vec![stored.clone()]), find::Response { result: Some(stored.clone()) });
    let reply = find::respond(Ok(vec![stored.clone()]));
    assert_eq!(reply, Reply {
        status: Status::Success,
        body: Body::Found(find::Response { result: Some(stored) }),
    });
}

#[test]
fn no_row_is_an_empty_result_not_an_error() {
    assert_eq!(find::found(Vec::new()), find::Response { result: None });
    let reply = find::respond(Ok(Vec::new()));
    assert_eq!(reply.status, Status::Success);
    assert_eq!(reply.status.code(), 200);
    assert_eq!(reply.body, Body::Found(find::Response { result: None }));
}

#[test]
fn first_of_several_rows_is_sent() {
    let first = post(5, "a", "b", false);
    let second = post(5, "c", "d", true);
    let third = post(6, "e", "f", true);
    assert_eq!(find::found(vec![first.clone(), second, third]).result, Some(first));
}

#[test]
fn failed_find_is_an_internal_server_error() {
    let reply = find::respond(Err("timeout".to_string()));
    assert_eq!(reply, Reply {
        status: Status::InternalServerError,
        body: Body::Text("timeout".to_string()),
    });
}

#[test]
fn deletion_is_acknowledged_with_the_id() {
    let reply = delete::respond(7, Ok(()));
    assert_eq!(reply, Reply {
        status: Status::Success,
        body: Body::Text("delete post [7]".to_string()),
    });
    assert_eq!(delete::respond(-40, Ok(())).body, Body::Text("delete post [-40]".to_string()));
    assert_eq!(
        delete::respond(i32::MAX, Ok(())).body,
        Body::Text("delete post [2147483647]".to_string())
    );
}

#[test]
fn failed_deletion_is_an_internal_server_error() {
    let reply = delete::respond(7, Err("server closed the connection".to_string()));
    assert_eq!(reply, Reply {
        status: Status::InternalServerError,
        body: Body::Text("server closed the connection".to_string()),
    });
}

#[test]
fn update_with_only_published_names_no_title_and_no_body() {
    let request = update::JsonBody::new(9, None, None, Some(true));
    assert_eq!(request.id(), 9);
    assert_eq!(request.into_changes(), PostUpdateAccess {
        title: None,
        body: None,
        published: Some(true),
    });
}

#[test]
fn update_keeps_every_named_field() {
    let request = update::JsonBody::new(
        9,
        Some("update test title".to_string()),
        Some("update test body".to_string()),
        Some(true),
    );
    assert_eq!(request.into_changes(), PostUpdateAccess {
        title: Some("update test title".to_string()),
        body: Some("update test body".to_string()),
        published: Some(true),
    });
    let blank = update::JsonBody::new(-1, Some(String::new()), None, Some(false));
    assert_eq!(blank.id(), -1);
    assert_eq!(blank.into_changes(), PostUpdateAccess {
        title: Some(String::new()),
        body: None,
        published: Some(false),
    });
}

#[test]
fn updated_post_is_sent_as_stored() {
    let stored = post(9, "update test title", "update test body", true);
    let reply = create_post::respond(Ok(stored.clone()));
    assert_eq!(reply, Reply { status: Status::Success, body: Body::Post(stored) });
}
