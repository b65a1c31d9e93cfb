use postboard::dispatch::{
    handle, list_response, status_of, update_response, Body, Request, Response, STATUS_CREATED,
    STATUS_NOT_FOUND, STATUS_NO_CONTENT, STATUS_OK,
};
use postboard::engine::{found_outcome, update_outcome};
use postboard::post::{check_new_post, check_patch, NewPost, Post, PostId, PostPatch, RepoError, Timestamp};
use postboard::store::{PostStore, HOME_PAGE_LIMIT};

fn new_post(title: &str, content: &str) -> NewPost {
    NewPost { title: title.to_string(), content: content.to_string() }
}

fn id(v: u128) -> PostId {
    PostId { value: v }
}

fn at(micros: i64) -> Timestamp {
    Timestamp { micros }
}

#[test]
fn round_trip_create_then_get() {
    let mut s = PostStore::new();
    let r = s.create(id(1), new_post("T", "C"), at(1_000));
    assert_eq!(r, Ok(id(1)));
    let p = s.get_by_id(id(1)).unwrap();
    assert_eq!(p.title, "T");
    assert_eq!(p.content, "C");
    assert!(p.created_at.micros >= 1_000);
}

#[test]
fn create_now_round_trip() {
    let mut s = PostStore::new();
    let new_id = s.create_now(new_post("T", "C")).unwrap();
    let p = s.get_by_id(new_id).unwrap();
    assert_eq!((p.title.as_str(), p.content.as_str()), ("T", "C"));
    assert!(p.created_at.micros > 0);
}

#[test]
fn partial_update_keeps_content() {
    let mut s = PostStore::new();
    s.create(id(5), new_post("A", "B"), at(10)).unwrap();
    let r = s.update(id(5), PostPatch { title: Some("Z".to_string()), content: None });
    assert_eq!(r, Ok(()));
    let p = s.get_by_id(id(5)).unwrap();
    assert_eq!(p.title, "Z");
    assert_eq!(p.content, "B");
    assert_eq!(p.created_at, at(10));
}

#[test]
fn partial_update_keeps_title() {
    let mut s = PostStore::new();
    s.create(id(5), new_post("A", "B"), at(10)).unwrap();
    s.update(id(5), PostPatch { title: None, content: Some("Y".to_string()) }).unwrap();
    let p = s.get_by_id(id(5)).unwrap();
    assert_eq!((p.title.as_str(), p.content.as_str()), ("A", "Y"));
}

#[test]
fn update_unknown_id_is_not_found_and_creates_nothing() {
    let mut s = PostStore::new();
    s.create(id(1), new_post("A", "B"), at(10)).unwrap();
    let r = s.update(id(2), PostPatch { title: Some("Z".to_string()), content: None });
    assert_eq!(r, Err(RepoError::NotFound));
    assert_eq!(s.len(), 1);
    assert_eq!(s.get_by_id(id(2)), Err(RepoError::NotFound));
    assert_eq!(s.get_by_id(id(1)).unwrap().title, "A");
}

#[test]
fn get_unknown_id_is_not_found() {
    let s = PostStore::new();
    assert_eq!(s.get_by_id(id(42)), Err(RepoError::NotFound));
}

#[test]
fn list_is_newest_first() {
    let mut s = PostStore::new();
    s.create(id(1), new_post("P1", "c"), at(100)).unwrap();
    s.create(id(2), new_post("P2", "c"), at(200)).unwrap();
    s.create(id(3), new_post("P3", "c"), at(300)).unwrap();
    let titles: Vec<String> = s.list_all().into_iter().map(|p| p.title).collect();
    assert_eq!(titles, vec!["P3", "P2", "P1"]);
}

#[test]
fn list_equal_times_is_newest_first() {
    let mut s = PostStore::new();
    s.create(id(1), new_post("P1", "c"), at(100)).unwrap();
    s.create(id(2), new_post("P2", "c"), at(100)).unwrap();
    s.create(id(3), new_post("P3", "c"), at(100)).unwrap();
    let ids: Vec<u128> = s.list_all().into_iter().map(|p| p.id.value).collect();
    assert_eq!(ids, vec![3, 2, 1]);
}

#[test]
fn clock_going_back_keeps_order() {
    let mut s = PostStore::new();
    s.create(id(1), new_post("P1", "c"), at(500)).unwrap();
    s.create(id(2), new_post("P2", "c"), at(100)).unwrap();
    let posts = s.list_all();
    assert_eq!(posts[0].id, id(2));
    assert_eq!(posts[0].created_at, at(500));
    assert_eq!(posts[1].id, id(1));
}

#[test]
fn empty_store_lists_nothing() {
    let s = PostStore::new();
    assert!(s.list_all().is_empty());
    assert!(s.home_page().is_empty());
    assert!(s.list_recent(Some(3)).is_empty());
}

#[test]
fn home_page_is_capped() {
    let mut s = PostStore::new();
    for k in 0..25u128 {
        s.create(id(k + 1), new_post("t", "c"), at(k as i64)).unwrap();
    }
    let page = s.home_page();
    assert_eq!(page.len(), HOME_PAGE_LIMIT);
    assert_eq!(HOME_PAGE_LIMIT, 20);
    assert_eq!(page[0].id, id(25));
    assert_eq!(page[19].id, id(6));
    assert_eq!(s.list_all().len(), 25);
    assert_eq!(s.list_recent(Some(2)).len(), 2);
}

#[test]
fn many_creates_give_distinct_ids() {
    let mut s = PostStore::new();
    let mut ids = Vec::new();
    for _ in 0..50 {
        ids.push(s.create_now(new_post("t", "c")).unwrap());
    }
    let mut values: Vec<u128> = ids.iter().map(|i| i.value).collect();
    values.sort();
    values.dedup();
    assert_eq!(values.len(), 50);
    assert_eq!(s.list_all().len(), 50);
}

#[test]
fn duplicate_id_is_storage_failure() {
    let mut s = PostStore::new();
    s.create(id(9), new_post("a", "b"), at(1)).unwrap();
    assert_eq!(s.create(id(9), new_post("c", "d"), at(2)), Err(RepoError::StorageFailure));
    assert_eq!(s.len(), 1);
    assert_eq!(s.get_by_id(id(9)).unwrap().title, "a");
}

#[test]
fn empty_fields_are_invalid_input() {
    let mut s = PostStore::new();
    assert_eq!(s.create(id(1), new_post("", "b"), at(1)), Err(RepoError::InvalidInput));
    assert_eq!(s.create(id(1), new_post("a", ""), at(1)), Err(RepoError::InvalidInput));
    assert_eq!(s.len(), 0);
    s.create(id(1), new_post("a", "b"), at(1)).unwrap();
    let r = s.update(id(1), PostPatch { title: Some(String::new()), content: None });
    assert_eq!(r, Err(RepoError::InvalidInput));
    assert_eq!(s.get_by_id(id(1)).unwrap().title, "a");
    assert_eq!(check_new_post(&new_post("a", "b")), Ok(()));
    assert_eq!(check_patch(&PostPatch { title: None, content: Some(String::new()) }), Err(RepoError::InvalidInput));
}

#[test]
fn apply_patch_replaces_supplied_fields() {
    let p = Post { id: id(3), title: "A".to_string(), content: "B".to_string(), created_at: at(7) };
    let q = p.duplicate().apply_patch(PostPatch { title: Some("Z".to_string()), content: None });
    assert_eq!(q, Post { id: id(3), title: "Z".to_string(), content: "B".to_string(), created_at: at(7) });
    assert_eq!(p.duplicate(), p);
}

#[test]
fn statuses_of_errors() {
    assert_eq!(status_of(RepoError::InvalidInput), 400);
    assert_eq!(status_of(RepoError::NotFound), 404);
    assert_eq!(status_of(RepoError::StorageFailure), 500);
}

#[test]
fn failed_listing_degrades_to_empty() {
    let r = list_response(Err(RepoError::StorageFailure));
    assert_eq!(r, Response { status: 200, body: Body::Posts(Vec::new()) });
}

#[test]
fn update_responses() {
    assert_eq!(update_response(Ok(())).status, 204);
    assert_eq!(update_response(Err(RepoError::NotFound)).status, 404);
    assert_eq!(update_response(Err(RepoError::StorageFailure)).status, 500);
}

#[test]
fn engine_outcomes() {
    assert_eq!(update_outcome(0), Err(RepoError::NotFound));
    assert_eq!(update_outcome(1), Ok(()));
    assert_eq!(found_outcome(None), Err(RepoError::NotFound));
    let p = Post { id: id(3), title: "A".to_string(), content: "B".to_string(), created_at: at(7) };
    assert_eq!(found_outcome(Some(p.clone())), Ok(p));
}

#[test]
fn dispatch_round_trip() {
    let mut s = PostStore::new();
    let fresh = id(0xa1a2a3a4b1b2c1c2d1d2d3d4d5d6d7d8);
    let r = handle(&mut s, Request::Create { input: new_post("T", "C") }, fresh, at(5));
    assert_eq!(r, Response { status: STATUS_CREATED, body: Body::Created(fresh) });
    let text = "a1a2a3a4-b1b2-c1c2-d1d2-d3d4d5d6d7d8".to_string();
    let r = handle(&mut s, Request::Get { id: text.clone() }, id(0), at(6));
    assert_eq!(r.status, STATUS_OK);
    match r.body {
        Body::One(p) => assert_eq!((p.title.as_str(), p.content.as_str()), ("T", "C")),
        other => panic!("unexpected body {:?}", other),
    }
    let patch = PostPatch { title: Some("Z".to_string()), content: None };
    let r = handle(&mut s, Request::Update { id: text.clone(), patch }, id(0), at(7));
    assert_eq!(r, Response { status: STATUS_NO_CONTENT, body: Body::Empty });
    let r = handle(&mut s, Request::ListAll, id(0), at(8));
    match r.body {
        Body::Posts(v) => {
            assert_eq!(v.len(), 1);
            assert_eq!((v[0].title.as_str(), v[0].content.as_str()), ("Z", "C"));
        }
        other => panic!("unexpected body {:?}", other),
    }
}

#[test]
fn dispatch_errors() {
    let mut s = PostStore::new();
    let r = handle(&mut s, Request::Get { id: "not-an-id".to_string() }, id(0), at(0));
    assert_eq!(r, Response { status: 400, body: Body::Empty });
    let unknown = "00000000-0000-0000-0000-000000000001".to_string();
    let r = handle(&mut s, Request::Get { id: unknown.clone() }, id(0), at(0));
    assert_eq!(r, Response { status: STATUS_NOT_FOUND, body: Body::Empty });
    let patch = PostPatch { title: Some("Z".to_string()), content: None };
    let r = handle(&mut s, Request::Update { id: unknown, patch }, id(0), at(0));
    assert_eq!(r.status, STATUS_NOT_FOUND);
    let r = handle(&mut s, Request::Create { input: new_post("", "x") }, id(1), at(0));
    assert_eq!(r.status, 400);
    assert_eq!(s.len(), 0);
    let r = handle(&mut s, Request::HomePage, id(0), at(0));
    assert_eq!(r, Response { status: 200, body: Body::Posts(Vec::new()) });
}

#[test]
fn colliding_creates_store_one_row_per_success() {
    let mut s = PostStore::new();
    let results = vec![
        s.create(id(1), new_post("a", "b"), at(1)),
        s.create(id(2), new_post("c", "d"), at(2)),
        s.create(id(1), new_post("e", "f"), at(3)),
        s.create(id(3), new_post("g", "h"), at(4)),
    ];
    let ok: Vec<u128> = results.iter().filter_map(|r| r.ok()).map(|i| i.value).collect();
    assert_eq!(ok, vec![1, 2, 3]);
    assert_eq!(results[2], Err(RepoError::StorageFailure));
    let listed: Vec<u128> = s.list_all().into_iter().map(|p| p.id.value).collect();
    assert_eq!(listed, vec![3, 2, 1]);
}
