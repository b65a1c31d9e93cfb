use vstd::prelude::*;
use crate::ids::{parse_post_id, uuid_parse_of};
use crate::post::{NewPost, Post, PostId, PostPatch, RepoError, Timestamp};
use crate::store::{
    after_create, after_update, create_result, get_result, newest_first, recent, update_result,
    PostStore, HOME_PAGE_LIMIT,
};

verus! {

pub const STATUS_OK: u16 = 200;

pub const STATUS_CREATED: u16 = 201;

pub const STATUS_NO_CONTENT: u16 = 204;

pub const STATUS_BAD_REQUEST: u16 = 400;

pub const STATUS_NOT_FOUND: u16 = 404;

pub const STATUS_INTERNAL_ERROR: u16 = 500;

/// What a response carries.
#[derive(Clone, Debug, PartialEq, Eq)]
pub enum Body {
    /// Nothing.
    Empty,
    /// A list of posts.
    Posts(Vec<Post>),
    /// One post.
    One(Post),
    /// The id of a post that was just created.
    Created(PostId),
}

/// An HTTP status and what the response carries.
#[derive(Clone, Debug, PartialEq, Eq)]
pub struct Response {
    pub status: u16,
    pub body: Body,
}

/// A request to the post resource.
#[derive(Clone, Debug, PartialEq, Eq)]
pub enum Request {
    /// `GET /posts`: every post, newest first.
    ListAll,
    /// The home page: the newest posts, at most `HOME_PAGE_LIMIT` of them.
    HomePage,
    /// `GET /posts/{id}`.
    Get { id: String },
    /// `POST /posts`.
    Create { input: NewPost },
    /// `PUT /posts/{id}`.
    Update { id: String, patch: PostPatch },
}

/// The status that reports a failed operation.
pub open spec fn error_status(e: RepoError) -> u16 {
    match e {
        RepoError::InvalidInput => STATUS_BAD_REQUEST,
        RepoError::NotFound => STATUS_NOT_FOUND,
        RepoError::StorageFailure => STATUS_INTERNAL_ERROR,
    }
}

/// The body is the list `posts`.
pub open spec fn lists(body: Body, posts: Seq<Post>) -> bool {
    body is Posts && body->Posts_0@ == posts
}

/// `resp` answers a listing that returned `r`.
pub open spec fn list_answer(r: Result<Seq<Post>, RepoError>, resp: Response) -> bool {
    &&& resp.status == STATUS_OK
    &&& match r {
        Ok(posts) => lists(resp.body, posts),
        Err(_) => lists(resp.body, Seq::empty()),
    }
}

/// `resp` answers a lookup that returned `r`.
pub open spec fn get_answer(r: Result<Post, RepoError>, resp: Response) -> bool {
    match r {
        Ok(p) => resp == Response { status: STATUS_OK, body: Body::One(p) },
        Err(e) => resp == Response { status: error_status(e), body: Body::Empty },
    }
}

/// `resp` answers a creation that returned `r`.
pub open spec fn create_answer(r: Result<PostId, RepoError>, resp: Response) -> bool {
    match r {
        Ok(id) => resp == Response { status: STATUS_CREATED, body: Body::Created(id) },
        Err(e) => resp == Response { status: error_status(e), body: Body::Empty },
    }
}

/// `resp` answers an update that returned `r`.
pub open spec fn update_answer(r: Result<(), RepoError>, resp: Response) -> bool {
    match r {
        Ok(_) => resp == Response { status: STATUS_NO_CONTENT, body: Body::Empty },
        Err(e) => resp == Response { status: error_status(e), body: Body::Empty },
    }
}

/// The id that a request's text names, or `InvalidInput`.
pub open spec fn parsed_id(text: Seq<char>) -> Result<PostId, RepoError> {
    match uuid_parse_of(text) {
        Some(v) => Ok(PostId { value: v }),
        None => Err(RepoError::InvalidInput),
    }
}

/// The status that reports a failed operation.
pub fn status_of(e: RepoError) -> (r: u16)
    ensures
        r == error_status(e),
{
    match e {
        RepoError::InvalidInput => STATUS_BAD_REQUEST,
        RepoError::NotFound => STATUS_NOT_FOUND,
        RepoError::StorageFailure => STATUS_INTERNAL_ERROR,
    }
}

/// The answer to a listing: 200 with the posts, or, where the store failed,
/// 200 with an empty list, so that a page that lists posts still renders.
pub fn list_response(r: Result<Vec<Post>, RepoError>) -> (resp: Response)
    ensures
        list_answer(
            match r {
                Ok(v) => Ok(v@),
                Err(e) => Err(e),
            },
            resp,
        ),
{
    match r {
        Ok(posts) => Response { status: STATUS_OK, body: Body::Posts(posts) },
        Err(_) => Response { status: STATUS_OK, body: Body::Posts(Vec::new()) },
    }
}

/// The answer to a lookup: 200 with the post, or the status of the error.
pub fn get_response(r: Result<Post, RepoError>) -> (resp: Response)
    ensures
        get_answer(r, resp),
{
    match r {
        Ok(p) => Response { status: STATUS_OK, body: Body::One(p) },
        Err(e) => Response { status: status_of(e), body: Body::Empty },
    }
}

/// The answer to a creation: 201 with the new id, or the status of the error.
pub fn create_response(r: Result<PostId, RepoError>) -> (resp: Response)
    ensures
        create_answer(r, resp),
{
    match r {
        Ok(id) => Response { status: STATUS_CREATED, body: Body::Created(id) },
        Err(e) => Response { status: status_of(e), body: Body::Empty },
    }
}

/// The answer to an update: 204, or the status of the error.
pub fn update_response(r: Result<(), RepoError>) -> (resp: Response)
    ensures
        update_answer(r, resp),
{
    match r {
        Ok(_) => Response { status: STATUS_NO_CONTENT, body: Body::Empty },
        Err(e) => Response { status: status_of(e), body: Body::Empty },
    }
}

/// Carries out `req` on `store` and answers it. A creation stores its post
/// under `fresh`, at the time `now`.
pub fn handle(store: &mut PostStore, req: Request, fresh: PostId, now: Timestamp) -> (resp:
    Response)
    requires
        old(store).wf(),
    ensures
        final(store).wf(),
        match req {
            Request::ListAll => final(store)@ == old(store)@ && list_answer(
                Ok(newest_first(old(store)@)),
                resp,
            ),
            Request::HomePage => final(store)@ == old(store)@ && list_answer(
                Ok(recent(old(store)@, Some(HOME_PAGE_LIMIT))),
                resp,
            ),
            Request::Get { id } => final(store)@ == old(store)@ && get_answer(
                match parsed_id(id@) {
                    Ok(pid) => get_result(old(store)@, pid),
                    Err(e) => Err(e),
                },
                resp,
            ),
            Request::Create { input } => final(store)@ == after_create(
                old(store)@,
                fresh,
                input,
                now,
            ) && create_answer(create_result(old(store)@, fresh, input), resp),
            Request::Update { id, patch } => match parsed_id(id@) {
                Ok(pid) => final(store)@ == after_update(old(store)@, pid, patch) && update_answer(
                    update_result(old(store)@, pid, patch),
                    resp,
                ),
                Err(e) => final(store)@ == old(store)@ && update_answer(Err(e), resp),
            },
        },
{
    match req {
        Request::ListAll => list_response(Ok(store.list_all())),
        Request::HomePage => list_response(Ok(store.home_page())),
        Request::Get { id } => {
            let r = match parse_post_id(id.as_str()) {
                Ok(pid) => store.get_by_id(pid),
                Err(e) => Err(e),
            };
            get_response(r)
        },
        Request::Create { input } => create_response(store.create(fresh, input, now)),
        Request::Update { id, patch } => {
            let r = match parse_post_id(id.as_str()) {
                Ok(pid) => store.update(pid, patch),
                Err(e) => Err(e),
            };
            update_response(r)
        },
    }
}

} // verus!
