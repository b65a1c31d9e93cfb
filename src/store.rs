use vstd::prelude::*;
use crate::post::{
    check_new_post, check_patch, patched, valid_new_post, valid_patch, valid_text, NewPost, Post,
    PostId, PostPatch, RepoError, Timestamp,
};
use crate::ids::fresh_post_id;
use crate::clock::now_timestamp;

verus! {

/// How many posts the home page lists.
pub const HOME_PAGE_LIMIT: usize = 20;

/// Some stored post has the id `id`.
pub open spec fn has_id(rows: Seq<Post>, id: PostId) -> bool {
    exists|i: int| 0 <= i < rows.len() && #[trigger] rows[i].id == id
}

/// Stored posts: ids unique, titles and contents non-empty, and creation
/// times that never decrease in the order of insertion.
pub open spec fn rows_wf(rows: Seq<Post>) -> bool {
    &&& forall|i: int, j: int|
        0 <= i < j < rows.len() ==> #[trigger] rows[i].id != #[trigger] rows[j].id
    &&& forall|i: int, j: int|
        0 <= i <= j < rows.len() ==> #[trigger] rows[i].created_at.micros
            <= #[trigger] rows[j].created_at.micros
    &&& forall|i: int|
        0 <= i < rows.len() ==> valid_text(#[trigger] rows[i].title) && valid_text(
            rows[i].content,
        )
}

/// The creation time the store gives a post inserted at `now`: `now`, or the
/// latest time already given where the clock reads earlier than that.
pub open spec fn stamp(rows: Seq<Post>, now: Timestamp) -> Timestamp {
    if rows.len() > 0 && now.micros < rows.last().created_at.micros {
        rows.last().created_at
    } else {
        now
    }
}

/// What a creation with id `id` at time `now` returns.
pub open spec fn create_result(rows: Seq<Post>, id: PostId, input: NewPost) -> Result<
    PostId,
    RepoError,
> {
    if !valid_new_post(input) {
        Err(RepoError::InvalidInput)
    } else if has_id(rows, id) {
        Err(RepoError::StorageFailure)
    } else {
        Ok(id)
    }
}

/// The stored posts after a creation with id `id` at time `now`.
pub open spec fn after_create(rows: Seq<Post>, id: PostId, input: NewPost, now: Timestamp) -> Seq<
    Post,
> {
    if create_result(rows, id, input) is Ok {
        rows.push(
            Post { id, title: input.title, content: input.content, created_at: stamp(rows, now) },
        )
    } else {
        rows
    }
}

/// The position of the post with id `id` (meaningful where `has_id`).
pub open spec fn index_of(rows: Seq<Post>, id: PostId) -> int {
    choose|i: int| 0 <= i < rows.len() && rows[i].id == id
}

/// What a lookup of `id` returns.
pub open spec fn get_result(rows: Seq<Post>, id: PostId) -> Result<Post, RepoError> {
    if has_id(rows, id) {
        Ok(rows[index_of(rows, id)])
    } else {
        Err(RepoError::NotFound)
    }
}

/// What an update of `id` returns.
pub open spec fn update_result(rows: Seq<Post>, id: PostId, patch: PostPatch) -> Result<
    (),
    RepoError,
> {
    if !valid_patch(patch) {
        Err(RepoError::InvalidInput)
    } else if !has_id(rows, id) {
        Err(RepoError::NotFound)
    } else {
        Ok(())
    }
}

/// The stored posts after an update of `id`.
pub open spec fn after_update(rows: Seq<Post>, id: PostId, patch: PostPatch) -> Seq<Post> {
    if update_result(rows, id, patch) is Ok {
        let i = index_of(rows, id);
        rows.update(i, patched(rows[i], patch))
    } else {
        rows
    }
}

/// The stored posts, newest first.
pub open spec fn newest_first(rows: Seq<Post>) -> Seq<Post> {
    Seq::new(rows.len(), |i: int| rows[rows.len() - 1 - i])
}

/// The first `limit` posts of `newest_first` (all of them for `None`).
pub open spec fn recent(rows: Seq<Post>, limit: Option<usize>) -> Seq<Post> {
    match limit {
        Some(n) if (n as int) < rows.len() => newest_first(rows).take(n as int),
        _ => newest_first(rows),
    }
}

/// A creation keeps the stored posts well formed.
pub proof fn lemma_create_wf(rows: Seq<Post>, id: PostId, input: NewPost, now: Timestamp)
    requires
        rows_wf(rows),
    ensures
        rows_wf(after_create(rows, id, input, now)),
{
    if create_result(rows, id, input) is Ok {
        let after = after_create(rows, id, input, now);
        assert(!has_id(rows, id));
        assert forall|a: int, b: int| 0 <= a < b < after.len() implies #[trigger] after[a].id
            != #[trigger] after[b].id by {
            if b == rows.len() {
                assert(rows[a].id != id);
            } else {
                assert(rows[a].id != rows[b].id);
            }
        }
        assert forall|a: int, b: int|
            0 <= a <= b < after.len() implies #[trigger] after[a].created_at.micros
            <= #[trigger] after[b].created_at.micros by {
            if b == rows.len() && a < b {
                assert(rows[a].created_at.micros <= rows[rows.len() - 1].created_at.micros);
            } else if b < rows.len() {
                assert(rows[a].created_at.micros <= rows[b].created_at.micros);
            }
        }
        assert forall|k: int| 0 <= k < after.len() implies valid_text(#[trigger] after[k].title)
            && valid_text(after[k].content) by {
            if k < rows.len() {
                assert(valid_text(rows[k].title));
            }
        }
    }
}

/// A store of posts, kept in the order in which they were inserted.
pub struct PostStore {
    rows: Vec<Post>,
}

impl View for PostStore {
    type V = Seq<Post>;

    closed spec fn view(&self) -> Seq<Post> {
        self.rows@
    }
}

impl PostStore {
    /// The store is well formed (see `rows_wf`).
    pub open spec fn wf(&self) -> bool {
        rows_wf(self@)
    }

    /// An empty store.
    pub fn new() -> (r: PostStore)
        ensures
            r@ == Seq::<Post>::empty(),
            r.wf(),
    {
        PostStore { rows: Vec::new() }
    }

    /// The number of stored posts.
    pub fn len(&self) -> (r: usize)
        ensures
            r == self@.len(),
    {
        self.rows.len()
    }

    /// Looks up the post with id `id`: `NotFound` when there is none.
    pub fn get_by_id(&self, id: PostId) -> (r: Result<Post, RepoError>)
        requires
            self.wf(),
        ensures
            r == get_result(self@, id),
    {
        let mut i: usize = 0;
        while i < self.rows.len()
            invariant
                0 <= i <= self.rows@.len(),
                self.wf(),
                forall|k: int| 0 <= k < i ==> self.rows@[k].id != id,
            decreases self.rows@.len() - i,
        {
            if self.rows[i].id.value == id.value {
                proof {
                    let rows = self@;
                    assert(has_id(rows, id));
                    let j = index_of(rows, id);
                    assert(rows[j].id == id);
                    if j > i as int {
                        assert(rows[i as int].id != rows[j].id);
                    }
                    assert(j == i as int);
                }
                return Ok(self.rows[i].duplicate());
            }
            i = i + 1;
        }
        Err(RepoError::NotFound)
    }

    /// Stores a new post with id `id`, created at `now` or, where the clock
    /// reads earlier than the latest creation time already given, at that
    /// time, so that creation times never decrease in the order of insertion.
    /// `InvalidInput` when the title or the content is empty;
    /// `StorageFailure` when a post already has the id, which is never
    /// reused.
    pub fn create(&mut self, id: PostId, input: NewPost, now: Timestamp) -> (r: Result<
        PostId,
        RepoError,
    >)
        requires
            old(self).wf(),
        ensures
            final(self).wf(),
            r == create_result(old(self)@, id, input),
            final(self)@ == after_create(old(self)@, id, input, now),
    {
        if check_new_post(&input).is_err() {
            return Err(RepoError::InvalidInput);
        }
        if self.get_by_id(id).is_ok() {
            return Err(RepoError::StorageFailure);
        }
        let n = self.rows.len();
        let created_at = if n > 0 && now.micros < self.rows[n - 1].created_at.micros {
            self.rows[n - 1].created_at
        } else {
            now
        };
        let post = Post { id, title: input.title, content: input.content, created_at };
        proof {
            lemma_create_wf(self@, id, input, now);
        }
        self.rows.push(post);
        Ok(id)
    }

    /// Stores a new post under a freshly generated id, at the current time
    /// (see `create`).
    pub fn create_now(&mut self, input: NewPost) -> (r: Result<PostId, RepoError>)
        requires
            old(self).wf(),
        ensures
            final(self).wf(),
            exists|id: PostId, now: Timestamp|
                r == create_result(old(self)@, id, input) && final(self)@ == after_create(
                    old(self)@,
                    id,
                    input,
                    now,
                ),
    {
        let id = fresh_post_id();
        let now = now_timestamp();
        self.create(id, input, now)
    }

    /// The stored posts, newest first: the first `limit` of them, or all of
    /// them for `None`.
    pub fn list_recent(&self, limit: Option<usize>) -> (r: Vec<Post>)
        ensures
            r@ == recent(self@, limit),
    {
        let n = self.rows.len();
        let count = match limit {
            Some(k) if k < n => k,
            _ => n,
        };
        let mut out: Vec<Post> = Vec::new();
        let mut i: usize = 0;
        while i < count
            invariant
                count <= n == self.rows@.len(),
                0 <= i <= count,
                out@.len() == i,
                forall|k: int| 0 <= k < i ==> out@[k] == self.rows@[n - 1 - k],
            decreases count - i,
        {
            out.push(self.rows[n - 1 - i].duplicate());
            i = i + 1;
        }
        assert(out@ =~= recent(self@, limit));
        out
    }

    /// The home page's listing: the `HOME_PAGE_LIMIT` newest posts.
    pub fn home_page(&self) -> (r: Vec<Post>)
        ensures
            r@ == recent(self@, Some(HOME_PAGE_LIMIT)),
    {
        self.list_recent(Some(HOME_PAGE_LIMIT))
    }

    /// Every stored post, newest first.
    pub fn list_all(&self) -> (r: Vec<Post>)
        ensures
            r@ == newest_first(self@),
    {
        self.list_recent(None)
    }

    /// Puts the fields that `patch` supplies in place of those of the post
    /// with id `id`, in one step, and keeps the others. `InvalidInput` when
    /// the patch supplies an empty text; `NotFound`, and nothing changed,
    /// when no post has the id.
    pub fn update(&mut self, id: PostId, patch: PostPatch) -> (r: Result<(), RepoError>)
        requires
            old(self).wf(),
        ensures
            final(self).wf(),
            r == update_result(old(self)@, id, patch),
            final(self)@ == after_update(old(self)@, id, patch),
    {
        if check_patch(&patch).is_err() {
            return Err(RepoError::InvalidInput);
        }
        let mut i: usize = 0;
        while i < self.rows.len()
            invariant
                0 <= i <= self.rows@.len(),
                self.rows@ == old(self).rows@,
                self.wf(),
                valid_patch(patch),
                forall|k: int| 0 <= k < i ==> self.rows@[k].id != id,
            decreases self.rows@.len() - i,
        {
            if self.rows[i].id.value == id.value {
                let ghost rows = self@;
                proof {
                    assert(has_id(rows, id));
                    let j = index_of(rows, id);
                    assert(rows[j].id == id);
                    if j > i as int {
                        assert(rows[i as int].id != rows[j].id);
                    }
                    assert(j == i as int);
                }
                let current = self.rows[i].duplicate();
                let next = current.apply_patch(patch);
                self.rows.set(i, next);
                proof {
                    let after = self@;
                    assert forall|a: int, b: int| 0 <= a <= b < after.len() implies #[trigger] after[a].created_at.micros
                        <= #[trigger] after[b].created_at.micros by {
                        assert(rows[a].created_at.micros <= rows[b].created_at.micros);
                    }
                    assert forall|a: int, b: int| 0 <= a < b < after.len() implies #[trigger] after[a].id
                        != #[trigger] after[b].id by {
                        assert(rows[a].id != rows[b].id);
                    }
                    assert forall|k: int| 0 <= k < after.len() implies valid_text(#[trigger] after[k].title) && valid_text(after[k].content) by {
                        assert(valid_text(rows[k].title));
                    }
                }
                return Ok(());
            }
            i = i + 1;
        }
        Err(RepoError::NotFound)
    }
}

} // verus!
