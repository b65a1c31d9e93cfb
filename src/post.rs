use vstd::prelude::*;

verus! {

/// A post's identifier: the 128-bit value of a UUID.
#[derive(Clone, Copy, Debug, PartialEq, Eq, Structural)]
pub struct PostId {
    pub value: u128,
}

/// An instant, in microseconds since the Unix epoch (UTC).
#[derive(Clone, Copy, Debug, PartialEq, Eq, Structural)]
pub struct Timestamp {
    pub micros: i64,
}

/// A stored post.
#[derive(Clone, Debug, PartialEq, Eq)]
pub struct Post {
    pub id: PostId,
    pub title: String,
    pub content: String,
    pub created_at: Timestamp,
}

/// The fields supplied when a post is created.
#[derive(Clone, Debug, PartialEq, Eq)]
pub struct NewPost {
    pub title: String,
    pub content: String,
}

/// A partial update: each field that is `Some` replaces the stored value,
/// each `None` leaves it as it was.
#[derive(Clone, Debug, PartialEq, Eq)]
pub struct PostPatch {
    pub title: Option<String>,
    pub content: Option<String>,
}

/// Why a repository operation did not succeed.
#[derive(Clone, Copy, Debug, PartialEq, Eq, Structural)]
pub enum RepoError {
    /// A malformed id, or a title or content that is empty.
    InvalidInput,
    /// No post has the requested id.
    NotFound,
    /// The store could not carry out the operation.
    StorageFailure,
}

/// A field value that may be stored: text that is not empty.
pub open spec fn valid_text(s: String) -> bool {
    s@.len() > 0
}

/// The fields of a creation request may be stored.
pub open spec fn valid_new_post(input: NewPost) -> bool {
    valid_text(input.title) && valid_text(input.content)
}

/// Every value a patch supplies may be stored.
pub open spec fn valid_patch(patch: PostPatch) -> bool {
    &&& (patch.title is Some ==> valid_text(patch.title->0))
    &&& (patch.content is Some ==> valid_text(patch.content->0))
}

/// The post `p` after the patch: supplied fields replaced, all else kept.
pub open spec fn patched(p: Post, patch: PostPatch) -> Post {
    Post {
        id: p.id,
        title: match patch.title {
            Some(t) => t,
            None => p.title,
        },
        content: match patch.content {
            Some(c) => c,
            None => p.content,
        },
        created_at: p.created_at,
    }
}

impl Post {
    /// A copy of this post, field for field.
    pub fn duplicate(&self) -> (r: Post)
        ensures
            r == *self,
    {
        Post {
            id: self.id,
            title: self.title.clone(),
            content: self.content.clone(),
            created_at: self.created_at,
        }
    }

    /// This post with the fields that `patch` supplies put in place of its own.
    pub fn apply_patch(self, patch: PostPatch) -> (r: Post)
        ensures
            r == patched(self, patch),
    {
        let title = match patch.title {
            Some(t) => t,
            None => self.title,
        };
        let content = match patch.content {
            Some(c) => c,
            None => self.content,
        };
        Post { id: self.id, title, content, created_at: self.created_at }
    }
}

/// Checks that a text field is not empty.
pub fn check_text(s: &String) -> (r: bool)
    ensures
        r == valid_text(*s),
{
    s.as_str().unicode_len() > 0
}

/// Checks a creation request: `InvalidInput` when the title or the content
/// is empty.
pub fn check_new_post(input: &NewPost) -> (r: Result<(), RepoError>)
    ensures
        r is Ok <==> valid_new_post(*input),
        r is Err ==> r == Err::<(), RepoError>(RepoError::InvalidInput),
{
    if check_text(&input.title) && check_text(&input.content) {
        Ok(())
    } else {
        Err(RepoError::InvalidInput)
    }
}

/// Checks an update request: `InvalidInput` when it supplies an empty
/// title or an empty content.
pub fn check_patch(patch: &PostPatch) -> (r: Result<(), RepoError>)
    ensures
        r is Ok <==> valid_patch(*patch),
        r is Err ==> r == Err::<(), RepoError>(RepoError::InvalidInput),
{
    let title_ok = match &patch.title {
        Some(t) => check_text(t),
        None => true,
    };
    let content_ok = match &patch.content {
        Some(c) => check_text(c),
        None => true,
    };
    if title_ok && content_ok {
        Ok(())
    } else {
        Err(RepoError::InvalidInput)
    }
}

} // verus!
