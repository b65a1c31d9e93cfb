use vstd::prelude::*;
use crate::post::{patched, valid_new_post, valid_patch, NewPost, Post, PostId, PostPatch, RepoError, Timestamp};
use crate::store::{
    after_create, after_update, create_result, get_result, has_id, index_of, lemma_create_wf,
    newest_first, rows_wf, update_result,
};

verus! {

/// A post that was created can be read back under the id the creation
/// returned, with the title and content it was given and a creation time no
/// earlier than the time of the call.
pub proof fn law_round_trip(rows: Seq<Post>, id: PostId, input: NewPost, now: Timestamp)
    requires
        rows_wf(rows),
        create_result(rows, id, input) == Ok::<PostId, RepoError>(id),
    ensures
        get_result(after_create(rows, id, input, now), id) is Ok,
        get_result(after_create(rows, id, input, now), id)->Ok_0.id == id,
        get_result(after_create(rows, id, input, now), id)->Ok_0.title == input.title,
        get_result(after_create(rows, id, input, now), id)->Ok_0.content == input.content,
        get_result(after_create(rows, id, input, now), id)->Ok_0.created_at.micros >= now.micros,
{
    let after = after_create(rows, id, input, now);
    let last = rows.len() as int;
    assert(after[last].id == id);
    assert(has_id(after, id));
    let j = index_of(after, id);
    if j < last {
        assert(rows[j].id == id);
        assert(has_id(rows, id));
    }
}

/// An update changes only the fields it supplies: each field it leaves out
/// keeps its stored value, and the id and creation time never change.
pub proof fn law_update_keeps_untouched(rows: Seq<Post>, id: PostId, patch: PostPatch)
    requires
        rows_wf(rows),
        has_id(rows, id),
        valid_patch(patch),
    ensures
        update_result(rows, id, patch) == Ok::<(), RepoError>(()),
        get_result(after_update(rows, id, patch), id) == Ok::<Post, RepoError>(
            patched(get_result(rows, id)->Ok_0, patch),
        ),
        patch.title is None ==> get_result(after_update(rows, id, patch), id)->Ok_0.title
            == get_result(rows, id)->Ok_0.title,
        patch.content is None ==> get_result(after_update(rows, id, patch), id)->Ok_0.content
            == get_result(rows, id)->Ok_0.content,
        get_result(after_update(rows, id, patch), id)->Ok_0.created_at == get_result(
            rows,
            id,
        )->Ok_0.created_at,
{
    let i = index_of(rows, id);
    let after = after_update(rows, id, patch);
    assert(after[i].id == id);
    assert(has_id(after, id));
    let j = index_of(after, id);
    if j != i {
        assert(rows[j].id == id);
        if j < i {
            assert(rows[j].id != rows[i].id);
        } else {
            assert(rows[i].id != rows[j].id);
        }
    }
}

/// An update of an id that no post has changes nothing (no post is created)
/// and, where the patch itself is acceptable, reports `NotFound`.
pub proof fn law_update_unknown_id(rows: Seq<Post>, id: PostId, patch: PostPatch)
    requires
        !has_id(rows, id),
    ensures
        after_update(rows, id, patch) == rows,
        valid_patch(patch) ==> update_result(rows, id, patch) == Err::<(), RepoError>(
            RepoError::NotFound,
        ),
{
}

/// A lookup of an id that no post has reports `NotFound`.
pub proof fn law_get_unknown_id(rows: Seq<Post>, id: PostId)
    requires
        !has_id(rows, id),
    ensures
        get_result(rows, id) == Err::<Post, RepoError>(RepoError::NotFound),
{
}

/// Three posts created one after the other are listed newest first, ahead
/// of every post that was there before.
pub proof fn law_list_order(
    rows: Seq<Post>,
    id1: PostId,
    in1: NewPost,
    t1: Timestamp,
    id2: PostId,
    in2: NewPost,
    t2: Timestamp,
    id3: PostId,
    in3: NewPost,
    t3: Timestamp,
)
    requires
        rows_wf(rows),
        create_result(rows, id1, in1) is Ok,
        create_result(after_create(rows, id1, in1, t1), id2, in2) is Ok,
        create_result(
            after_create(after_create(rows, id1, in1, t1), id2, in2, t2),
            id3,
            in3,
        ) is Ok,
    ensures
        ({
            let s3 = after_create(after_create(after_create(rows, id1, in1, t1), id2, in2, t2), id3, in3, t3);
            &&& newest_first(s3).len() == rows.len() + 3
            &&& newest_first(s3)[0].id == id3
            &&& newest_first(s3)[1].id == id2
            &&& newest_first(s3)[2].id == id1
            &&& newest_first(s3).subrange(3, newest_first(s3).len() as int) == newest_first(rows)
        }),
{
    let s1 = after_create(rows, id1, in1, t1);
    let s2 = after_create(s1, id2, in2, t2);
    let s3 = after_create(s2, id3, in3, t3);
    assert(newest_first(s3).subrange(3, newest_first(s3).len() as int) =~= newest_first(rows));
}

/// The stored posts after the creations `calls` (id, fields, clock reading),
/// applied in the order in which the store receives them.
pub open spec fn run_creates(rows: Seq<Post>, calls: Seq<(PostId, NewPost, Timestamp)>) -> Seq<
    Post,
>
    decreases calls.len(),
{
    if calls.len() == 0 {
        rows
    } else {
        let c = calls.last();
        after_create(run_creates(rows, calls.drop_last()), c.0, c.1, c.2)
    }
}

/// The ids returned by the creations of `calls` that succeeded, in order.
pub open spec fn created_ids(rows: Seq<Post>, calls: Seq<(PostId, NewPost, Timestamp)>) -> Seq<
    PostId,
>
    decreases calls.len(),
{
    if calls.len() == 0 {
        Seq::empty()
    } else {
        let c = calls.last();
        let before = created_ids(rows, calls.drop_last());
        match create_result(run_creates(rows, calls.drop_last()), c.0, c.1) {
            Ok(id) => before.push(id),
            Err(_) => before,
        }
    }
}

/// However many creations arrive, and in whatever order the store applies
/// them, the ids of those that succeed are pairwise distinct and new, each
/// names a stored post, the posts already stored stay as they were, and the
/// store holds exactly one more post per success.
pub proof fn law_created_ids_distinct(rows: Seq<Post>, calls: Seq<(PostId, NewPost, Timestamp)>)
    requires
        rows_wf(rows),
    ensures
        rows_wf(run_creates(rows, calls)),
        created_ids(rows, calls).no_duplicates(),
        forall|k: int|
            0 <= k < created_ids(rows, calls).len() ==> !has_id(
                rows,
                #[trigger] created_ids(rows, calls)[k],
            ) && has_id(run_creates(rows, calls), created_ids(rows, calls)[k]),
        run_creates(rows, calls).len() == rows.len() + created_ids(rows, calls).len(),
        run_creates(rows, calls).subrange(0, rows.len() as int) == rows,
        forall|x: PostId|
            #[trigger] has_id(run_creates(rows, calls), x) ==> has_id(rows, x) || created_ids(
                rows,
                calls,
            ).contains(x),
    decreases calls.len(),
{
    if calls.len() > 0 {
        let prev_calls = calls.drop_last();
        law_created_ids_distinct(rows, prev_calls);
        let c = calls.last();
        let prev = run_creates(rows, prev_calls);
        let ids = created_ids(rows, prev_calls);
        lemma_create_wf(prev, c.0, c.1, c.2);
        let after = run_creates(rows, calls);
        assert(after == after_create(prev, c.0, c.1, c.2));
        assert(after.subrange(0, prev.len() as int) =~= prev);
        assert(after.subrange(0, rows.len() as int) =~= prev.subrange(0, rows.len() as int));
        assert forall|k: int| 0 <= k < ids.len() implies has_id(after, #[trigger] ids[k]) by {
            assert(has_id(prev, ids[k]));
            let w = choose|w: int| 0 <= w < prev.len() && prev[w].id == ids[k];
            assert(after[w] == prev[w]);
        }
        assert forall|x: PostId| #[trigger] has_id(after, x) implies has_id(rows, x)
            || created_ids(rows, calls).contains(x) by {
            let w = choose|w: int| 0 <= w < after.len() && after[w].id == x;
            if w < prev.len() {
                assert(prev[w] == after[w]);
                assert(has_id(prev, x));
                if !has_id(rows, x) {
                    assert(ids.contains(x));
                    let m = choose|m: int| 0 <= m < ids.len() && ids[m] == x;
                    if create_result(prev, c.0, c.1) is Ok {
                        assert(created_ids(rows, calls)[m] == x);
                    }
                }
            } else {
                assert(created_ids(rows, calls).last() == x);
            }
        }
        if create_result(prev, c.0, c.1) is Ok {
            let all = ids.push(c.0);
            assert(all == created_ids(rows, calls));
            assert(!has_id(prev, c.0));
            assert forall|k: int| 0 <= k < ids.len() implies #[trigger] ids[k] != c.0 by {
                assert(has_id(prev, ids[k]));
            }
            assert forall|a: int, b: int| 0 <= a < all.len() && 0 <= b < all.len() && a != b implies all[a] != all[b] by {
                if a < ids.len() && b < ids.len() {
                    assert(ids[a] != ids[b]);
                } else if a < ids.len() {
                    assert(ids[a] != c.0);
                } else {
                    assert(ids[b] != c.0);
                }
            }
            assert(after[prev.len() as int].id == c.0);
            assert(has_id(after, c.0));
            assert forall|k: int| 0 <= k < all.len() implies !has_id(rows, #[trigger] all[k])
                && has_id(after, all[k]) by {
                if k == ids.len() {
                    if has_id(rows, c.0) {
                        let w = choose|w: int| 0 <= w < rows.len() && rows[w].id == c.0;
                        assert(prev.subrange(0, rows.len() as int)[w] == rows[w]);
                        assert(prev[w].id == c.0);
                    }
                } else {
                    assert(has_id(after, ids[k]));
                }
            }
        } else {
            assert(created_ids(rows, calls) == ids);
        }
    }
}

/// Creations whose fields may be stored and whose ids are pairwise distinct
/// and new to the store all succeed: the store then holds exactly one more
/// post per creation, and each returns its own id.
pub proof fn law_fresh_creates_all_succeed(
    rows: Seq<Post>,
    calls: Seq<(PostId, NewPost, Timestamp)>,
)
    requires
        rows_wf(rows),
        forall|k: int| 0 <= k < calls.len() ==> valid_new_post(#[trigger] calls[k].1),
        forall|k: int| 0 <= k < calls.len() ==> !has_id(rows, #[trigger] calls[k].0),
        forall|a: int, b: int|
            0 <= a < b < calls.len() ==> #[trigger] calls[a].0 != #[trigger] calls[b].0,
    ensures
        created_ids(rows, calls) == calls.map_values(|c: (PostId, NewPost, Timestamp)| c.0),
        run_creates(rows, calls).len() == rows.len() + calls.len(),
    decreases calls.len(),
{
    if calls.len() > 0 {
        let prev_calls = calls.drop_last();
        let c = calls.last();
        assert forall|k: int| 0 <= k < prev_calls.len() implies valid_new_post(
            #[trigger] prev_calls[k].1,
        ) by {
            assert(prev_calls[k] == calls[k]);
        }
        assert forall|k: int| 0 <= k < prev_calls.len() implies !has_id(
            rows,
            #[trigger] prev_calls[k].0,
        ) by {
            assert(prev_calls[k] == calls[k]);
        }
        assert forall|a: int, b: int| 0 <= a < b < prev_calls.len() implies #[trigger] prev_calls[a].0
            != #[trigger] prev_calls[b].0 by {
            assert(prev_calls[a] == calls[a]);
            assert(prev_calls[b] == calls[b]);
        }
        law_fresh_creates_all_succeed(rows, prev_calls);
        law_created_ids_distinct(rows, prev_calls);
        let prev = run_creates(rows, prev_calls);
        let ids = created_ids(rows, prev_calls);
        assert(valid_new_post(calls[calls.len() - 1].1));
        assert(!has_id(rows, calls[calls.len() - 1].0));
        if has_id(prev, c.0) {
            assert(ids.contains(c.0));
            let m = choose|m: int| 0 <= m < ids.len() && ids[m] == c.0;
            assert(ids[m] == prev_calls[m].0);
            assert(calls[m].0 != calls[calls.len() - 1].0);
        }
        assert(create_result(prev, c.0, c.1) is Ok);
        assert(created_ids(rows, calls) =~= calls.map_values(
            |c: (PostId, NewPost, Timestamp)| c.0,
        ));
    }
}

} // verus!
