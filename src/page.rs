use vstd::prelude::*;
use crate::html::{escaped, html_escape};
use crate::ids::uuid_text;
use crate::post::Post;

verus! {

/// Opens a list item and its edit form, up to the id field's value.
pub const ITEM_OPEN: &'static str = "<li class=\"row\">\n              <form method=\"post\" action=\"/edit\" style=\"display:inline; margin-right:8px;\">\n                <input type=\"hidden\" name=\"id\" value=\"";

/// Between the id and the title field's value.
pub const ITEM_AFTER_ID: &'static str = "\" />\n                <input type=\"text\" name=\"title\" value=\"";

/// Between the title and the content field's value.
pub const ITEM_AFTER_TITLE: &'static str = "\" style=\"padding:6px 8px; border:1px solid #ccc; border-radius:6px;\" />\n                <input type=\"text\" name=\"content\" value=\"";

/// Closes the edit form and opens the delete form, up to its id value.
pub const ITEM_AFTER_CONTENT: &'static str = "\" style=\"padding:6px 8px; border:1px solid #ccc; border-radius:6px; margin-left:6px;\" />\n                <button type=\"submit\" style=\"padding:6px 10px; margin-left:6px;\">Salva</button>\n              </form>\n              <form method=\"post\" action=\"/delete\" style=\"display:inline; margin-left:8px;\">\n                <input type=\"hidden\" name=\"id\" value=\"";

/// Closes the delete form and the list item.
pub const ITEM_CLOSE: &'static str = "\" />\n                <button type=\"submit\" onclick=\"return confirm('Sicuro di voler eliminare?')\" style=\"font-size:12px; color:#c33; background:transparent; border:none; cursor:pointer;\">🗑️</button>\n              </form>\n            </li>";

/// The page up to the list of posts.
pub const PAGE_HEAD: &'static str = "<!DOCTYPE html>\n<html lang=\"it\">\n<head>\n  <meta charset=\"UTF-8\" />\n  <meta name=\"viewport\" content=\"width=device-width, initial-scale=1.0\" />\n  <title>Homepage</title>\n  <style>\n    body { font-family: system-ui, -apple-system, Segoe UI, Roboto, sans-serif; margin: 24px; }\n    .container { max-width: 900px; margin: 0 auto; }\n    form.top { display: grid; gap: 12px; margin: 16px 0 24px; grid-template-columns: 1fr 2fr auto; }\n    input[type=text] { padding: 10px 12px; border: 1px solid #ccc; border-radius: 8px; }\n    button { padding: 10px 14px; border-radius: 8px; border: none; background: #21808d; color: #fff; cursor: pointer; }\n    button:hover { background: #1d7480; }\n    ul { padding-left: 18px; list-style: none; }\n    .row { margin-bottom: 8px; }\n    .row input[type=text] { font-size: 14px; }\n  </style>\n</head>\n<body>\n  <div class=\"container\">\n    <h1>Homepage</h1>\n\n    <form class=\"top\" method=\"post\" action=\"/create\">\n      <input type=\"text\" name=\"title\" placeholder=\"Titolo\" required />\n      <input type=\"text\" name=\"content\" placeholder=\"Contenuto\" required />\n      <button type=\"submit\">Crea Post</button>\n    </form>\n\n    <h2>Post</h2>\n    <ul>\n      ";

/// The page after the list of posts.
pub const PAGE_TAIL: &'static str = "\n    </ul>\n  </div>\n</body>\n</html>";

/// One post's list item: forms to edit and to delete it, its id, title and
/// content escaped.
pub open spec fn post_item(p: Post) -> Seq<char> {
    ITEM_OPEN@ + escaped(uuid_text(p.id.value)) + ITEM_AFTER_ID@ + escaped(p.title@)
        + ITEM_AFTER_TITLE@ + escaped(p.content@) + ITEM_AFTER_CONTENT@ + escaped(
        uuid_text(p.id.value),
    ) + ITEM_CLOSE@
}

/// The list items of `posts`, in order.
pub open spec fn post_items(posts: Seq<Post>) -> Seq<char>
    decreases posts.len(),
{
    if posts.len() == 0 {
        Seq::empty()
    } else {
        post_items(posts.drop_last()) + post_item(posts.last())
    }
}

/// The home page: a form to create a post, then one item per post.
pub open spec fn index_page(posts: Seq<Post>) -> Seq<char> {
    PAGE_HEAD@ + post_items(posts) + PAGE_TAIL@
}

/// Writes the home page for `posts` (see `index_page`).
pub fn render_index(posts: &Vec<Post>) -> (r: String)
    ensures
        r@ == index_page(posts@),
{
    let mut items = String::new();
    let mut i: usize = 0;
    while i < posts.len()
        invariant
            0 <= i <= posts@.len(),
            items@ == post_items(posts@.subrange(0, i as int)),
        decreases posts@.len() - i,
    {
        let p = &posts[i];
        let id = p.id.to_text();
        let id_text = html_escape(id.as_str());
        items.append(ITEM_OPEN);
        items.append(id_text.as_str());
        items.append(ITEM_AFTER_ID);
        items.append(html_escape(p.title.as_str()).as_str());
        items.append(ITEM_AFTER_TITLE);
        items.append(html_escape(p.content.as_str()).as_str());
        items.append(ITEM_AFTER_CONTENT);
        items.append(id_text.as_str());
        items.append(ITEM_CLOSE);
        proof {
            let next = posts@.subrange(0, i + 1);
            assert(next.drop_last() =~= posts@.subrange(0, i as int));
            assert(next.last() == posts@[i as int]);
            assert(items@ =~= post_items(next));
        }
        i = i + 1;
    }
    assert(posts@.subrange(0, posts@.len() as int) =~= posts@);
    let mut page = String::new();
    page.append(PAGE_HEAD);
    page.append(items.as_str());
    page.append(PAGE_TAIL);
    page
}

} // verus!
