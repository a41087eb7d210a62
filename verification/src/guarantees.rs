//! What holds of every request that the service answers, and of requests that
//! follow one another.
use vstd::prelude::*;
use vstd::utf8::is_ascii_chars;
use crate::handlers::{
    created_view,
    greeting_bindings,
    post_bindings,
    lemma_standard_greeting_renders,
    lemma_standard_post_renders,
    post_text,
    FIXED_GREETING,
};
use crate::ident::{
    hyphenated_text,
    id_of_text,
    is_hyphenated,
    is_identifier_length,
    lemma_other_length_is_no_identifier,
    is_random_v4,
    lemma_hyphenated_text_injective,
    lemma_text_reads_back,
};
use crate::requests::{greeting_request, lookup_request, new_post_request, NewPostView};
use crate::response::{failure_view, Failure, ResponseView};
use crate::router::{answers, route_of, Route};
use crate::store::{stores_as, PostView};
use crate::templates::{GREETING_NAME, GREETING_SOURCE, POST_NAME, POST_SOURCE};
use crate::text::text_of;

verus! {

/// Every request is answered with one of the statuses 200, 400, 404 and 500;
/// an answer that is no success has an empty body; and the store is as it
/// was, unless the request created a post.
pub proof fn lemma_answer_has_a_known_status(
    method: Seq<char>,
    path: Seq<char>,
    body: Seq<u8>,
    templates: Map<Seq<char>, Seq<char>>,
    before: Map<u128, (Seq<char>, Seq<char>)>,
    after: Map<u128, (Seq<char>, Seq<char>)>,
    response: ResponseView,
)
    requires
        answers(method, path, body, templates, before, after, response),
    ensures
        response.status == 200 || response.status == 400 || response.status == 404
            || response.status == 500,
        response.status != 200 ==> response.body.len() == 0,
        after == before || (route_of(method, path) == Route::CreatePost && response.status == 200),
{
}

/// A `GET` of `/` is answered with status 200 and the fixed greeting, whatever
/// the body holds, and leaves the store as it was.
pub proof fn lemma_root_get_is_the_fixed_greeting(
    method: Seq<char>,
    path: Seq<char>,
    body: Seq<u8>,
    templates: Map<Seq<char>, Seq<char>>,
    before: Map<u128, (Seq<char>, Seq<char>)>,
    after: Map<u128, (Seq<char>, Seq<char>)>,
    response: ResponseView,
)
    requires
        method == "GET"@,
        path == "/"@,
        answers(method, path, body, templates, before, after, response),
    ensures
        response.status == 200,
        response.body == "Hello World"@,
        after == before,
{
}

/// A request whose method and path are in no line of the dispatch table is
/// answered with status 404 and an empty body.
pub proof fn lemma_unrouted_request_is_not_found(
    method: Seq<char>,
    path: Seq<char>,
    body: Seq<u8>,
    templates: Map<Seq<char>, Seq<char>>,
    before: Map<u128, (Seq<char>, Seq<char>)>,
    after: Map<u128, (Seq<char>, Seq<char>)>,
    response: ResponseView,
)
    requires
        !(method == "GET"@ && path == "/"@),
        !(method == "POST"@ && path == "/"@),
        !(method == "POST"@ && path == "/posts"@),
        !(method == "GET"@ && "/posts/"@.is_prefix_of(path)),
        answers(method, path, body, templates, before, after, response),
    ensures
        route_of(method, path) == Route::NotFound,
        response.status == 404,
        response.body.len() == 0,
        after == before,
{
}

/// A `POST` to `/` whose body does not begin with `name=`, or is no text at
/// all, is answered with status 400: not with 500, and the store is as it was.
pub proof fn lemma_greeting_without_name_is_rejected(
    body: Seq<u8>,
    templates: Map<Seq<char>, Seq<char>>,
    before: Map<u128, (Seq<char>, Seq<char>)>,
    after: Map<u128, (Seq<char>, Seq<char>)>,
    response: ResponseView,
)
    requires
        match text_of(body) {
            Some(text) => !"name="@.is_prefix_of(text),
            None => true,
        },
        answers("POST"@, "/"@, body, templates, before, after, response),
    ensures
        response.status == 400,
        response.body.len() == 0,
        after == before,
{
    lemma_literals_differ();
}

/// A `POST` to `/` whose body is `name=` and a value is answered with status
/// 200 and the greeting for that value, where the standard greeting template
/// is in place: `name=World` gives `Hello, World!`.
pub proof fn lemma_named_greeting_is_rendered(
    body: Seq<u8>,
    name: Seq<char>,
    templates: Map<Seq<char>, Seq<char>>,
    before: Map<u128, (Seq<char>, Seq<char>)>,
    after: Map<u128, (Seq<char>, Seq<char>)>,
    response: ResponseView,
)
    requires
        text_of(body) == Some("name="@ + name),
        templates.contains_key(GREETING_NAME@),
        templates[GREETING_NAME@] == GREETING_SOURCE@,
        answers("POST"@, "/"@, body, templates, before, after, response),
    ensures
        greeting_request(body) == Ok::<Seq<char>, Failure>(name),
        response.status == 200,
        response.body == "Hello, "@ + name + "!"@,
        after == before,
{
    lemma_literals_differ();
    let text = "name="@ + name;
    assert("name="@ =~= text.subrange(0, "name="@.len() as int));
    assert(text.skip("name="@.len() as int) =~= name);
    lemma_standard_greeting_renders(templates, name);
}

/// A `POST` to `/` with a name is answered with status 500 and an empty body
/// where the registry holds no greeting template, or holds under its name a
/// source other than the standard greeting.
pub proof fn lemma_greeting_without_template_fails(
    body: Seq<u8>,
    name: Seq<char>,
    templates: Map<Seq<char>, Seq<char>>,
    before: Map<u128, (Seq<char>, Seq<char>)>,
    after: Map<u128, (Seq<char>, Seq<char>)>,
    response: ResponseView,
)
    requires
        greeting_request(body) == Ok::<Seq<char>, Failure>(name),
        !(templates.contains_key(GREETING_NAME@) && templates[GREETING_NAME@] == GREETING_SOURCE@),
        answers("POST"@, "/"@, body, templates, before, after, response),
    ensures
        response.status == 500,
        response.body.len() == 0,
        after == before,
{
    lemma_literals_differ();
    lemma_bindings_have_their_keys(name, PostView { id: 0, title: name, content: name });
}

/// A lookup of a post that the store holds is answered with status 500 and an
/// empty body where the registry holds no post template, or holds under its
/// name a source other than the standard one, such as one that needs a key
/// which a post does not have. The failure is reported; nothing crashes.
pub proof fn lemma_lookup_without_template_fails(
    path: Seq<char>,
    body: Seq<u8>,
    id: u128,
    templates: Map<Seq<char>, Seq<char>>,
    before: Map<u128, (Seq<char>, Seq<char>)>,
    after: Map<u128, (Seq<char>, Seq<char>)>,
    response: ResponseView,
)
    requires
        "/posts/"@.is_prefix_of(path),
        lookup_request(body) == Ok::<u128, Failure>(id),
        before.contains_key(id),
        !(templates.contains_key(POST_NAME@) && templates[POST_NAME@] == POST_SOURCE@),
        answers("GET"@, path, body, templates, before, after, response),
    ensures
        response.status == 500,
        response.body.len() == 0,
        after == before,
{
    lemma_literals_differ();
    let post = PostView { id, title: before[id].0, content: before[id].1 };
    lemma_bindings_have_their_keys(post.title, post);
}

/// The bindings of a greeting hold `name` and none of the keys of a post; the
/// bindings of a post hold its three keys and not `name`.
proof fn lemma_bindings_have_their_keys(name: Seq<char>, post: PostView)
    ensures
        greeting_bindings(name).contains_key("name"@),
        !greeting_bindings(name).contains_key("id"@),
        !post_bindings(post).contains_key("name"@),
        post_bindings(post).contains_key("id"@),
        post_bindings(post).contains_key("title"@),
        post_bindings(post).contains_key("content"@),
{
    reveal_strlit("name");
    reveal_strlit("id");
    reveal_strlit("title");
    reveal_strlit("content");
    assert("name"@.len() == 4 && "id"@.len() == 2 && "title"@.len() == 5 && "content"@.len() == 7);
}

/// A lookup whose body is `post_id=` and a well-formed identifier that the
/// store does not hold is answered with status 404 and an empty body, or with
/// status 500 where the store fails.
pub proof fn lemma_unused_identifier_is_not_found(
    path: Seq<char>,
    body: Seq<u8>,
    id: u128,
    templates: Map<Seq<char>, Seq<char>>,
    before: Map<u128, (Seq<char>, Seq<char>)>,
    after: Map<u128, (Seq<char>, Seq<char>)>,
    response: ResponseView,
)
    requires
        "/posts/"@.is_prefix_of(path),
        lookup_request(body) == Ok::<u128, Failure>(id),
        !before.contains_key(id),
        answers("GET"@, path, body, templates, before, after, response),
    ensures
        response.status == 404 || response.status == 500,
        response.body.len() == 0,
        after == before,
{
    lemma_literals_differ();
}

/// A lookup whose body is `post_id=` and a text that is no identifier is
/// answered with status 400, not with 500.
pub proof fn lemma_malformed_identifier_is_rejected(
    path: Seq<char>,
    body: Seq<u8>,
    rest: Seq<char>,
    templates: Map<Seq<char>, Seq<char>>,
    before: Map<u128, (Seq<char>, Seq<char>)>,
    after: Map<u128, (Seq<char>, Seq<char>)>,
    response: ResponseView,
)
    requires
        "/posts/"@.is_prefix_of(path),
        text_of(body) == Some("post_id="@ + rest),
        id_of_text(rest) is None,
        answers("GET"@, path, body, templates, before, after, response),
    ensures
        response.status == 400,
        response.body.len() == 0,
        after == before,
{
    lemma_literals_differ();
    let text = "post_id="@ + rest;
    assert("post_id="@ =~= text.subrange(0, "post_id="@.len() as int));
    assert(text.skip("post_id="@.len() as int) =~= rest);
}

/// Whether `part` stands somewhere in `text`.
pub open spec fn occurs_in(part: Seq<char>, text: Seq<char>) -> bool {
    exists|at: int|
        0 <= at && at + part.len() <= text.len() && #[trigger] text.subrange(
            at,
            at + part.len(),
        ) == part
}

/// The text of a post holds its title and its content.
pub proof fn lemma_post_text_holds_title_and_content(post: PostView)
    ensures
        occurs_in(post.title, post_text(post)),
        occurs_in(post.content, post_text(post)),
{
    let text = post_text(post);
    let head = "id: "@ + hyphenated_text(post.id) + "\ntitle: "@;
    let middle = "\ncontent: "@;
    assert(text =~= head + post.title + middle + post.content);
    let first = head.len() as int;
    assert(text.subrange(first, first + post.title.len()) =~= post.title);
    let second = text.len() - post.content.len();
    assert(text.subrange(second, second + post.content.len()) =~= post.content);
}

/// A lookup whose body is `post_id=` and plain characters of which there are
/// not 32, 36, 38 or 45 is answered with status 400: `post_id=xyz` is.
pub proof fn lemma_identifier_of_other_length_is_rejected(
    path: Seq<char>,
    body: Seq<u8>,
    rest: Seq<char>,
    templates: Map<Seq<char>, Seq<char>>,
    before: Map<u128, (Seq<char>, Seq<char>)>,
    after: Map<u128, (Seq<char>, Seq<char>)>,
    response: ResponseView,
)
    requires
        "/posts/"@.is_prefix_of(path),
        text_of(body) == Some("post_id="@ + rest),
        is_ascii_chars(rest),
        !is_identifier_length(rest.len()),
        answers("GET"@, path, body, templates, before, after, response),
    ensures
        response.status == 400,
        response.body.len() == 0,
        after == before,
{
    lemma_other_length_is_no_identifier(rest);
    lemma_malformed_identifier_is_rejected(path, body, rest, templates, before, after, response);
}

/// A post that was created is found again. Where a request to create a post
/// with a well-formed body is answered with status 200, the body of the answer
/// is the text of an identifier, and the store holds the title and the content
/// as they were sent, under that identifier. A lookup that follows, with
/// `post_id=` and that text as its body, served from the standard post
/// template, is answered with status 200 and the post's three lines, which
/// hold the title and the content as they were sent. The one other answer is
/// status 500 with an empty body, where the store fails.
pub proof fn lemma_created_post_is_found(
    created_body: Seq<u8>,
    post: NewPostView,
    lookup_path: Seq<char>,
    lookup_body: Seq<u8>,
    templates: Map<Seq<char>, Seq<char>>,
    before: Map<u128, (Seq<char>, Seq<char>)>,
    between: Map<u128, (Seq<char>, Seq<char>)>,
    after: Map<u128, (Seq<char>, Seq<char>)>,
    created: ResponseView,
    found: ResponseView,
)
    requires
        new_post_request(created_body) == Ok::<NewPostView, Failure>(post),
        answers("POST"@, "/posts"@, created_body, templates, before, between, created),
        created.status == 200,
        "/posts/"@.is_prefix_of(lookup_path),
        text_of(lookup_body) == Some("post_id="@ + created.body),
        templates.contains_key(POST_NAME@),
        templates[POST_NAME@] == POST_SOURCE@,
        answers("GET"@, lookup_path, lookup_body, templates, between, after, found),
    ensures
        is_hyphenated(created.body),
        id_of_text(created.body) matches Some(id) && is_random_v4(id) && !before.contains_key(id)
            && between == before.insert(id, (post.title, post.content)) && lookup_request(
            lookup_body,
        ) == Ok::<u128, Failure>(id),
        found.status == 200 || (found.status == 500 && found.body.len() == 0),
        found.status == 200 ==> found.body == "id: "@ + created.body + "\ntitle: "@ + post.title
            + "\ncontent: "@ + post.content,
        found.status == 200 ==> occurs_in(post.title, found.body) && occurs_in(
            post.content,
            found.body,
        ),
        after == between,
{
    lemma_literals_differ();
    assert(new_post_request(created_body)->Ok_0 == post);
    let id = choose|id: u128| #[trigger]
        stores_as(before, between, post, id) && created == created_view(Ok(id));
    lemma_text_reads_back(id);
    let text = "post_id="@ + created.body;
    assert("post_id="@ =~= text.subrange(0, "post_id="@.len() as int));
    assert(text.skip("post_id="@.len() as int) =~= created.body);
    let stored = PostView { id, title: post.title, content: post.content };
    lemma_standard_post_renders(templates, stored);
    lemma_post_text_holds_title_and_content(stored);
}

/// Whether `ids` and `states` record posts stored one after another: each
/// `posts[i]` takes the store from `states[i]` to `states[i + 1]` under the
/// fresh identifier `ids[i]`.
pub open spec fn stored_in_turn(
    states: Seq<Map<u128, (Seq<char>, Seq<char>)>>,
    posts: Seq<NewPostView>,
    ids: Seq<u128>,
) -> bool {
    &&& states.len() == posts.len() + 1
    &&& ids.len() == posts.len()
    &&& forall|i: int|
        0 <= i < posts.len() ==> #[trigger] stores_as(states[i], states[i + 1], posts[i], ids[i])
}

/// No post is lost or changed by the posts stored after it. In whatever order
/// the store takes a number of posts, their identifiers differ from one
/// another and from those the store held, the store keeps what it held, and it
/// ends up holding each post under its identifier as it was sent.
pub proof fn lemma_stored_posts_are_kept(
    states: Seq<Map<u128, (Seq<char>, Seq<char>)>>,
    posts: Seq<NewPostView>,
    ids: Seq<u128>,
)
    requires
        stored_in_turn(states, posts, ids),
    ensures
        forall|i: int, j: int| 0 <= i < j < ids.len() ==> ids[i] != ids[j],
        forall|i: int| 0 <= i < ids.len() ==> !states[0].contains_key(#[trigger] ids[i]),
        forall|i: int|
            0 <= i < ids.len() ==> states.last().contains_key(#[trigger] ids[i]) && states.last()[ids[i]]
                == (posts[i].title, posts[i].content),
        forall|id: u128| #[trigger]
            states[0].contains_key(id) ==> states.last().contains_key(id) && states.last()[id]
                == states[0][id],
        forall|id: u128| #[trigger]
            states.last().contains_key(id) ==> states[0].contains_key(id) || ids.contains(id),
    decreases posts.len(),
{
    if posts.len() > 0 {
        let n = posts.len() as int;
        let earlier_states = states.drop_last();
        let earlier_posts = posts.drop_last();
        let earlier_ids = ids.drop_last();
        assert(stored_in_turn(earlier_states, earlier_posts, earlier_ids)) by {
            assert forall|i: int| 0 <= i < earlier_posts.len() implies #[trigger] stores_as(
                earlier_states[i],
                earlier_states[i + 1],
                earlier_posts[i],
                earlier_ids[i],
            ) by {
                assert(stores_as(states[i], states[i + 1], posts[i], ids[i]));
            }
        }
        lemma_stored_posts_are_kept(earlier_states, earlier_posts, earlier_ids);
        assert(stores_as(states[n - 1], states[n], posts[n - 1], ids[n - 1]));
        assert(earlier_states.last() == states[n - 1]);
        assert(earlier_states[0] == states[0]);
        assert forall|i: int| 0 <= i < ids.len() implies states.last().contains_key(
            #[trigger] ids[i],
        ) && states.last()[ids[i]] == (posts[i].title, posts[i].content) by {
            if i < n - 1 {
                assert(earlier_ids[i] == ids[i]);
                assert(earlier_posts[i] == posts[i]);
            }
        }
        assert forall|i: int, j: int| 0 <= i < j < ids.len() implies ids[i] != ids[j] by {
            if j < n - 1 {
                assert(earlier_ids[i] == ids[i] && earlier_ids[j] == ids[j]);
            } else {
                assert(earlier_ids[i] == ids[i]);
            }
        }
        assert forall|i: int| 0 <= i < ids.len() implies !states[0].contains_key(
            #[trigger] ids[i],
        ) by {
            if i < n - 1 {
                assert(earlier_ids[i] == ids[i]);
            }
        }
        assert forall|id: u128| #[trigger] states.last().contains_key(id) implies states[0].contains_key(
            id,
        ) || ids.contains(id) by {
            if id == ids[n - 1] {
            } else {
                assert(earlier_states.last().contains_key(id));
                if !states[0].contains_key(id) {
                    let i = choose|i: int| 0 <= i < earlier_ids.len() && earlier_ids[i] == id;
                    assert(ids[i] == id);
                }
            }
        }
    }
}

/// Whether request `i` of `bodies` to create a post was answered with status
/// 200 by `responses[i]` and took the store from `states[i]` to
/// `states[i + 1]`.
pub open spec fn creates_at(
    bodies: Seq<Seq<u8>>,
    templates: Map<Seq<char>, Seq<char>>,
    states: Seq<Map<u128, (Seq<char>, Seq<char>)>>,
    responses: Seq<ResponseView>,
    i: int,
) -> bool {
    &&& answers("POST"@, "/posts"@, bodies[i], templates, states[i], states[i + 1], responses[i])
    &&& responses[i].status == 200
}

/// Requests to create posts, let through to the store one after another in
/// whatever order, and each answered with status 200: every answer carries the
/// text of the identifier under which that request's own title and content
/// were stored, and no two answers carry the same text. The identifiers are
/// returned.
pub proof fn lemma_creates_in_turn(
    bodies: Seq<Seq<u8>>,
    templates: Map<Seq<char>, Seq<char>>,
    states: Seq<Map<u128, (Seq<char>, Seq<char>)>>,
    responses: Seq<ResponseView>,
) -> (ids: Seq<u128>)
    requires
        states.len() == bodies.len() + 1,
        responses.len() == bodies.len(),
        forall|i: int|
            0 <= i < bodies.len() ==> #[trigger] creates_at(bodies, templates, states, responses, i),
    ensures
        ids.len() == bodies.len(),
        forall|i: int| 0 <= i < bodies.len() ==> new_post_request(#[trigger] bodies[i]) is Ok,
        stored_in_turn(
            states,
            Seq::new(bodies.len(), |i: int| new_post_request(bodies[i])->Ok_0),
            ids,
        ),
        forall|i: int|
            0 <= i < bodies.len() ==> (#[trigger] responses[i]).body == hyphenated_text(ids[i]),
        forall|i: int, j: int|
            0 <= i < j < bodies.len() ==> (#[trigger] responses[i]).body != (
            #[trigger] responses[j]).body,
{
    lemma_literals_differ();
    let posts = Seq::new(bodies.len(), |i: int| new_post_request(bodies[i])->Ok_0);
    let ids = Seq::new(
        bodies.len(),
        |i: int|
            choose|id: u128| #[trigger]
                stores_as(states[i], states[i + 1], posts[i], id) && responses[i] == created_view(
                    Ok(id),
                ),
    );
    assert forall|i: int| 0 <= i < bodies.len() implies new_post_request(#[trigger] bodies[i])
        is Ok && stores_as(states[i], states[i + 1], posts[i], ids[i]) && responses[i].body
        == hyphenated_text(ids[i]) by {
        assert(creates_at(bodies, templates, states, responses, i));
    }
    lemma_stored_posts_are_kept(states, posts, ids);
    assert forall|i: int, j: int| 0 <= i < j < bodies.len() implies (#[trigger] responses[i]).body
        != (#[trigger] responses[j]).body by {
        assert(creates_at(bodies, templates, states, responses, i));
        assert(creates_at(bodies, templates, states, responses, j));
        if hyphenated_text(ids[i]) == hyphenated_text(ids[j]) {
            lemma_hyphenated_text_injective(ids[i], ids[j]);
        }
    }
    ids
}

/// After posts were stored one after another, a lookup of any of them, with
/// `post_id=` and the text of its identifier as the body, served from the
/// standard post template, is answered with status 200 and the three lines of
/// that post: its own title and content, not another request's. The one other
/// answer is status 500 with an empty body, where the store fails.
pub proof fn lemma_stored_post_is_found_later(
    states: Seq<Map<u128, (Seq<char>, Seq<char>)>>,
    posts: Seq<NewPostView>,
    ids: Seq<u128>,
    k: int,
    lookup_path: Seq<char>,
    lookup_body: Seq<u8>,
    templates: Map<Seq<char>, Seq<char>>,
    after: Map<u128, (Seq<char>, Seq<char>)>,
    found: ResponseView,
)
    requires
        stored_in_turn(states, posts, ids),
        0 <= k < ids.len(),
        "/posts/"@.is_prefix_of(lookup_path),
        text_of(lookup_body) == Some("post_id="@ + hyphenated_text(ids[k])),
        templates.contains_key(POST_NAME@),
        templates[POST_NAME@] == POST_SOURCE@,
        answers("GET"@, lookup_path, lookup_body, templates, states.last(), after, found),
    ensures
        found.status == 200 || (found.status == 500 && found.body.len() == 0),
        found.status == 200 ==> found.body == post_text(
            PostView { id: ids[k], title: posts[k].title, content: posts[k].content },
        ),
        found.status == 200 ==> occurs_in(posts[k].title, found.body) && occurs_in(
            posts[k].content,
            found.body,
        ),
        after == states.last(),
{
    lemma_literals_differ();
    lemma_stored_posts_are_kept(states, posts, ids);
    lemma_text_reads_back(ids[k]);
    let text = "post_id="@ + hyphenated_text(ids[k]);
    assert("post_id="@ =~= text.subrange(0, "post_id="@.len() as int));
    assert(text.skip("post_id="@.len() as int) =~= hyphenated_text(ids[k]));
    assert(states.last().contains_key(ids[k]));
    let stored = PostView { id: ids[k], title: posts[k].title, content: posts[k].content };
    lemma_standard_post_renders(templates, stored);
    lemma_post_text_holds_title_and_content(stored);
}

/// The methods and paths of the dispatch table are different texts.
proof fn lemma_literals_differ()
    ensures
        "GET"@ != "POST"@,
        "/"@ != "/posts"@,
        !"/posts/"@.is_prefix_of("/"@),
        !"/posts/"@.is_prefix_of("/posts"@),
        "name="@.len() == 5,
        "post_id="@.len() == 8,
        FIXED_GREETING@ == "Hello World"@,
        failure_view(Failure::BadRequest).status == 400,
{
    reveal_strlit("GET");
    reveal_strlit("POST");
    reveal_strlit("/");
    reveal_strlit("/posts");
    reveal_strlit("/posts/");
    reveal_strlit("name=");
    reveal_strlit("post_id=");
    assert("GET"@.len() == 3 && "POST"@.len() == 4);
    assert("/"@.len() == 1 && "/posts"@.len() == 6);
}

} // verus!
