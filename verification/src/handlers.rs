//! The four handlers, and the steps that the two store handlers are made of.
use vstd::prelude::*;
use crate::ident::{format_id, hyphenated_text};
use crate::requests::{
    greeting_request,
    lookup_request,
    new_post_request,
    parse_greeting,
    parse_lookup,
    NewPost,
};
use crate::response::{failure_view, success_view, Failure, Response, ResponseView};
use crate::store::{stores_as, Post, PostView, RecordStore};
use crate::templates::{
    empty_text_map,
    rendering,
    RenderContext,
    TemplateRegistry,
    GREETING_NAME,
    GREETING_SOURCE,
    POST_NAME,
    POST_SOURCE,
};

verus! {

/// The text of the fixed greeting.
pub const FIXED_GREETING: &'static str = "Hello World";

/// The bindings with which the greeting template is rendered for `name`.
pub open spec fn greeting_bindings(name: Seq<char>) -> Map<Seq<char>, Seq<char>> {
    empty_text_map().insert("name"@, name)
}

/// The bindings with which a post is rendered: its identifier as text, its
/// title and its content.
pub open spec fn post_bindings(post: PostView) -> Map<Seq<char>, Seq<char>> {
    empty_text_map().insert("id"@, hyphenated_text(post.id)).insert("title"@, post.title).insert(
        "content"@,
        post.content,
    )
}

/// The response that answers a rendering: the text with status 200, or the
/// failure to render where there is no text.
pub open spec fn rendered_view(outcome: Option<Seq<char>>) -> ResponseView {
    match outcome {
        Some(text) => success_view(text),
        None => failure_view(Failure::RenderError),
    }
}

/// The response that shows a post, rendered from `templates`.
pub open spec fn post_view(templates: Map<Seq<char>, Seq<char>>, post: PostView) -> ResponseView {
    rendered_view(rendering(templates, POST_NAME@, post_bindings(post)))
}

/// The response that answers an insertion: the new identifier as text with
/// status 200, or the failure.
pub open spec fn created_view(outcome: Result<u128, Failure>) -> ResponseView {
    match outcome {
        Ok(id) => success_view(hyphenated_text(id)),
        Err(failure) => failure_view(failure),
    }
}

/// Whether `response` answers a request for a greeting by name with `body`,
/// served from `templates`: a body without a name is rejected, and a name is
/// answered with the greeting template rendered for it.
pub open spec fn answers_greeting(
    body: Seq<u8>,
    templates: Map<Seq<char>, Seq<char>>,
    response: ResponseView,
) -> bool {
    match greeting_request(body) {
        Err(failure) => response == failure_view(failure),
        Ok(name) => response == rendered_view(
            rendering(templates, GREETING_NAME@, greeting_bindings(name)),
        ),
    }
}

/// Whether `response` and the store `after` it answer a request to create a
/// post with `body`, made of the store `before`.
pub open spec fn answers_create(
    body: Seq<u8>,
    before: Map<u128, (Seq<char>, Seq<char>)>,
    after: Map<u128, (Seq<char>, Seq<char>)>,
    response: ResponseView,
) -> bool {
    match new_post_request(body) {
        Err(failure) => response == failure_view(failure) && after == before,
        Ok(post) => (response == failure_view(Failure::StoreError) && after == before) || exists|
            id: u128,
        | #[trigger] stores_as(before, after, post, id) && response == created_view(Ok(id)),
    }
}

/// Whether `response` answers a request to look a post up with `body`, served
/// from `templates` and `store`: a body without an identifier is rejected, an
/// identifier that the store does not hold is not found, and one that it holds
/// is answered with the post rendered, unless the store fails.
pub open spec fn answers_lookup(
    body: Seq<u8>,
    templates: Map<Seq<char>, Seq<char>>,
    store: Map<u128, (Seq<char>, Seq<char>)>,
    response: ResponseView,
) -> bool {
    match lookup_request(body) {
        Err(failure) => response == failure_view(failure),
        Ok(id) => response == failure_view(Failure::StoreError) || if store.contains_key(id) {
            response == post_view(
                templates,
                PostView { id, title: store[id].0, content: store[id].1 },
            )
        } else {
            response == failure_view(Failure::NotFound)
        },
    }
}

/// The greeting for `name`, as the standard greeting template renders it.
pub open spec fn greeting_text(name: Seq<char>) -> Seq<char> {
    "Hello, "@ + name + "!"@
}

/// A post as the standard post template renders it: three lines with its
/// identifier, its title and its content.
pub open spec fn post_text(post: PostView) -> Seq<char> {
    "id: "@ + hyphenated_text(post.id) + "\ntitle: "@ + post.title + "\ncontent: "@ + post.content
}

/// With the standard greeting template in place, the greeting for a name is
/// rendered, and is `greeting_text`.
pub proof fn lemma_standard_greeting_renders(templates: Map<Seq<char>, Seq<char>>, name: Seq<char>)
    requires
        templates.contains_key(GREETING_NAME@),
        templates[GREETING_NAME@] == GREETING_SOURCE@,
    ensures
        rendering(templates, GREETING_NAME@, greeting_bindings(name)) == Some(greeting_text(name)),
{
    reveal_strlit("hello");
    reveal_strlit(".html");
    reveal_strlit(".htm");
    reveal_strlit(".xml");
    assert("hello"@.skip(0)[0] == 'h');
    assert("hello"@.skip(1)[0] == 'e');
}

/// With the standard post template in place, a post is rendered, and is
/// `post_text`.
pub proof fn lemma_standard_post_renders(templates: Map<Seq<char>, Seq<char>>, post: PostView)
    requires
        templates.contains_key(POST_NAME@),
        templates[POST_NAME@] == POST_SOURCE@,
    ensures
        rendering(templates, POST_NAME@, post_bindings(post)) == Some(post_text(post)),
{
    reveal_strlit("post");
    reveal_strlit(".html");
    reveal_strlit(".htm");
    reveal_strlit(".xml");
    reveal_strlit("id");
    reveal_strlit("title");
    reveal_strlit("content");
    reveal_strlit("Hello, {{name}}!");
    reveal_strlit("id: {{id}}\ntitle: {{title}}\ncontent: {{content}}");
    assert("post"@.skip(0)[0] == 'p');
    assert("id"@.len() == 2 && "title"@.len() == 5 && "content"@.len() == 7);
    assert(GREETING_SOURCE@.len() != POST_SOURCE@.len());
}

/// The fixed greeting. The request body plays no part.
pub fn handle() -> (r: Response)
    ensures
        r@ == success_view(FIXED_GREETING@),
{
    Response::success(FIXED_GREETING.to_owned())
}

/// The context with which the greeting template is rendered for `name`.
pub fn greeting_context(name: &str) -> (context: RenderContext)
    ensures
        context@ == greeting_bindings(name@),
{
    let mut context = RenderContext::new();
    context.insert("name", name);
    context
}

/// The response that answers a rendering.
pub fn rendered_response(outcome: Result<String, Failure>) -> (r: Response)
    ensures
        match outcome {
            Ok(text) => r@ == success_view(text@),
            Err(failure) => r@ == failure_view(failure),
        },
{
    match outcome {
        Ok(text) => Response::success(text),
        Err(failure) => Response::failure(failure),
    }
}

/// The greeting by name: reads `name=<value>` in the body and renders the
/// greeting template with `name` bound to the value.
pub fn handle_with_body(body: &[u8], templates: &TemplateRegistry) -> (r: Response)
    ensures
        answers_greeting(body@, templates@, r@),
{
    match parse_greeting(body) {
        Ok(name) => {
            let context = greeting_context(name.as_str());
            rendered_response(templates.render(GREETING_NAME, &context))
        },
        Err(failure) => Response::failure(failure),
    }
}

impl Post {
    /// The context with which the post is rendered.
    pub fn context(&self) -> (context: RenderContext)
        ensures
            context@ == post_bindings(self@),
    {
        let id = format_id(self.id);
        let mut context = RenderContext::new();
        context.insert("id", id.as_str());
        context.insert("title", self.title.as_str());
        context.insert("content", self.content.as_str());
        context
    }

    /// Renders the post with the template that shows one post.
    pub fn render(&self, templates: &TemplateRegistry) -> (r: Result<String, Failure>)
        ensures
            match r {
                Ok(text) => rendering(templates@, POST_NAME@, post_bindings(self@)) == Some(text@),
                Err(failure) => failure == Failure::RenderError && rendering(
                    templates@,
                    POST_NAME@,
                    post_bindings(self@),
                ) is None,
            },
    {
        let context = self.context();
        templates.render(POST_NAME, &context)
    }
}

/// The response that answers an insertion.
pub fn created_response(outcome: Result<u128, Failure>) -> (r: Response)
    ensures
        r@ == created_view(outcome),
{
    match outcome {
        Ok(id) => Response::success(format_id(id)),
        Err(failure) => Response::failure(failure),
    }
}

/// Creates a post: reads the form fields `title` and `content` in the body,
/// stores them, and answers with the new identifier as text.
pub fn create_post(body: &[u8], store: &mut RecordStore) -> (r: Response)
    ensures
        answers_create(body@, old(store)@, final(store)@, r@),
{
    match NewPost::from_body(body) {
        Ok(post) => {
            let outcome = store.insert(post.title.as_str(), post.content.as_str());
            let response = created_response(outcome);
            proof {
                if let Ok(id) = outcome {
                    assert(new_post_request(body@)->Ok_0 == post@);
                    assert(stores_as(old(store)@, store@, post@, id));
                }
            }
            response
        },
        Err(failure) => Response::failure(failure),
    }
}

/// The response that answers a lookup: the post rendered, 404 where the store
/// holds no such post, or the failure.
pub fn found_response(outcome: Result<Option<Post>, Failure>, templates: &TemplateRegistry) -> (r:
    Response)
    ensures
        match outcome {
            Ok(Some(post)) => r@ == post_view(templates@, post@),
            Ok(None) => r@ == failure_view(Failure::NotFound),
            Err(failure) => r@ == failure_view(failure),
        },
{
    match outcome {
        Ok(Some(post)) => rendered_response(post.render(templates)),
        Ok(None) => Response::failure(Failure::NotFound),
        Err(failure) => Response::failure(failure),
    }
}

/// Finds a post: reads `post_id=<identifier>` in the body, looks the post up,
/// and answers with the post rendered.
pub fn find_post(body: &[u8], templates: &TemplateRegistry, store: &RecordStore) -> (r: Response)
    ensures
        answers_lookup(body@, templates@, store@, r@),
{
    match parse_lookup(body) {
        Ok(id) => found_response(store.find_by_id(id), templates),
        Err(failure) => Response::failure(failure),
    }
}

} // verus!
