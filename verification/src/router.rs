//! The router: which handler a method and a path select, and what the service
//! answers.
use vstd::prelude::*;
use crate::handlers::{
    answers_create,
    answers_greeting,
    answers_lookup,
    create_post,
    created_response,
    created_view,
    find_post,
    post_view,
    found_response,
    handle,
    handle_with_body,
    FIXED_GREETING,
};
use crate::requests::{lookup_request, new_post_request, parse_lookup, NewPost};
use crate::response::{failure_view, success_view, Failure, Response, ResponseView};
use crate::store::{performs, stores_as, RecordStore, StoreReply, StoreRequest};
use crate::templates::TemplateRegistry;
use crate::text::{starts_with, text_eq};

verus! {

/// What a request is dispatched to.
#[derive(Clone, Copy, Debug, PartialEq, Eq, Structural)]
pub enum Route {
    /// The fixed greeting.
    Greeting,
    /// The greeting by name.
    TemplatedGreeting,
    /// The creation of a post.
    CreatePost,
    /// The lookup of a post.
    FindPost,
    /// Nothing: the request is answered with 404.
    NotFound,
}

/// The dispatch table. Exact matches of method and path come first, then the
/// match by the path's prefix; what matches nothing is not found.
pub open spec fn route_of(method: Seq<char>, path: Seq<char>) -> Route {
    if method == "GET"@ && path == "/"@ {
        Route::Greeting
    } else if method == "POST"@ && path == "/"@ {
        Route::TemplatedGreeting
    } else if method == "POST"@ && path == "/posts"@ {
        Route::CreatePost
    } else if method == "GET"@ && "/posts/"@.is_prefix_of(path) {
        Route::FindPost
    } else {
        Route::NotFound
    }
}

/// Whether `response` and the store `after` it answer the request, served from
/// `templates` and the store `before`.
pub open spec fn answers(
    method: Seq<char>,
    path: Seq<char>,
    body: Seq<u8>,
    templates: Map<Seq<char>, Seq<char>>,
    before: Map<u128, (Seq<char>, Seq<char>)>,
    after: Map<u128, (Seq<char>, Seq<char>)>,
    response: ResponseView,
) -> bool {
    match route_of(method, path) {
        Route::Greeting => response == success_view(FIXED_GREETING@) && after == before,
        Route::TemplatedGreeting => answers_greeting(body, templates, response) && after == before,
        Route::CreatePost => answers_create(body, before, after, response),
        Route::FindPost => answers_lookup(body, templates, before, response) && after == before,
        Route::NotFound => response == failure_view(Failure::NotFound) && after == before,
    }
}

/// Selects the handler for a method and a path.
pub fn resolve(method: &str, path: &str) -> (route: Route)
    ensures
        route == route_of(method@, path@),
{
    let get = text_eq(method, "GET");
    let post = text_eq(method, "POST");
    let root = text_eq(path, "/");
    if get && root {
        Route::Greeting
    } else if post && root {
        Route::TemplatedGreeting
    } else if post && text_eq(path, "/posts") {
        Route::CreatePost
    } else if get && starts_with(path, "/posts/") {
        Route::FindPost
    } else {
        Route::NotFound
    }
}

/// Where a request stands once it has been read: answered, or waiting for the
/// store.
#[derive(Debug)]
pub enum Step {
    /// The request is answered.
    Done(Response),
    /// The store has to be asked before the request can be answered.
    Ask(StoreRequest),
}

/// Whether `step` is where the request stands before the store is touched.
pub open spec fn begins(
    method: Seq<char>,
    path: Seq<char>,
    body: Seq<u8>,
    templates: Map<Seq<char>, Seq<char>>,
    step: Step,
) -> bool {
    match route_of(method, path) {
        Route::Greeting => step matches Step::Done(response) && response@ == success_view(
            FIXED_GREETING@,
        ),
        Route::TemplatedGreeting => step matches Step::Done(response) && answers_greeting(
            body,
            templates,
            response@,
        ),
        Route::CreatePost => match new_post_request(body) {
            Ok(post) => step matches Step::Ask(StoreRequest::Insert(asked)) && asked@ == post,
            Err(failure) => step matches Step::Done(response) && response@ == failure_view(
                failure,
            ),
        },
        Route::FindPost => match lookup_request(body) {
            Ok(id) => step matches Step::Ask(StoreRequest::Find(asked)) && asked == id,
            Err(failure) => step matches Step::Done(response) && response@ == failure_view(
                failure,
            ),
        },
        Route::NotFound => step matches Step::Done(response) && response@ == failure_view(
            Failure::NotFound,
        ),
    }
}

/// Whether `response` answers what the store replied, served from `templates`.
pub open spec fn finishes(
    reply: StoreReply,
    templates: Map<Seq<char>, Seq<char>>,
    response: ResponseView,
) -> bool {
    match reply {
        StoreReply::Inserted(outcome) => response == created_view(outcome),
        StoreReply::Found(Ok(Some(post))) => response == post_view(templates, post@),
        StoreReply::Found(Ok(None)) => response == failure_view(Failure::NotFound),
        StoreReply::Found(Err(failure)) => response == failure_view(failure),
    }
}

/// Reads a request and takes it as far as it goes without the store: the two
/// greetings, rejections and unknown routes are answered at once; for a post to
/// create or to look up, the step says what to ask of the store. With
/// `RecordStore::perform` and `finish` this serves a request while the store
/// is held for its own work alone.
pub fn begin(method: &str, path: &str, body: &[u8], templates: &TemplateRegistry) -> (step: Step)
    ensures
        begins(method@, path@, body@, templates@, step),
{
    match resolve(method, path) {
        Route::Greeting => Step::Done(handle()),
        Route::TemplatedGreeting => Step::Done(handle_with_body(body, templates)),
        Route::CreatePost => match NewPost::from_body(body) {
            Ok(post) => Step::Ask(StoreRequest::Insert(post)),
            Err(failure) => Step::Done(Response::failure(failure)),
        },
        Route::FindPost => match parse_lookup(body) {
            Ok(id) => Step::Ask(StoreRequest::Find(id)),
            Err(failure) => Step::Done(Response::failure(failure)),
        },
        Route::NotFound => Step::Done(Response::failure(Failure::NotFound)),
    }
}

/// Answers a request from what the store replied.
pub fn finish(reply: StoreReply, templates: &TemplateRegistry) -> (r: Response)
    ensures
        finishes(reply, templates@, r@),
{
    match reply {
        StoreReply::Inserted(outcome) => created_response(outcome),
        StoreReply::Found(outcome) => found_response(outcome, templates),
    }
}

/// Answers one request, for whoever holds the store already: dispatches it to
/// its handler. Whatever the method, the path and the body are, the answer is
/// a response.
pub fn route(
    method: &str,
    path: &str,
    body: &[u8],
    templates: &TemplateRegistry,
    store: &mut RecordStore,
) -> (r: Response)
    ensures
        answers(method@, path@, body@, templates@, old(store)@, final(store)@, r@),
{
    match resolve(method, path) {
        Route::Greeting => handle(),
        Route::TemplatedGreeting => handle_with_body(body, templates),
        Route::CreatePost => create_post(body, store),
        Route::FindPost => find_post(body, templates, store),
        Route::NotFound => Response::failure(Failure::NotFound),
    }
}

/// A request that `begin` answers at once is answered as the router does, and
/// the store is not touched.
pub proof fn lemma_done_answers(
    method: Seq<char>,
    path: Seq<char>,
    body: Seq<u8>,
    templates: Map<Seq<char>, Seq<char>>,
    store: Map<u128, (Seq<char>, Seq<char>)>,
    response: Response,
)
    requires
        begins(method, path, body, templates, Step::Done(response)),
    ensures
        answers(method, path, body, templates, store, store, response@),
{
}

/// The stages answer as the router does: where `begin` asks for the store,
/// the store performs what was asked, and `finish` makes the response of the
/// reply, the response is one that `route` may give.
pub proof fn lemma_stages_answer(
    method: Seq<char>,
    path: Seq<char>,
    body: Seq<u8>,
    templates: Map<Seq<char>, Seq<char>>,
    request: StoreRequest,
    before: Map<u128, (Seq<char>, Seq<char>)>,
    after: Map<u128, (Seq<char>, Seq<char>)>,
    reply: StoreReply,
    response: ResponseView,
)
    requires
        begins(method, path, body, templates, Step::Ask(request)),
        performs(request, before, after, reply),
        finishes(reply, templates, response),
    ensures
        answers(method, path, body, templates, before, after, response),
{
    match request {
        StoreRequest::Insert(post) => {
            assert(route_of(method, path) == Route::CreatePost);
            assert(new_post_request(body)->Ok_0 == post@);
            if let StoreReply::Inserted(Ok(id)) = reply {
                assert(stores_as(before, after, post@, id));
            }
        },
        StoreRequest::Find(id) => {
            assert(route_of(method, path) == Route::FindPost);
        },
    }
}

} // verus!
