use post_service::handlers::{
    create_post,
    created_response,
    find_post,
    found_response,
    greeting_context,
    handle,
    handle_with_body,
    rendered_response,
};
use post_service::ident::{format_id, parse_id};
use post_service::requests::{find_only, parse_greeting, parse_lookup, NewPost};
use post_service::response::{Failure, Response};
use post_service::store::{Post, RecordStore};
use post_service::templates::{RenderContext, TemplateRegistry};
use post_service::text::{decode_text, starts_with, strip_prefix, text_eq};

fn pair(key: &str, value: &str) -> (String, String) {
    (key.to_string(), value.to_string())
}

#[test]
fn failure_statuses() {
    assert_eq!(Failure::BadRequest.status(), 400);
    assert_eq!(Failure::NotFound.status(), 404);
    assert_eq!(Failure::StoreError.status(), 500);
    assert_eq!(Failure::RenderError.status(), 500);
    assert_eq!(Failure::ParseError.status(), 500);
}

#[test]
fn failure_labels() {
    assert_eq!(Failure::ParseError.label(), "ParseError");
    assert_eq!(Failure::BadRequest.label(), "BadRequest");
    assert_eq!(Failure::NotFound.label(), "NotFound");
    assert_eq!(Failure::StoreError.label(), "StoreError");
    assert_eq!(Failure::RenderError.label(), "RenderError");
}

#[test]
fn failure_responses_have_no_body() {
    let failures = [
        Failure::ParseError,
        Failure::BadRequest,
        Failure::NotFound,
        Failure::StoreError,
        Failure::RenderError,
    ];
    for failure in failures {
        let response = Response::failure(failure);
        assert_eq!(response.status, failure.status());
        assert_eq!(response.body, "");
        assert_ne!(response.status, 200);
    }
}

#[test]
fn success_response_carries_the_body() {
    let response = Response::success("text".to_string());
    assert_eq!(response.status, 200);
    assert_eq!(response.body, "text");
}

#[test]
fn text_is_decoded_from_valid_bytes_only() {
    assert_eq!(decode_text(b"name=World"), Some("name=World"));
    assert_eq!(decode_text(b""), Some(""));
    assert_eq!(decode_text("gr\u{fc}\u{df}e \u{1f600}".as_bytes()), Some("gr\u{fc}\u{df}e \u{1f600}"));
    assert_eq!(decode_text(b"\xff"), None);
    assert_eq!(decode_text(b"ab\xc3"), None);
    assert_eq!(decode_text(b"\xed\xa0\x80"), None);
    assert_eq!(decode_text(b"\xc0\xaf"), None);
}

#[test]
fn texts_are_compared_whole() {
    assert!(text_eq("", ""));
    assert!(text_eq("GET", "GET"));
    assert!(text_eq("\u{e9}t\u{e9}", "\u{e9}t\u{e9}"));
    assert!(!text_eq("GET", "GE"));
    assert!(!text_eq("GET", "GEt"));
    assert!(!text_eq("GET", "POST"));
    assert!(!text_eq("", "a"));
}

#[test]
fn prefixes_are_split_off() {
    assert_eq!(strip_prefix("name=World", "name="), Some("World"));
    assert_eq!(strip_prefix("name=", "name="), Some(""));
    assert_eq!(strip_prefix("name=World", ""), Some("name=World"));
    assert_eq!(strip_prefix("h\u{e9}llo", "h\u{e9}"), Some("llo"));
    assert_eq!(strip_prefix("\u{1f600}\u{e9}x", "\u{1f600}"), Some("\u{e9}x"));
    assert_eq!(strip_prefix("name", "name="), None);
    assert_eq!(strip_prefix("Name=World", "name="), None);
    assert_eq!(strip_prefix("", "name="), None);
    assert_eq!(strip_prefix("he", "h\u{e9}"), None);
}

#[test]
fn prefixes_are_recognised() {
    assert!(starts_with("/posts/1", "/posts/"));
    assert!(starts_with("/posts/", "/posts/"));
    assert!(starts_with("anything", ""));
    assert!(!starts_with("/posts", "/posts/"));
    assert!(!starts_with("/post/1", "/posts/"));
    assert!(!starts_with("", "/"));
}

#[test]
fn identifiers_are_written_in_hyphenated_lower_case() {
    assert_eq!(format_id(0), "00000000-0000-0000-0000-000000000000");
    assert_eq!(format_id(1), "00000000-0000-0000-0000-000000000001");
    assert_eq!(format_id(u128::MAX), "ffffffff-ffff-ffff-ffff-ffffffffffff");
    assert_eq!(
        format_id(0x0123_4567_89ab_cdef_fedc_ba98_7654_3210),
        "01234567-89ab-cdef-fedc-ba9876543210"
    );
    assert_eq!(
        format_id(0x550e_8400_e29b_41d4_a716_4466_5544_0000),
        "550e8400-e29b-41d4-a716-446655440000"
    );
}

#[test]
fn identifiers_are_read_back_from_their_text() {
    let values = [
        0u128,
        1,
        u128::MAX,
        0x0123_4567_89ab_cdef_fedc_ba98_7654_3210,
        0x550e_8400_e29b_41d4_a716_4466_5544_0000,
        1 << 127,
    ];
    for value in values {
        assert_eq!(parse_id(&format_id(value)), Some(value));
    }
}

#[test]
fn identifiers_are_read_in_every_form_the_parser_knows() {
    let value = 0x550e_8400_e29b_41d4_a716_4466_5544_0000u128;
    assert_eq!(parse_id("550e8400-e29b-41d4-a716-446655440000"), Some(value));
    assert_eq!(parse_id("550E8400-E29B-41D4-A716-446655440000"), Some(value));
    assert_eq!(parse_id("550e8400e29b41d4a716446655440000"), Some(value));
    assert_eq!(parse_id("{550e8400-e29b-41d4-a716-446655440000}"), Some(value));
    assert_eq!(parse_id("urn:uuid:550e8400-e29b-41d4-a716-446655440000"), Some(value));
}

#[test]
fn texts_that_are_no_identifier_are_refused() {
    let texts = [
        "",
        "1",
        "not-an-identifier",
        "550e8400-e29b-41d4-a716-44665544000",
        "550e8400-e29b-41d4-a716-4466554400000",
        "550e8400-e29b-41d4-a716-44665544000g",
        "550e8400e-29b-41d4-a716-446655440000",
        "{550e8400e29b41d4a716446655440000}",
        " 550e8400-e29b-41d4-a716-446655440000",
        "550e8400-e29b-41d4-a716-446655440000 ",
    ];
    for text in texts {
        assert_eq!(parse_id(text), None);
    }
}

#[test]
fn only_value_is_the_value_given_once() {
    let fields = vec![pair("title", "a"), pair("other", "x"), pair("content", "b")];
    assert_eq!(find_only(&fields, "title"), Some("a".to_string()));
    assert_eq!(find_only(&fields, "content"), Some("b".to_string()));
    assert_eq!(find_only(&fields, "other"), Some("x".to_string()));
    assert_eq!(find_only(&fields, "missing"), None);
    assert_eq!(find_only(&fields, "Title"), None);
    assert_eq!(find_only(&Vec::new(), "title"), None);
    let twice = vec![pair("title", "a"), pair("content", "b"), pair("title", "c")];
    assert_eq!(find_only(&twice, "title"), None);
    assert_eq!(find_only(&twice, "content"), Some("b".to_string()));
    let thrice = vec![pair("k", "1"), pair("k", "2"), pair("k", "3")];
    assert_eq!(find_only(&thrice, "k"), None);
}

#[test]
fn new_post_is_read_from_fields() {
    let fields = vec![pair("content", "b"), pair("extra", "x"), pair("title", "a")];
    let post = NewPost::from_fields(&fields).expect("both fields are there");
    assert_eq!(post.title, "a");
    assert_eq!(post.content, "b");
    assert!(NewPost::from_fields(&vec![pair("title", "a")]).is_none());
    assert!(NewPost::from_fields(&vec![pair("content", "b")]).is_none());
    assert!(NewPost::from_fields(&Vec::new()).is_none());
    let twice = vec![pair("title", "a"), pair("content", "b"), pair("content", "c")];
    assert!(NewPost::from_fields(&twice).is_none());
}

#[test]
fn new_post_is_read_from_a_body() {
    let post = NewPost::from_body(b"title=Hello+World&content=a%3Db%26c").expect("a post");
    assert_eq!(post.title, "Hello World");
    assert_eq!(post.content, "a=b&c");
    let post = NewPost::from_body(b"content=&title=").expect("a post");
    assert_eq!(post.title, "");
    assert_eq!(post.content, "");
    assert_eq!(NewPost::from_body(b"title=a").err(), Some(Failure::BadRequest));
    assert_eq!(NewPost::from_body(b"").err(), Some(Failure::BadRequest));
    assert_eq!(
        NewPost::from_body(b"title=a&content=b&title=c").err(),
        Some(Failure::BadRequest)
    );
}

#[test]
fn greeting_name_is_what_follows_the_prefix() {
    assert_eq!(parse_greeting(b"name=World"), Ok("World".to_string()));
    assert_eq!(parse_greeting(b"name="), Ok(String::new()));
    assert_eq!(parse_greeting(b"name=name=x"), Ok("name=x".to_string()));
    assert_eq!(parse_greeting(b"name=a+b%20c"), Ok("a+b%20c".to_string()));
    assert_eq!(parse_greeting(b"World"), Err(Failure::BadRequest));
    assert_eq!(parse_greeting(b""), Err(Failure::BadRequest));
    assert_eq!(parse_greeting(b"name=\xff"), Err(Failure::BadRequest));
}

#[test]
fn lookup_identifier_is_what_follows_the_prefix() {
    assert_eq!(
        parse_lookup(b"post_id=550e8400-e29b-41d4-a716-446655440000"),
        Ok(0x550e_8400_e29b_41d4_a716_4466_5544_0000)
    );
    assert_eq!(parse_lookup(b"post_id="), Err(Failure::BadRequest));
    assert_eq!(parse_lookup(b"post_id=1"), Err(Failure::BadRequest));
    assert_eq!(
        parse_lookup(b"550e8400-e29b-41d4-a716-446655440000"),
        Err(Failure::BadRequest)
    );
    assert_eq!(parse_lookup(b"\xff"), Err(Failure::BadRequest));
}

#[test]
fn registry_renders_what_was_registered() {
    let registry = TemplateRegistry::new()
        .register("salute", "Hello, {{name}}!")
        .expect("the source compiles");
    let mut context = RenderContext::new();
    context.insert("name", "you");
    context.insert("other", "unused");
    assert_eq!(registry.render("salute", &context), Ok("Hello, you!".to_string()));
    assert_eq!(registry.render("hello", &context), Err(Failure::RenderError));
}

#[test]
fn context_keeps_the_last_value_of_a_key() {
    let registry = TemplateRegistry::standard().expect("the standard templates compile");
    let mut context = RenderContext::new();
    context.insert("name", "first");
    context.insert("name", "second");
    assert_eq!(registry.render("hello", &context), Ok("Hello, second!".to_string()));
}

#[test]
fn registry_replaces_a_template_of_the_same_name() {
    let registry = TemplateRegistry::new()
        .register("one", "id: {{id}}\ntitle: {{title}}\ncontent: {{content}}")
        .expect("the source compiles")
        .register("one", "Hello, {{name}}!")
        .expect("the source compiles");
    assert_eq!(registry.render("one", &greeting_context("x")), Ok("Hello, x!".to_string()));
}

#[test]
fn values_are_escaped_under_names_of_markup() {
    let registry = TemplateRegistry::new()
        .register("greeting.html", "Hello, {{name}}!")
        .expect("the source compiles")
        .register("greeting.txt", "Hello, {{name}}!")
        .expect("the source compiles");
    let context = greeting_context("<b>&\"'/");
    assert_eq!(
        registry.render("greeting.html", &context),
        Ok("Hello, &lt;b&gt;&amp;&quot;&#x27;&#x2F;!".to_string())
    );
    assert_eq!(registry.render("greeting.txt", &context), Ok("Hello, <b>&\"'/!".to_string()));
}

#[test]
fn other_sources_are_registered_but_not_rendered() {
    let big = format!("{{{{ {}.0 }}}}", "9".repeat(400));
    let registry = TemplateRegistry::standard()
        .expect("the standard templates compile")
        .register("pair", "{{a}}-{{b}}")
        .expect("the source compiles")
        .register("big", &big)
        .expect("the source compiles");
    let mut context = RenderContext::new();
    context.insert("a", "1");
    context.insert("b", "2");
    assert_eq!(registry.render("pair", &context), Err(Failure::RenderError));
    assert_eq!(registry.render("big", &context), Err(Failure::RenderError));
    assert_eq!(registry.render("hello", &greeting_context("x")), Ok("Hello, x!".to_string()));
}

#[test]
fn replacing_a_source_decides_anew_whether_it_is_rendered() {
    let registry = TemplateRegistry::standard()
        .expect("the standard templates compile")
        .register("hello", "Hi, {{name}}!")
        .expect("the source compiles");
    assert_eq!(registry.render("hello", &greeting_context("x")), Err(Failure::RenderError));
    let post = Post { id: 1, title: "t".to_string(), content: "c".to_string() };
    assert!(post.render(&registry).is_ok());
    let registry = registry
        .register("hello", "Hello, {{name}}!")
        .expect("the source compiles");
    assert_eq!(registry.render("hello", &greeting_context("x")), Ok("Hello, x!".to_string()));
    let registry = registry
        .register("hello", "id: {{id}}\ntitle: {{title}}\ncontent: {{content}}")
        .expect("the source compiles");
    assert_eq!(registry.render("hello", &greeting_context("x")), Err(Failure::RenderError));
    assert_eq!(
        registry.render("hello", &post.context()),
        Ok("id: 00000000-0000-0000-0000-000000000001\ntitle: t\ncontent: c".to_string())
    );
}

#[test]
fn post_under_a_template_that_needs_another_key_is_a_render_failure() {
    let registry = TemplateRegistry::standard()
        .expect("the standard templates compile")
        .register("post", "{{id}} {{title}} {{content}} {{author}}")
        .expect("the source compiles");
    let post = Post { id: 1, title: "t".to_string(), content: "c".to_string() };
    assert_eq!(post.render(&registry), Err(Failure::RenderError));
    let response = found_response(Ok(Some(post)), &registry);
    assert_eq!(response.status, 500);
    assert_eq!(response.body, "");
    let greeting = TemplateRegistry::new()
        .register("post", "Hello, {{name}}!")
        .expect("the source compiles");
    let post = Post { id: 1, title: "t".to_string(), content: "c".to_string() };
    assert_eq!(post.render(&greeting), Err(Failure::RenderError));
}

#[test]
fn store_refuses_an_identifier_twice() {
    let mut store = RecordStore::open_in_memory().expect("a store opens in memory");
    assert_eq!(store.insert_with(7, "first", "1"), Ok(7));
    let again = store.insert_with(7, "second", "2");
    assert_eq!(again, Err(Failure::StoreError));
    let response = created_response(again);
    assert_eq!(response.status, 500);
    assert_eq!(response.body, "");
    let post = store.find_by_id(7).expect("the store answers").expect("the post is there");
    assert_eq!(post.title, "first");
    assert_eq!(post.content, "1");
    assert_eq!(store.insert_with(8, "second", "2"), Ok(8));
    let post = store.find_by_id(8).expect("the store answers").expect("the post is there");
    assert_eq!(post.title, "second");
    assert_eq!(store.insert_with(u128::MAX, "", ""), Ok(u128::MAX));
    assert_eq!(store.insert_with(0, "", ""), Ok(0));
    assert_eq!(store.insert_with(0, "", ""), Err(Failure::StoreError));
}

#[test]
fn registry_refuses_a_source_that_does_not_compile() {
    let refused = TemplateRegistry::new().register("broken", "Hello, {{name");
    assert_eq!(refused.err(), Some(Failure::ParseError));
    let refused = TemplateRegistry::new().register("broken", "{% if %}");
    assert_eq!(refused.err(), Some(Failure::ParseError));
}

#[test]
fn rendering_an_unknown_template_fails() {
    let registry = TemplateRegistry::new();
    assert_eq!(registry.render("hello", &RenderContext::new()), Err(Failure::RenderError));
    let registry = TemplateRegistry::standard().expect("the standard templates compile");
    assert_eq!(registry.render("Hello", &RenderContext::new()), Err(Failure::RenderError));
}

#[test]
fn rendering_without_a_needed_key_fails() {
    let registry = TemplateRegistry::standard().expect("the standard templates compile");
    assert_eq!(registry.render("hello", &RenderContext::new()), Err(Failure::RenderError));
    let mut context = RenderContext::new();
    context.insert("id", "1");
    context.insert("title", "t");
    assert_eq!(registry.render("post", &context), Err(Failure::RenderError));
}

#[test]
fn standard_registry_holds_both_templates() {
    let registry = TemplateRegistry::standard().expect("the standard templates compile");
    assert_eq!(registry.render("hello", &greeting_context("World")), Ok("Hello, World!".to_string()));
    let post = Post { id: 1, title: "t".to_string(), content: "c".to_string() };
    assert_eq!(
        post.render(&registry),
        Ok("id: 00000000-0000-0000-0000-000000000001\ntitle: t\ncontent: c".to_string())
    );
    assert_eq!(
        registry.render("post", &post.context()),
        Ok("id: 00000000-0000-0000-0000-000000000001\ntitle: t\ncontent: c".to_string())
    );
}

#[test]
fn rendered_text_is_not_escaped() {
    let registry = TemplateRegistry::standard().expect("the standard templates compile");
    assert_eq!(
        registry.render("hello", &greeting_context("<b>&\"'")),
        Ok("Hello, <b>&\"'!".to_string())
    );
    assert_eq!(
        registry.render("hello", &greeting_context("{{name}}")),
        Ok("Hello, {{name}}!".to_string())
    );
}

#[test]
fn post_without_its_template_is_a_render_failure() {
    let post = Post { id: 1, title: "t".to_string(), content: "c".to_string() };
    assert_eq!(post.render(&TemplateRegistry::new()), Err(Failure::RenderError));
}

#[test]
fn store_starts_empty() {
    let store = RecordStore::open_in_memory().expect("a store opens in memory");
    assert!(store.find_by_id(0).expect("the store answers").is_none());
    assert!(store.find_by_id(u128::MAX).expect("the store answers").is_none());
}

#[test]
fn store_returns_what_was_inserted() {
    let mut store = RecordStore::open_in_memory().expect("a store opens in memory");
    let id = store.insert("a title", "a content").expect("the post is stored");
    let post = store.find_by_id(id).expect("the store answers").expect("the post is there");
    assert_eq!(post.id, id);
    assert_eq!(post.title, "a title");
    assert_eq!(post.content, "a content");
    assert!(store.find_by_id(id ^ 1).expect("the store answers").is_none());
}

#[test]
fn store_keeps_text_as_it_is() {
    let mut store = RecordStore::open_in_memory().expect("a store opens in memory");
    let title = "'; DROP TABLE posts; --";
    let content = "line one\nline two\t\u{1f600} \u{e9}\0end";
    let id = store.insert(title, content).expect("the post is stored");
    let post = store.find_by_id(id).expect("the store answers").expect("the post is there");
    assert_eq!(post.title, title);
    assert_eq!(post.content, content);
}

#[test]
fn store_makes_random_identifiers() {
    let mut store = RecordStore::open_in_memory().expect("a store opens in memory");
    let mut seen: Vec<u128> = Vec::new();
    for _ in 0..50 {
        let id = store.insert("t", "c").expect("the post is stored");
        assert_eq!((id >> 76) & 0xf, 4);
        assert_eq!((id >> 62) & 0x3, 2);
        assert!(!seen.contains(&id));
        seen.push(id);
    }
}

#[test]
fn store_keeps_earlier_posts() {
    let mut store = RecordStore::open_in_memory().expect("a store opens in memory");
    let first = store.insert("first", "1").expect("the post is stored");
    let second = store.insert("second", "2").expect("the post is stored");
    assert_ne!(first, second);
    let post = store.find_by_id(first).expect("the store answers").expect("the post is there");
    assert_eq!(post.title, "first");
    assert_eq!(post.content, "1");
    let post = store.find_by_id(second).expect("the store answers").expect("the post is there");
    assert_eq!(post.title, "second");
    assert_eq!(post.content, "2");
}

#[test]
fn stores_are_apart() {
    let mut one = RecordStore::open_in_memory().expect("a store opens in memory");
    let other = RecordStore::open_in_memory().expect("a store opens in memory");
    let id = one.insert("t", "c").expect("the post is stored");
    assert!(other.find_by_id(id).expect("the store answers").is_none());
}

#[test]
fn fixed_greeting_handler() {
    let response = handle();
    assert_eq!(response.status, 200);
    assert_eq!(response.body, "Hello World");
}

#[test]
fn named_greeting_handler() {
    let registry = TemplateRegistry::standard().expect("the standard templates compile");
    let response = handle_with_body(b"name=World", &registry);
    assert_eq!(response.status, 200);
    assert_eq!(response.body, "Hello, World!");
    let response = handle_with_body(b"World", &registry);
    assert_eq!(response.status, 400);
    assert_eq!(response.body, "");
}

#[test]
fn rendering_outcomes_become_responses() {
    let response = rendered_response(Ok("text".to_string()));
    assert_eq!(response.status, 200);
    assert_eq!(response.body, "text");
    let response = rendered_response(Err(Failure::RenderError));
    assert_eq!(response.status, 500);
    assert_eq!(response.body, "");
}

#[test]
fn insertion_outcomes_become_responses() {
    let response = created_response(Ok(0x550e_8400_e29b_41d4_a716_4466_5544_0000));
    assert_eq!(response.status, 200);
    assert_eq!(response.body, "550e8400-e29b-41d4-a716-446655440000");
    let response = created_response(Err(Failure::StoreError));
    assert_eq!(response.status, 500);
    assert_eq!(response.body, "");
}

#[test]
fn lookup_outcomes_become_responses() {
    let registry = TemplateRegistry::standard().expect("the standard templates compile");
    let post = Post { id: 2, title: "t".to_string(), content: "c".to_string() };
    let response = found_response(Ok(Some(post)), &registry);
    assert_eq!(response.status, 200);
    assert_eq!(response.body, "id: 00000000-0000-0000-0000-000000000002\ntitle: t\ncontent: c");
    let response = found_response(Ok(None), &registry);
    assert_eq!(response.status, 404);
    assert_eq!(response.body, "");
    let response = found_response(Err(Failure::StoreError), &registry);
    assert_eq!(response.status, 500);
    assert_eq!(response.body, "");
}

#[test]
fn create_and_find_handlers() {
    let registry = TemplateRegistry::standard().expect("the standard templates compile");
    let mut store = RecordStore::open_in_memory().expect("a store opens in memory");
    let created = create_post(b"title=t&content=c", &mut store);
    assert_eq!(created.status, 200);
    let lookup = format!("post_id={}", created.body);
    let found = find_post(lookup.as_bytes(), &registry, &store);
    assert_eq!(found.status, 200);
    assert_eq!(found.body, format!("id: {}\ntitle: t\ncontent: c", created.body));
    let missing = find_post(b"post_id=00000000-0000-0000-0000-000000000000", &registry, &store);
    assert_eq!(missing.status, 404);
    let refused = create_post(b"title=t", &mut store);
    assert_eq!(refused.status, 400);
}

#[test]
fn form_values_are_decoded_leniently() {
    let post = NewPost::from_body(b"title=%ff&content=a%2").expect("a post");
    assert_eq!(post.title, "\u{fffd}");
    assert_eq!(post.content, "a%2");
    let post = NewPost::from_body(b"title&content").expect("a post");
    assert_eq!(post.title, "");
    assert_eq!(post.content, "");
    let post = NewPost::from_body(b"&&title=a&&content=b&").expect("a post");
    assert_eq!(post.title, "a");
    assert_eq!(post.content, "b");
    let post = NewPost::from_body(b"title=a=b&content=c").expect("a post");
    assert_eq!(post.title, "a=b");
    assert_eq!(post.content, "c");
}
