//! What the handlers read in a request body.
use vstd::prelude::*;
use crate::ident::{id_of_text, parse_id};
use crate::response::Failure;
use crate::text::{decode_text, strip_prefix, text_eq, text_of, without_prefix};

verus! {

/// The key-value pairs that `serde_urlencoded::from_bytes` reads in a
/// form-encoded body, in their order, or `None` where it rejects the body.
pub uninterp spec fn decoded_form(body: Seq<u8>) -> Option<Seq<(Seq<char>, Seq<char>)>>;

/// The pairs of a decoded form, as mathematical values.
pub open spec fn fields_view(fields: Seq<(String, String)>) -> Seq<(Seq<char>, Seq<char>)> {
    fields.map_values(|field: (String, String)| (field.0@, field.1@))
}

/// Calls `serde_urlencoded::from_bytes` for a list of pairs of strings. Not
/// proved: that its answer depends on the body alone.
#[verifier::external_body]
fn decode_form(body: &[u8]) -> (r: Option<Vec<(String, String)>>)
    ensures
        match r {
            Some(fields) => decoded_form(body@) == Some(fields_view(fields@)),
            None => decoded_form(body@) is None,
        },
{
    serde_urlencoded::from_bytes::<Vec<(String, String)>>(body).ok()
}

/// The values that a form gives under `key`, in their order.
pub open spec fn values_of(fields: Seq<(Seq<char>, Seq<char>)>, key: Seq<char>) -> Seq<Seq<char>> {
    fields.filter(|field: (Seq<char>, Seq<char>)| field.0 == key).map_values(
        |field: (Seq<char>, Seq<char>)| field.1,
    )
}

/// The value of a field that a form gives exactly once.
pub open spec fn only_value(fields: Seq<(Seq<char>, Seq<char>)>, key: Seq<char>) -> Option<
    Seq<char>,
> {
    let values = values_of(fields, key);
    if values.len() == 1 {
        Some(values[0])
    } else {
        None
    }
}

/// What a request to create a post is, as a mathematical value.
pub struct NewPostView {
    pub title: Seq<char>,
    pub content: Seq<char>,
}

/// A request to create a post.
#[derive(Debug)]
pub struct NewPost {
    pub title: String,
    pub content: String,
}

impl View for NewPost {
    type V = NewPostView;

    open spec fn view(&self) -> NewPostView {
        NewPostView { title: self.title@, content: self.content@ }
    }
}

/// The post that a form asks for: its fields `title` and `content`, each given
/// exactly once. Other fields do not matter.
pub open spec fn new_post_of(fields: Seq<(Seq<char>, Seq<char>)>) -> Option<NewPostView> {
    match (only_value(fields, "title"@), only_value(fields, "content"@)) {
        (Some(title), Some(content)) => Some(NewPostView { title, content }),
        _ => None,
    }
}

/// The post that a request body asks for, or the failure that answers the body.
pub open spec fn new_post_request(body: Seq<u8>) -> Result<NewPostView, Failure> {
    match decoded_form(body) {
        Some(fields) => match new_post_of(fields) {
            Some(post) => Ok(post),
            None => Err(Failure::BadRequest),
        },
        None => Err(Failure::BadRequest),
    }
}

/// The name that a request body gives for a greeting: what follows `name=`,
/// or the failure that answers the body.
pub open spec fn greeting_request(body: Seq<u8>) -> Result<Seq<char>, Failure> {
    match text_of(body) {
        Some(text) => match without_prefix(text, "name="@) {
            Some(name) => Ok(name),
            None => Err(Failure::BadRequest),
        },
        None => Err(Failure::BadRequest),
    }
}

/// The identifier that a request body asks to look up: what follows
/// `post_id=`, read as an identifier, or the failure that answers the body.
pub open spec fn lookup_request(body: Seq<u8>) -> Result<u128, Failure> {
    match text_of(body) {
        Some(text) => match without_prefix(text, "post_id="@) {
            Some(rest) => match id_of_text(rest) {
                Some(id) => Ok(id),
                None => Err(Failure::BadRequest),
            },
            None => Err(Failure::BadRequest),
        },
        None => Err(Failure::BadRequest),
    }
}

/// Taking one more field into account adds its value where its key is `key`.
proof fn lemma_values_of_next(fields: Seq<(Seq<char>, Seq<char>)>, key: Seq<char>, i: int)
    requires
        0 <= i < fields.len(),
    ensures
        values_of(fields.take(i + 1), key) == if fields[i].0 == key {
            values_of(fields.take(i), key).push(fields[i].1)
        } else {
            values_of(fields.take(i), key)
        },
{
    reveal(Seq::filter);
    let matches = |field: (Seq<char>, Seq<char>)| field.0 == key;
    let value = |field: (Seq<char>, Seq<char>)| field.1;
    let longer = fields.take(i + 1);
    assert(longer.drop_last() =~= fields.take(i));
    assert(longer.last() == fields[i]);
    let before = fields.take(i).filter(matches);
    if fields[i].0 == key {
        assert(longer.filter(matches) == before.push(fields[i]));
        assert(before.push(fields[i]).map_values(value) =~= before.map_values(value).push(
            fields[i].1,
        ));
    } else {
        assert(longer.filter(matches) == before);
    }
}

/// Finds the value of the field `key`, where the form gives it exactly once.
pub fn find_only(fields: &Vec<(String, String)>, key: &str) -> (r: Option<String>)
    ensures
        match r {
            Some(value) => only_value(fields_view(fields@), key@) == Some(value@),
            None => only_value(fields_view(fields@), key@) is None,
        },
{
    let ghost all = fields_view(fields@);
    let mut seen: usize = 0;
    let mut first: usize = 0;
    let mut i: usize = 0;
    while i < fields.len()
        invariant
            i <= fields.len(),
            all == fields_view(fields@),
            all.len() == fields.len(),
            seen <= 2,
            seen == 0 ==> values_of(all.take(i as int), key@).len() == 0,
            seen == 1 ==> values_of(all.take(i as int), key@).len() == 1,
            seen == 2 ==> values_of(all.take(i as int), key@).len() >= 2,
            seen >= 1 ==> first < i && values_of(all.take(i as int), key@)[0] == all[first as int].1,
        decreases fields.len() - i,
    {
        proof {
            lemma_values_of_next(all, key@, i as int);
        }
        if text_eq(fields[i].0.as_str(), key) {
            if seen == 0 {
                first = i;
                seen = 1;
            } else {
                seen = 2;
            }
        }
        i += 1;
    }
    assert(all.take(i as int) =~= all);
    if seen == 1 {
        Some(fields[first].1.clone())
    } else {
        None
    }
}

impl NewPost {
    /// Reads the post that a decoded form asks for.
    pub fn from_fields(fields: &Vec<(String, String)>) -> (r: Option<NewPost>)
        ensures
            match r {
                Some(post) => new_post_of(fields_view(fields@)) == Some(post@),
                None => new_post_of(fields_view(fields@)) is None,
            },
    {
        match find_only(fields, "title") {
            Some(title) => match find_only(fields, "content") {
                Some(content) => Some(NewPost { title, content }),
                None => None,
            },
            None => None,
        }
    }

    /// Reads the post that a request body asks for.
    pub fn from_body(body: &[u8]) -> (r: Result<NewPost, Failure>)
        ensures
            match r {
                Ok(post) => new_post_request(body@) == Ok::<NewPostView, Failure>(post@),
                Err(failure) => new_post_request(body@) == Err::<NewPostView, Failure>(failure),
            },
    {
        match decode_form(body) {
            Some(fields) => match NewPost::from_fields(&fields) {
                Some(post) => Ok(post),
                None => Err(Failure::BadRequest),
            },
            None => Err(Failure::BadRequest),
        }
    }
}

/// Reads the name that a request body gives for a greeting.
pub fn parse_greeting(body: &[u8]) -> (r: Result<String, Failure>)
    ensures
        match r {
            Ok(name) => greeting_request(body@) == Ok::<Seq<char>, Failure>(name@),
            Err(failure) => greeting_request(body@) == Err::<Seq<char>, Failure>(failure),
        },
{
    match decode_text(body) {
        Some(text) => match strip_prefix(text, "name=") {
            Some(name) => Ok(name.to_owned()),
            None => Err(Failure::BadRequest),
        },
        None => Err(Failure::BadRequest),
    }
}

/// Reads the identifier that a request body asks to look up.
pub fn parse_lookup(body: &[u8]) -> (r: Result<u128, Failure>)
    ensures
        r == lookup_request(body@),
{
    match decode_text(body) {
        Some(text) => match strip_prefix(text, "post_id=") {
            Some(rest) => match parse_id(rest) {
                Some(id) => Ok(id),
                None => Err(Failure::BadRequest),
            },
            None => Err(Failure::BadRequest),
        },
        None => Err(Failure::BadRequest),
    }
}

} // verus!
