//! The template registry: named templates, compiled once and rendered many
//! times, and the per-request context that parameterises a rendering.
use vstd::prelude::*;
use crate::response::Failure;
use crate::text::text_eq;

verus! {

/// The name of the greeting template.
pub const GREETING_NAME: &'static str = "hello";

/// The source of the greeting template.
pub const GREETING_SOURCE: &'static str = "Hello, {{name}}!";

/// The name of the template that shows one post.
pub const POST_NAME: &'static str = "post";

/// The source of the template that shows one post.
pub const POST_SOURCE: &'static str = "id: {{id}}\ntitle: {{title}}\ncontent: {{content}}";

/// The template engine, `tera::Tera`, as an opaque type.
#[verifier::external_type_specification]
#[verifier::external_body]
pub struct ExTera(tera::Tera);

/// The engine's rendering context, `tera::Context`, as an opaque type.
#[verifier::external_type_specification]
#[verifier::external_body]
pub struct ExContext(tera::Context);

/// The engine's error, `tera::Error`, as an opaque type.
#[verifier::external_type_specification]
#[verifier::external_body]
pub struct ExTeraError(tera::Error);

/// The map from text to text that holds nothing.
pub open spec fn empty_text_map() -> Map<Seq<char>, Seq<char>> {
    Map::empty()
}

/// Whether `source` is one of the two sources that the service renders.
pub open spec fn is_standard_source(source: Seq<char>) -> bool {
    source == GREETING_SOURCE@ || source == POST_SOURCE@
}

/// Whether `templates` holds a standard source under `name`. These are the
/// templates that are rendered; the engine is not trusted with others, on
/// which it can panic.
pub open spec fn holds_standard(templates: Map<Seq<char>, Seq<char>>, name: Seq<char>) -> bool {
    templates.contains_key(name) && is_standard_source(templates[name])
}

/// Whether `text` ends with `suffix`.
pub open spec fn ends_with(text: Seq<char>, suffix: Seq<char>) -> bool {
    suffix.len() <= text.len() && text.skip(text.len() - suffix.len()) == suffix
}

/// Whether the engine escapes the values it renders into the template `name`:
/// it does so for names that end in `.html`, `.htm` or `.xml`.
pub open spec fn is_escaped_name(name: Seq<char>) -> bool {
    ends_with(name, ".html"@) || ends_with(name, ".htm"@) || ends_with(name, ".xml"@)
}

/// What stands for one character in an escaped value.
pub open spec fn escaped_char(c: char) -> Seq<char> {
    if c == '&' {
        "&amp;"@
    } else if c == '<' {
        "&lt;"@
    } else if c == '>' {
        "&gt;"@
    } else if c == '"' {
        "&quot;"@
    } else if c == '\'' {
        "&#x27;"@
    } else if c == '/' {
        "&#x2F;"@
    } else {
        seq![c]
    }
}

/// A value as the engine escapes it: character by character.
pub open spec fn escaped(value: Seq<char>) -> Seq<char>
    decreases value.len(),
{
    if value.len() == 0 {
        Seq::empty()
    } else {
        escaped_char(value[0]) + escaped(value.drop_first())
    }
}

/// A value as it is shown in a rendering.
pub open spec fn shown(escape: bool, value: Seq<char>) -> Seq<char> {
    if escape {
        escaped(value)
    } else {
        value
    }
}

/// What a standard source renders to: the greeting with the value of `name`,
/// or the three lines of a post with the values of `id`, `title` and
/// `content`, each value escaped or not. Without one of those values there is
/// no text.
pub open spec fn standard_rendering(
    escape: bool,
    source: Seq<char>,
    bindings: Map<Seq<char>, Seq<char>>,
) -> Option<Seq<char>> {
    if source == GREETING_SOURCE@ {
        if bindings.contains_key("name"@) {
            Some("Hello, "@ + shown(escape, bindings["name"@]) + "!"@)
        } else {
            None
        }
    } else {
        if bindings.contains_key("id"@) && bindings.contains_key("title"@) && bindings.contains_key(
            "content"@,
        ) {
            Some(
                "id: "@ + shown(escape, bindings["id"@]) + "\ntitle: "@ + shown(
                    escape,
                    bindings["title"@],
                ) + "\ncontent: "@ + shown(escape, bindings["content"@]),
            )
        } else {
            None
        }
    }
}

/// What rendering the template `name` from `templates` with `bindings` gives.
/// There is no text where no template has that name, nor where its source is
/// not a standard one; a standard source renders as `standard_rendering`
/// says, with its values escaped where the name asks for it.
pub open spec fn rendering(
    templates: Map<Seq<char>, Seq<char>>,
    name: Seq<char>,
    bindings: Map<Seq<char>, Seq<char>>,
) -> Option<Seq<char>> {
    if holds_standard(templates, name) {
        standard_rendering(is_escaped_name(name), templates[name], bindings)
    } else {
        None
    }
}

/// The templates that an engine holds: the source of each, by name.
pub uninterp spec fn engine_templates(engine: tera::Tera) -> Map<Seq<char>, Seq<char>>;

/// Whether an engine has the settings that `tera::Tera::default` gives it:
/// what it escapes and how, and its filters, functions and testers.
pub uninterp spec fn is_default_engine(engine: tera::Tera) -> bool;

/// The text values that a context binds, by key.
pub uninterp spec fn context_bindings(context: tera::Context) -> Map<Seq<char>, Seq<char>>;

/// Whether every value that a context binds is a text.
pub uninterp spec fn binds_text_only(context: tera::Context) -> bool;

/// Calls `tera::Tera::default`. Not proved: that the new engine holds no
/// template.
#[verifier::external_body]
fn engine_new() -> (engine: tera::Tera)
    ensures
        engine_templates(engine) == empty_text_map(),
        is_default_engine(engine),
{
    tera::Tera::default()
}

/// Calls `tera::Tera::add_raw_template`. Not proved: that on success the engine
/// holds `source` under `name` and every other template as before; that on
/// failure it holds what it held before, with or without the new template;
/// that the engine's settings stay as they were. Nothing is said of when the
/// call succeeds: the engine's parser refuses any source where little of the
/// thread's stack is left, or where the process has set a limit on the
/// parser's calls. Neither is it proved that the parser returns on every
/// source.
#[verifier::external_body]
fn engine_add(engine: &mut tera::Tera, name: &str, source: &str) -> (r: Result<(), tera::Error>)
    ensures
        r is Ok ==> engine_templates(*final(engine)) == engine_templates(*old(engine)).insert(
            name@,
            source@,
        ),
        r is Err ==> engine_templates(*final(engine)) == engine_templates(*old(engine))
            || engine_templates(*final(engine)) == engine_templates(*old(engine)).insert(
            name@,
            source@,
        ),
        is_default_engine(*final(engine)) == is_default_engine(*old(engine)),
{
    engine.add_raw_template(name, source)
}

/// Calls `tera::Tera::render`, for a template whose source is one of the two
/// standard ones; the engine can panic while it renders other sources. Not
/// proved: that the text is what `standard_rendering` says, with the values
/// escaped under a name that ends in `.html`, `.htm` or `.xml`, and that
/// rendering fails exactly where that gives no text.
#[verifier::external_body]
fn engine_render(engine: &tera::Tera, name: &str, context: &tera::Context) -> (r: Result<
    String,
    tera::Error,
>)
    requires
        is_default_engine(*engine),
        binds_text_only(*context),
        holds_standard(engine_templates(*engine), name@),
    ensures
        match r {
            Ok(text) => standard_rendering(
                is_escaped_name(name@),
                engine_templates(*engine)[name@],
                context_bindings(*context),
            ) == Some(text@),
            Err(_) => standard_rendering(
                is_escaped_name(name@),
                engine_templates(*engine)[name@],
                context_bindings(*context),
            ) is None,
        },
{
    engine.render(name, context)
}

/// Calls `tera::Context::new`. Not proved: that the new context binds nothing.
#[verifier::external_body]
fn context_new() -> (context: tera::Context)
    ensures
        context_bindings(context) == empty_text_map(),
        binds_text_only(context),
{
    tera::Context::new()
}

/// Calls `tera::Context::insert` with a text value. Not proved: that the
/// context then binds `key` to `value` and every other key as before; that a
/// context which bound texts only still does; that the call returns and does
/// not panic.
#[verifier::external_body]
fn context_insert(context: &mut tera::Context, key: &str, value: &str)
    ensures
        context_bindings(*final(context)) == context_bindings(*old(context)).insert(key@, value@),
        binds_text_only(*old(context)) ==> binds_text_only(*final(context)),
    no_unwind
{
    context.insert(key, value)
}

/// The key-value bindings that parameterise one rendering.
pub struct RenderContext {
    inner: tera::Context,
}

impl View for RenderContext {
    type V = Map<Seq<char>, Seq<char>>;

    closed spec fn view(&self) -> Map<Seq<char>, Seq<char>> {
        context_bindings(self.inner)
    }
}

impl RenderContext {
    #[verifier::type_invariant]
    spec fn texts(self) -> bool {
        binds_text_only(self.inner)
    }

    /// A context that binds nothing.
    pub fn new() -> (context: RenderContext)
        ensures
            context@ == empty_text_map(),
    {
        RenderContext { inner: context_new() }
    }

    /// Binds `key` to `value`, in place of what `key` was bound to before.
    pub fn insert(&mut self, key: &str, value: &str)
        ensures
            final(self)@ == old(self)@.insert(key@, value@),
    {
        proof {
            use_type_invariant(&*self);
        }
        context_insert(&mut self.inner, key, value);
    }
}

/// Whether `name` is among `names`.
spec fn is_listed(names: Seq<String>, name: Seq<char>) -> bool {
    exists|i: int| 0 <= i < names.len() && (#[trigger] names[i])@ == name
}

/// Tells whether `name` is among `names`.
fn contains_name(names: &Vec<String>, name: &str) -> (found: bool)
    ensures
        found == is_listed(names@, name@),
{
    let mut i: usize = 0;
    while i < names.len()
        invariant
            i <= names.len(),
            forall|j: int| 0 <= j < i ==> (#[trigger] names@[j])@ != name@,
        decreases names.len() - i,
    {
        if text_eq(names[i].as_str(), name) {
            return true;
        }
        i += 1;
    }
    false
}

/// The names of `names` other than `name`.
fn without_name(names: &Vec<String>, name: &str) -> (kept: Vec<String>)
    ensures
        forall|other: Seq<char>|
            #[trigger] is_listed(kept@, other) <==> other != name@ && is_listed(names@, other),
{
    let mut kept: Vec<String> = Vec::new();
    let mut i: usize = 0;
    while i < names.len()
        invariant
            i <= names.len(),
            forall|j: int|
                0 <= j < kept.len() ==> (#[trigger] kept@[j])@ != name@ && is_listed(
                    names@,
                    kept@[j]@,
                ),
            forall|j: int|
                0 <= j < i && (#[trigger] names@[j])@ != name@ ==> is_listed(kept@, names@[j]@),
        decreases names.len() - i,
    {
        if !text_eq(names[i].as_str(), name) {
            let ghost before = kept@;
            kept.push(names[i].clone());
            proof {
                assert(kept@[kept.len() - 1]@ == names@[i as int]@);
                assert forall|j: int| 0 <= j < i && (#[trigger] names@[j])@ != name@ implies is_listed(
                    kept@,
                    names@[j]@,
                ) by {
                    let at = choose|at: int|
                        0 <= at < before.len() && (#[trigger] before[at])@ == names@[j]@;
                    assert(kept@[at] == before[at]);
                }
            }
        }
        i += 1;
    }
    kept
}

/// The registry of named templates.
pub struct TemplateRegistry {
    engine: tera::Tera,
    trusted: Vec<String>,
}

impl View for TemplateRegistry {
    type V = Map<Seq<char>, Seq<char>>;

    closed spec fn view(&self) -> Map<Seq<char>, Seq<char>> {
        engine_templates(self.engine)
    }
}

impl TemplateRegistry {
    #[verifier::type_invariant]
    spec fn sound(self) -> bool {
        &&& is_default_engine(self.engine)
        &&& forall|name: Seq<char>|
            is_listed(self.trusted@, name) <==> #[trigger] holds_standard(
                engine_templates(self.engine),
                name,
            )
    }

    /// A registry without templates.
    pub fn new() -> (registry: TemplateRegistry)
        ensures
            registry@ == empty_text_map(),
    {
        TemplateRegistry { engine: engine_new(), trusted: Vec::new() }
    }

    /// Compiles `source` and publishes it under `name`, in place of what that
    /// name held. The registry is used up: where the source does not compile
    /// there is no registry left, so no partly filled one can be served from.
    /// Whether a source compiles is the engine's to say, and it may refuse any
    /// source where the machine is short of stack.
    pub fn register(self, name: &str, source: &str) -> (r: Result<TemplateRegistry, Failure>)
        ensures
            match r {
                Ok(registry) => registry@ == self@.insert(name@, source@),
                Err(failure) => failure == Failure::ParseError,
            },
    {
        proof {
            use_type_invariant(&self);
        }
        let standard = text_eq(source, GREETING_SOURCE) || text_eq(source, POST_SOURCE);
        let ghost before = engine_templates(self.engine);
        let ghost listed = self.trusted@;
        let mut trusted = without_name(&self.trusted, name);
        let ghost others = trusted@;
        if standard {
            trusted.push(name.to_owned());
        }
        let mut engine = self.engine;
        match engine_add(&mut engine, name, source) {
            Ok(()) => {
                proof {
                    assert forall|other: Seq<char>|
                        is_listed(trusted@, other) <==> #[trigger] holds_standard(
                            engine_templates(engine),
                            other,
                        ) by {
                        assert(is_listed(others, other) <==> other != name@ && is_listed(
                            listed,
                            other,
                        ));
                        assert(is_listed(listed, other) <==> holds_standard(before, other));
                        if standard {
                            assert(trusted@[trusted.len() - 1]@ == name@);
                            if is_listed(others, other) {
                                let at = choose|at: int|
                                    0 <= at < others.len() && (#[trigger] others[at])@ == other;
                                assert(trusted@[at] == others[at]);
                            }
                            if is_listed(trusted@, other) && other != name@ {
                                let at = choose|at: int|
                                    0 <= at < trusted.len() && (#[trigger] trusted@[at])@ == other;
                                assert(others[at] == trusted@[at]);
                            }
                        }
                    }
                }
                Ok(TemplateRegistry { engine, trusted })
            },
            Err(_) => Err(Failure::ParseError),
        }
    }

    /// The registry that the service starts with: the greeting template and
    /// the template that shows one post.
    pub fn standard() -> (r: Result<TemplateRegistry, Failure>)
        ensures
            match r {
                Ok(registry) => registry@ == empty_text_map().insert(
                    GREETING_NAME@,
                    GREETING_SOURCE@,
                ).insert(POST_NAME@, POST_SOURCE@),
                Err(failure) => failure == Failure::ParseError,
            },
    {
        match TemplateRegistry::new().register(GREETING_NAME, GREETING_SOURCE) {
            Ok(registry) => registry.register(POST_NAME, POST_SOURCE),
            Err(failure) => Err(failure),
        }
    }

    /// Renders the template `name` with `context`. The text is what
    /// `rendering` says; where that gives none, the failure is
    /// `Failure::RenderError`. So it is where no template has that name, where
    /// the template needs a key that the context does not bind, and where the
    /// source under the name is not a standard one: such a source is not
    /// handed to the engine, which can panic on it.
    pub fn render(&self, name: &str, context: &RenderContext) -> (r: Result<String, Failure>)
        ensures
            match r {
                Ok(text) => rendering(self@, name@, context@) == Some(text@),
                Err(failure) => failure == Failure::RenderError && rendering(
                    self@,
                    name@,
                    context@,
                ) is None,
            },
    {
        proof {
            use_type_invariant(self);
            use_type_invariant(context);
        }
        if !contains_name(&self.trusted, name) {
            assert(!holds_standard(self@, name@));
            return Err(Failure::RenderError);
        }
        assert(holds_standard(self@, name@));
        match engine_render(&self.engine, name, &context.inner) {
            Ok(text) => Ok(text),
            Err(_) => Err(Failure::RenderError),
        }
    }
}

} // verus!
