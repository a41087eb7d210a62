//! The record store: posts kept in an embedded database, reached through one
//! connection. Whoever holds the store exclusively is the only one who writes.
use vstd::prelude::*;
use crate::ident::{is_random_v4, random_uuid};
use crate::requests::{NewPost, NewPostView};
use crate::response::Failure;

verus! {

/// Creates the table of posts.
pub const CREATE_POSTS: &'static str =
    "CREATE TABLE posts (id BLOB PRIMARY KEY, title TEXT NOT NULL, content TEXT NOT NULL)";

/// Adds one post.
pub const INSERT_POST: &'static str = "INSERT INTO posts(id, title, content) VALUES (?1,?2,?3)";

/// Reads one post by its identifier.
pub const SELECT_POST: &'static str = "SELECT id, title, content FROM posts WHERE id=?1";

/// The database connection, `rusqlite::Connection`, as an opaque type.
#[verifier::external_type_specification]
#[verifier::external_body]
pub struct ExConnection(rusqlite::Connection);

/// The database's error, `rusqlite::Error`, as an opaque type.
#[verifier::external_type_specification]
#[verifier::external_body]
pub struct ExDatabaseError(rusqlite::Error);

/// The posts in the database behind a connection: title and content of each,
/// by identifier. The database is one in memory that no other connection
/// reaches, so what it holds changes through this connection alone.
pub uninterp spec fn stored_posts(connection: rusqlite::Connection) -> Map<
    u128,
    (Seq<char>, Seq<char>),
>;

/// Whether the database behind a connection holds the table that
/// `CREATE_POSTS` makes.
pub uninterp spec fn has_posts_table(connection: rusqlite::Connection) -> bool;

/// The store that holds no post.
pub open spec fn no_posts() -> Map<u128, (Seq<char>, Seq<char>)> {
    Map::empty()
}

/// Calls `rusqlite::Connection::open_in_memory`. Nothing is claimed of the
/// connection it returns.
#[verifier::external_body]
fn connection_open() -> (r: Result<rusqlite::Connection, rusqlite::Error>) {
    rusqlite::Connection::open_in_memory()
}

/// Calls `rusqlite::Connection::execute_batch` with the statement that creates
/// the table. Not proved: that where the statement succeeds the table is there
/// and empty.
#[verifier::external_body]
fn connection_create(connection: &mut rusqlite::Connection, sql: &str) -> (r: Result<
    (),
    rusqlite::Error,
>)
    requires
        sql@ == CREATE_POSTS@,
    ensures
        r is Ok ==> has_posts_table(*final(connection)) && stored_posts(*final(connection))
            == no_posts(),
{
    connection.execute_batch(sql)
}

/// Calls `rusqlite::Connection::execute` with the statement that adds a post.
/// Not proved: that where the statement succeeds no post had that identifier
/// and the table then holds the new post beside the others; that where it
/// fails the table holds what it held; that the call returns and does not
/// panic.
#[verifier::external_body]
fn connection_insert(
    connection: &mut rusqlite::Connection,
    sql: &str,
    id: u128,
    title: &str,
    content: &str,
) -> (r: Result<usize, rusqlite::Error>)
    requires
        sql@ == INSERT_POST@,
        has_posts_table(*old(connection)),
    ensures
        has_posts_table(*final(connection)),
        r is Ok ==> !stored_posts(*old(connection)).contains_key(id) && stored_posts(
            *final(connection),
        ) == stored_posts(*old(connection)).insert(id, (title@, content@)),
        r is Err ==> stored_posts(*final(connection)) == stored_posts(*old(connection)),
    no_unwind
{
    connection.execute(sql, (uuid::Uuid::from_u128(id), title, content))
}

/// Calls `rusqlite::Connection::query_row` with the statement that reads a
/// post, and `optional` on what it returns. Not proved: that the row read is
/// the post stored under that identifier, and that no row is read exactly
/// where none is stored under it.
#[verifier::external_body]
fn connection_select(connection: &rusqlite::Connection, sql: &str, id: u128) -> (r: Result<
    Option<(u128, String, String)>,
    rusqlite::Error,
>)
    requires
        sql@ == SELECT_POST@,
        has_posts_table(*connection),
    ensures
        r matches Ok(Some(row)) ==> stored_posts(*connection).contains_key(id) && row.0 == id
            && (row.1@, row.2@) == stored_posts(*connection)[id],
        r matches Ok(None) ==> !stored_posts(*connection).contains_key(id),
{
    rusqlite::OptionalExtension::optional(
        connection.query_row(
            sql,
            (uuid::Uuid::from_u128(id),),
            |row| Ok((row.get::<_, uuid::Uuid>(0)?.as_u128(), row.get(1)?, row.get(2)?)),
        ),
    )
}

/// What a post is, as a mathematical value.
pub struct PostView {
    pub id: u128,
    pub title: Seq<char>,
    pub content: Seq<char>,
}

/// A post: an identifier that the store made, a title and a content.
#[derive(Debug)]
pub struct Post {
    pub id: u128,
    pub title: String,
    pub content: String,
}

impl View for Post {
    type V = PostView;

    open spec fn view(&self) -> PostView {
        PostView { id: self.id, title: self.title@, content: self.content@ }
    }
}

/// Whether `after` is `before` with `post` added under the fresh identifier `id`.
pub open spec fn stores_as(
    before: Map<u128, (Seq<char>, Seq<char>)>,
    after: Map<u128, (Seq<char>, Seq<char>)>,
    post: NewPostView,
    id: u128,
) -> bool {
    &&& is_random_v4(id)
    &&& !before.contains_key(id)
    &&& after == before.insert(id, (post.title, post.content))
}

/// What a handler asks of the store.
#[derive(Debug)]
pub enum StoreRequest {
    /// To store a new post.
    Insert(NewPost),
    /// To look a post up by its identifier.
    Find(u128),
}

/// What the store answers.
#[derive(Debug)]
pub enum StoreReply {
    /// The identifier under which the post was stored, or the failure.
    Inserted(Result<u128, Failure>),
    /// The post that was looked up, `None` where there is no such post, or the
    /// failure.
    Found(Result<Option<Post>, Failure>),
}

/// Whether `reply` and the store `after` it answer `request`, made of the
/// store `before`.
pub open spec fn performs(
    request: StoreRequest,
    before: Map<u128, (Seq<char>, Seq<char>)>,
    after: Map<u128, (Seq<char>, Seq<char>)>,
    reply: StoreReply,
) -> bool {
    match request {
        StoreRequest::Insert(post) => match reply {
            StoreReply::Inserted(Ok(id)) => stores_as(before, after, post@, id),
            StoreReply::Inserted(Err(failure)) => failure == Failure::StoreError && after
                == before,
            StoreReply::Found(_) => false,
        },
        StoreRequest::Find(id) => after == before && match reply {
            StoreReply::Found(Ok(Some(post))) => before.contains_key(id) && post@ == (PostView {
                id,
                title: before[id].0,
                content: before[id].1,
            }),
            StoreReply::Found(Ok(None)) => !before.contains_key(id),
            StoreReply::Found(Err(failure)) => failure == Failure::StoreError,
            StoreReply::Inserted(_) => false,
        },
    }
}

/// The store of posts.
pub struct RecordStore {
    connection: rusqlite::Connection,
}

impl View for RecordStore {
    type V = Map<u128, (Seq<char>, Seq<char>)>;

    closed spec fn view(&self) -> Map<u128, (Seq<char>, Seq<char>)> {
        stored_posts(self.connection)
    }
}

impl RecordStore {
    #[verifier::type_invariant]
    spec fn ready(self) -> bool {
        has_posts_table(self.connection)
    }

    /// Opens a store of its own in memory, with no post in it.
    pub fn open_in_memory() -> (r: Result<RecordStore, Failure>)
        ensures
            match r {
                Ok(store) => store@ == no_posts(),
                Err(failure) => failure == Failure::StoreError,
            },
    {
        match connection_open() {
            Ok(mut connection) => match connection_create(&mut connection, CREATE_POSTS) {
                Ok(_) => Ok(RecordStore { connection }),
                Err(_) => Err(Failure::StoreError),
            },
            Err(_) => Err(Failure::StoreError),
        }
    }

    /// Stores a new post under an identifier made for it, and returns the
    /// identifier. On failure the store holds what it held. The identifier is
    /// drawn from the operating system's random bytes; where there are none,
    /// the process ends.
    pub fn insert(&mut self, title: &str, content: &str) -> (r: Result<u128, Failure>)
        ensures
            match r {
                Ok(id) => is_random_v4(id) && !old(self)@.contains_key(id) && final(self)@ == old(
                    self,
                )@.insert(id, (title@, content@)),
                Err(failure) => failure == Failure::StoreError && final(self)@ == old(self)@,
            },
    {
        self.insert_with(random_uuid(), title, content)
    }

    /// Stores a new post under the identifier `id`, which the caller has drawn,
    /// and returns it. The store refuses an identifier that it holds already;
    /// on that and on every other failure it holds what it held.
    pub fn insert_with(&mut self, id: u128, title: &str, content: &str) -> (r: Result<
        u128,
        Failure,
    >)
        ensures
            match r {
                Ok(stored) => stored == id && !old(self)@.contains_key(id) && final(self)@ == old(
                    self,
                )@.insert(id, (title@, content@)),
                Err(failure) => failure == Failure::StoreError && final(self)@ == old(self)@,
            },
            old(self)@.contains_key(id) ==> r is Err,
    {
        proof {
            use_type_invariant(&*self);
        }
        match connection_insert(&mut self.connection, INSERT_POST, id, title, content) {
            Ok(_) => Ok(id),
            Err(_) => Err(Failure::StoreError),
        }
    }

    /// Looks a post up by its identifier. `Ok(None)` says that the store holds
    /// no such post; that is an answer, not a failure.
    pub fn find_by_id(&self, id: u128) -> (r: Result<Option<Post>, Failure>)
        ensures
            match r {
                Ok(Some(post)) => self@.contains_key(id) && post@ == (PostView {
                    id,
                    title: self@[id].0,
                    content: self@[id].1,
                }),
                Ok(None) => !self@.contains_key(id),
                Err(failure) => failure == Failure::StoreError,
            },
    {
        proof {
            use_type_invariant(self);
        }
        match connection_select(&self.connection, SELECT_POST, id) {
            Ok(Some(row)) => Ok(Some(Post { id: row.0, title: row.1, content: row.2 })),
            Ok(None) => Ok(None),
            Err(_) => Err(Failure::StoreError),
        }
    }

    /// Does what a handler asks. This is all that is done while the store is
    /// held exclusively: reading the request and rendering the answer happen
    /// before and after.
    pub fn perform(&mut self, request: &StoreRequest) -> (reply: StoreReply)
        ensures
            performs(*request, old(self)@, final(self)@, reply),
    {
        match request {
            StoreRequest::Insert(post) => StoreReply::Inserted(
                self.insert(post.title.as_str(), post.content.as_str()),
            ),
            StoreRequest::Find(id) => StoreReply::Found(self.find_by_id(*id)),
        }
    }
}

} // verus!
