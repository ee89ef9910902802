//! `/index5/{id}`: a user together with the posts they wrote.
//!
//! Answering takes two database queries with a decision after each; the
//! decisions are here, the queries are the server's.

use vstd::prelude::*;
use crate::entity::{Model, PostModel, Timestamp};

verus! {

/// A post as the reply shows it.
#[derive(Debug, PartialEq)]
pub struct PostData {
    pub id: i32,
    pub title: String,
    pub content: String,
    pub created_at: Timestamp,
}

/// A user with their posts, as the reply shows them.
#[derive(Debug, PartialEq)]
pub struct UserWithPosts {
    pub id: i32,
    pub username: String,
    pub email: String,
    pub created_at: Timestamp,
    pub posts: Vec<PostData>,
}

impl UserWithPosts {
    /// The empty value that the route answers when it has no user to show:
    /// id `0`, empty texts, the Unix epoch and no posts.
    pub open spec fn is_empty_answer(&self) -> bool {
        &&& self.id == 0
        &&& self.username@ == Seq::<char>::empty()
        &&& self.email@ == Seq::<char>::empty()
        &&& self.created_at == Timestamp::spec_epoch()
        &&& self.posts@.len() == 0
    }
}

impl Default for UserWithPosts {
    fn default() -> (r: UserWithPosts)
        ensures
            r.is_empty_answer(),
    {
        UserWithPosts {
            id: 0,
            username: String::new(),
            email: String::new(),
            created_at: Timestamp::epoch(),
            posts: Vec::new(),
        }
    }
}

/// How a post is shown: its id, title, content and creation time.
pub open spec fn post_data_of(p: PostModel) -> PostData {
    PostData { id: p.id, title: p.title, content: p.content, created_at: p.created_at }
}

/// How a user is shown with the given posts.
pub open spec fn user_with_posts_of(user: Model, posts: Seq<PostModel>, shown: UserWithPosts) -> bool {
    &&& shown.id == user.id
    &&& shown.username == user.username
    &&& shown.email == user.email
    &&& shown.created_at == user.created_at
    &&& shown.posts@.len() == posts.len()
    &&& forall|i: int| 0 <= i < posts.len() ==> #[trigger] shown.posts@[i] == post_data_of(posts[i])
}

/// A shown post keeps the post's own id, title, content and creation time.
pub proof fn lemma_post_data_keeps_fields(p: PostModel)
    ensures
        post_data_of(p).id == p.id,
        post_data_of(p).title == p.title,
        post_data_of(p).content == p.content,
        post_data_of(p).created_at == p.created_at,
{
}

/// A user shown with posts is that user, with one shown post for every
/// post the query returned, in the same order, each keeping its own id,
/// title, content and creation time.
pub proof fn lemma_shown_posts(user: Model, posts: Seq<PostModel>, shown: UserWithPosts)
    requires
        user_with_posts_of(user, posts, shown),
    ensures
        shown.id == user.id,
        shown.username == user.username,
        shown.email == user.email,
        shown.created_at == user.created_at,
        shown.posts@.len() == posts.len(),
        forall|i: int| 0 <= i < posts.len() ==> {
            &&& (#[trigger] shown.posts@[i]).id == posts[i].id
            &&& shown.posts@[i].title == posts[i].title
            &&& shown.posts@[i].content == posts[i].content
            &&& shown.posts@[i].created_at == posts[i].created_at
        },
{
    assert forall|i: int| 0 <= i < posts.len() implies {
        &&& (#[trigger] shown.posts@[i]).id == posts[i].id
        &&& shown.posts@[i].title == posts[i].title
        &&& shown.posts@[i].content == posts[i].content
        &&& shown.posts@[i].created_at == posts[i].created_at
    } by {
        lemma_post_data_keeps_fields(posts[i]);
    }
}

/// A database failure, by the message it prints.
#[derive(Debug, PartialEq)]
pub struct DbError {
    pub message: String,
}

/// What the route does once it has looked the user up.
pub enum UserLookup {
    /// Answer at once with `reply`, after printing `report` if there is one.
    Respond { report: Option<DbError>, reply: UserWithPosts },
    /// Fetch the posts whose author id is `author_id`, then finish with
    /// [`index5_after_posts`] for `user`.
    FetchPosts { user: Model, author_id: i32 },
}

/// The shown form of one post.
pub fn post_data(p: &PostModel) -> (d: PostData)
    ensures
        d == post_data_of(*p),
        d.id == p.id,
        d.title == p.title,
        d.content == p.content,
        d.created_at == p.created_at,
{
    PostData {
        id: p.id,
        title: p.title.clone(),
        content: p.content.clone(),
        created_at: p.created_at,
    }
}

/// The decision after looking up the user with id `user_id`: a failed
/// lookup is printed and answered with the empty value, a missing user is
/// answered with the empty value, and a found user leads to fetching the
/// posts of `user_id`.
pub fn index5_after_user(user_id: i32, found: Result<Option<Model>, DbError>) -> (step: UserLookup)
    ensures
        match found {
            Err(e) => step matches UserLookup::Respond { report, reply }
                && report == Some(e) && reply.is_empty_answer(),
            Ok(None) => step matches UserLookup::Respond { report, reply }
                && report is None && reply.is_empty_answer(),
            Ok(Some(u)) => step == (UserLookup::FetchPosts { user: u, author_id: user_id }),
        },
{
    match found {
        Err(e) => UserLookup::Respond { report: Some(e), reply: UserWithPosts::default() },
        Ok(None) => UserLookup::Respond { report: None, reply: UserWithPosts::default() },
        Ok(Some(user)) => UserLookup::FetchPosts { user, author_id: user_id },
    }
}

/// The answer once the posts of `user` have been fetched: the user with
/// every post in the order the query gave them, or the empty value when
/// the query failed.
pub fn index5_after_posts(user: Model, posts: Result<Vec<PostModel>, DbError>) -> (shown: UserWithPosts)
    ensures
        match posts {
            Ok(ps) => user_with_posts_of(user, ps@, shown),
            Err(_) => shown.is_empty_answer(),
        },
        posts matches Ok(ps) ==> {
            &&& shown.id == user.id
            &&& shown.posts@.len() == ps@.len()
            &&& forall|i: int| 0 <= i < ps@.len() ==> {
                &&& (#[trigger] shown.posts@[i]).id == ps@[i].id
                &&& shown.posts@[i].title == ps@[i].title
                &&& shown.posts@[i].content == ps@[i].content
                &&& shown.posts@[i].created_at == ps@[i].created_at
            }
        },
{
    let ghost the_user = user;
    match posts {
        Ok(ps) => {
            let mut shown_posts: Vec<PostData> = Vec::new();
            let mut i: usize = 0;
            while i < ps.len()
                invariant
                    i <= ps.len(),
                    shown_posts@.len() == i,
                    forall|j: int| 0 <= j < i ==> #[trigger] shown_posts@[j] == post_data_of(ps@[j]),
                decreases ps.len() - i,
            {
                shown_posts.push(post_data(&ps[i]));
                i = i + 1;
            }
            let shown = UserWithPosts {
                id: user.id,
                username: user.username,
                email: user.email,
                created_at: user.created_at,
                posts: shown_posts,
            };
            proof {
                lemma_shown_posts(the_user, ps@, shown);
            }
            shown
        },
        Err(_) => UserWithPosts::default(),
    }
}

} // verus!
