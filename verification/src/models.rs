//! The records kept by the store, and the mathematical value of each.
//!
//! An instant is held as a count of microseconds since 2000-01-01T00:00:00Z.

use vstd::prelude::*;

verus! {

/// An authored post.
#[derive(Debug)]
pub struct Post {
    pub id: i32,
    pub title: String,
    /// The category names, joined by commas.
    pub category: String,
    pub body: String,
    pub created: i64,
    pub last_edited: i64,
    pub published: bool,
    pub deleted: bool,
}

/// What a post is, with each text as a sequence of characters.
pub struct PostView {
    pub id: i32,
    pub title: Seq<char>,
    pub category: Seq<char>,
    pub body: Seq<char>,
    pub created: i64,
    pub last_edited: i64,
    pub published: bool,
    pub deleted: bool,
}

impl View for Post {
    type V = PostView;

    open spec fn view(&self) -> PostView {
        PostView {
            id: self.id,
            title: self.title@,
            category: self.category@,
            body: self.body@,
            created: self.created,
            last_edited: self.last_edited,
            published: self.published,
            deleted: self.deleted,
        }
    }
}

impl Clone for Post {
    fn clone(&self) -> (copy: Self)
        ensures
            copy@ == self@,
    {
        Post {
            id: self.id,
            title: self.title.clone(),
            category: self.category.clone(),
            body: self.body.clone(),
            created: self.created,
            last_edited: self.last_edited,
            published: self.published,
            deleted: self.deleted,
        }
    }
}

/// The fields of a post that its author supplies.
#[derive(Debug)]
pub struct NewPost {
    pub title: String,
    pub category: String,
    pub body: String,
}

/// A visitor's identity.
#[derive(Debug)]
pub struct Visitor {
    pub id: i32,
    pub name: String,
    pub mail: String,
    pub site: Option<String>,
    pub created: i64,
}

/// What a visitor is, with each text as a sequence of characters.
pub struct VisitorView {
    pub id: i32,
    pub name: Seq<char>,
    pub mail: Seq<char>,
    pub site: Option<Seq<char>>,
    pub created: i64,
}

/// The characters of an optional text.
pub open spec fn text_of(site: Option<String>) -> Option<Seq<char>> {
    match site {
        Some(s) => Some(s@),
        None => None,
    }
}

impl View for Visitor {
    type V = VisitorView;

    open spec fn view(&self) -> VisitorView {
        VisitorView {
            id: self.id,
            name: self.name@,
            mail: self.mail@,
            site: text_of(self.site),
            created: self.created,
        }
    }
}

impl Clone for Visitor {
    fn clone(&self) -> (copy: Self)
        ensures
            copy@ == self@,
    {
        let site = match &self.site {
            Some(s) => Some(s.clone()),
            None => None,
        };
        Visitor {
            id: self.id,
            name: self.name.clone(),
            mail: self.mail.clone(),
            site,
            created: self.created,
        }
    }
}

/// The fields of a visitor that the visitor supplies.
#[derive(Debug)]
pub struct NewVisitor {
    pub name: String,
    pub mail: String,
    pub site: Option<String>,
}

/// A visitor's comment on a post.
#[derive(Debug)]
pub struct Comment {
    pub id: i32,
    /// The post commented on.
    pub pid: i32,
    /// The visitor who wrote it.
    pub vid: i32,
    pub body: String,
    pub created: i64,
    pub last_edited: i64,
    pub deleted: bool,
}

/// What a comment is, with its text as a sequence of characters.
pub struct CommentView {
    pub id: i32,
    pub pid: i32,
    pub vid: i32,
    pub body: Seq<char>,
    pub created: i64,
    pub last_edited: i64,
    pub deleted: bool,
}

impl View for Comment {
    type V = CommentView;

    open spec fn view(&self) -> CommentView {
        CommentView {
            id: self.id,
            pid: self.pid,
            vid: self.vid,
            body: self.body@,
            created: self.created,
            last_edited: self.last_edited,
            deleted: self.deleted,
        }
    }
}

impl Clone for Comment {
    fn clone(&self) -> (copy: Self)
        ensures
            copy@ == self@,
    {
        Comment {
            id: self.id,
            pid: self.pid,
            vid: self.vid,
            body: self.body.clone(),
            created: self.created,
            last_edited: self.last_edited,
            deleted: self.deleted,
        }
    }
}

/// The fields of a comment that its writer supplies.
#[derive(Debug)]
pub struct NewComment {
    pub pid: i32,
    pub vid: i32,
    pub body: String,
}

} // verus!
