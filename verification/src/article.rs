//! The content types this client reads and writes: an article with its
//! authors, supervising professor, optional quiz, and the listing entry the
//! Contents API returns for a repository path. Plain data — the TOML schema
//! around them is a host concern.

use vstd::prelude::*;

verus! {

/// An article's illustration.
#[derive(Debug)]
pub struct Image {
    pub url: String,
    pub alt: String,
    pub caption: String,
}

/// One of an article's authors.
#[derive(Debug)]
pub struct Author {
    pub name: String,
    pub author_bio: String,
    pub slug: String,
}

/// One quiz question: its answers and which of them is correct.
#[derive(Debug)]
pub struct Question {
    pub question: String,
    pub answers: Vec<String>,
    pub correct_answer: String,
}

/// The professor supervising an article.
#[derive(Debug)]
pub struct Professor {
    pub name: String,
    pub professor_bio: String,
    pub slug: String,
}

/// A content file's payload.
#[derive(Debug)]
pub struct Article {
    pub title: String,
    pub description: String,
    pub body: String,
    pub image: Image,
    pub authors: Vec<Author>,
    pub professor: Professor,
    pub questions: Option<Vec<Question>>,
    pub created_at: String,
    pub published_at: String,
    pub reading_time: u32,
    pub updated_at: Option<String>,
    pub last_updated_at: Option<String>,
    pub category: String,
}

/// One entry of a repository path's listing.
#[derive(Debug)]
pub struct GitHubFile {
    pub name: String,
    pub path: String,
    /// The entry's kind as the Contents API names it: "file" or "dir".
    pub kind: String,
}

} // verus!
