//! A shared summary trait, implemented for news articles and tweets.
use vstd::prelude::*;
use vstd::string::StringExecFns;

verus! {

/// A news article with an author, a headline and a body.
pub struct NewsArticle {
    pub author: String,
    pub headline: String,
    pub content: String,
}

/// A tweet with its author and flags.
pub struct Tweet {
    pub username: String,
    pub content: String,
    pub reply: bool,
    pub retweet: bool,
}

/// Shared behaviour: a one-line summary of the value.
pub trait Summary {
    /// The characters the summary is promised to consist of.
    spec fn summary_spec(&self) -> Seq<char>;

    /// The summary line itself.
    fn summarize(&self) -> (r: String)
        ensures
            r@ == self.summary_spec(),
    ;
}

impl Summary for NewsArticle {
    /// The headline, then the author.
    open spec fn summary_spec(&self) -> Seq<char> {
        self.headline@ + ", by "@ + self.author@
    }

    fn summarize(&self) -> (r: String) {
        let mut r = self.headline.clone();
        r.append(", by ");
        r.append(self.author.as_str());
        r
    }
}

impl Summary for Tweet {
    /// The username, then the tweet's content.
    open spec fn summary_spec(&self) -> Seq<char> {
        self.username@ + ": "@ + self.content@
    }

    fn summarize(&self) -> (r: String) {
        let mut r = self.username.clone();
        r.append(": ");
        r.append(self.content.as_str());
        r
    }
}

/// Some value with a summary, without naming its concrete type.
pub fn returns_summarizable() -> (r: impl Summary)
    ensures
        r.summary_spec() == "horse_ebooks"@ + ": "@
            + "of course, as you probably already know, people"@,
{
    Tweet {
        username: String::from_str("horse_ebooks"),
        content: String::from_str("of course, as you probably already know, people"),
        reply: false,
        retweet: false,
    }
}

} // verus!
