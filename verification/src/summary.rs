//! Things that can be summed up in a line.

use vstd::prelude::*;
use vstd::string::StringExecFns;

verus! {

/// The words that invite the reader to go on.
pub open spec fn read_more() -> Seq<char> {
    "Read More..."@
}

/// Something that can be summed up in a line.
pub trait Summary {
    /// The line that sums this up.
    spec fn summary(&self) -> Seq<char>;

    /// The line that sums this up.
    fn summarize(&self) -> (line: String)
        ensures
            line@ == self.summary(),
    ;

    /// The words that invite the reader to go on.
    fn read_mode_text(&self) -> (line: String)
        ensures
            line@ == read_more(),
    {
        "Read More...".to_owned()
    }

    /// The summary, followed by the invitation to go on.
    fn summarize_and_read_more(&self) -> (line: String)
        ensures
            line@ == self.summary() + " and "@ + read_more(),
    {
        let mut line = self.summarize();
        line.append(" and ");
        line.append(self.read_mode_text().as_str());
        line
    }
}

/// A news article.
#[derive(Debug)]
pub struct NewsArticle {
    pub headline: String,
    pub location: String,
    pub author: String,
    pub content: String,
}

impl Summary for NewsArticle {
    open spec fn summary(&self) -> Seq<char> {
        self.headline@ + " by "@ + self.author@ + " ("@ + self.location@ + ")"@
    }

    fn summarize(&self) -> (line: String) {
        let mut line = self.headline.clone();
        line.append(" by ");
        line.append(self.author.as_str());
        line.append(" (");
        line.append(self.location.as_str());
        line.append(")");
        line
    }
}

/// A short public post.
#[derive(Debug)]
pub struct Tweet {
    pub username: String,
    pub content: String,
    pub reply: bool,
    pub retweet: bool,
}

impl Summary for Tweet {
    open spec fn summary(&self) -> Seq<char> {
        self.username@ + ": "@ + self.content@ + " "@
    }

    fn summarize(&self) -> (line: String) {
        let mut line = self.username.clone();
        line.append(": ");
        line.append(self.content.as_str());
        line.append(" ");
        line
    }
}

impl Tweet {
    /// How often this post was passed on.
    pub fn get_retweet_count(&self) -> (count: u64)
        ensures
            count == 4,
    {
        4
    }
}

/// The line that announces `item`.
pub fn notify<T: Summary>(item: &T) -> (line: String)
    ensures
        line@ == "Breaking news! "@ + item.summary(),
{
    let mut line = "Breaking news! ".to_owned();
    line.append(item.summarize().as_str());
    line
}

/// A post that stands for all there is to sum up.
pub fn returns_summarizable() -> (post: Tweet)
    ensures
        post.username@ == "horse_ebooks"@,
        post.content@ == "of course, as you probably already know, people"@,
        !post.reply,
        !post.retweet,
{
    Tweet {
        username: "horse_ebooks".to_owned(),
        content: "of course, as you probably already know, people".to_owned(),
        reply: false,
        retweet: false,
    }
}

} // verus!
