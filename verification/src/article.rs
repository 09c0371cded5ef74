//! Articles and the envelope in which the service returns them.

use vstd::prelude::*;

verus! {

/// One headline: a title, a link and, where the service gave one, a
/// description.
#[derive(Clone, Debug, PartialEq, Eq)]
pub struct Article {
    pub title: String,
    pub url: String,
    pub description: Option<String>,
}

/// The text of an article.
pub ghost struct ArticleText {
    pub title: Seq<char>,
    pub url: Seq<char>,
    pub description: Option<Seq<char>>,
}

/// The text of an optional string.
pub open spec fn optional_text(value: Option<String>) -> Option<Seq<char>> {
    match value {
        Some(text) => Some(text@),
        None => None,
    }
}

impl View for Article {
    type V = ArticleText;

    open spec fn view(&self) -> ArticleText {
        ArticleText {
            title: self.title@,
            url: self.url@,
            description: optional_text(self.description),
        }
    }
}

impl Article {
    pub fn title(&self) -> (title: &str)
        ensures
            title@ == self@.title,
    {
        self.title.as_str()
    }

    pub fn url(&self) -> (url: &str)
        ensures
            url@ == self@.url,
    {
        self.url.as_str()
    }

    /// The description, absent where the service gave none. No default text
    /// stands in for an absent description here.
    pub fn desc(&self) -> (desc: Option<&String>)
        ensures
            match desc {
                Some(text) => self.description == Some(*text),
                None => self.description is None,
            },
    {
        self.description.as_ref()
    }
}

/// The envelope of a reply: a status, the articles, and an error code where
/// the status is not `ok`.
#[derive(Clone, Debug, PartialEq, Eq)]
pub struct NewsAPIResponse {
    pub articles: Vec<Article>,
    pub status: String,
    pub code: Option<String>,
}

/// The text of an envelope.
pub ghost struct EnvelopeText {
    pub articles: Seq<ArticleText>,
    pub status: Seq<char>,
    pub code: Option<Seq<char>>,
}

/// The texts of a sequence of articles, in the same order.
pub open spec fn article_texts(articles: Seq<Article>) -> Seq<ArticleText> {
    articles.map_values(|article: Article| article@)
}

impl View for NewsAPIResponse {
    type V = EnvelopeText;

    open spec fn view(&self) -> EnvelopeText {
        EnvelopeText {
            articles: article_texts(self.articles@),
            status: self.status@,
            code: optional_text(self.code),
        }
    }
}

impl NewsAPIResponse {
    pub fn articles(&self) -> (articles: &Vec<Article>)
        ensures
            *articles == self.articles,
    {
        &self.articles
    }
}

} // verus!
