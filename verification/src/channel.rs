//! The items that travel from the worker to the list, and the queue that
//! carries them.

use vstd::prelude::*;
use vstd::string::StringExecFns;
use crate::article::{Article, ArticleText};

verus! {

/// One entry of the list as it is shown: a title, a description and a link.
#[derive(Clone, Debug, PartialEq, Eq)]
pub struct NewsCardData {
    pub title: String,
    pub desc: String,
    pub url: String,
}

/// The text of a card.
pub ghost struct CardText {
    pub title: Seq<char>,
    pub desc: Seq<char>,
    pub url: Seq<char>,
}

impl View for NewsCardData {
    type V = CardText;

    open spec fn view(&self) -> CardText {
        CardText { title: self.title@, desc: self.desc@, url: self.url@ }
    }
}

/// The texts of a sequence of cards, in the same order.
pub open spec fn card_texts(cards: Seq<NewsCardData>) -> Seq<CardText> {
    cards.map_values(|card: NewsCardData| card@)
}

/// The card that shows an article: its title and link, and its description
/// or, where it has none, three dots.
pub open spec fn card_of(article: ArticleText) -> CardText {
    CardText {
        title: article.title,
        desc: match article.description {
            Some(text) => text,
            None => "..."@,
        },
        url: article.url,
    }
}

/// The cards that show a sequence of articles, in the same order.
pub open spec fn cards_of(articles: Seq<ArticleText>) -> Seq<CardText> {
    articles.map_values(|article: ArticleText| card_of(article))
}

impl NewsCardData {
    /// The card that shows `article`.
    pub fn from_article(article: &Article) -> (card: NewsCardData)
        ensures
            card@ == card_of(article@),
    {
        NewsCardData {
            title: article.title.clone(),
            desc: match &article.description {
                Some(text) => text.clone(),
                None => String::from_str("..."),
            },
            url: article.url.clone(),
        }
    }
}

/// Why nothing was received.
#[derive(Clone, Copy, Debug, PartialEq, Eq, Structural)]
pub enum TryRecvError {
    /// Nothing is queued, but more may come.
    Empty,
    /// Nothing is queued and the channel is closed: nothing will come.
    Disconnected,
}

/// The item channel: a first-in, first-out queue of cards that can be closed.
/// Once closed it takes no more items; what it holds can still be received.
pub struct ItemChannel {
    queue: Vec<NewsCardData>,
    closed: bool,
}

/// What an item channel holds.
pub ghost struct ChannelView {
    /// The cards that were sent and not yet received, oldest first.
    pub queued: Seq<CardText>,
    pub closed: bool,
}

impl ChannelView {
    /// The channel after `card` was offered to it.
    pub open spec fn after_send(self, card: CardText) -> ChannelView {
        if self.closed {
            self
        } else {
            ChannelView { queued: self.queued.push(card), ..self }
        }
    }

    /// The channel after each of `cards` was offered to it, in order.
    pub open spec fn after_sends(self, cards: Seq<CardText>) -> ChannelView {
        if self.closed {
            self
        } else {
            ChannelView { queued: self.queued + cards, ..self }
        }
    }

    /// The channel after everything it held was received.
    pub open spec fn drained(self) -> ChannelView {
        ChannelView { queued: Seq::empty(), ..self }
    }
}

impl View for ItemChannel {
    type V = ChannelView;

    closed spec fn view(&self) -> ChannelView {
        ChannelView { queued: card_texts(self.queue@), closed: self.closed }
    }
}

impl ItemChannel {
    /// An open channel that holds nothing.
    pub fn new() -> (channel: ItemChannel)
        ensures
            channel@ == (ChannelView { queued: Seq::empty(), closed: false }),
    {
        let channel = ItemChannel { queue: Vec::new(), closed: false };
        assert(card_texts(channel.queue@) =~= Seq::empty());
        channel
    }

    /// Offers `card` to the channel. An open channel queues it behind what it
    /// holds; a closed one hands it back and stays as it was.
    pub fn send(&mut self, card: NewsCardData) -> (sent: Result<(), NewsCardData>)
        ensures
            final(self)@ == old(self)@.after_send(card@),
            match sent {
                Ok(_) => !old(self)@.closed,
                Err(returned) => old(self)@.closed && returned == card,
            },
    {
        if self.closed {
            Err(card)
        } else {
            self.queue.push(card);
            assert(card_texts(self.queue@) =~= card_texts(old(self).queue@).push(card@));
            Ok(())
        }
    }

    /// Takes the oldest queued card, without waiting. Where nothing is
    /// queued the channel stays as it was, and the error says whether more
    /// may come.
    pub fn try_recv(&mut self) -> (received: Result<NewsCardData, TryRecvError>)
        ensures
            match received {
                Ok(card) => old(self)@.queued.len() > 0 && card@ == old(self)@.queued[0]
                    && final(self)@ == (ChannelView {
                    queued: old(self)@.queued.skip(1),
                    ..old(self)@
                }),
                Err(error) => old(self)@.queued.len() == 0 && final(self)@ == old(self)@
                    && error == if old(self)@.closed {
                    TryRecvError::Disconnected
                } else {
                    TryRecvError::Empty
                },
            },
    {
        if self.queue.len() > 0 {
            let card = self.queue.remove(0);
            assert(card_texts(self.queue@) =~= card_texts(old(self).queue@).skip(1));
            Ok(card)
        } else if self.closed {
            Err(TryRecvError::Disconnected)
        } else {
            Err(TryRecvError::Empty)
        }
    }

    /// Closes the channel: from now on it takes no more items.
    pub fn close(&mut self)
        ensures
            final(self)@ == (ChannelView { closed: true, ..old(self)@ }),
    {
        self.closed = true;
    }

    /// How many cards are queued.
    pub fn len(&self) -> (count: usize)
        ensures
            count == self@.queued.len(),
    {
        self.queue.len()
    }

    pub fn is_closed(&self) -> (closed: bool)
        ensures
            closed == self@.closed,
    {
        self.closed
    }
}

} // verus!
