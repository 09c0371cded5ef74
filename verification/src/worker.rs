//! The background worker: it waits for an API key where none is known,
//! fetches once, and sends what it fetched to the item channel.
//!
//! The worker is a state machine. Its driver polls the control channel and
//! performs the exchange with the service, and reports to the worker what
//! came of either. A worker fetches at most once: a key that arrives after
//! the first is not acted upon.

use vstd::prelude::*;
use vstd::string::StringExecFns;
use crate::article::{article_texts, Article};
use crate::channel::{card_of, cards_of, CardText, ItemChannel, NewsCardData};
use crate::client::{
    reply_outcome, request_address, Country, Endpoint, FetchRequest, NewsAPI, Reply,
};
use crate::coordinator::Msg;

verus! {

/// The cards that a reply yields: one for each article of an envelope whose
/// status is `ok`, in the envelope's order, and none for any other reply.
pub open spec fn news_of(reply: Reply) -> Seq<CardText> {
    match reply_outcome(reply) {
        Ok(envelope) => cards_of(envelope@.articles),
        Err(_) => Seq::empty(),
    }
}

/// Sends one card for each of `articles` to the channel, in order, one send
/// for each.
fn send_cards(articles: &Vec<Article>, news_tx: &mut ItemChannel)
    ensures
        final(news_tx)@ == old(news_tx)@.after_sends(cards_of(article_texts(articles@))),
{
    let ghost texts = article_texts(articles@);
    let mut i: usize = 0;
    assert(old(news_tx)@.queued + cards_of(texts.take(0)) =~= old(news_tx)@.queued);
    while i < articles.len()
        invariant
            i <= articles.len(),
            texts == article_texts(articles@),
            news_tx@ == old(news_tx)@.after_sends(cards_of(texts.take(i as int))),
        decreases articles.len() - i,
    {
        let ghost before = news_tx@;
        let card = NewsCardData::from_article(&articles[i]);
        let _ = news_tx.send(card);
        proof {
            assert(texts[i as int] == articles[i as int]@);
            assert(cards_of(texts.take(i + 1)) =~= cards_of(texts.take(i as int)).push(
                card_of(texts[i as int]),
            ));
            assert(before.after_send(card@).queued =~= old(news_tx)@.after_sends(
                cards_of(texts.take(i + 1)),
            ).queued);
        }
        i = i + 1;
    }
    assert(texts.take(articles.len() as int) =~= texts);
}

/// Concludes a fetch: where the reply is an envelope whose status is `ok`,
/// sends one card for each of its articles to the channel, in order. Any
/// other reply sends nothing. A closed channel takes nothing.
pub fn fetch_news(reply: Reply, news_tx: &mut ItemChannel)
    ensures
        final(news_tx)@ == old(news_tx)@.after_sends(news_of(reply)),
        reply_outcome(reply) is Err ==> final(news_tx)@ == old(news_tx)@,
{
    match NewsAPI::receive(reply) {
        Ok(response) => {
            send_cards(response.articles(), news_tx);
        },
        Err(_) => {
            assert(old(news_tx)@.queued + Seq::<CardText>::empty() =~= old(news_tx)@.queued);
        },
    }
}

/// Where the worker stands.
#[derive(Clone, Debug, PartialEq, Eq)]
pub enum WorkerState {
    /// No key is known yet: the worker polls the control channel for one.
    AwaitingKey,
    /// The worker holds this key and its one fetch is due or under way.
    Fetching(String),
    /// The worker has finished, and does nothing more.
    Done,
}

/// What a poll of the control channel found.
#[derive(Clone, Debug, PartialEq, Eq)]
pub enum Control {
    /// A message from the rendering side.
    Message(Msg),
    /// Nothing yet.
    Empty,
    /// The rendering side is gone: nothing will come.
    Disconnected,
}

/// What the worker's driver is to do next.
#[derive(Clone, Debug, PartialEq, Eq)]
pub enum WorkerAction {
    /// Poll the control channel and report what was found.
    Poll,
    /// Send this request and report the reply.
    Send(FetchRequest),
    /// Stop: the worker has finished.
    Stop,
}

/// Where a worker stands, as text.
pub ghost enum WorkerView {
    AwaitingKey,
    Fetching(Seq<char>),
    Done,
}

impl WorkerView {
    /// The state with which a worker starts, given the key that is known at
    /// that time.
    pub open spec fn start(api_key: Seq<char>) -> WorkerView {
        if api_key.len() > 0 {
            WorkerView::Fetching(api_key)
        } else {
            WorkerView::AwaitingKey
        }
    }

    /// The state after a poll of the control channel found `control`. Only
    /// a worker that awaits a key takes note of it.
    pub open spec fn after_control(self, control: Control) -> WorkerView {
        match (self, control) {
            (WorkerView::AwaitingKey, Control::Message(Msg::ApiKeySet(key))) => WorkerView::Fetching(
                key@,
            ),
            (WorkerView::AwaitingKey, Control::Disconnected) => WorkerView::Done,
            _ => self,
        }
    }

    /// The state after the reply to the worker's request was reported.
    pub open spec fn after_reply(self) -> WorkerView {
        match self {
            WorkerView::Fetching(_) => WorkerView::Done,
            _ => self,
        }
    }

    /// Whether a fetch is due or under way.
    pub open spec fn fetching(self) -> bool {
        self is Fetching
    }
}

/// The background worker.
pub struct Worker {
    state: WorkerState,
}

impl View for Worker {
    type V = WorkerView;

    closed spec fn view(&self) -> WorkerView {
        match self.state {
            WorkerState::AwaitingKey => WorkerView::AwaitingKey,
            WorkerState::Fetching(key) => WorkerView::Fetching(key@),
            WorkerState::Done => WorkerView::Done,
        }
    }
}

impl Worker {
    /// A worker as it is spawned: with a key it is about to fetch, without
    /// one it awaits a key.
    pub fn new(api_key: &str) -> (worker: Worker)
        ensures
            worker@ == WorkerView::start(api_key@),
    {
        if api_key.is_empty() {
            Worker { state: WorkerState::AwaitingKey }
        } else {
            Worker { state: WorkerState::Fetching(String::from_str(api_key)) }
        }
    }

    /// Where the worker stands.
    pub fn state(&self) -> (state: &WorkerState)
        ensures
            match *state {
                WorkerState::AwaitingKey => self@ == WorkerView::AwaitingKey,
                WorkerState::Fetching(key) => self@ == WorkerView::Fetching(key@),
                WorkerState::Done => self@ == WorkerView::Done,
            },
    {
        &self.state
    }

    /// What the driver is to do next. A worker that awaits a key asks for a
    /// poll. A worker that holds a key asks for its request to be sent, with
    /// the key as the authorization; where the request's address cannot be
    /// composed the fetch is abandoned and the worker has finished. A worker
    /// that has finished asks to stop. Asking does not start the fetch: until
    /// the reply is reported with `replied`, the worker names the same
    /// request again, and the driver is to send it once.
    pub fn action(&mut self) -> (action: WorkerAction)
        ensures
            match old(self)@ {
                WorkerView::AwaitingKey => action == WorkerAction::Poll && final(self)@ == old(
                    self,
                )@,
                WorkerView::Fetching(key) => match action {
                    WorkerAction::Send(request) => final(self)@ == old(self)@
                        && request.authorization@ == key && request_address(
                        Endpoint::TopHeadlines,
                        Country::Us,
                    ) == Some(request.url@),
                    WorkerAction::Stop => final(self)@ == WorkerView::Done && request_address(
                        Endpoint::TopHeadlines,
                        Country::Us,
                    ) is None,
                    WorkerAction::Poll => false,
                },
                WorkerView::Done => action == WorkerAction::Stop && final(self)@ == old(self)@,
            },
    {
        match &self.state {
            WorkerState::AwaitingKey => WorkerAction::Poll,
            WorkerState::Fetching(key) => {
                match NewsAPI::new(key.as_str()).request() {
                    Ok(request) => WorkerAction::Send(request),
                    Err(_) => {
                        self.state = WorkerState::Done;
                        WorkerAction::Stop
                    },
                }
            },
            WorkerState::Done => WorkerAction::Stop,
        }
    }

    /// Reports what a poll of the control channel found. A worker that
    /// awaits a key takes the key of a message and is then about to fetch;
    /// it keeps waiting where nothing was found, and has finished where the
    /// channel is disconnected. In any other state nothing changes.
    pub fn control(&mut self, control: Control)
        ensures
            final(self)@ == old(self)@.after_control(control),
    {
        match &self.state {
            WorkerState::AwaitingKey => {
                match control {
                    Control::Message(Msg::ApiKeySet(key)) => {
                        self.state = WorkerState::Fetching(key);
                    },
                    Control::Empty => {},
                    Control::Disconnected => {
                        self.state = WorkerState::Done;
                    },
                }
            },
            _ => {},
        }
    }

    /// Reports the reply to the worker's request. A worker whose fetch was
    /// under way sends the reply's cards to the channel, as `fetch_news`
    /// does, and has finished. In any other state nothing is sent and
    /// nothing changes.
    pub fn replied(&mut self, reply: Reply, news_tx: &mut ItemChannel)
        ensures
            final(self)@ == old(self)@.after_reply(),
            final(news_tx)@ == if old(self)@.fetching() {
                old(news_tx)@.after_sends(news_of(reply))
            } else {
                old(news_tx)@
            },
    {
        match &self.state {
            WorkerState::Fetching(_) => {
                fetch_news(reply, news_tx);
                self.state = WorkerState::Done;
            },
            _ => {},
        }
    }
}

/// A worker fetches at most once: after the reply to its request was
/// reported it never fetches again, whatever the control channel brings, and
/// a worker that has finished stays so.
pub proof fn lemma_worker_is_single_shot(worker: WorkerView, control: Control)
    requires
        worker.fetching() || worker is Done,
    ensures
        worker.after_reply() is Done,
        worker.after_reply().after_control(control) is Done,
        worker.after_reply().after_reply() is Done,
{
}

/// A worker fetches only with a key: spawned without one, it is not about
/// to fetch until a message brings a key, and that key is the one it then
/// presents.
pub proof fn lemma_worker_awaits_key(control: Control)
    ensures
        !WorkerView::start(Seq::empty()).fetching(),
        match control {
            Control::Message(Msg::ApiKeySet(key)) => WorkerView::start(
                Seq::empty(),
            ).after_control(control) == WorkerView::Fetching(key@),
            _ => !WorkerView::start(Seq::empty()).after_control(control).fetching(),
        },
{
}

} // verus!
