//! The coordinator on the rendering side: the list of cards, the settings,
//! and the flag that says whether a key was given.

use vstd::prelude::*;
use vstd::string::StringExecFns;
use crate::channel::{card_texts, CardText, ChannelView, ItemChannel, NewsCardData};
use crate::config::HeadlinesConfig;

verus! {

/// What the rendering side tells the worker.
#[derive(Clone, Debug, PartialEq, Eq)]
pub enum Msg {
    /// The user entered this API key.
    ApiKeySet(String),
}

/// Which of the two top-level views is rendered.
#[derive(Clone, Copy, Debug, PartialEq, Eq, Structural)]
pub enum Screen {
    /// The prompt that asks for an API key.
    Configuration,
    /// The list of headlines.
    Main,
}

/// What is to be done once the user has committed an API key: store these
/// settings, and send this message down the control channel.
#[derive(Clone, Debug)]
pub struct Submission {
    pub save: HeadlinesConfig,
    pub message: Msg,
}

/// The state of the rendering side.
pub struct Headlines {
    articles: Vec<NewsCardData>,
    config: HeadlinesConfig,
    api_key_initialized: bool,
}

/// What the coordinator holds.
pub ghost struct HeadlinesView {
    /// The cards of the list, in the order in which they arrived.
    pub articles: Seq<CardText>,
    pub dark_mode: bool,
    pub api_key: Seq<char>,
    pub api_key_initialized: bool,
}

impl HeadlinesView {
    /// The coordinator after it took everything that `channel` held.
    pub open spec fn after_preload(self, channel: ChannelView) -> HeadlinesView {
        HeadlinesView { articles: self.articles + channel.queued, ..self }
    }

    /// The coordinator after the user committed `api_key`.
    pub open spec fn after_submission(self, api_key: Seq<char>) -> HeadlinesView {
        HeadlinesView { api_key, api_key_initialized: true, ..self }
    }

    /// The view that is rendered in this state.
    pub open spec fn screen(self) -> Screen {
        if self.api_key_initialized {
            Screen::Main
        } else {
            Screen::Configuration
        }
    }
}

impl View for Headlines {
    type V = HeadlinesView;

    closed spec fn view(&self) -> HeadlinesView {
        HeadlinesView {
            articles: card_texts(self.articles@),
            dark_mode: self.config.dark_mode,
            api_key: self.config.api_key@,
            api_key_initialized: self.api_key_initialized,
        }
    }
}

impl Headlines {
    /// The coordinator at startup, with the settings that were loaded: an
    /// empty list, and the key counted as given exactly if the settings
    /// hold one.
    pub fn new(config: HeadlinesConfig) -> (headlines: Headlines)
        ensures
            headlines@ == (HeadlinesView {
                articles: Seq::empty(),
                dark_mode: config.dark_mode,
                api_key: config.api_key@,
                api_key_initialized: config.api_key@.len() > 0,
            }),
    {
        let api_key_initialized = !config.api_key.as_str().is_empty();
        let headlines = Headlines { articles: Vec::new(), config, api_key_initialized };
        assert(card_texts(headlines.articles@) =~= Seq::empty());
        headlines
    }

    /// The cards of the list, oldest first.
    pub fn articles(&self) -> (articles: &Vec<NewsCardData>)
        ensures
            card_texts(articles@) == self@.articles,
    {
        &self.articles
    }

    /// The current settings.
    pub fn config(&self) -> (config: &HeadlinesConfig)
        ensures
            config.dark_mode == self@.dark_mode,
            config.api_key@ == self@.api_key,
    {
        &self.config
    }

    /// Whether an API key was given, at startup or since.
    pub fn api_key_initialized(&self) -> (initialized: bool)
        ensures
            initialized == self@.api_key_initialized,
    {
        self.api_key_initialized
    }

    /// The view to render: the prompt until a key was given, the list after.
    pub fn screen(&self) -> (screen: Screen)
        ensures
            screen == self@.screen(),
    {
        if self.api_key_initialized {
            Screen::Main
        } else {
            Screen::Configuration
        }
    }

    /// Takes every card that the channel holds, without waiting for more,
    /// and appends them to the list in the order in which they were sent.
    /// Where the channel holds nothing, nothing changes.
    pub fn preload_articles(&mut self, news_rx: &mut ItemChannel)
        ensures
            final(self)@ == old(self)@.after_preload(old(news_rx)@),
            final(news_rx)@ == old(news_rx)@.drained(),
            old(news_rx)@.queued.len() == 0 ==> final(self)@ == old(self)@ && final(news_rx)@
                == old(news_rx)@,
    {
        let ghost arrived = news_rx@.queued;
        let ghost taken: Seq<CardText> = Seq::empty();
        assert(arrived.skip(0) =~= arrived);
        assert(self@.articles + taken =~= self@.articles);
        while news_rx.len() > 0
            invariant
                taken.len() <= arrived.len(),
                news_rx@ == (ChannelView {
                    queued: arrived.skip(taken.len() as int),
                    ..old(news_rx)@
                }),
                taken == arrived.take(taken.len() as int),
                self@ == (HeadlinesView {
                    articles: old(self)@.articles + taken,
                    ..old(self)@
                }),
                arrived == old(news_rx)@.queued,
            decreases news_rx@.queued.len(),
        {
            let ghost before = self@;
            let ghost count = taken.len() as int;
            match news_rx.try_recv() {
                Ok(card) => {
                    self.articles.push(card);
                    proof {
                        assert(card@ == arrived[count]);
                        taken = taken.push(card@);
                        assert(taken =~= arrived.take(count + 1));
                        assert(arrived.skip(count).skip(1) =~= arrived.skip(count + 1));
                        assert(card_texts(self.articles@) =~= before.articles.push(card@));
                        assert(before.articles.push(card@) =~= old(self)@.articles + taken);
                    }
                },
                Err(_) => {
                    assert(false);
                },
            }
        }
        assert(taken =~= arrived);
        assert(arrived.skip(arrived.len() as int) =~= Seq::empty());
        assert(old(news_rx)@.queued.len() == 0 ==> old(self)@.articles + arrived =~= old(
            self,
        )@.articles);
    }

    /// Commits the API key that the user entered: the settings now hold it,
    /// the key counts as given, and the list and the theme stay as they
    /// were. Hands back what is to be stored and what is to be sent to the
    /// worker.
    pub fn submit_api_key(&mut self, api_key: &str) -> (submission: Submission)
        ensures
            final(self)@ == old(self)@.after_submission(api_key@),
            submission.save.dark_mode == old(self)@.dark_mode,
            submission.save.api_key@ == api_key@,
            submission.message matches Msg::ApiKeySet(sent) && sent@ == api_key@,
    {
        self.config.api_key = String::from_str(api_key);
        self.api_key_initialized = true;
        Submission {
            save: self.config.snapshot(),
            message: Msg::ApiKeySet(String::from_str(api_key)),
        }
    }

    /// Switches between the dark and the light theme. Nothing else changes,
    /// and nothing is handed out to be stored.
    pub fn toggle_theme(&mut self)
        ensures
            final(self)@ == (HeadlinesView { dark_mode: !old(self)@.dark_mode, ..old(self)@ }),
    {
        self.config.dark_mode = !self.config.dark_mode;
    }
}

/// The coordinator after a run of render ticks. Each tick takes everything
/// that the channel holds; between one tick and the next the worker sends
/// the next of `batches`; a last tick follows the last batch.
pub open spec fn after_ticks(
    headlines: HeadlinesView,
    channel: ChannelView,
    batches: Seq<Seq<CardText>>,
) -> HeadlinesView
    decreases batches.len(),
{
    if batches.len() == 0 {
        headlines.after_preload(channel)
    } else {
        after_ticks(
            headlines.after_preload(channel),
            channel.drained().after_sends(batches.first()),
            batches.drop_first(),
        )
    }
}

/// The item channel and the coordinator never reorder and never drop: however
/// the cards that the worker sends to an open channel are spread over the
/// ticks, the list ends as what it was, then what the channel held, then the
/// cards in the order in which they were sent. Nothing else of the
/// coordinator changes.
pub proof fn lemma_ticks_keep_order(
    headlines: HeadlinesView,
    channel: ChannelView,
    batches: Seq<Seq<CardText>>,
)
    requires
        !channel.closed,
    ensures
        after_ticks(headlines, channel, batches) == (HeadlinesView {
            articles: headlines.articles + channel.queued + batches.flatten(),
            ..headlines
        }),
    decreases batches.len(),
{
    if batches.len() == 0 {
        assert(batches.flatten() =~= Seq::<CardText>::empty());
        assert(headlines.articles + channel.queued + batches.flatten() =~= headlines.articles
            + channel.queued);
    } else {
        let next = channel.drained().after_sends(batches.first());
        lemma_ticks_keep_order(headlines.after_preload(channel), next, batches.drop_first());
        assert(next.queued =~= batches.first());
        assert(batches.flatten() =~= batches.first() + batches.drop_first().flatten());
        assert(headlines.articles + channel.queued + next.queued
            + batches.drop_first().flatten() =~= headlines.articles + channel.queued
            + batches.flatten());
    }
}

/// Two runs of ticks over which the same cards are sent in the same order
/// end with the same list, however many ticks either run takes.
pub proof fn lemma_ticks_count_is_immaterial(
    headlines: HeadlinesView,
    channel: ChannelView,
    batches: Seq<Seq<CardText>>,
    other_batches: Seq<Seq<CardText>>,
)
    requires
        !channel.closed,
        batches.flatten() == other_batches.flatten(),
    ensures
        after_ticks(headlines, channel, batches) == after_ticks(
            headlines,
            channel,
            other_batches,
        ),
{
    lemma_ticks_keep_order(headlines, channel, batches);
    lemma_ticks_keep_order(headlines, channel, other_batches);
}

} // verus!
