//! Headless core of a news-headlines reader: the API client's request and
//! response rules, the background worker's state machine, and the
//! coordinator that feeds fetched items into the list a front end renders.
//!
//! Nothing here performs I/O. A front end performs the HTTP exchange, the
//! persistence and the threading, and hands plain values to these functions.

pub mod address;
pub mod article;
pub mod channel;
pub mod client;
pub mod config;
pub mod coordinator;
pub mod error;
pub mod worker;

pub use article::{Article, NewsAPIResponse};
pub use channel::{ItemChannel, NewsCardData, TryRecvError};
pub use client::{map_response_error, Country, Endpoint, FetchRequest, NewsAPI, Reply};
pub use config::HeadlinesConfig;
pub use coordinator::{Headlines, Msg, Screen, Submission};
pub use error::NewsApiError;
pub use worker::{fetch_news, Control, Worker, WorkerAction, WorkerState};
