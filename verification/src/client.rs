//! What an HTTP-backed connector keeps between requests: tokens, default
//! headers and the timeout to apply.

use std::collections::HashMap;
use std::time::Duration;
use vstd::prelude::*;

verus! {

/// The settings of an HTTP client.
pub struct Client {
    session_token: Option<String>,
    refresh_token: Option<String>,
    refresh_token_url: Option<String>,
    token: Option<String>,
    header: Option<HashMap<String, String>>,
    timeout: Option<Duration>,
}

/// The settings of a client as mathematics.
pub struct ClientView {
    pub session_token: Option<Seq<char>>,
    pub refresh_token: Option<Seq<char>>,
    pub refresh_token_url: Option<Seq<char>>,
    pub token: Option<Seq<char>>,
    pub header: Option<HashMap<String, String>>,
    pub timeout: Option<Duration>,
}

/// The text of `text`, where there is one.
pub open spec fn text_of(text: Option<String>) -> Option<Seq<char>> {
    match text {
        Some(held) => Some(held@),
        None => None,
    }
}

impl View for Client {
    type V = ClientView;

    closed spec fn view(&self) -> ClientView {
        ClientView {
            session_token: text_of(self.session_token),
            refresh_token: text_of(self.refresh_token),
            refresh_token_url: text_of(self.refresh_token_url),
            token: text_of(self.token),
            header: self.header,
            timeout: self.timeout,
        }
    }
}

impl Client {
    /// A client with nothing set.
    pub fn new() -> (client: Client)
        ensures
            client@ == (ClientView {
                session_token: None,
                refresh_token: None,
                refresh_token_url: None,
                token: None,
                header: None,
                timeout: None,
            }),
    {
        Client {
            session_token: None,
            refresh_token: None,
            refresh_token_url: None,
            token: None,
            header: None,
            timeout: None,
        }
    }

    /// The client with `timeout` as the time allowed for a request.
    pub fn with_timeout(self, timeout: Duration) -> (client: Client)
        ensures
            client@ == (ClientView { timeout: Some(timeout), ..self@ }),
    {
        let mut client = self;
        client.timeout = Some(timeout);
        client
    }

    /// The client with `headers` as the headers sent with every request.
    pub fn with_default_headers(self, headers: HashMap<String, String>) -> (client: Client)
        ensures
            client@ == (ClientView { header: Some(headers), ..self@ }),
    {
        let mut client = self;
        client.header = Some(headers);
        client
    }

    /// Keeps `token` as the token of the session.
    pub fn set_session_token(&mut self, token: String)
        ensures
            final(self)@ == (ClientView { session_token: Some(token@), ..old(self)@ }),
    {
        self.session_token = Some(token);
    }

    /// Keeps `refresh_token`, and `refresh_url` as the place to renew the
    /// session with it.
    pub fn set_refresh_token(&mut self, refresh_token: String, refresh_url: String)
        ensures
            final(self)@ == (ClientView {
                refresh_token: Some(refresh_token@),
                refresh_token_url: Some(refresh_url@),
                ..old(self)@
            }),
    {
        self.refresh_token = Some(refresh_token);
        self.refresh_token_url = Some(refresh_url);
    }

    /// The time allowed for a request, if one was set.
    pub fn timeout(&self) -> (timeout: Option<Duration>)
        ensures
            timeout == self@.timeout,
    {
        self.timeout
    }

    /// The headers sent with every request, if any were set.
    pub fn default_headers(&self) -> (headers: Option<&HashMap<String, String>>)
        ensures
            match headers {
                Some(held) => self@.header == Some(*held),
                None => self@.header is None,
            },
    {
        self.header.as_ref()
    }

    /// The token of the session, if one was set.
    pub fn session_token(&self) -> (token: Option<&String>)
        ensures
            match token {
                Some(held) => self@.session_token == Some(held@),
                None => self@.session_token is None,
            },
    {
        self.session_token.as_ref()
    }

    /// The token to renew the session with and the place to do so, if they
    /// were set.
    pub fn refresh_token(&self) -> (refresh: Option<(&String, &String)>)
        ensures
            match refresh {
                Some((token, url)) => self@.refresh_token == Some(token@)
                    && self@.refresh_token_url == Some(url@),
                None => self@.refresh_token is None || self@.refresh_token_url is None,
            },
    {
        match (&self.refresh_token, &self.refresh_token_url) {
            (Some(token), Some(url)) => Some((token, url)),
            _ => None,
        }
    }
}

} // verus!
