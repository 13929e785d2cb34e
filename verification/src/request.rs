//! A description of one HTTP call that says nothing of how it is carried out.

use vstd::prelude::*;

verus! {

/// An HTTP method abstraction
#[derive(Debug, Copy, Clone, PartialEq, Eq, Structural)]
pub enum Method {
    Get,
    Post,
}

/// An HTTP content type abstraction
#[derive(Debug, Copy, Clone, PartialEq, Eq, Structural)]
pub enum ContentType {
    FormUrlEncoded,
    Json,
}

/// An HTTP user agent abstraction
#[derive(Debug, Clone)]
pub struct UserAgent(pub String);

/// An abstraction for basic http request.
#[derive(Debug, Clone)]
pub struct Request {
    pub url: String,
    pub body: Option<String>,
    pub content_type: Option<ContentType>,
    pub user_agent: Option<UserAgent>,
    pub method: Method,
}

/// What a `Request` holds, with each string as its sequence of characters.
pub struct RequestView {
    pub url: Seq<char>,
    pub body: Option<Seq<char>>,
    pub content_type: Option<ContentType>,
    pub user_agent: Option<Seq<char>>,
    pub method: Method,
}

impl RequestView {
    /// A request that is sent with GET to `url`, with nothing else set.
    pub open spec fn get(url: Seq<char>) -> RequestView {
        RequestView { url, body: None, content_type: None, user_agent: None, method: Method::Get }
    }

    /// A request that is sent with POST to `url` and carries `body`.
    pub open spec fn post(
        url: Seq<char>,
        body: Seq<char>,
        content_type: Option<ContentType>,
    ) -> RequestView {
        RequestView { url, body: Some(body), content_type, user_agent: None, method: Method::Post }
    }
}

impl View for UserAgent {
    type V = Seq<char>;

    open spec fn view(&self) -> Seq<char> {
        self.0@
    }
}

impl View for Request {
    type V = RequestView;

    open spec fn view(&self) -> RequestView {
        RequestView {
            url: self.url@,
            body: match self.body {
                Some(body) => Some(body@),
                None => None,
            },
            content_type: self.content_type,
            user_agent: match self.user_agent {
                Some(agent) => Some(agent@),
                None => None,
            },
            method: self.method,
        }
    }
}

impl ContentType {
    /// The value of the `Content-Type` header that announces this content type.
    pub open spec fn header(self) -> Seq<char> {
        match self {
            ContentType::FormUrlEncoded => "application/www-form-url-encoded"@,
            ContentType::Json => "application/json"@,
        }
    }

    /// Returns the value of the `Content-Type` header that announces this
    /// content type.
    pub fn header_value(&self) -> (value: &'static str)
        ensures
            value@ == self.header(),
    {
        match *self {
            ContentType::FormUrlEncoded => "application/www-form-url-encoded",
            ContentType::Json => "application/json",
        }
    }
}

} // verus!
