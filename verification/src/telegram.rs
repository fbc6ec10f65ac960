//! The Telegram Bot API: what is asked of it and what its answers mean.

use crate::json;
use crate::json::{named, text_value, Json, JsonView, Member};
use crate::text;
use crate::text::{contains, trim};
use vstd::prelude::*;
use vstd::string::*;

verus! {

/// News from Telegram.
#[derive(Debug, Clone)]
pub struct TelegramUpdate {
    pub update_id: i64,
    pub message: Option<TelegramMessage>,
}

/// A message of a chat.
#[derive(Debug, Clone)]
pub struct TelegramMessage {
    pub message_id: i64,
    pub chat: TelegramChat,
    pub from: Option<TelegramUser>,
    pub text: Option<String>,
}

/// A chat; a private one has the kind `private`.
#[derive(Debug, Clone)]
pub struct TelegramChat {
    pub id: i64,
    pub kind: String,
}

/// Who wrote a message.
#[derive(Debug, Clone)]
pub struct TelegramUser {
    pub id: i64,
}

/// A message as mathematics.
pub struct MessageView {
    pub message_id: i64,
    pub chat_id: i64,
    pub chat_kind: Seq<char>,
    /// The id of the user who wrote it.
    pub from: Option<i64>,
    pub text: Option<Seq<char>>,
}

impl View for TelegramMessage {
    type V = MessageView;

    open spec fn view(&self) -> MessageView {
        MessageView {
            message_id: self.message_id,
            chat_id: self.chat.id,
            chat_kind: self.chat.kind@,
            from: match self.from {
                Some(user) => Some(user.id),
                None => None,
            },
            text: text::text_view(self.text),
        }
    }
}

/// The API as it is reached with one bot token.
#[derive(Debug, Clone)]
pub struct TelegramClient {
    base_url: String,
}

impl View for TelegramClient {
    type V = Seq<char>;

    /// The address that the names of the methods are added to.
    closed spec fn view(&self) -> Seq<char> {
        self.base_url@
    }
}

/// A request that is to be posted.
#[derive(Debug)]
pub struct TelegramRequest {
    /// The method that is called.
    pub method: String,
    /// The address to post to.
    pub url: String,
    /// What to post.
    pub body: Json,
}

/// A request as mathematics.
pub struct TelegramRequestView {
    pub method: Seq<char>,
    pub url: Seq<char>,
    pub body: JsonView,
}

impl View for TelegramRequest {
    type V = TelegramRequestView;

    open spec fn view(&self) -> TelegramRequestView {
        TelegramRequestView { method: self.method@, url: self.url@, body: self.body@ }
    }
}

/// The call of `method` with the members `body`, at the address `base_url`.
pub open spec fn call_of(
    base_url: Seq<char>,
    method: Seq<char>,
    body: Seq<(Seq<char>, JsonView)>,
) -> TelegramRequestView {
    TelegramRequestView {
        method,
        url: base_url + "/"@ + method,
        body: JsonView::Object(json::object_of(body)),
    }
}

/// An integer as JSON.
pub open spec fn integer(n: i64) -> JsonView {
    if n < 0 {
        JsonView::Negative(n)
    } else {
        JsonView::Unsigned(n as u64)
    }
}

/// The members of `getUpdates`: an offset is given only where there is one.
pub open spec fn get_updates_body(offset: Option<i64>, timeout: u64, limit: u32) -> Seq<
    (Seq<char>, JsonView),
> {
    let rest = seq![
        ("timeout"@, JsonView::Unsigned(timeout)),
        ("limit"@, JsonView::Unsigned(limit as u64)),
    ];
    match offset {
        Some(n) => seq![("offset"@, integer(n))] + rest,
        None => rest,
    }
}

/// The members of `sendMessage`.
pub open spec fn send_message_body(chat_id: i64, text: Seq<char>) -> Seq<(Seq<char>, JsonView)> {
    seq![("chat_id"@, integer(chat_id)), ("text"@, JsonView::Text(text))]
}

/// The members of `editMessageText`.
pub open spec fn edit_message_body(chat_id: i64, message_id: i64, text: Seq<char>) -> Seq<
    (Seq<char>, JsonView),
> {
    seq![
        ("chat_id"@, integer(chat_id)),
        ("message_id"@, integer(message_id)),
        ("text"@, JsonView::Text(text)),
    ]
}

/// A bot token that is blank.
#[derive(Debug, PartialEq, Eq)]
pub struct EmptyToken;

impl EmptyToken {
    /// The words for the error.
    pub fn message(&self) -> (text: String)
        ensures
            text@ == "empty Telegram bot token"@,
    {
        "empty Telegram bot token".to_owned()
    }
}

impl TelegramClient {
    /// The API as it is reached with `bot_token`, which must not be blank.
    pub fn new(bot_token: String) -> (client: Result<TelegramClient, EmptyToken>)
        ensures
            match client {
                Ok(c) => text::trimmed(bot_token@).len() > 0 && c@
                    == "https://api.telegram.org/bot"@ + bot_token@,
                Err(_) => text::trimmed(bot_token@).len() == 0,
            },
    {
        if trim(bot_token.as_str()).is_empty() {
            return Err(EmptyToken);
        }
        let mut base_url = "https://api.telegram.org/bot".to_owned();
        base_url.append(bot_token.as_str());
        Ok(TelegramClient { base_url })
    }

    /// A copy of the client.
    pub fn duplicate(&self) -> (copy: TelegramClient)
        ensures
            copy@ == self@,
    {
        TelegramClient { base_url: self.base_url.clone() }
    }

    /// Asks for the updates from `offset` on, waiting up to `timeout` seconds for the first.
    pub fn get_updates(&self, offset: Option<i64>, timeout: u64, limit: u32) -> (request:
        TelegramRequest)
        ensures
            request@ == call_of(
                self@,
                "getUpdates"@,
                get_updates_body(offset, timeout, limit),
            ),
    {
        let mut members = Vec::new();
        match offset {
            Some(n) => {
                members.push(named("offset", Json::Signed(n)));
            },
            None => {},
        }
        members.push(named("timeout", Json::Unsigned(timeout)));
        members.push(named("limit", Json::Unsigned(limit as u64)));
        assert(json::member_views(members@) =~= get_updates_body(offset, timeout, limit));
        self.call("getUpdates", members)
    }

    /// Sends `text` to the chat.
    pub fn send_message(&self, chat_id: i64, text: &str) -> (request: TelegramRequest)
        ensures
            request@ == call_of(self@, "sendMessage"@, send_message_body(chat_id, text@)),
    {
        let mut members = Vec::new();
        members.push(named("chat_id", Json::Signed(chat_id)));
        members.push(named("text", text_value(text)));
        assert(json::member_views(members@) =~= send_message_body(chat_id, text@));
        self.call("sendMessage", members)
    }

    /// Replaces the text of a message.
    pub fn edit_message(&self, chat_id: i64, message_id: i64, text: &str) -> (request:
        TelegramRequest)
        ensures
            request@ == call_of(
                self@,
                "editMessageText"@,
                edit_message_body(chat_id, message_id, text@),
            ),
    {
        let mut members = Vec::new();
        members.push(named("chat_id", Json::Signed(chat_id)));
        members.push(named("message_id", Json::Signed(message_id)));
        members.push(named("text", text_value(text)));
        assert(json::member_views(members@) =~= edit_message_body(chat_id, message_id, text@));
        self.call("editMessageText", members)
    }

    fn call(&self, method: &str, members: Vec<Member>) -> (request: TelegramRequest)
        ensures
            request@ == call_of(self@, method@, json::member_views(members@)),
    {
        let mut url = self.base_url.clone();
        url.append("/");
        url.append(method);
        TelegramRequest { method: method.to_owned(), url, body: Json::Object(members) }
    }
}

/// What an answer of the API says.
#[derive(Debug)]
pub struct ApiResponse<T> {
    pub ok: bool,
    pub result: Option<T>,
    pub description: Option<String>,
}

/// The words that `reqwest::StatusCode` prints for an HTTP status code.
pub uninterp spec fn status_words(code: u16) -> Seq<char>;

/// Whether an HTTP status code reports success.
pub fn is_success(code: u16) -> (success: bool)
    ensures
        success == (200 <= code < 300),
{
    200 <= code && code < 300
}

/// `Display` of `reqwest::StatusCode`: the code and the reason that is customary for it.
/// The codes of HTTP are those from 100 to 999.
#[verifier::external_body]
fn status_text(code: u16) -> (words: String)
    requires
        100 <= code < 1000,
    ensures
        words@ == status_words(code),
{
    match reqwest::StatusCode::from_u16(code) {
        Ok(status) => status.to_string(),
        Err(_) => String::new(),
    }
}

/// What the answer to `method` means: it counts where both HTTP and the API report success and
/// there is a result. `status` is the HTTP status in words.
pub open spec fn meaning_of<T>(
    method: Seq<char>,
    http_success: bool,
    status: Seq<char>,
    response: ApiResponse<T>,
) -> Result<T, Seq<char>> {
    if !http_success || !response.ok {
        Err(
            "telegram "@ + method + " failed: "@ + match response.description {
                Some(words) => words@,
                None => "http "@ + status,
            },
        )
    } else {
        match response.result {
            Some(result) => Ok(result),
            None => Err("telegram "@ + method + " returned no result"@),
        }
    }
}

/// Reads the answer to `method` that came with the HTTP status `code`.
pub fn read_response<T>(method: &str, code: u16, response: ApiResponse<T>) -> (result: Result<
    T,
    String,
>)
    requires
        100 <= code < 1000,
    ensures
        match result {
            Ok(value) => meaning_of(method@, 200 <= code < 300, status_words(code), response)
                == Ok::<T, Seq<char>>(value),
            Err(words) => meaning_of(method@, 200 <= code < 300, status_words(code), response)
                == Err::<T, Seq<char>>(words@),
        },
{
    read_response_with(method, is_success(code), status_text(code).as_str(), response)
}

/// Reads the answer to `method`, given what HTTP reports and its status in words.
pub fn read_response_with<T>(
    method: &str,
    http_success: bool,
    status: &str,
    response: ApiResponse<T>,
) -> (result: Result<T, String>)
    ensures
        match result {
            Ok(value) => meaning_of(method@, http_success, status@, response) == Ok::<
                T,
                Seq<char>,
            >(value),
            Err(words) => meaning_of(method@, http_success, status@, response) == Err::<
                T,
                Seq<char>,
            >(words@),
        },
{
    let mut words = "telegram ".to_owned();
    words.append(method);
    if !http_success || !response.ok {
        words.append(" failed: ");
        match response.description {
            Some(description) => {
                words.append(description.as_str());
                assert(words@ =~= "telegram "@ + method@ + " failed: "@ + description@);
            },
            None => {
                words.append("http ");
                words.append(status);
                assert(words@ =~= "telegram "@ + method@ + " failed: "@ + ("http "@ + status@));
            },
        }
        return Err(words);
    }
    match response.result {
        Some(result) => Ok(result),
        None => {
            words.append(" returned no result");
            Err(words)
        },
    }
}

/// Whether an error says that another program polls with the same bot token.
pub open spec fn tells_poll_conflict(error: Seq<char>) -> bool {
    text::occurs_in(error, "terminated by other getUpdates request"@)
}

/// Whether an error says that another program polls with the same bot token.
pub fn is_telegram_poll_conflict(error: &str) -> (conflict: bool)
    ensures
        conflict == tells_poll_conflict(error@),
{
    contains(error, "terminated by other getUpdates request")
}

/// An error that the API describes as a poll conflict is still told as one in the words that the
/// failed call is reported with.
pub proof fn law_described_conflict_is_recognised<T>(
    method: Seq<char>,
    http_success: bool,
    status: Seq<char>,
    response: ApiResponse<T>,
)
    requires
        !http_success || !response.ok,
        response.description matches Some(words) && tells_poll_conflict(words@),
    ensures
        meaning_of(method, http_success, status, response) matches Err(words)
            && tells_poll_conflict(words),
{
    let part = "terminated by other getUpdates request"@;
    let words = response.description->0@;
    let at = choose|at: int| text::occurs_at(words, part, at);
    let front = "telegram "@ + method + " failed: "@;
    let whole = front + words;
    assert(whole.subrange(front.len() + at, front.len() + at + part.len()) =~= words.subrange(
        at,
        at + part.len(),
    ));
    assert(text::occurs_at(whole, part, front.len() + at));
}

} // verus!
