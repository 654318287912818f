//! The rules of the exchange with the assistant model: how a conversation
//! and a captured image are put to the model, and what is taken from its
//! reply.
//!
//! Sending the request and reading the reply off the wire is the host's
//! work. What is decided here is the shape of the request and which text and
//! which sources a reply is understood to hold.

use vstd::prelude::*;
use vstd::string::StrSliceExecFns;

verus! {

/// The thinking budget that lets the model think as long as it wants.
pub const UNLIMITED_THINKING_BUDGET: i32 = -1;

/// One earlier message of the conversation.
#[derive(Clone, Debug, PartialEq, Eq)]
pub struct ChatMessage {
    pub role: String,
    pub content: String,
}

/// One part of a turn.
#[derive(Clone, Debug, PartialEq, Eq)]
pub enum Part {
    /// Plain text.
    Text(String),
    /// Inline data of the given type, as transport text.
    InlineData { mime_type: String, data: String },
}

/// One turn of the conversation as the model is given it.
#[derive(Clone, Debug, PartialEq, Eq)]
pub struct Turn {
    pub role: String,
    pub parts: Vec<Part>,
}

/// What is put to the model.
#[derive(Clone, Debug, PartialEq, Eq)]
pub struct Request {
    /// The conversation, oldest turn first.
    pub contents: Vec<Turn>,
    /// Whether the model may ground its answer in a web search.
    pub search: bool,
    /// The thinking budget, where one is set.
    pub thinking_budget: Option<i32>,
}

/// The mathematical model of a [`Part`].
pub enum PartView {
    Text(Seq<char>),
    InlineData { mime_type: Seq<char>, data: Seq<char> },
}

/// The mathematical model of a [`Turn`].
pub struct TurnView {
    pub role: Seq<char>,
    pub parts: Seq<PartView>,
}

/// The mathematical model of a [`Request`].
pub struct RequestView {
    pub contents: Seq<TurnView>,
    pub search: bool,
    pub thinking_budget: Option<i32>,
}

impl View for Part {
    type V = PartView;

    open spec fn view(&self) -> PartView {
        match self {
            Part::Text(text) => PartView::Text(text@),
            Part::InlineData { mime_type, data } => PartView::InlineData {
                mime_type: mime_type@,
                data: data@,
            },
        }
    }
}

impl View for Turn {
    type V = TurnView;

    open spec fn view(&self) -> TurnView {
        TurnView { role: self.role@, parts: self.parts@.map_values(|part: Part| part@) }
    }
}

impl View for Request {
    type V = RequestView;

    open spec fn view(&self) -> RequestView {
        RequestView {
            contents: self.contents@.map_values(|turn: Turn| turn@),
            search: self.search,
            thinking_budget: self.thinking_budget,
        }
    }
}

/// The role under which the model knows a role of the conversation: its own
/// earlier answers are the `model`'s, every other role keeps its name.
pub open spec fn spec_model_role(role: Seq<char>) -> Seq<char> {
    if role == "assistant"@ {
        "model"@
    } else {
        role
    }
}

/// The thinking budget for a setting: unlimited where thinking is switched
/// on, none at all where it is switched off, and unset where nothing was
/// chosen.
pub open spec fn spec_thinking_budget(thinking_enabled: Option<bool>) -> Option<i32> {
    match thinking_enabled {
        Some(true) => Some(UNLIMITED_THINKING_BUDGET),
        Some(false) => Some(0i32),
        None => None,
    }
}

/// The turn that an earlier message becomes.
pub open spec fn history_turn(message: ChatMessage) -> TurnView {
    TurnView { role: spec_model_role(message.role@), parts: seq![PartView::Text(message.content@)] }
}

/// The turn that the current message becomes: the user's text, followed by
/// the image where there is one.
pub open spec fn current_turn(message: Seq<char>, image_data: Option<Seq<char>>) -> TurnView {
    TurnView {
        role: "user"@,
        parts: match image_data {
            Some(data) => seq![
                PartView::Text(message),
                PartView::InlineData { mime_type: "image/png"@, data },
            ],
            None => seq![PartView::Text(message)],
        },
    }
}

/// The request for a message: the earlier messages in their order, then the
/// current one.
pub open spec fn spec_build_request(
    message: Seq<char>,
    image_data: Option<Seq<char>>,
    grounding_enabled: Option<bool>,
    thinking_enabled: Option<bool>,
    chat_history: Seq<ChatMessage>,
) -> RequestView {
    RequestView {
        contents: chat_history.map_values(|earlier: ChatMessage| history_turn(earlier)).push(
            current_turn(message, image_data),
        ),
        search: grounding_enabled == Some(true),
        thinking_budget: spec_thinking_budget(thinking_enabled),
    }
}

/// The characters of an optional string.
pub open spec fn optional_text(text: Option<String>) -> Option<Seq<char>> {
    match text {
        Some(text) => Some(text@),
        None => None,
    }
}

/// Maps a role of the conversation to the role under which the model knows
/// it.
pub fn model_role(role: &String) -> (mapped: String)
    ensures
        mapped@ == spec_model_role(role@),
{
    let assistant = "assistant".to_owned();
    if *role == assistant {
        "model".to_owned()
    } else {
        role.clone()
    }
}

/// Chooses the thinking budget for a setting.
pub fn thinking_budget(thinking_enabled: Option<bool>) -> (budget: Option<i32>)
    ensures
        budget == spec_thinking_budget(thinking_enabled),
{
    match thinking_enabled {
        Some(true) => Some(UNLIMITED_THINKING_BUDGET),
        Some(false) => Some(0),
        None => None,
    }
}

/// Assembles the request for a message, an optional image as transport
/// text, and the conversation so far.
pub fn build_request(
    message: String,
    image_data: Option<String>,
    grounding_enabled: Option<bool>,
    thinking_enabled: Option<bool>,
    chat_history: &Vec<ChatMessage>,
) -> (request: Request)
    ensures
        request@ == spec_build_request(
            message@,
            optional_text(image_data),
            grounding_enabled,
            thinking_enabled,
            chat_history@,
        ),
{
    let ghost expected = spec_build_request(
        message@,
        optional_text(image_data),
        grounding_enabled,
        thinking_enabled,
        chat_history@,
    );
    let mut contents: Vec<Turn> = Vec::new();
    let mut index: usize = 0;
    while index < chat_history.len()
        invariant
            index <= chat_history.len(),
            contents@.len() == index,
            forall|i: int|
                0 <= i < index ==> (#[trigger] contents@[i])@ == history_turn(chat_history@[i]),
        decreases chat_history.len() - index,
    {
        let earlier = &chat_history[index];
        let mut parts: Vec<Part> = Vec::new();
        parts.push(Part::Text(earlier.content.clone()));
        let turn = Turn { role: model_role(&earlier.role), parts };
        assert(turn@.parts =~= seq![PartView::Text(earlier.content@)]);
        contents.push(turn);
        index = index + 1;
    }
    let mut parts: Vec<Part> = Vec::new();
    parts.push(Part::Text(message));
    match image_data {
        Some(data) => {
            parts.push(Part::InlineData { mime_type: "image/png".to_owned(), data });
        },
        None => {},
    }
    let turn = Turn { role: "user".to_owned(), parts };
    assert(turn@.parts =~= expected.contents.last().parts);
    contents.push(turn);
    let search = match grounding_enabled {
        Some(enabled) => enabled,
        None => false,
    };
    let request = Request { contents, search, thinking_budget: thinking_budget(thinking_enabled) };
    assert(request@.contents =~= expected.contents);
    request
}

/// A web page that the model drew on.
#[derive(Clone, Debug, PartialEq, Eq)]
pub struct WebInfo {
    pub uri: Option<String>,
    pub title: Option<String>,
}

/// One piece of grounding.
#[derive(Clone, Debug, PartialEq, Eq)]
pub struct GroundingChunk {
    pub web: Option<WebInfo>,
}

/// What the model says its answer is grounded in.
#[derive(Clone, Debug, PartialEq, Eq)]
pub struct GroundingMetadata {
    pub grounding_chunks: Option<Vec<GroundingChunk>>,
}

/// One candidate answer: the texts of its parts, and its grounding.
#[derive(Clone, Debug, PartialEq, Eq)]
pub struct Candidate {
    pub parts: Vec<String>,
    pub grounding_metadata: Option<GroundingMetadata>,
}

/// What the model sent back.
#[derive(Clone, Debug, PartialEq, Eq)]
pub struct Response {
    pub candidates: Vec<Candidate>,
    pub grounding_metadata: Option<GroundingMetadata>,
}

/// A source to cite.
#[derive(Clone, Debug, PartialEq, Eq)]
pub struct SourceInfo {
    pub title: String,
    pub uri: String,
}

/// What is taken from a response: the answer, and its sources where it has
/// any.
#[derive(Clone, Debug, PartialEq, Eq)]
pub struct Reply {
    pub text: String,
    pub sources: Option<Vec<SourceInfo>>,
}

/// The mathematical model of a [`SourceInfo`].
pub struct SourceView {
    pub title: Seq<char>,
    pub uri: Seq<char>,
}

/// The mathematical model of a [`Reply`].
pub struct ReplyView {
    pub text: Seq<char>,
    pub sources: Option<Seq<SourceView>>,
}

impl View for SourceInfo {
    type V = SourceView;

    open spec fn view(&self) -> SourceView {
        SourceView { title: self.title@, uri: self.uri@ }
    }
}

impl View for Reply {
    type V = ReplyView;

    open spec fn view(&self) -> ReplyView {
        ReplyView {
            text: self.text@,
            sources: match self.sources {
                Some(sources) => Some(sources@.map_values(|source: SourceInfo| source@)),
                None => None,
            },
        }
    }
}

/// The text has the scheme mark `://` at `index`.
pub open spec fn mark_at(text: Seq<char>, index: int) -> bool {
    &&& 0 <= index
    &&& index + 3 <= text.len()
    &&& text[index] == ':'
    &&& text[index + 1] == '/'
    &&& text[index + 2] == '/'
}

/// The position of the first scheme mark at or after `from`, or the length
/// of the text where there is none.
pub open spec fn first_mark(text: Seq<char>, from: int) -> int
    decreases text.len() - from,
{
    if from < 0 || from + 3 > text.len() {
        text.len() as int
    } else if mark_at(text, from) {
        from
    } else {
        first_mark(text, from + 1)
    }
}

/// The position of the first `/` in the range from `from` up to `until`, or
/// `until` where the range has none.
pub open spec fn first_slash(text: Seq<char>, from: int, until: int) -> int
    decreases until - from,
{
    if from < 0 || from >= until || until > text.len() {
        until
    } else if text[from] == '/' {
        from
    } else {
        first_slash(text, from + 1, until)
    }
}

/// The host of an address, for want of a title: what stands between the
/// first scheme mark and the next scheme mark or `/`, whichever comes
/// first; the whole address where it has no scheme mark.
pub open spec fn spec_host_of(uri: Seq<char>) -> Seq<char> {
    let mark = first_mark(uri, 0);
    if mark >= uri.len() {
        uri
    } else {
        let start = mark + 3;
        uri.subrange(start, first_slash(uri, start, first_mark(uri, start)))
    }
}

/// The source that a piece of grounding stands for: a web page with an
/// address, under its title or, for want of one, under its host.
pub open spec fn source_of(chunk: GroundingChunk) -> Option<SourceView> {
    match chunk.web {
        Some(web) => match web.uri {
            Some(uri) => Some(
                SourceView {
                    title: match web.title {
                        Some(title) => title@,
                        None => spec_host_of(uri@),
                    },
                    uri: uri@,
                },
            ),
            None => None,
        },
        None => None,
    }
}

/// The sources that pieces of grounding stand for, in their order.
pub open spec fn sources_of(chunks: Seq<GroundingChunk>) -> Seq<SourceView>
    decreases chunks.len(),
{
    if chunks.len() == 0 {
        Seq::empty()
    } else {
        match source_of(chunks.last()) {
            Some(source) => sources_of(chunks.drop_last()).push(source),
            None => sources_of(chunks.drop_last()),
        }
    }
}

/// The grounding that counts for a response: that of its first candidate,
/// or else that of the response as a whole.
pub open spec fn chosen_grounding(response: Response) -> Option<GroundingMetadata> {
    if response.candidates@.len() > 0 && response.candidates@[0].grounding_metadata is Some {
        response.candidates@[0].grounding_metadata
    } else {
        response.grounding_metadata
    }
}

/// The sources of a response, where it has any.
pub open spec fn spec_sources(response: Response) -> Option<Seq<SourceView>> {
    match chosen_grounding(response) {
        Some(metadata) => match metadata.grounding_chunks {
            Some(chunks) => if sources_of(chunks@).len() > 0 {
                Some(sources_of(chunks@))
            } else {
                None
            },
            None => None,
        },
        None => None,
    }
}

/// What is taken from a response: the text of the first part of the first
/// candidate together with the sources, or nothing where there is no such
/// text.
pub open spec fn spec_reply(response: Response) -> Option<ReplyView> {
    if response.candidates@.len() > 0 && response.candidates@[0].parts@.len() > 0 {
        Some(
            ReplyView {
                text: response.candidates@[0].parts@[0]@,
                sources: spec_sources(response),
            },
        )
    } else {
        None
    }
}

/// Finds the first scheme mark at or after `from` in a text of `len`
/// characters.
fn find_mark(text: &str, from: usize, len: usize) -> (found: usize)
    requires
        len == text@.len(),
        from <= len,
    ensures
        found == first_mark(text@, from as int),
        from <= found <= len,
        found < len ==> found + 3 <= len,
{
    let mut index = from;
    while index < len && len - index >= 3
        invariant
            len == text@.len(),
            from <= index <= len,
            first_mark(text@, from as int) == first_mark(text@, index as int),
        decreases len - index,
    {
        if text.get_char(index) == ':' && text.get_char(index + 1) == '/' && text.get_char(
            index + 2,
        ) == '/' {
            return index;
        }
        index = index + 1;
    }
    len
}

/// Finds the first `/` in the range from `from` up to `until`.
fn find_slash(text: &str, from: usize, until: usize) -> (found: usize)
    requires
        from <= until <= text@.len(),
    ensures
        found == first_slash(text@, from as int, until as int),
        from <= found <= until,
{
    let mut index = from;
    while index < until
        invariant
            from <= index <= until <= text@.len(),
            first_slash(text@, from as int, until as int) == first_slash(
                text@,
                index as int,
                until as int,
            ),
        decreases until - index,
    {
        if text.get_char(index) == '/' {
            return index;
        }
        index = index + 1;
    }
    until
}

/// Takes the host out of an address.
pub fn host_of(uri: &str) -> (host: String)
    ensures
        host@ == spec_host_of(uri@),
{
    let len = uri.unicode_len();
    let mark = find_mark(uri, 0, len);
    if mark >= len {
        return uri.to_owned();
    }
    let start = mark + 3;
    let next = find_mark(uri, start, len);
    let end = find_slash(uri, start, next);
    uri.substring_char(start, end).to_owned()
}

/// Turns pieces of grounding into the sources to cite.
pub fn collect_sources(chunks: &Vec<GroundingChunk>) -> (sources: Vec<SourceInfo>)
    ensures
        sources@.map_values(|source: SourceInfo| source@) == sources_of(chunks@),
{
    let mut sources: Vec<SourceInfo> = Vec::new();
    let mut index: usize = 0;
    while index < chunks.len()
        invariant
            index <= chunks.len(),
            sources@.map_values(|source: SourceInfo| source@) == sources_of(
                chunks@.take(index as int),
            ),
        decreases chunks.len() - index,
    {
        let ghost before = sources@.map_values(|source: SourceInfo| source@);
        proof {
            assert(chunks@.take(index + 1).drop_last() =~= chunks@.take(index as int));
            assert(chunks@.take(index + 1).last() == chunks@[index as int]);
        }
        match &chunks[index].web {
            Some(web) => match &web.uri {
                Some(uri) => {
                    let title = match &web.title {
                        Some(title) => title.clone(),
                        None => host_of(uri.as_str()),
                    };
                    let source = SourceInfo { title, uri: uri.clone() };
                    sources.push(source);
                    assert(sources@.map_values(|source: SourceInfo| source@) =~= before.push(
                        source@,
                    ));
                },
                None => {},
            },
            None => {},
        }
        index = index + 1;
    }
    proof {
        assert(chunks@.take(chunks.len() as int) =~= chunks@);
    }
    sources
}

/// Takes the answer and its sources out of a response.
pub fn extract_reply(response: &Response) -> (reply: Option<Reply>)
    ensures
        match reply {
            Some(reply) => spec_reply(*response) == Some(reply@),
            None => spec_reply(*response) is None,
        },
{
    if response.candidates.len() == 0 {
        return None;
    }
    let first = &response.candidates[0];
    if first.parts.len() == 0 {
        return None;
    }
    let text = first.parts[0].clone();
    let grounding = match &first.grounding_metadata {
        Some(metadata) => Some(metadata),
        None => match &response.grounding_metadata {
            Some(metadata) => Some(metadata),
            None => None,
        },
    };
    let sources = match grounding {
        Some(metadata) => match &metadata.grounding_chunks {
            Some(chunks) => {
                let sources = collect_sources(chunks);
                if sources.len() > 0 {
                    Some(sources)
                } else {
                    None
                }
            },
            None => None,
        },
        None => None,
    };
    Some(Reply { text, sources })
}

} // verus!
