//! Image acquisition: a mock strategy (a local test image, else a placeholder
//! image) and a remote image-generation service.
//!
//! Each strategy is a sequence of decisions. `begin` says what to do first;
//! the caller performs the [`Action`] (reads a file, downloads, posts a
//! request) and hands the outcome back to [`advance`] as an [`Event`], until
//! the action is `Done`.
use vstd::prelude::*;
use crate::json::{Json, get, get_spec, str_spec};
use crate::paths::{text_opt, joined, parent_of, join_path, parent_path};

verus! {

/// The decimal digit `d` (below ten).
pub open spec fn digit_char(d: nat) -> char {
    if d == 0 { '0' } else if d == 1 { '1' } else if d == 2 { '2' } else if d == 3 { '3' }
    else if d == 4 { '4' } else if d == 5 { '5' } else if d == 6 { '6' } else if d == 7 { '7' }
    else if d == 8 { '8' } else { '9' }
}

/// `n` written in decimal, without leading zeros.
pub open spec fn decimal(n: nat) -> Seq<char>
    decreases n,
{
    if n < 10 {
        seq![digit_char(n)]
    } else {
        decimal(n / 10) + seq![digit_char(n % 10)]
    }
}

fn digit_text(d: u32) -> (r: &'static str)
    requires
        d < 10,
    ensures
        r@ == seq![digit_char(d as nat)],
{
    proof {
        reveal_strlit("0");
        reveal_strlit("1");
        reveal_strlit("2");
        reveal_strlit("3");
        reveal_strlit("4");
        reveal_strlit("5");
        reveal_strlit("6");
        reveal_strlit("7");
        reveal_strlit("8");
        reveal_strlit("9");
    }
    if d == 0 { "0" } else if d == 1 { "1" } else if d == 2 { "2" } else if d == 3 { "3" }
    else if d == 4 { "4" } else if d == 5 { "5" } else if d == 6 { "6" } else if d == 7 { "7" }
    else if d == 8 { "8" } else { "9" }
}

fn push_decimal(s: &mut String, n: u32)
    ensures
        final(s)@ == old(s)@ + decimal(n as nat),
    decreases n,
{
    if n >= 10 {
        push_decimal(s, n / 10);
    }
    s.append(digit_text(n % 10));
    assert(final(s)@ =~= old(s)@ + decimal(n as nat));
}

/// The `WIDTHxHEIGHT` size text.
pub open spec fn size_text(width: u32, height: u32) -> Seq<char> {
    decimal(width as nat) + "x"@ + decimal(height as nat)
}

fn image_size(width: u32, height: u32) -> (r: String)
    ensures
        r@ == size_text(width, height),
{
    let mut s = String::new();
    push_decimal(&mut s, width);
    s.append("x");
    push_decimal(&mut s, height);
    assert(s@ =~= size_text(width, height));
    s
}

/// What kind of failure ended an acquisition.
#[derive(Clone, Copy, Debug, PartialEq, Eq, Structural)]
pub enum ErrorKind {
    /// An external endpoint could not be reached, or its answer not read.
    Network,
    /// The generation service answered with a status other than success.
    Api,
    /// The generation service's answer did not have the expected shape.
    Parse,
}

/// A failed acquisition: its kind and a message for people.
#[derive(Debug)]
pub struct AiError {
    pub kind: ErrorKind,
    pub message: String,
}

/// The request posted to the image-generation service. The caller sends
/// `body`'s members as JSON, adding the guidance scale of 7.5, with the
/// header `Authorization: <authorization>`.
#[derive(Debug)]
pub struct GenerationRequest {
    pub endpoint: String,
    pub authorization: String,
    pub model: String,
    pub prompt: String,
    pub image_size: String,
    pub batch_size: u32,
    pub inference_steps: u32,
}

/// What the caller does next.
#[derive(Debug)]
pub enum Action {
    /// Read this local file, if it exists.
    ReadFile(String),
    /// Download the bytes at this URL.
    Download(String),
    /// Post this request to the generation service.
    Generate(GenerationRequest),
    /// The acquisition is over, with these image bytes or this error.
    Done(Result<Vec<u8>, AiError>),
}

/// The service's answer to a [`GenerationRequest`]: its status, its body as
/// text (empty when unreadable), and that body read as JSON, or why not.
#[derive(Debug)]
pub struct ApiReply {
    pub status: u16,
    pub body: String,
    pub json: Result<Json, String>,
}

/// Why a download failed: the request could not be made, or the body of
/// its answer could not be read.
#[derive(Debug)]
pub enum DownloadError {
    Request(String),
    Body(String),
}

impl DownloadError {
    /// The transport's message.
    pub open spec fn text(self) -> Seq<char> {
        match self {
            DownloadError::Request(m) => m@,
            DownloadError::Body(m) => m@,
        }
    }
}

/// What came of an [`Action`].
#[derive(Debug)]
pub enum Event {
    /// The file's bytes; `None` when it is absent or unreadable.
    FileRead(Option<Vec<u8>>),
    /// The downloaded bytes, or the transport error.
    Downloaded(Result<Vec<u8>, DownloadError>),
    /// The service's answer, or the transport error.
    Replied(Result<ApiReply, String>),
}

/// Where an acquisition stands.
#[derive(Debug)]
pub enum Stage {
    /// Looking for a local test image: `candidates[next - 1]` is being read.
    SearchFixture { candidates: Vec<String>, next: usize, placeholder: String },
    /// Waiting for the placeholder image.
    AwaitPlaceholder,
    /// Waiting for the generation service's answer.
    AwaitGeneration,
    /// Waiting for the generated image.
    AwaitImage,
    /// Nothing more to do.
    Finished,
}

impl Action {
    pub open spec fn reads(self, path: Seq<char>) -> bool {
        match self {
            Action::ReadFile(p) => p@ == path,
            _ => false,
        }
    }

    pub open spec fn downloads(self, url: Seq<char>) -> bool {
        match self {
            Action::Download(u) => u@ == url,
            _ => false,
        }
    }

    pub open spec fn succeeds_with(self, bytes: Seq<u8>) -> bool {
        match self {
            Action::Done(Ok(b)) => b@ == bytes,
            _ => false,
        }
    }

    pub open spec fn fails_with(self, kind: ErrorKind, message: Seq<char>) -> bool {
        match self {
            Action::Done(Err(e)) => e.kind == kind && e.message@ == message,
            _ => false,
        }
    }
}

impl Stage {
    /// `self` is a fixture search over `candidates`, about to read entry `next`
    /// on failure, with `placeholder` as the fallback URL.
    pub open spec fn searches(self, candidates: Seq<Seq<char>>, next: int, placeholder: Seq<char>) -> bool {
        match self {
            Stage::SearchFixture { candidates: c, next: n, placeholder: u } => {
                &&& c@.len() == candidates.len()
                &&& forall|i: int| 0 <= i < candidates.len() ==> #[trigger] c@[i]@ == candidates[i]
                &&& n == next
                &&& u@ == placeholder
            },
            _ => false,
        }
    }

    /// `event` is an outcome of the action this stage waits for.
    pub open spec fn expects(self, event: Event) -> bool {
        match self {
            Stage::SearchFixture { candidates, next, .. } => event is FileRead && next <= candidates@.len(),
            Stage::AwaitPlaceholder => event is Downloaded,
            Stage::AwaitImage => event is Downloaded,
            Stage::AwaitGeneration => event is Replied,
            Stage::Finished => false,
        }
    }

    /// Whether `event` is an outcome of the action this stage waits for.
    pub fn accepts(&self, event: &Event) -> (r: bool)
        ensures
            r == self.expects(*event),
    {
        match self {
            Stage::SearchFixture { candidates, next, .. } => {
                matches!(event, Event::FileRead(_)) && *next <= candidates.len()
            },
            Stage::AwaitPlaceholder => matches!(event, Event::Downloaded(_)),
            Stage::AwaitImage => matches!(event, Event::Downloaded(_)),
            Stage::AwaitGeneration => matches!(event, Event::Replied(_)),
            Stage::Finished => false,
        }
    }
}

/// The service's address.
pub const GENERATION_ENDPOINT: &'static str = "https://api.siliconflow.cn/v1/images/generations";

/// The prompt for which the mock first looks for a local test image.
pub const FIXTURE_PROMPT: &'static str = "test";

/// The placeholder image's URL for a size.
pub open spec fn placeholder_url(width: u32, height: u32) -> Seq<char> {
    "https://placehold.co/"@ + size_text(width, height) + "/png?text=AI+Wallpaper"@
}

/// Where the mock looks for a local test image, in order, given the working
/// directory.
pub open spec fn fixture_candidates(cwd: Seq<char>) -> Seq<Seq<char>> {
    let up = match parent_of(cwd) {
        Some(p) => p,
        None => cwd,
    };
    seq![
        joined(cwd, "test.png"@),
        joined(up, "test.png"@),
        joined(cwd, "../test.png"@),
    ]
}

/// Whether an HTTP status is a success (2xx).
pub open spec fn is_success(status: u16) -> bool {
    200 <= status <= 299
}

/// The URL of the first image in a generation service's answer:
/// `data[0].url`.
pub open spec fn image_url(doc: Json) -> Option<Seq<char>> {
    match get_spec(doc, "data"@) {
        Some(Json::Array(items)) => if items@.len() > 0 {
            str_spec(get_spec(items@[0], "url"@))
        } else {
            None
        },
        _ => None,
    }
}

/// The URL of the first image in a generation service's answer.
pub fn find_image_url(doc: &Json) -> (r: Option<String>)
    ensures
        match r {
            Some(u) => image_url(*doc) == Some(u@),
            None => image_url(*doc) is None,
        },
{
    match get(doc, "data") {
        Some(Json::Array(items)) => {
            if items.len() == 0 {
                return None;
            }
            match get(&items[0], "url") {
                Some(Json::Str(u)) => Some(u.clone()),
                _ => None,
            }
        },
        _ => None,
    }
}

fn fail_plain(kind: ErrorKind, message: &str) -> (r: Action)
    ensures
        r.fails_with(kind, message@),
{
    Action::Done(Err(AiError { kind, message: String::from_str(message) }))
}

fn fail(kind: ErrorKind, prefix: &str, detail: &str) -> (r: Action)
    ensures
        r.fails_with(kind, prefix@ + detail@),
{
    let mut m = String::from_str(prefix);
    m.append(detail);
    Action::Done(Err(AiError { kind, message: m }))
}

/// How the mock begins: with the first candidate test image when `prompt`
/// is the reserved one and the working directory is known, else with the
/// placeholder's download.
pub open spec fn mock_begins(
    prompt: Seq<char>,
    width: u32,
    height: u32,
    cwd: Option<Seq<char>>,
    stage: Stage,
    action: Action,
) -> bool {
    let url = placeholder_url(width, height);
    if prompt == FIXTURE_PROMPT@ && cwd is Some {
        let c = fixture_candidates(cwd->0);
        stage.searches(c, 1, url) && action.reads(c[0])
    } else {
        stage is AwaitPlaceholder && action.downloads(url)
    }
}

/// How the remote strategy begins: by posting a request for one image of
/// the given size, with the credential as a bearer token.
pub open spec fn remote_begins(
    api_key: Seq<char>,
    model: Seq<char>,
    prompt: Seq<char>,
    width: u32,
    height: u32,
    stage: Stage,
    action: Action,
) -> bool {
    &&& stage is AwaitGeneration
    &&& match action {
        Action::Generate(q) => {
            &&& q.endpoint@ == GENERATION_ENDPOINT@
            &&& q.authorization@ == "Bearer "@ + api_key
            &&& q.model@ == model
            &&& q.prompt@ == prompt
            &&& q.image_size@ == size_text(width, height)
            &&& q.batch_size == 1
            &&& q.inference_steps == 20
        },
        _ => false,
    }
}

/// The acquisition strategy of the generation step.
pub trait AiApiAdapter {
    /// The first stage and action of acquiring an image for `prompt` at the
    /// given size; `cwd` is the working directory, if known.
    fn begin(&self, prompt: &str, width: u32, height: u32, cwd: Option<String>) -> (Stage, Action);
}

/// The strategy used without a credential: a local test image for the
/// reserved prompt, else a placeholder image of the requested size.
#[derive(Debug, Clone, Copy)]
pub struct MockAiAdapter;

impl MockAiAdapter {
    /// Looks for a local test image first when `prompt` is the reserved one
    /// and the working directory is known; else downloads the placeholder.
    pub fn start(&self, prompt: &str, width: u32, height: u32, cwd: Option<String>) -> (r: (Stage, Action))
        ensures
            mock_begins(prompt@, width, height, text_opt(cwd), r.0, r.1),
    {
        let mut url = String::from_str("https://placehold.co/");
        url.append(image_size(width, height).as_str());
        url.append("/png?text=AI+Wallpaper");
        let is_fixture = String::from_str(prompt) == String::from_str(FIXTURE_PROMPT);
        match cwd {
            Some(dir) => if is_fixture {
                let up = match parent_path(dir.as_str()) {
                    Some(p) => p,
                    None => dir.clone(),
                };
                let mut candidates: Vec<String> = Vec::new();
                candidates.push(join_path(dir.as_str(), "test.png"));
                candidates.push(join_path(up.as_str(), "test.png"));
                candidates.push(join_path(dir.as_str(), "../test.png"));
                let first = candidates[0].clone();
                return (Stage::SearchFixture { candidates, next: 1, placeholder: url }, Action::ReadFile(first));
            },
            None => {},
        }
        (Stage::AwaitPlaceholder, Action::Download(url))
    }
}

impl AiApiAdapter for MockAiAdapter {
    fn begin(&self, prompt: &str, width: u32, height: u32, cwd: Option<String>) -> (Stage, Action) {
        self.start(prompt, width, height, cwd)
    }
}

/// The strategy used with a credential: the remote generation service.
#[derive(Debug)]
pub struct OpenAiAdapter {
    pub api_key: String,
    pub model: String,
}

impl OpenAiAdapter {
    /// Posts a generation request for one image of the given size.
    pub fn start(&self, prompt: &str, width: u32, height: u32) -> (r: (Stage, Action))
        ensures
            remote_begins(self.api_key@, self.model@, prompt@, width, height, r.0, r.1),
    {
        let mut authorization = String::from_str("Bearer ");
        authorization.append(self.api_key.as_str());
        let request = GenerationRequest {
            endpoint: String::from_str(GENERATION_ENDPOINT),
            authorization,
            model: self.model.clone(),
            prompt: String::from_str(prompt),
            image_size: image_size(width, height),
            batch_size: 1,
            inference_steps: 20,
        };
        (Stage::AwaitGeneration, Action::Generate(request))
    }
}

impl AiApiAdapter for OpenAiAdapter {
    fn begin(&self, prompt: &str, width: u32, height: u32, _cwd: Option<String>) -> (Stage, Action) {
        self.start(prompt, width, height)
    }
}

/// The next stage and action once `event` has come of the action `stage`
/// waited for.
///
/// A local test image that could be read ends the search; when none could,
/// the placeholder is downloaded. A download ends the acquisition with its
/// bytes, or with a network error that says which step of the image's
/// download failed. The generation service's answer must be
/// a success whose JSON body names the image's URL at `data[0].url`, which
/// is then downloaded; else the acquisition ends with a network error (no
/// answer), an API error carrying the body (a status other than success), or
/// a parse error (a body that is no JSON, or holds no such URL).
pub fn advance(stage: Stage, event: Event) -> (r: (Stage, Action))
    requires
        stage.expects(event),
    ensures
        match (stage, event) {
            (Stage::SearchFixture { candidates, next, placeholder }, Event::FileRead(read)) => match read {
                Some(bytes) => r.0 is Finished && r.1.succeeds_with(bytes@),
                None => if next < candidates@.len() {
                    r.1.reads(candidates@[next as int]@) && match r.0 {
                        Stage::SearchFixture { candidates: c, next: n, placeholder: u } =>
                            c == candidates && n == next + 1 && u == placeholder,
                        _ => false,
                    }
                } else {
                    r.0 is AwaitPlaceholder && r.1.downloads(placeholder@)
                },
            },
            (Stage::AwaitPlaceholder, Event::Downloaded(got)) => r.0 is Finished && match got {
                Ok(bytes) => r.1.succeeds_with(bytes@),
                Err(e) => r.1.fails_with(ErrorKind::Network, e.text()),
            },
            (Stage::AwaitImage, Event::Downloaded(got)) => r.0 is Finished && match got {
                Ok(bytes) => r.1.succeeds_with(bytes@),
                Err(DownloadError::Request(e)) => r.1.fails_with(ErrorKind::Network, "Failed to download image: "@ + e@),
                Err(DownloadError::Body(e)) => r.1.fails_with(ErrorKind::Network, "Failed to read image bytes: "@ + e@),
            },
            (Stage::AwaitGeneration, Event::Replied(answer)) => match answer {
                Err(e) => r.0 is Finished && r.1.fails_with(ErrorKind::Network, "Network request failed: "@ + e@),
                Ok(reply) => if !is_success(reply.status) {
                    r.0 is Finished && r.1.fails_with(ErrorKind::Api, "API Error: "@ + reply.body@)
                } else {
                    match reply.json {
                        Err(e) => r.0 is Finished && r.1.fails_with(ErrorKind::Parse, "Failed to parse response: "@ + e@),
                        Ok(doc) => match image_url(doc) {
                            Some(url) => r.0 is AwaitImage && r.1.downloads(url),
                            None => r.0 is Finished && r.1.fails_with(
                                ErrorKind::Parse,
                                "Failed to extract image URL from response"@,
                            ),
                        },
                    }
                },
            },
            _ => false,
        },
{
    match stage {
        Stage::SearchFixture { candidates, next, placeholder } => match event {
            Event::FileRead(Some(bytes)) => (Stage::Finished, Action::Done(Ok(bytes))),
            Event::FileRead(None) => {
                if next < candidates.len() {
                    let path = candidates[next].clone();
                    (Stage::SearchFixture { candidates, next: next + 1, placeholder }, Action::ReadFile(path))
                } else {
                    (Stage::AwaitPlaceholder, Action::Download(placeholder))
                }
            },
            _ => unreached(),
        },
        Stage::AwaitPlaceholder => match event {
            Event::Downloaded(Ok(bytes)) => (Stage::Finished, Action::Done(Ok(bytes))),
            Event::Downloaded(Err(DownloadError::Request(e))) => (Stage::Finished, fail_plain(ErrorKind::Network, e.as_str())),
            Event::Downloaded(Err(DownloadError::Body(e))) => (Stage::Finished, fail_plain(ErrorKind::Network, e.as_str())),
            _ => unreached(),
        },
        Stage::AwaitImage => match event {
            Event::Downloaded(Ok(bytes)) => (Stage::Finished, Action::Done(Ok(bytes))),
            Event::Downloaded(Err(DownloadError::Request(e))) => (
                Stage::Finished,
                fail(ErrorKind::Network, "Failed to download image: ", e.as_str()),
            ),
            Event::Downloaded(Err(DownloadError::Body(e))) => (
                Stage::Finished,
                fail(ErrorKind::Network, "Failed to read image bytes: ", e.as_str()),
            ),
            _ => unreached(),
        },
        Stage::AwaitGeneration => match event {
            Event::Replied(Err(e)) => (
                Stage::Finished,
                fail(ErrorKind::Network, "Network request failed: ", e.as_str()),
            ),
            Event::Replied(Ok(reply)) => {
                if !(200 <= reply.status && reply.status <= 299) {
                    return (Stage::Finished, fail(ErrorKind::Api, "API Error: ", reply.body.as_str()));
                }
                match &reply.json {
                    Err(e) => (
                        Stage::Finished,
                        fail(ErrorKind::Parse, "Failed to parse response: ", e.as_str()),
                    ),
                    Ok(doc) => match find_image_url(doc) {
                        Some(url) => (Stage::AwaitImage, Action::Download(url)),
                        None => (
                            Stage::Finished,
                            fail_plain(ErrorKind::Parse, "Failed to extract image URL from response"),
                        ),
                    },
                }
            },
            _ => unreached(),
        },
        Stage::Finished => unreached(),
    }
}

} // verus!
