//! The decisions of the user-facing operations: which acquisition strategy a
//! generation uses, the identifiers and timestamps of new records, and which
//! failures end an operation.
use vstd::prelude::*;
use crate::ai::{AiApiAdapter, Action, MockAiAdapter, OpenAiAdapter, Stage, mock_begins, remote_begins};
use crate::paths::text_opt;

verus! {

/// The acquisition strategy chosen for a generation.
#[derive(Debug)]
pub enum Adapter {
    Mock(MockAiAdapter),
    Remote(OpenAiAdapter),
}

/// The strategy for a credential and model: the mock without a credential,
/// else the remote service with both.
pub fn select_adapter(api_key: String, model: String) -> (r: Adapter)
    ensures
        match r {
            Adapter::Mock(_) => api_key@.len() == 0,
            Adapter::Remote(a) => api_key@.len() > 0 && a.api_key@ == api_key@ && a.model@ == model@,
        },
{
    if api_key.as_str().unicode_len() == 0 {
        Adapter::Mock(MockAiAdapter)
    } else {
        Adapter::Remote(OpenAiAdapter { api_key, model })
    }
}

impl Adapter {
    /// The first stage and action of the chosen strategy.
    pub fn start(&self, prompt: &str, width: u32, height: u32, cwd: Option<String>) -> (r: (Stage, Action))
        ensures
            match self {
                Adapter::Mock(_) => mock_begins(prompt@, width, height, text_opt(cwd), r.0, r.1),
                Adapter::Remote(a) => remote_begins(a.api_key@, a.model@, prompt@, width, height, r.0, r.1),
            },
    {
        match self {
            Adapter::Mock(m) => m.start(prompt, width, height, cwd),
            Adapter::Remote(a) => a.start(prompt, width, height),
        }
    }
}

impl AiApiAdapter for Adapter {
    fn begin(&self, prompt: &str, width: u32, height: u32, cwd: Option<String>) -> (Stage, Action) {
        self.start(prompt, width, height, cwd)
    }
}

/// Whether `c` is a lowercase hexadecimal digit.
pub open spec fn is_lower_hex(c: char) -> bool {
    ('0' <= c && c <= '9') || ('a' <= c && c <= 'f')
}

/// `s` is a version 4 UUID in lowercase hyphenated form: 36 characters,
/// hyphens at 8, 13, 18 and 23, hexadecimal digits elsewhere, the version
/// digit `4` at 14 and an RFC 4122 variant digit at 19.
pub open spec fn is_hyphenated_v4(s: Seq<char>) -> bool {
    &&& s.len() == 36
    &&& forall|i: int| 0 <= i < 36 ==> if i == 8 || i == 13 || i == 18 || i == 23 {
        #[trigger] s[i] == '-'
    } else {
        is_lower_hex(s[i])
    }
    &&& s[14] == '4'
    &&& (s[19] == '8' || s[19] == '9' || s[19] == 'a' || s[19] == 'b')
}

/// The lowercase hexadecimal digit of `v` (below sixteen).
pub open spec fn hex_digit(v: int) -> char {
    if v < 10 { (('0' as int) + v) as char } else { (('a' as int) + v - 10) as char }
}

/// Two lowercase hexadecimal digits for each value of `values` (each below 256).
pub open spec fn hex_of(values: Seq<int>) -> Seq<char> {
    Seq::new(2 * values.len(), |i: int| hex_digit(if i % 2 == 0 { values[i / 2] / 16 } else { values[i / 2] % 16 }))
}

/// Sixteen random bytes marked as a version 4, RFC 4122 UUID: the high
/// nibble of byte 6 becomes 4 and the top two bits of byte 8 become `10`.
pub open spec fn uuid_v4_bytes(bytes: Seq<u8>) -> Seq<int> {
    Seq::new(16, |i: int| if i == 6 {
        bytes[6] % 16 + 0x40
    } else if i == 8 {
        bytes[8] % 64 + 0x80
    } else {
        bytes[i] as int
    })
}

/// The lowercase hyphenated text of the version 4 UUID made from sixteen
/// random bytes: groups of 4, 2, 2, 2 and 6 bytes joined by hyphens.
pub open spec fn uuid_text(bytes: Seq<u8>) -> Seq<char> {
    let v = uuid_v4_bytes(bytes);
    hex_of(v.subrange(0, 4)) + "-"@ + hex_of(v.subrange(4, 6)) + "-"@ + hex_of(v.subrange(6, 8)) + "-"@
        + hex_of(v.subrange(8, 10)) + "-"@ + hex_of(v.subrange(10, 16))
}

/// Relies on `getrandom::fill`: sixteen bytes from the operating system's
/// random source, or `None` when that source fails.
#[verifier::external_body]
fn random_bytes() -> (r: Option<Vec<u8>>)
    ensures
        r is Some ==> r->0@.len() == 16,
{
    let mut bytes = [0u8; 16];
    getrandom::fill(&mut bytes).ok().map(|_| bytes.to_vec())
}

/// Relies on `uuid::Builder::from_random_bytes`, which marks the bytes as a
/// version 4, RFC 4122 UUID, and on `Uuid`'s `Display`, which writes it in
/// lowercase hyphenated form.
#[verifier::external_body]
fn uuid_from_random(bytes: &Vec<u8>) -> (r: String)
    requires
        bytes@.len() == 16,
    ensures
        r@ == uuid_text(bytes@),
        is_hyphenated_v4(r@),
{
    let mut raw = [0u8; 16];
    raw.copy_from_slice(bytes);
    uuid::Builder::from_random_bytes(raw).into_uuid().to_string()
}

/// A fresh random identifier for a stored image, which names its file;
/// `None` when no random bytes could be had.
pub fn fresh_id() -> (r: Option<String>)
    ensures
        r is Some ==> is_hyphenated_v4(r->0@),
        r is Some ==> exists|b: Seq<u8>| b.len() == 16 && r->0@ == uuid_text(b),
{
    match random_bytes() {
        Some(bytes) => {
            let id = uuid_from_random(&bytes);
            assert(bytes@.len() == 16 && id@ == uuid_text(bytes@));
            Some(id)
        },
        None => None,
    }
}

/// The result of a generation or an import whose image was stored at
/// `saved_path`: that path, whether or not its history entry could be
/// written, as losing a history entry does not undo the stored image.
pub fn stored_outcome(saved_path: String, _history: Result<(), String>) -> (r: Result<String, String>)
    ensures
        r is Ok && r->Ok_0@ == saved_path@,
{
    Ok(saved_path)
}

/// The screen size to generate for: the current monitor's when it is known,
/// else 1920x1080.
pub fn get_screen_resolution(monitor: Option<(u32, u32)>) -> (r: (u32, u32))
    ensures
        r == match monitor {
            Some(size) => size,
            None => (1920u32, 1080u32),
        },
{
    match monitor {
        Some(size) => size,
        None => (1920, 1080),
    }
}

} // verus!
