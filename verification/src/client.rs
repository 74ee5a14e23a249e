//! The `Client` interface object: its URL, frame type and random identifier.

use vstd::prelude::*;
use uuid::Uuid;
use crate::workers::ServiceWorker;

verus! {

/// The lower-case hexadecimal digit of `n < 16`.
pub open spec fn hex_digit(n: int) -> char {
    if n < 10 {
        ('0' as int + n) as char
    } else {
        ('a' as int + n - 10) as char
    }
}

/// The 32 lower-case hexadecimal digits of 16 bytes, high nibble first.
pub open spec fn simple_hex(bytes: Seq<u8>) -> Seq<char> {
    Seq::new(
        32,
        |i: int| hex_digit(if i % 2 == 0 { bytes[i / 2] as int / 16 } else { bytes[i / 2] as int % 16 }),
    )
}

/// The hyphenated text of a UUID: groups of 8, 4, 4, 4 and 12 digits.
pub open spec fn hyphenated_uuid(bytes: Seq<u8>) -> Seq<char> {
    let s = simple_hex(bytes);
    s.subrange(0, 8) + seq!['-'] + s.subrange(8, 12) + seq!['-'] + s.subrange(12, 16) + seq!['-']
        + s.subrange(16, 20) + seq!['-'] + s.subrange(20, 32)
}

/// The bytes of a fresh random UUID (`Uuid::new_v4`). The bytes are random;
/// what every outcome shares is the version 4 nibble and the RFC 4122 variant.
#[verifier::external_body]
fn new_v4_bytes() -> (r: [u8; 16])
    ensures
        r@[6] / 16 == 4,
        r@[8] / 64 == 2,
{
    *Uuid::new_v4().as_bytes()
}

/// The text of the UUID with bytes `bytes` (`Uuid::from_bytes` and its
/// `Display`): lower-case, hyphenated.
#[verifier::external_body]
fn uuid_text(bytes: &[u8; 16]) -> (r: String)
    ensures
        r@ == hyphenated_uuid(bytes@),
{
    Uuid::from_bytes(*bytes).to_string()
}

/// The kind of browsing context a client is (`FrameType`).
#[derive(Clone, Copy, Debug)]
pub enum FrameType {
    Auxiliary,
    TopLevel,
    Nested,
    /// The WebIDL value `"none"`.
    NoFrame,
}

/// The `Client` interface object.
pub struct Client {
    pub url: String,
    pub frame_type: FrameType,
    pub id: [u8; 16],
    /// The service worker controlling the client, by its worker id.
    pub controller: Option<u64>,
}

impl Client {
    /// A client for `url` with a fresh random identifier.
    pub fn new_inherited(url: String) -> (r: Client)
        ensures
            r.url@ == url@,
            r.frame_type == FrameType::NoFrame,
            r.id@[6] / 16 == 4,
            r.id@[8] / 64 == 2,
            r.controller is None,
    {
        Client { url, frame_type: FrameType::NoFrame, id: new_v4_bytes(), controller: None }
    }

    /// A client for `url` with a fresh random identifier.
    pub fn new(url: String) -> (r: Client)
        ensures
            r.url@ == url@,
            r.frame_type == FrameType::NoFrame,
            r.id@[6] / 16 == 4,
            r.id@[8] / 64 == 2,
            r.controller is None,
    {
        Client::new_inherited(url)
    }

    /// The service worker controlling the client, if any.
    pub fn get_controller(&self) -> (r: Option<u64>)
        ensures
            r == self.controller,
    {
        self.controller
    }

    /// Makes `worker` the client's controller; the rest of the client is kept.
    pub fn set_controller(&mut self, worker: &ServiceWorker)
        ensures
            final(self).controller == Some(worker.worker_id),
            final(self).url == old(self).url,
            final(self).frame_type == old(self).frame_type,
            final(self).id == old(self).id,
    {
        self.controller = Some(worker.worker_id);
    }

    /// The URL the client was created for.
    pub fn creation_url(&self) -> (r: String)
        ensures
            r@ == self.url@,
    {
        self.url.clone()
    }

    /// `client.url`.
    #[allow(non_snake_case)]
    pub fn Url(&self) -> (r: String)
        ensures
            r@ == self.url@,
    {
        self.url.clone()
    }

    /// `client.frameType`.
    #[allow(non_snake_case)]
    pub fn FrameType(&self) -> (r: FrameType)
        ensures
            r == self.frame_type,
    {
        self.frame_type
    }

    /// `client.id`: the identifier as a hyphenated lower-case UUID.
    #[allow(non_snake_case)]
    pub fn Id(&self) -> (r: String)
        ensures
            r@ == hyphenated_uuid(self.id@),
    {
        uuid_text(&self.id)
    }
}

} // verus!
