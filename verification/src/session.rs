//! The headers that every request of a run carries, and the one session that
//! a run builds from them.

use crate::model::Config;
use vstd::prelude::*;
use vstd::string::*;
use vstd::utf8::{encode_scalar, encode_utf8};

verus! {

/// The browser that every request claims to come from.
pub const USER_AGENT: &'static str =
    "Mozilla/5.0 (Windows NT 10.0; Win64; x64; rv:109.0) Gecko/20100101 Firefox/115.0";

/// The cookie that carries the session token.
pub open spec fn cookie_text(sessdata: Seq<char>) -> Seq<char> {
    "SESSDATA="@ + sessdata
}

/// The page that the requests claim to come from: the follow list of the
/// audited account.
pub open spec fn referer_text(vmid: Seq<char>) -> Seq<char> {
    "https://space.bilibili.com/"@ + vmid + "/fans/follow"@
}

/// A byte that may stand in a header value: anything from the space on but
/// the delete character, and the tab.
pub open spec fn header_byte_ok(byte: u8) -> bool {
    (byte >= 32 && byte != 127) || byte == 9
}

/// Bytes that can be a header value: each of them may stand in one.
pub open spec fn header_bytes_ok(bytes: Seq<u8>) -> bool {
    forall|i: int| 0 <= i < bytes.len() ==> header_byte_ok(#[trigger] bytes[i])
}

/// A character that may stand in a header value: the tab, and anything from
/// the space on but the delete character.
pub open spec fn header_char_ok(c: char) -> bool {
    c == '\t' || (c as u32 >= 32 && c as u32 != 127)
}

/// A text that can be a header value: each of its characters may stand in
/// one.
pub open spec fn header_text_ok(text: Seq<char>) -> bool {
    forall|i: int| 0 <= i < text.len() ==> header_char_ok(#[trigger] text[i])
}

proof fn lemma_high_bytes(low: u8)
    ensures
        0x80u8 | low >= 0x80,
        0xC0u8 | low >= 0x80,
        0xE0u8 | low >= 0x80,
        0xF0u8 | low >= 0x80,
{
    assert(0x80u8 | low >= 0x80) by (bit_vector);
    assert(0xC0u8 | low >= 0x80) by (bit_vector);
    assert(0xE0u8 | low >= 0x80) by (bit_vector);
    assert(0xF0u8 | low >= 0x80) by (bit_vector);
}

proof fn lemma_header_char(c: char)
    ensures
        header_char_ok(c) <==> header_bytes_ok(encode_scalar(c as u32)),
{
    let scalar = c as u32;
    let bytes = encode_scalar(scalar);
    if scalar <= 0x7F {
        assert((scalar & 0x7F) as u8 == scalar) by (bit_vector)
            requires
                scalar <= 0x7F,
        ;
        assert(bytes[0] == scalar);
        assert(c == '\t' <==> scalar == 9);
    } else {
        lemma_high_bytes(((scalar >> 6) & 0x1F) as u8);
        lemma_high_bytes(((scalar >> 12) & 0x0F) as u8);
        lemma_high_bytes(((scalar >> 18) & 0x7) as u8);
        lemma_high_bytes((scalar & 0x3F) as u8);
        lemma_high_bytes(((scalar >> 6) & 0x3F) as u8);
        lemma_high_bytes(((scalar >> 12) & 0x3F) as u8);
    }
}

/// The bytes of a text can be a header value exactly when the text can: a
/// character of the ASCII range is written as one byte of the same value, and
/// a character beyond it in bytes that are all allowed.
pub proof fn lemma_header_text_by_bytes(text: Seq<char>)
    ensures
        header_bytes_ok(encode_utf8(text)) <==> header_text_ok(text),
    decreases text.len(),
{
    if text.len() > 0 {
        let head = encode_scalar(text[0] as u32);
        let rest = text.drop_first();
        let tail = encode_utf8(rest);
        lemma_header_char(text[0]);
        lemma_header_text_by_bytes(rest);
        assert(encode_utf8(text) == head + tail);
        if header_bytes_ok(encode_utf8(text)) {
            assert forall|i: int| 0 <= i < head.len() implies header_byte_ok(#[trigger] head[i]) by {
                assert(head[i] == encode_utf8(text)[i]);
            }
            assert forall|i: int| 0 <= i < tail.len() implies header_byte_ok(#[trigger] tail[i]) by {
                assert(tail[i] == encode_utf8(text)[head.len() + i]);
            }
            assert forall|i: int| 0 <= i < text.len() implies header_char_ok(#[trigger] text[i]) by {
                if i > 0 {
                    assert(text[i] == rest[i - 1]);
                }
            }
        }
        if header_text_ok(text) {
            assert(header_char_ok(text[0]));
            assert forall|i: int| 0 <= i < rest.len() implies header_char_ok(#[trigger] rest[i]) by {
                assert(rest[i] == text[i + 1]);
            }
            assert forall|i: int| 0 <= i < encode_utf8(text).len() implies header_byte_ok(
                #[trigger] encode_utf8(text)[i],
            ) by {
                if i < head.len() {
                    assert(encode_utf8(text)[i] == head[i]);
                } else {
                    assert(encode_utf8(text)[i] == tail[i - head.len()]);
                }
            }
        }
    }
}

/// Asks `reqwest::header::HeaderValue::from_str` whether `text` can be a
/// header value. The contract claims what the function's source shows: it
/// goes through the bytes of the text and refuses it at the first byte that
/// is below 32 and no tab, or is 127.
#[verifier::external_body]
fn header_value_accepts(text: &str) -> (accepted: bool)
    ensures
        accepted == header_bytes_ok(encode_utf8(text@)),
{
    reqwest::header::HeaderValue::from_str(text).is_ok()
}

/// Tells whether a text can be a header value.
pub fn is_header_value(text: &str) -> (yes: bool)
    ensures
        yes == header_text_ok(text@),
{
    proof {
        lemma_header_text_by_bytes(text@);
    }
    header_value_accepts(text)
}

/// The headers of a session, each one checked to be a header value.
#[derive(Debug, PartialEq, Eq)]
pub struct SessionHeaders {
    pub user_agent: String,
    pub cookie: String,
    pub referer: String,
}

impl Clone for SessionHeaders {
    fn clone(&self) -> (copy: SessionHeaders)
        ensures
            copy == *self,
    {
        SessionHeaders {
            user_agent: self.user_agent.clone(),
            cookie: self.cookie.clone(),
            referer: self.referer.clone(),
        }
    }
}

/// Why no session could be built.
#[derive(Clone, Copy, Debug, PartialEq, Eq, Structural)]
pub enum SessionBuildError {
    /// The session token makes no header value.
    Cookie,
    /// The account's identifier makes no header value.
    Referer,
}

/// Forms the cookie header from the session token.
pub fn cookie_header(sessdata: &str) -> (cookie: String)
    ensures
        cookie@ == cookie_text(sessdata@),
{
    "SESSDATA=".to_owned().concat(sessdata)
}

/// Forms the referer header from the identifier of the audited account.
pub fn referer_header(vmid: &str) -> (referer: String)
    ensures
        referer@ == referer_text(vmid@),
{
    "https://space.bilibili.com/".to_owned().concat(vmid).concat("/fans/follow")
}

/// Forms the headers of the session from the credentials: the fixed browser
/// name, the cookie with the session token, and the referer with the
/// account's identifier. The cookie is checked first. The mutation token
/// plays no part.
pub fn session_headers(config: &Config) -> (headers: Result<SessionHeaders, SessionBuildError>)
    ensures
        match headers {
            Ok(formed) => {
                &&& header_text_ok(cookie_text(config.sessdata@))
                &&& header_text_ok(referer_text(config.vmid@))
                &&& formed.user_agent@ == USER_AGENT@
                &&& formed.cookie@ == cookie_text(config.sessdata@)
                &&& formed.referer@ == referer_text(config.vmid@)
            },
            Err(SessionBuildError::Cookie) => !header_text_ok(cookie_text(config.sessdata@)),
            Err(SessionBuildError::Referer) => {
                &&& header_text_ok(cookie_text(config.sessdata@))
                &&& !header_text_ok(referer_text(config.vmid@))
            },
        },
{
    let cookie = cookie_header(config.sessdata.as_str());
    if !is_header_value(cookie.as_str()) {
        return Err(SessionBuildError::Cookie);
    }
    let referer = referer_header(config.vmid.as_str());
    if !is_header_value(referer.as_str()) {
        return Err(SessionBuildError::Referer);
    }
    Ok(SessionHeaders { user_agent: USER_AGENT.to_owned(), cookie, referer })
}

/// The place of the one session of a run. It is empty until the session is
/// first asked for; from then on it hands out the session that was built
/// then.
pub struct SessionProvider<S> {
    session: Option<S>,
}

impl<S> SessionProvider<S> {
    /// The session that the provider holds, if it has built one.
    pub closed spec fn session(&self) -> Option<S> {
        self.session
    }

    /// A provider that has built nothing yet.
    pub fn new() -> (provider: Self)
        ensures
            provider.session() is None,
    {
        SessionProvider { session: None }
    }

    /// The session, if one has been built.
    pub fn get(&self) -> (session: Option<&S>)
        ensures
            session is Some <==> self.session() is Some,
            session matches Some(held) ==> self.session() == Some(*held),
    {
        self.session.as_ref()
    }

    /// Hands out the session. Where the provider holds one, that one comes
    /// back and `build` is not called. Where it holds none, `build` is called:
    /// what it builds is kept and comes back, and where it fails, its error
    /// comes back and the provider stays empty.
    pub fn get_or_try_init<E, F: FnOnce() -> Result<S, E>>(&mut self, build: F) -> (session: Result<
        &S,
        E,
    >)
        requires
            old(self).session() is None ==> build.requires(()),
        ensures
            match old(self).session() {
                Some(held) => final(self).session() == Some(held) && session == Ok::<&S, E>(&held),
                None => match session {
                    Ok(built) => build.ensures((), Ok(*built)) && final(self).session() == Some(
                        *built,
                    ),
                    Err(error) => build.ensures((), Err(error)) && final(self).session() is None,
                },
            },
    {
        if self.session.is_none() {
            match build() {
                Ok(built) => {
                    self.session = Some(built);
                },
                Err(error) => {
                    return Err(error);
                },
            }
        }
        Ok(self.session.as_ref().unwrap())
    }
}

} // verus!
