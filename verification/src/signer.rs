//! Keys and signed notes of the relay protocol, through the `nostr-sdk`
//! crate: the contracts in this file are believed, not proved.

use vstd::prelude::*;
use nostr_sdk::EventBuilder;
use nostr_sdk::Keys;
use nostr_sdk::SecretKey;

verus! {

/// A secret signing key as `nostr-sdk` holds it.
#[verifier::external_type_specification]
#[verifier::external_body]
pub struct ExSecretKey(nostr_sdk::SecretKey);

/// A signed event as `nostr-sdk` holds it.
#[verifier::external_type_specification]
#[verifier::external_body]
pub struct ExEvent(nostr_sdk::Event);

/// What is wrong with a secret key written in hexadecimal, in the words of
/// `nostr-sdk`, or `None` where the key is valid.
pub uninterp spec fn secret_key_fault(hex: Seq<char>) -> Option<Seq<char>>;

/// The public key, in hexadecimal, that belongs to a secret key written in
/// hexadecimal.
pub uninterp spec fn hex_author(hex: Seq<char>) -> Seq<char>;

/// The public key, in hexadecimal, that belongs to a secret key.
pub uninterp spec fn key_author(key: nostr_sdk::SecretKey) -> Seq<char>;

/// The public key, in hexadecimal, under which an event is published.
pub uninterp spec fn event_author(event: nostr_sdk::Event) -> Seq<char>;

/// The text that an event carries as its content.
pub uninterp spec fn event_content(event: nostr_sdk::Event) -> Seq<char>;

/// `SecretKey::from_hex`, the error written out as text.
/// Claimed: it fails exactly where `secret_key_fault` names a fault, and the
/// error's text is that fault; the key that it gives has the public key that
/// `hex_author` names for the text.
#[verifier::external_body]
pub(crate) fn parse_secret_key(hex: &str) -> (res: Result<nostr_sdk::SecretKey, String>)
    ensures
        res is Ok ==> secret_key_fault(hex@) is None,
        res is Ok ==> key_author(res->Ok_0) == hex_author(hex@),
        res is Err ==> secret_key_fault(hex@) == Some(res->Err_0@),
{
    SecretKey::from_hex(hex).map_err(|e| e.to_string())
}

/// `EventBuilder::text_note` and `sign_with_keys`, with the keys that
/// `Keys::new` makes of a copy of the secret key, the error written out as
/// text.
/// Claimed: the event's content is the text, and the event is published
/// under the public key that belongs to the secret key. The rest of the
/// event is left open: it carries the time of the call, and the signature
/// draws on random bytes.
#[verifier::external_body]
pub(crate) fn sign_text_note(key: &nostr_sdk::SecretKey, text: &str) -> (res: Result<
    nostr_sdk::Event,
    String,
>)
    ensures
        res is Ok ==> event_content(res->Ok_0) == text@,
        res is Ok ==> event_author(res->Ok_0) == key_author(*key),
{
    let keys = Keys::new(key.clone());
    EventBuilder::text_note(text).sign_with_keys(&keys).map_err(|e| e.to_string())
}

} // verus!
