//! The adapter for Nostr: the note is signed with the user's own key and
//! handed to every configured relay. An image is not supported and is passed
//! over.

use vstd::prelude::*;
use vstd::string::*;
use crate::config::{NostrConfig, NostrView};
use crate::session::{Session, SessionView};
use crate::signer::{event_author, event_content, hex_author, key_author, parse_secret_key};
use crate::signer::{secret_key_fault, sign_text_note};
use crate::social::{text_views, ErrorKind, PostError, Step, StepView};

verus! {

/// Whether the settings allow a post: the platform is enabled, the key is
/// there, and so is at least one relay.
pub open spec fn ready(config: NostrView) -> bool {
    config.enabled && config.decrypted_private_key.len() > 0 && config.relays.len() > 0
}

/// Whether the settings allow a post.
pub fn is_ready(config: &NostrConfig) -> (res: bool)
    ensures
        res == ready(config@),
{
    config.enabled && !config.decrypted_private_key.as_str().is_empty()
        && config.relays.len() > 0
}

/// How a post goes on once the note went through signing: a signed note is
/// broadcast to the relays, beside the key with which the relays' questions
/// are answered; a failure ends the post as a `Crypto` error.
pub open spec fn after_signing(
    relays: Seq<Seq<char>>,
    key: nostr_sdk::SecretKey,
    signed: Result<nostr_sdk::Event, String>,
) -> (SessionView, StepView) {
    match signed {
        Ok(event) => (SessionView::NostrSend, StepView::Broadcast { relays, key, event }),
        Err(e) => (
            SessionView::Finished,
            StepView::failed(ErrorKind::Crypto, "Failed to sign event: "@ + e@),
        ),
    }
}

/// Whether a note that went through signing is the user's own: a signed
/// note has the text as its content, and is published under the public key
/// that belongs to the key.
pub open spec fn signed_for(
    signed: Result<nostr_sdk::Event, String>,
    key: nostr_sdk::SecretKey,
    text: Seq<char>,
) -> bool {
    signed matches Ok(event) ==> event_content(event) == text && event_author(event) == key_author(
        key,
    )
}

/// Whether a post goes on so for a key and what came of signing with it: the
/// key is the configured one, the note is the user's own, and the post goes
/// on as after that signing.
pub open spec fn goes_on(
    config: NostrView,
    text: Seq<char>,
    key: nostr_sdk::SecretKey,
    signed: Result<nostr_sdk::Event, String>,
    next: (SessionView, StepView),
) -> bool {
    &&& key_author(key) == hex_author(config.decrypted_private_key)
    &&& signed_for(signed, key, text)
    &&& next == after_signing(config.relays, key, signed)
}

/// Whether a post may begin so: without the settings it fails at once, and
/// with a malformed key it fails as a `Crypto` error that says what is wrong
/// with the key; otherwise it goes on as after some signing, with the
/// configured key, of a note that carries the text.
pub open spec fn starts(config: NostrView, text: Seq<char>, next: (SessionView, StepView)) -> bool {
    if !ready(config) {
        next == (SessionView::Finished, StepView::failed(ErrorKind::Auth, "Nostr not configured"@))
    } else {
        match secret_key_fault(config.decrypted_private_key) {
            Some(fault) => next == (
                SessionView::Finished,
                StepView::failed(ErrorKind::Crypto, "Invalid private key: "@ + fault),
            ),
            None => exists|key: nostr_sdk::SecretKey, signed: Result<nostr_sdk::Event, String>|
                #[trigger] goes_on(config, text, key, signed, next),
        }
    }
}

/// Goes on with a post once the note went through signing.
pub fn on_signed(relays: Vec<String>, key: nostr_sdk::SecretKey, signed: Result<
    nostr_sdk::Event,
    String,
>) -> (next: (Session, Step))
    ensures
        (next.0@, next.1@) == after_signing(text_views(relays@), key, signed),
{
    match signed {
        Ok(event) => (Session::NostrSend, Step::Broadcast { relays, key, event }),
        Err(e) => (
            Session::Finished,
            Step::Done(
                Err(PostError::Crypto("Failed to sign event: ".to_owned().concat(e.as_str()))),
            ),
        ),
    }
}

/// Begins a post to Nostr: the note is signed with the configured key. The
/// image, if any, is passed over.
pub fn post_to_nostr(config: &NostrConfig, text: &str, _image_path: Option<&str>) -> (next: (
    Session,
    Step,
))
    ensures
        starts(config@, text@, (next.0@, next.1@)),
        !ready(config@) ==> next.0@ is Finished && !next.1@.is_network_call(),
{
    if !is_ready(config) {
        return (
            Session::Finished,
            Step::Done(Err(PostError::Auth("Nostr not configured".to_owned()))),
        );
    }
    let key = match parse_secret_key(config.decrypted_private_key.as_str()) {
        Ok(key) => key,
        Err(e) => {
            return (
                Session::Finished,
                Step::Done(
                    Err(PostError::Crypto("Invalid private key: ".to_owned().concat(e.as_str()))),
                ),
            );
        },
    };
    let relays = config.relays.clone();
    assert(text_views(relays@) =~= config@.relays);
    let signed = sign_text_note(&key, text);
    let ghost used = key;
    let next = on_signed(relays, key, signed);
    assert(goes_on(config@, text@, used, signed, (next.0@, next.1@)));
    next
}

/// The outcome of a broadcast: success where any relay took the note, and
/// otherwise an `Api` error that carries the relays' words.
pub open spec fn after_send(sent: Result<(), String>) -> StepView {
    match sent {
        Ok(()) => StepView::Done(Ok(())),
        Err(e) => StepView::failed(ErrorKind::Api, "Failed to post to any Nostr relays: "@ + e@),
    }
}

/// Turns the outcome of a broadcast into the platform's outcome.
pub fn on_sent(sent: Result<(), String>) -> (step: Step)
    ensures
        step@ == after_send(sent),
{
    match sent {
        Ok(()) => Step::Done(Ok(())),
        Err(e) => Step::Done(
            Err(
                PostError::Api(
                    "Failed to post to any Nostr relays: ".to_owned().concat(e.as_str()),
                ),
            ),
        ),
    }
}

} // verus!
