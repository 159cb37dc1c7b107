//! One post to one platform as a conversation: the adapter says what to do
//! next, the caller does it and hands back what came of it.

use vstd::prelude::*;
use vstd::string::*;
use vstd::utf8::*;
use crate::social::{is_success, success, ErrorKind, Failure, HttpReply, PostError, Reply, Step, StepView};
use crate::std_text::{lossy_decoded, lossy_text};
use crate::{bluesky, mastodon, microblog, nostr};

verus! {

/// What a `Session` holds.
pub enum SessionView {
    Finished,
    BlueskyLogin { handle: Seq<char>, text: Seq<char>, image_path: Option<Seq<char>> },
    BlueskyImage { handle: Seq<char>, text: Seq<char>, token: Seq<char>, path: Seq<char> },
    BlueskyUpload { handle: Seq<char>, text: Seq<char>, token: Seq<char> },
    BlueskyRecord,
    MastodonImage { base: Seq<char>, token: Seq<char>, text: Seq<char>, file_name: Seq<char> },
    MastodonMedia { base: Seq<char>, token: Seq<char>, text: Seq<char> },
    MastodonStatus,
    MicroblogImage { token: Seq<char>, text: Seq<char> },
    MicroblogPost,
    NostrSend,
}

/// Where a post to one platform stands: what it waits for, and what it has
/// to remember until then.
#[derive(Debug, PartialEq)]
pub enum Session {
    /// The outcome was given; nothing is awaited.
    Finished,
    /// Bluesky: the reply to the login is awaited.
    BlueskyLogin { handle: String, text: String, image_path: Option<String> },
    /// Bluesky: the image's bytes are awaited.
    BlueskyImage { handle: String, text: String, token: String, path: String },
    /// Bluesky: the reply to the upload is awaited.
    BlueskyUpload { handle: String, text: String, token: String },
    /// Bluesky: the reply to the post is awaited.
    BlueskyRecord,
    /// Mastodon: the image's bytes are awaited.
    MastodonImage { base: String, token: String, text: String, file_name: String },
    /// Mastodon: the reply to the upload is awaited.
    MastodonMedia { base: String, token: String, text: String },
    /// Mastodon: the reply to the post is awaited.
    MastodonStatus,
    /// Micro.blog: the image's bytes are awaited.
    MicroblogImage { token: String, text: String },
    /// Micro.blog: the reply to the post is awaited.
    MicroblogPost,
    /// Nostr: the outcome of the broadcast is awaited.
    NostrSend,
}

/// What an optional text holds.
pub open spec fn optional_text(text: Option<String>) -> Option<Seq<char>> {
    match text {
        Some(text) => Some(text@),
        None => None,
    }
}

/// What an optional borrowed text holds.
pub open spec fn optional_str(text: Option<&str>) -> Option<Seq<char>> {
    match text {
        Some(text) => Some(text@),
        None => None,
    }
}

impl View for Session {
    type V = SessionView;

    open spec fn view(&self) -> SessionView {
        match self {
            Session::Finished => SessionView::Finished,
            Session::BlueskyLogin { handle, text, image_path } => SessionView::BlueskyLogin {
                handle: handle@,
                text: text@,
                image_path: optional_text(*image_path),
            },
            Session::BlueskyImage { handle, text, token, path } => SessionView::BlueskyImage {
                handle: handle@,
                text: text@,
                token: token@,
                path: path@,
            },
            Session::BlueskyUpload { handle, text, token } => SessionView::BlueskyUpload {
                handle: handle@,
                text: text@,
                token: token@,
            },
            Session::BlueskyRecord => SessionView::BlueskyRecord,
            Session::MastodonImage { base, token, text, file_name } => SessionView::MastodonImage {
                base: base@,
                token: token@,
                text: text@,
                file_name: file_name@,
            },
            Session::MastodonMedia { base, token, text } => SessionView::MastodonMedia {
                base: base@,
                token: token@,
                text: text@,
            },
            Session::MastodonStatus => SessionView::MastodonStatus,
            Session::MicroblogImage { token, text } => SessionView::MicroblogImage {
                token: token@,
                text: text@,
            },
            Session::MicroblogPost => SessionView::MicroblogPost,
            Session::NostrSend => SessionView::NostrSend,
        }
    }
}

/// The text that a body is read as, for an error message: nothing where
/// reading failed, and otherwise the bytes as UTF-8, with a replacement
/// character for what is not well formed.
pub open spec fn read_text(body: Result<Vec<u8>, String>) -> Seq<char> {
    match body {
        Ok(bytes) => lossy_decoded(bytes@),
        Err(_) => Seq::empty(),
    }
}

/// Reads a body as text, for an error message. Well-formed UTF-8 is read as
/// the characters that it encodes.
pub fn body_text(body: &Result<Vec<u8>, String>) -> (text: String)
    ensures
        text@ == read_text(*body),
        *body matches Ok(bytes) ==> (valid_utf8(bytes@) ==> text@ == decode_utf8(bytes@)),
{
    match body {
        Ok(bytes) => lossy_text(bytes.as_slice()),
        Err(_) => String::new(),
    }
}

/// The outcome that the reply to a platform's last call stands for: a
/// transport failure is a `Network` error, a status from 200 to 299 is
/// success, and any other status is an `Api` error that carries the body
/// after the platform's words.
pub open spec fn settled(reply: Result<HttpReply, String>, prefix: Seq<char>) -> Result<
    (),
    Failure,
> {
    match reply {
        Err(e) => Err(Failure { kind: ErrorKind::Network, detail: e@ }),
        Ok(inner) => if success(inner.status) {
            Ok(())
        } else {
            Err(Failure { kind: ErrorKind::Api, detail: prefix + read_text(inner.body) })
        },
    }
}

/// Turns the reply to a platform's last call into the platform's outcome.
/// The body of a refused call that is well-formed UTF-8 is carried as the
/// characters that it encodes.
pub fn settle(reply: Result<HttpReply, String>, prefix: &str) -> (step: Step)
    ensures
        step@ == StepView::Done(settled(reply, prefix@)),
        reply matches Ok(inner) ==> (inner.body matches Ok(bytes) ==> (!success(inner.status)
            && valid_utf8(bytes@) ==> step@ == StepView::failed(
            ErrorKind::Api,
            prefix@ + decode_utf8(bytes@),
        ))),
{
    match reply {
        Err(e) => Step::Done(Err(PostError::Network(e))),
        Ok(inner) => {
            if is_success(inner.status) {
                Step::Done(Ok(()))
            } else {
                let text = body_text(&inner.body);
                Step::Done(Err(PostError::Api(prefix.to_owned().concat(text.as_str()))))
            }
        },
    }
}

/// The step that answers a reply of the wrong kind, or one that comes when
/// nothing is awaited.
pub open spec fn out_of_turn() -> StepView {
    StepView::failed(ErrorKind::Network, "unexpected reply"@)
}

/// Ends a post on a reply of the wrong kind.
pub fn refuse() -> (next: (Session, Step))
    ensures
        next.0@ == SessionView::Finished,
        next.1@ == out_of_turn(),
{
    (Session::Finished, Step::Done(Err(PostError::Network("unexpected reply".to_owned()))))
}

/// Whether a post that stands at `session` may go on to `next` when `reply`
/// comes in. Each adapter says how it goes on from the reply that it awaits;
/// the reading of the clock behind a record's time and the media type
/// guessed for an image are left open, and nothing else is. Any other reply
/// ends the post.
pub open spec fn follows(session: SessionView, reply: Reply, next: (SessionView, StepView)) -> bool {
    match session {
        SessionView::Finished => next == refused(),
        SessionView::BlueskyLogin { handle, text, image_path } => match reply {
            Reply::Http(reply) => bluesky::follows_login(handle, text, image_path, reply, next),
            _ => next == refused(),
        },
        SessionView::BlueskyImage { handle, text, token, path } => match reply {
            Reply::Image(image) => bluesky::follows_image(handle, text, token, image, next),
            _ => next == refused(),
        },
        SessionView::BlueskyUpload { handle, text, token } => match reply {
            Reply::Http(reply) => bluesky::follows_upload(handle, text, token, reply, next),
            _ => next == refused(),
        },
        SessionView::BlueskyRecord => match reply {
            Reply::Http(reply) => ends(reply, bluesky::REJECTED@, next),
            _ => next == refused(),
        },
        SessionView::MastodonImage { base, token, text, file_name } => match reply {
            Reply::Image(image) => next == mastodon::after_image(base, token, text, file_name, image),
            _ => next == refused(),
        },
        SessionView::MastodonMedia { base, token, text } => match reply {
            Reply::Http(reply) => next == mastodon::after_media(base, token, text, reply),
            _ => next == refused(),
        },
        SessionView::MastodonStatus => match reply {
            Reply::Http(reply) => ends(reply, mastodon::REJECTED@, next),
            _ => next == refused(),
        },
        SessionView::MicroblogImage { token, text } => match reply {
            Reply::Image(image) => next == microblog::after_image(token, text, image),
            _ => next == refused(),
        },
        SessionView::MicroblogPost => match reply {
            Reply::Http(reply) => ends(reply, microblog::REJECTED@, next),
            _ => next == refused(),
        },
        SessionView::NostrSend => match reply {
            Reply::Broadcast(sent) => next == (SessionView::Finished, nostr::after_send(sent)),
            _ => next == refused(),
        },
    }
}

/// Where a post stands after a reply of the wrong kind.
pub open spec fn refused() -> (SessionView, StepView) {
    (SessionView::Finished, out_of_turn())
}

/// Whether `next` ends a post in the outcome that the reply to the
/// platform's last call stands for.
pub open spec fn ends(reply: Result<HttpReply, String>, prefix: Seq<char>, next: (
    SessionView,
    StepView,
)) -> bool {
    next == (SessionView::Finished, StepView::Done(settled(reply, prefix)))
}

impl Session {
    /// Whether nothing more is awaited.
    pub fn is_finished(&self) -> (res: bool)
        ensures
            res == self@ is Finished,
    {
        match self {
            Session::Finished => true,
            _ => false,
        }
    }

    /// Takes what came of the step that was asked for, and says where the
    /// post stands now and what it asks for next.
    pub fn advance(self, reply: Reply) -> (next: (Session, Step))
        ensures
            follows(self@, reply, (next.0@, next.1@)),
            self@ is Finished ==> !next.1@.is_network_call(),
            next.1@ is Done <==> next.0@ is Finished,
    {
        match (self, reply) {
            (Session::BlueskyLogin { handle, text, image_path }, Reply::Http(reply)) => {
                bluesky::on_login(handle, text, image_path, reply)
            },
            (Session::BlueskyImage { handle, text, token, path }, Reply::Image(image)) => {
                bluesky::on_image(handle, text, token, path, image)
            },
            (Session::BlueskyUpload { handle, text, token }, Reply::Http(reply)) => {
                bluesky::on_upload(handle, text, token, reply)
            },
            (Session::BlueskyRecord, Reply::Http(reply)) => {
                (Session::Finished, settle(reply, bluesky::REJECTED))
            },
            (Session::MastodonImage { base, token, text, file_name }, Reply::Image(image)) => {
                mastodon::on_image(base, token, text, file_name, image)
            },
            (Session::MastodonMedia { base, token, text }, Reply::Http(reply)) => {
                mastodon::on_media(base, token, text, reply)
            },
            (Session::MastodonStatus, Reply::Http(reply)) => {
                (Session::Finished, settle(reply, mastodon::REJECTED))
            },
            (Session::MicroblogImage { token, text }, Reply::Image(image)) => {
                microblog::on_image(token, text, image)
            },
            (Session::MicroblogPost, Reply::Http(reply)) => {
                (Session::Finished, settle(reply, microblog::REJECTED))
            },
            (Session::NostrSend, Reply::Broadcast(sent)) => {
                (Session::Finished, nostr::on_sent(sent))
            },
            _ => refuse(),
        }
    }
}

} // verus!
