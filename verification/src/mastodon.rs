//! The adapter for Mastodon: a bearer token on every call, an optional
//! upload of one image, then the status itself.

use vstd::prelude::*;
use vstd::string::*;
use crate::config::{MastodonConfig, MastodonView};
use crate::json::{index, json_index, json_parsed, json_text, parse_json, text_of};
use crate::session::{optional_str, optional_text, Session, SessionView};
use crate::social::{bearer, bearer_header, pair_views, success, is_success, Body, BodyView};
use crate::social::{ErrorKind, HttpReply, HttpRequest, HttpRequestView, PostError, Step, StepView};
use crate::std_text::file_name_of;
use crate::text::{trim_trailing_slashes, without_trailing_slashes};

verus! {

/// The words before the service's own in an `Api` error.
pub const REJECTED: &'static str = "Mastodon API error: ";

/// The words of a reply that is no JSON.
pub const UNDECODABLE: &'static str = "error decoding response body";

/// Whether the settings allow a post: the platform is enabled, and the
/// instance and the token are there.
pub open spec fn ready(config: MastodonView) -> bool {
    config.enabled && config.instance_url.len() > 0 && config.decrypted_access_token.len() > 0
}

/// Whether the settings allow a post.
pub fn is_ready(config: &MastodonConfig) -> (res: bool)
    ensures
        res == ready(config@),
{
    config.enabled && !config.instance_url.as_str().is_empty()
        && !config.decrypted_access_token.as_str().is_empty()
}

/// The call that uploads an image.
pub open spec fn media_call(
    base: Seq<char>,
    token: Seq<char>,
    file_name: Seq<char>,
    bytes: Seq<u8>,
) -> HttpRequestView {
    HttpRequestView {
        url: base + "/api/v2/media"@,
        authorization: Some(bearer(token)),
        body: BodyView::Multipart {
            fields: Seq::empty(),
            file_field: "file"@,
            file_name,
            bytes,
        },
    }
}

/// The fields of a status: the text, and the uploaded image if there is one.
pub open spec fn status_fields(text: Seq<char>, media: Option<Seq<char>>) -> Seq<
    (Seq<char>, Seq<char>),
> {
    match media {
        Some(id) => seq![("status"@, text), ("media_ids[]"@, id)],
        None => seq![("status"@, text)],
    }
}

/// The call that posts a status.
pub open spec fn status_call(
    base: Seq<char>,
    token: Seq<char>,
    text: Seq<char>,
    media: Option<Seq<char>>,
) -> HttpRequestView {
    HttpRequestView {
        url: base + "/api/v1/statuses"@,
        authorization: Some(bearer(token)),
        body: BodyView::Form(status_fields(text, media)),
    }
}

/// How a post begins, given the file name that the image's path ends in:
/// without the settings it fails at once; with an image it asks for the
/// file, to be uploaded under that name or as `image`; otherwise it posts
/// the status.
pub open spec fn start(
    config: MastodonView,
    text: Seq<char>,
    image: Option<Seq<char>>,
    file_name: Option<Seq<char>>,
) -> (SessionView, StepView) {
    let base = without_trailing_slashes(config.instance_url);
    let token = config.decrypted_access_token;
    if !ready(config) {
        (SessionView::Finished, StepView::failed(ErrorKind::Auth, "Mastodon not configured"@))
    } else {
        match image {
            Some(path) => (
                SessionView::MastodonImage {
                    base,
                    token,
                    text,
                    file_name: match file_name {
                        Some(name) => name,
                        None => "image"@,
                    },
                },
                StepView::ReadImage(path),
            ),
            None => (SessionView::MastodonStatus, StepView::Send(status_call(base, token, text, None))),
        }
    }
}

/// Whether a post may begin so: as `start` says, for some file name.
pub open spec fn starts(
    config: MastodonView,
    text: Seq<char>,
    image: Option<Seq<char>>,
    next: (SessionView, StepView),
) -> bool {
    exists|file_name: Option<Seq<char>>| next == #[trigger] start(config, text, image, file_name)
}

/// How a post goes on when the image was read, or could not be.
pub open spec fn after_image(
    base: Seq<char>,
    token: Seq<char>,
    text: Seq<char>,
    file_name: Seq<char>,
    image: Result<Vec<u8>, String>,
) -> (SessionView, StepView) {
    match image {
        Ok(bytes) => (
            SessionView::MastodonMedia { base, token, text },
            StepView::Send(media_call(base, token, file_name, bytes@)),
        ),
        Err(e) => (
            SessionView::Finished,
            StepView::failed(ErrorKind::Api, "Failed to read image: "@ + e@),
        ),
    }
}

/// The identifier of an uploaded image in the service's reply.
pub open spec fn media_id(reply: serde_json::Value) -> Option<Seq<char>> {
    json_text(json_index(reply, "id"@))
}

/// How a post goes on after the upload: a transport failure ends it, and so
/// does an accepted upload whose reply cannot be read as JSON; a refused
/// upload is passed over, and the status goes out without the image.
pub open spec fn after_media(
    base: Seq<char>,
    token: Seq<char>,
    text: Seq<char>,
    reply: Result<HttpReply, String>,
) -> (SessionView, StepView) {
    match reply {
        Err(e) => (SessionView::Finished, StepView::failed(ErrorKind::Network, e@)),
        Ok(reply) => if !success(reply.status) {
            (SessionView::MastodonStatus, StepView::Send(status_call(base, token, text, None)))
        } else {
            match reply.body {
                Err(e) => (SessionView::Finished, StepView::failed(ErrorKind::Network, e@)),
                Ok(bytes) => match json_parsed(bytes@) {
                    None => (
                        SessionView::Finished,
                        StepView::failed(ErrorKind::Network, UNDECODABLE@),
                    ),
                    Some(value) => (
                        SessionView::MastodonStatus,
                        StepView::Send(status_call(base, token, text, media_id(value))),
                    ),
                },
            }
        },
    }
}

fn status_request(base: &str, token: &str, text: &str, media: Option<String>) -> (request:
    HttpRequest)
    ensures
        request@ == status_call(
            base@,
            token@,
            text@,
            optional_text(media),
        ),
{
    let mut fields: Vec<(String, String)> = Vec::new();
    fields.push(("status".to_owned(), text.to_owned()));
    let ghost shown = optional_text(media);
    match media {
        Some(id) => {
            fields.push(("media_ids[]".to_owned(), id));
        },
        None => {},
    }
    assert(pair_views(fields@) =~= status_fields(text@, shown));
    HttpRequest {
        url: base.to_owned().concat("/api/v1/statuses"),
        authorization: Some(bearer_header(token)),
        body: Body::Form(fields),
    }
}

/// Begins a post to Mastodon, given the file name that the image's path
/// ends in.
pub fn begin(config: &MastodonConfig, text: &str, image_path: Option<&str>, file_name: Option<
    String,
>) -> (next: (Session, Step))
    ensures
        (next.0@, next.1@) == start(
            config@,
            text@,
            optional_str(image_path),
            optional_text(file_name),
        ),
{
    if !is_ready(config) {
        return (
            Session::Finished,
            Step::Done(Err(PostError::Auth("Mastodon not configured".to_owned()))),
        );
    }
    let base = trim_trailing_slashes(config.instance_url.as_str());
    match image_path {
        Some(path) => {
            let file_name = match file_name {
                Some(name) => name,
                None => "image".to_owned(),
            };
            (
                Session::MastodonImage {
                    base,
                    token: config.decrypted_access_token.clone(),
                    text: text.to_owned(),
                    file_name,
                },
                Step::ReadImage(path.to_owned()),
            )
        },
        None => {
            let request = status_request(
                base.as_str(),
                config.decrypted_access_token.as_str(),
                text,
                None,
            );
            (Session::MastodonStatus, Step::Send(request))
        },
    }
}

/// Begins a post to Mastodon.
pub fn post_to_mastodon(config: &MastodonConfig, text: &str, image_path: Option<&str>) -> (next: (
    Session,
    Step,
))
    ensures
        starts(config@, text@, optional_str(image_path), (next.0@, next.1@)),
        !ready(config@) ==> next.0@ is Finished && next.1@ == StepView::failed(
            ErrorKind::Auth,
            "Mastodon not configured"@,
        ),
        ready(config@) && image_path is None ==> (next.0@, next.1@) == start(
            config@,
            text@,
            None,
            None,
        ),
{
    let file_name = match image_path {
        Some(path) => file_name_of(path),
        None => None,
    };
    let ghost shown = optional_text(file_name);
    let next = begin(config, text, image_path, file_name);
    assert((next.0@, next.1@) == start(config@, text@, optional_str(image_path), shown));
    next
}

/// Goes on with a post when the image was read, or could not be.
pub fn on_image(base: String, token: String, text: String, file_name: String, image: Result<
    Vec<u8>,
    String,
>) -> (next: (Session, Step))
    ensures
        (next.0@, next.1@) == after_image(base@, token@, text@, file_name@, image),
{
    match image {
        Ok(bytes) => {
            let request = HttpRequest {
                url: base.clone().concat("/api/v2/media"),
                authorization: Some(bearer_header(token.as_str())),
                body: Body::Multipart {
                    fields: Vec::new(),
                    file_field: "file".to_owned(),
                    file_name,
                    bytes,
                },
            };
            assert(pair_views(Seq::<(String, String)>::empty()) =~= Seq::empty());
            (Session::MastodonMedia { base, token, text }, Step::Send(request))
        },
        Err(e) => (
            Session::Finished,
            Step::Done(
                Err(PostError::Api("Failed to read image: ".to_owned().concat(e.as_str()))),
            ),
        ),
    }
}

/// Goes on with a post after the upload.
pub fn on_media(base: String, token: String, text: String, reply: Result<HttpReply, String>) -> (next:
    (Session, Step))
    ensures
        (next.0@, next.1@) == after_media(base@, token@, text@, reply),
{
    let reply = match reply {
        Ok(reply) => reply,
        Err(e) => {
            return (Session::Finished, Step::Done(Err(PostError::Network(e))));
        },
    };
    if !is_success(reply.status) {
        let request = status_request(base.as_str(), token.as_str(), text.as_str(), None);
        return (Session::MastodonStatus, Step::Send(request));
    }
    let bytes = match reply.body {
        Ok(bytes) => bytes,
        Err(e) => {
            return (Session::Finished, Step::Done(Err(PostError::Network(e))));
        },
    };
    match parse_json(bytes.as_slice()) {
        Err(_) => (Session::Finished, Step::Done(Err(PostError::Network(UNDECODABLE.to_owned())))),
        Ok(value) => {
            let id = text_of(&index(&value, "id"));
            let request = status_request(base.as_str(), token.as_str(), text.as_str(), id);
            (Session::MastodonStatus, Step::Send(request))
        },
    }
}

} // verus!
