//! The adapter for Micro.blog: one call with a bearer token, a plain form
//! without an image and a multipart form with one.

use vstd::prelude::*;
use vstd::string::*;
use crate::config::{MicroBlogConfig, MicroBlogView};
use crate::session::{optional_str, Session, SessionView};
use crate::social::{bearer, bearer_header, pair_views, Body, BodyView, ErrorKind, HttpRequest};
use crate::social::{HttpRequestView, PostError, Step, StepView};

verus! {

/// Where every post goes.
pub const ENDPOINT: &'static str = "https://micro.blog/micropub";

/// The words before the service's own in an `Api` error.
pub const REJECTED: &'static str = "Micro.Blog API error: ";

/// Whether the settings allow a post: the platform is enabled and the token
/// is there.
pub open spec fn ready(config: MicroBlogView) -> bool {
    config.enabled && config.decrypted_access_token.len() > 0
}

/// Whether the settings allow a post.
pub fn is_ready(config: &MicroBlogConfig) -> (res: bool)
    ensures
        res == ready(config@),
{
    config.enabled && !config.decrypted_access_token.as_str().is_empty()
}

/// The two text fields of every post.
pub open spec fn entry_fields(text: Seq<char>) -> Seq<(Seq<char>, Seq<char>)> {
    seq![("h"@, "entry"@), ("content"@, text)]
}

/// The call that posts a text alone.
pub open spec fn form_call(token: Seq<char>, text: Seq<char>) -> HttpRequestView {
    HttpRequestView {
        url: ENDPOINT@,
        authorization: Some(bearer(token)),
        body: BodyView::Form(entry_fields(text)),
    }
}

/// The call that posts a text with a photo.
pub open spec fn photo_call(token: Seq<char>, text: Seq<char>, bytes: Seq<u8>) -> HttpRequestView {
    HttpRequestView {
        url: ENDPOINT@,
        authorization: Some(bearer(token)),
        body: BodyView::Multipart {
            fields: entry_fields(text),
            file_field: "photo"@,
            file_name: "image.jpg"@,
            bytes,
        },
    }
}

/// How a post begins: without the settings it fails at once; with an image
/// it asks for the file; otherwise it makes its call.
pub open spec fn start(config: MicroBlogView, text: Seq<char>, image: Option<Seq<char>>) -> (
    SessionView,
    StepView,
) {
    if !ready(config) {
        (SessionView::Finished, StepView::failed(ErrorKind::Auth, "Micro.Blog not configured"@))
    } else {
        match image {
            Some(path) => (
                SessionView::MicroblogImage { token: config.decrypted_access_token, text },
                StepView::ReadImage(path),
            ),
            None => (
                SessionView::MicroblogPost,
                StepView::Send(form_call(config.decrypted_access_token, text)),
            ),
        }
    }
}

/// How a post goes on when the image was read, or could not be.
pub open spec fn after_image(token: Seq<char>, text: Seq<char>, image: Result<Vec<u8>, String>) -> (
    SessionView,
    StepView,
) {
    match image {
        Ok(bytes) => (SessionView::MicroblogPost, StepView::Send(photo_call(token, text, bytes@))),
        Err(e) => (
            SessionView::Finished,
            StepView::failed(ErrorKind::Api, "Failed to read image: "@ + e@),
        ),
    }
}

fn entry(text: &str) -> (fields: Vec<(String, String)>)
    ensures
        pair_views(fields@) == entry_fields(text@),
{
    let mut fields: Vec<(String, String)> = Vec::new();
    fields.push(("h".to_owned(), "entry".to_owned()));
    fields.push(("content".to_owned(), text.to_owned()));
    assert(pair_views(fields@) =~= entry_fields(text@));
    fields
}

/// Begins a post to Micro.blog.
pub fn post_to_microblog(config: &MicroBlogConfig, text: &str, image_path: Option<&str>) -> (next: (
    Session,
    Step,
))
    ensures
        (next.0@, next.1@) == start(config@, text@, optional_str(image_path)),
        !ready(config@) ==> next.0@ is Finished && !next.1@.is_network_call(),
{
    if !is_ready(config) {
        return (
            Session::Finished,
            Step::Done(Err(PostError::Auth("Micro.Blog not configured".to_owned()))),
        );
    }
    match image_path {
        Some(path) => (
            Session::MicroblogImage {
                token: config.decrypted_access_token.clone(),
                text: text.to_owned(),
            },
            Step::ReadImage(path.to_owned()),
        ),
        None => {
            let request = HttpRequest {
                url: ENDPOINT.to_owned(),
                authorization: Some(bearer_header(config.decrypted_access_token.as_str())),
                body: Body::Form(entry(text)),
            };
            (Session::MicroblogPost, Step::Send(request))
        },
    }
}

/// Goes on with a post when the image was read, or could not be.
pub fn on_image(token: String, text: String, image: Result<Vec<u8>, String>) -> (next: (
    Session,
    Step,
))
    ensures
        (next.0@, next.1@) == after_image(token@, text@, image),
{
    match image {
        Ok(bytes) => {
            let request = HttpRequest {
                url: ENDPOINT.to_owned(),
                authorization: Some(bearer_header(token.as_str())),
                body: Body::Multipart {
                    fields: entry(text.as_str()),
                    file_field: "photo".to_owned(),
                    file_name: "image.jpg".to_owned(),
                    bytes,
                },
            };
            (Session::MicroblogPost, Step::Send(request))
        },
        Err(e) => (
            Session::Finished,
            Step::Done(
                Err(PostError::Api("Failed to read image: ".to_owned().concat(e.as_str()))),
            ),
        ),
    }
}

} // verus!
