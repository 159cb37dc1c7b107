//! The adapter for Bluesky: a login that yields a session token, an optional
//! upload of one image, then the record of the post itself.

use vstd::prelude::*;
use vstd::string::*;
use crate::clock::{rfc3339_at, rfc3339_text, since_epoch};
use crate::config::{BlueskyConfig, BlueskyView};
use crate::json::{index, json_index, json_member, json_parsed, json_text, member, parse_json};
use crate::json::{text_of, Json, JsonView};
use crate::mime::guess_mime;
use crate::session::{optional_str, optional_text, Session, SessionView};
use crate::social::{bearer, bearer_header, is_success, success, Body, BodyView, ErrorKind};
use crate::social::{Failure, HttpReply, HttpRequest, HttpRequestView, PostError, Step, StepView};
use crate::text::{blank, decimal, decimal_text, is_blank, truncate_chars, truncated};

verus! {

/// The most characters, counted by Unicode scalar value, that a post holds.
pub const BLUESKY_CHARACTER_LIMIT: usize = 300;

/// The most bytes that an image holds.
pub const MAX_IMAGE_BYTES: usize = 1000000;

/// Where a session is opened.
pub const LOGIN_URL: &'static str = "https://bsky.social/xrpc/com.atproto.server.createSession";

/// Where an image is uploaded.
pub const UPLOAD_URL: &'static str = "https://bsky.social/xrpc/com.atproto.repo.uploadBlob";

/// Where a post is recorded.
pub const RECORD_URL: &'static str = "https://bsky.social/xrpc/com.atproto.repo.createRecord";

/// The words before the service's own in an `Api` error.
pub const REJECTED: &'static str = "Bluesky API error: ";

/// The words of a reply that is no JSON.
pub const UNDECODABLE: &'static str = "error decoding response body";

/// The words of a clock that gives no time to write into a record.
pub const CLOCK_FAILED: &'static str = "Failed to read the clock";

/// The words of an image over the cap, before its size.
pub const TOO_LARGE: &'static str = "Image file size too large. 1000000 bytes maximum, got: ";

/// Whether the settings allow a post: the platform is enabled, and the
/// handle and the password are there.
pub open spec fn ready(config: BlueskyView) -> bool {
    config.enabled && config.handle.len() > 0 && config.decrypted_password.len() > 0
}

/// Whether the settings allow a post.
pub fn is_ready(config: &BlueskyConfig) -> (res: bool)
    ensures
        res == ready(config@),
{
    config.enabled && !config.handle.as_str().is_empty()
        && !config.decrypted_password.as_str().is_empty()
}

/// The text that is posted: a single space where the text is blank and an
/// image is attached, since the service refuses an empty post; and never
/// more than the first three hundred characters.
pub open spec fn posted_text(text: Seq<char>, with_image: bool) -> Seq<char> {
    if blank(text) && with_image {
        " "@
    } else {
        truncated(text, BLUESKY_CHARACTER_LIMIT as nat)
    }
}

/// Prepares the text that is posted. A text over the cap comes out at
/// exactly the cap.
pub fn prepare_text(text: &str, with_image: bool) -> (res: String)
    ensures
        res@ == posted_text(text@, with_image),
        res@.len() <= BLUESKY_CHARACTER_LIMIT,
        text@.len() > BLUESKY_CHARACTER_LIMIT && !(blank(text@) && with_image) ==> res@.len()
            == BLUESKY_CHARACTER_LIMIT,
{
    if with_image && is_blank(text) {
        proof {
            reveal_strlit(" ");
        }
        " ".to_owned()
    } else {
        truncate_chars(text, BLUESKY_CHARACTER_LIMIT)
    }
}

/// The call that opens a session.
pub open spec fn login_call(handle: Seq<char>, password: Seq<char>) -> HttpRequestView {
    HttpRequestView {
        url: LOGIN_URL@,
        authorization: None,
        body: BodyView::Json(
            JsonView::Object(
                seq![
                    ("identifier"@, JsonView::Text(handle)),
                    ("password"@, JsonView::Text(password)),
                ],
            ),
        ),
    }
}

/// The call that uploads an image under a media type.
pub open spec fn upload_call(token: Seq<char>, mime: Seq<char>, bytes: Seq<u8>) -> HttpRequestView {
    HttpRequestView {
        url: UPLOAD_URL@,
        authorization: Some(bearer(token)),
        body: BodyView::Raw { content_type: mime, bytes },
    }
}

/// The reference to an uploaded image, as a post embeds it.
pub open spec fn blob_of(blob: serde_json::Value) -> JsonView {
    JsonView::Object(
        seq![
            ("$type"@, JsonView::Text("blob"@)),
            ("ref"@, JsonView::Parsed(json_index(blob, "ref"@))),
            ("mimeType"@, JsonView::Parsed(json_index(blob, "mimeType"@))),
            ("size"@, JsonView::Parsed(json_index(blob, "size"@))),
        ],
    )
}

/// What a post embeds for one image.
pub open spec fn embed_of(blob: JsonView) -> JsonView {
    JsonView::Object(
        seq![
            ("$type"@, JsonView::Text("app.bsky.embed.images"@)),
            (
                "images"@,
                JsonView::List(
                    seq![JsonView::Object(seq![("image"@, blob), ("alt"@, JsonView::Text(""@))])],
                ),
            ),
        ],
    )
}

/// The record of a post.
pub open spec fn record_of(text: Seq<char>, stamp: Seq<char>, blob: Option<JsonView>) -> JsonView {
    let plain = seq![
        ("text"@, JsonView::Text(text)),
        ("createdAt"@, JsonView::Text(stamp)),
        ("$type"@, JsonView::Text("app.bsky.feed.post"@)),
    ];
    match blob {
        Some(blob) => JsonView::Object(plain.push(("embed"@, embed_of(blob)))),
        None => JsonView::Object(plain),
    }
}

/// The call that records a post.
pub open spec fn record_call(
    handle: Seq<char>,
    text: Seq<char>,
    token: Seq<char>,
    stamp: Seq<char>,
    blob: Option<JsonView>,
) -> HttpRequestView {
    HttpRequestView {
        url: RECORD_URL@,
        authorization: Some(bearer(token)),
        body: BodyView::Json(
            JsonView::Object(
                seq![
                    ("repo"@, JsonView::Text(handle)),
                    ("collection"@, JsonView::Text("app.bsky.feed.post"@)),
                    ("record"@, record_of(text, stamp, blob)),
                ],
            ),
        ),
    }
}

/// Builds the call that opens a session.
pub fn login_request(handle: &str, password: &str) -> (request: HttpRequest)
    ensures
        request@ == login_call(handle@, password@),
{
    let body = Json::object1("identifier", Json::text(handle)).with("password", Json::text(password));
    assert(seq![("identifier"@, JsonView::Text(handle@))].push(
        ("password"@, JsonView::Text(password@)),
    ) =~= seq![
        ("identifier"@, JsonView::Text(handle@)),
        ("password"@, JsonView::Text(password@)),
    ]);
    HttpRequest { url: LOGIN_URL.to_owned(), authorization: None, body: Body::Json(body) }
}

/// Builds the call that uploads an image under a media type.
pub fn upload_request(token: &str, mime: String, bytes: Vec<u8>) -> (request: HttpRequest)
    ensures
        request@ == upload_call(token@, mime@, bytes@),
{
    HttpRequest {
        url: UPLOAD_URL.to_owned(),
        authorization: Some(bearer_header(token)),
        body: Body::Raw { content_type: mime, bytes },
    }
}

/// Builds the reference to an uploaded image from the service's description
/// of it.
pub fn blob_json(blob: &serde_json::Value) -> (json: Json)
    ensures
        json@ == blob_of(*blob),
{
    let kind = Json::text("blob");
    let reference = Json::Parsed(index(blob, "ref"));
    let mime = Json::Parsed(index(blob, "mimeType"));
    let size = Json::Parsed(index(blob, "size"));
    assert(seq![("$type"@, kind@)].push(("ref"@, reference@)).push(("mimeType"@, mime@)).push(
        ("size"@, size@),
    ) =~= seq![("$type"@, kind@), ("ref"@, reference@), ("mimeType"@, mime@), ("size"@, size@)]);
    Json::object1("$type", kind).with("ref", reference).with("mimeType", mime).with("size", size)
}

/// Builds what a post embeds for one image.
pub fn embed_json(blob: Json) -> (json: Json)
    ensures
        json@ == embed_of(blob@),
{
    let alt = Json::text("");
    assert(seq![("image"@, blob@)].push(("alt"@, alt@)) =~= seq![("image"@, blob@), ("alt"@, alt@)]);
    let image = Json::object1("image", blob).with("alt", alt);
    let kind = Json::text("app.bsky.embed.images");
    let images = Json::list1(image);
    assert(seq![("$type"@, kind@)].push(("images"@, images@)) =~= seq![
        ("$type"@, kind@),
        ("images"@, images@),
    ]);
    Json::object1("$type", kind).with("images", images)
}

/// Builds the record of a post.
pub fn record_json(text: &str, stamp: &str, blob: Option<Json>) -> (json: Json)
    ensures
        json@ == record_of(text@, stamp@, optional_json(blob)),
{
    let body = Json::text(text);
    let created = Json::text(stamp);
    let kind = Json::text("app.bsky.feed.post");
    assert(seq![("text"@, body@)].push(("createdAt"@, created@)).push(("$type"@, kind@)) =~= seq![
        ("text"@, body@),
        ("createdAt"@, created@),
        ("$type"@, kind@),
    ]);
    let plain = Json::object1("text", body).with("createdAt", created).with("$type", kind);
    match blob {
        Some(blob) => plain.with("embed", embed_json(blob)),
        None => plain,
    }
}

/// What an optional document holds.
pub open spec fn optional_json(json: Option<Json>) -> Option<JsonView> {
    match json {
        Some(json) => Some(json@),
        None => None,
    }
}

/// Builds the call that records a post.
pub fn record_request(handle: &str, text: &str, token: &str, stamp: &str, blob: Option<Json>) -> (request:
    HttpRequest)
    ensures
        request@ == record_call(handle@, text@, token@, stamp@, optional_json(blob)),
{
    let repo = Json::text(handle);
    let collection = Json::text("app.bsky.feed.post");
    let record = record_json(text, stamp, blob);
    assert(seq![("repo"@, repo@)].push(("collection"@, collection@)).push(("record"@, record@))
        =~= seq![("repo"@, repo@), ("collection"@, collection@), ("record"@, record@)]);
    let body = Json::object1("repo", repo).with("collection", collection).with("record", record);
    HttpRequest {
        url: RECORD_URL.to_owned(),
        authorization: Some(bearer_header(token)),
        body: Body::Json(body),
    }
}

/// The time of a reading of the clock, in seconds and nanoseconds since the
/// start of 1970, as a record holds it; or `None` where there is no reading
/// or none that can be written out.
pub open spec fn stamped(reading: Option<(u64, u32)>) -> Option<Seq<char>> {
    match reading {
        None => None,
        Some(at) => if at.0 > i64::MAX {
            None
        } else {
            rfc3339_text(at.0 as int, at.1 as int)
        },
    }
}

/// Writes a reading of the clock out as a record holds it.
pub fn stamp(reading: Option<(u64, u32)>) -> (res: Option<String>)
    ensures
        optional_text(res) == stamped(reading),
{
    match reading {
        None => None,
        Some(at) => if at.0 > i64::MAX as u64 {
            None
        } else {
            rfc3339_at(at.0 as i64, at.1)
        },
    }
}

/// How a post goes on to its last call, given a reading of the clock: the
/// post is recorded under the time of the reading, and where the clock gives
/// none it ends as an `Api` error.
pub open spec fn recording(
    handle: Seq<char>,
    text: Seq<char>,
    token: Seq<char>,
    blob: Option<JsonView>,
    reading: Option<(u64, u32)>,
) -> (SessionView, StepView) {
    match stamped(reading) {
        Some(stamp) => (
            SessionView::BlueskyRecord,
            StepView::Send(record_call(handle, text, token, stamp, blob)),
        ),
        None => (SessionView::Finished, StepView::failed(ErrorKind::Api, CLOCK_FAILED@)),
    }
}

/// Goes on to a post's last call, given a reading of the clock.
pub fn record_step(handle: &str, text: &str, token: &str, blob: Option<Json>, reading: Option<
    (u64, u32),
>) -> (next: (Session, Step))
    ensures
        (next.0@, next.1@) == recording(handle@, text@, token@, optional_json(blob), reading),
{
    match stamp(reading) {
        Some(stamp) => (
            Session::BlueskyRecord,
            Step::Send(record_request(handle, text, token, stamp.as_str(), blob)),
        ),
        None => (Session::Finished, Step::Done(Err(PostError::Api(CLOCK_FAILED.to_owned())))),
    }
}

/// How a post begins: without the settings it fails at once; otherwise it
/// opens a session, and remembers the text as it will be posted.
pub open spec fn start(config: BlueskyView, text: Seq<char>, image: Option<Seq<char>>) -> (
    SessionView,
    StepView,
) {
    if !ready(config) {
        (SessionView::Finished, StepView::failed(ErrorKind::Auth, "Bluesky not configured"@))
    } else {
        (
            SessionView::BlueskyLogin {
                handle: config.handle,
                text: posted_text(text, image is Some),
                image_path: image,
            },
            StepView::Send(login_call(config.handle, config.decrypted_password)),
        )
    }
}

/// Begins a post to Bluesky.
pub fn post_to_bluesky(config: &BlueskyConfig, text: &str, image_path: Option<&str>) -> (next: (
    Session,
    Step,
))
    ensures
        (next.0@, next.1@) == start(config@, text@, optional_str(image_path)),
        !ready(config@) ==> next.0@ is Finished && !next.1@.is_network_call(),
{
    if !is_ready(config) {
        return (
            Session::Finished,
            Step::Done(Err(PostError::Auth("Bluesky not configured".to_owned()))),
        );
    }
    let posted = prepare_text(text, image_path.is_some());
    let request = login_request(config.handle.as_str(), config.decrypted_password.as_str());
    let image_path = match image_path {
        Some(path) => Some(path.to_owned()),
        None => None,
    };
    (Session::BlueskyLogin { handle: config.handle.clone(), text: posted, image_path }, Step::Send(request))
}

/// The session token in the reply to a login.
pub open spec fn access_token(reply: serde_json::Value) -> Option<Seq<char>> {
    json_text(json_index(reply, "accessJwt"@))
}

/// What the reply to a login holds: the session token, or the failure that
/// the post ends in. A transport failure, an unreadable body and a body that
/// is no JSON are `Network` errors; a refused login and a reply without a
/// token are `Auth` errors.
pub open spec fn login_outcome(reply: Result<HttpReply, String>) -> Result<Seq<char>, Failure> {
    match reply {
        Err(e) => Err(Failure { kind: ErrorKind::Network, detail: e@ }),
        Ok(reply) => if !success(reply.status) {
            Err(Failure { kind: ErrorKind::Auth, detail: "Failed to authenticate with Bluesky"@ })
        } else {
            match reply.body {
                Err(e) => Err(Failure { kind: ErrorKind::Network, detail: e@ }),
                Ok(bytes) => match json_parsed(bytes@) {
                    None => Err(Failure { kind: ErrorKind::Network, detail: UNDECODABLE@ }),
                    Some(value) => match access_token(value) {
                        None => Err(
                            Failure { kind: ErrorKind::Auth, detail: "No access token received"@ },
                        ),
                        Some(token) => Ok(token),
                    },
                },
            }
        },
    }
}

/// Reads the reply to a login.
pub fn read_login(reply: Result<HttpReply, String>) -> (res: Result<String, PostError>)
    ensures
        match res {
            Ok(token) => login_outcome(reply) == Ok::<Seq<char>, Failure>(token@),
            Err(e) => login_outcome(reply) == Err::<Seq<char>, Failure>(e@),
        },
{
    let reply = match reply {
        Ok(reply) => reply,
        Err(e) => {
            return Err(PostError::Network(e));
        },
    };
    if !is_success(reply.status) {
        return Err(PostError::Auth("Failed to authenticate with Bluesky".to_owned()));
    }
    let bytes = match reply.body {
        Ok(bytes) => bytes,
        Err(e) => {
            return Err(PostError::Network(e));
        },
    };
    let value = match parse_json(bytes.as_slice()) {
        Ok(value) => value,
        Err(_) => {
            return Err(PostError::Network(UNDECODABLE.to_owned()));
        },
    };
    match text_of(&index(&value, "accessJwt")) {
        Some(token) => Ok(token),
        None => Err(PostError::Auth("No access token received".to_owned())),
    }
}

/// How a post goes on after the login, given a reading of the clock: a
/// failed login ends it; with an image it asks for the file; otherwise it
/// records the post under the time of the reading.
pub open spec fn after_login(
    handle: Seq<char>,
    text: Seq<char>,
    image: Option<Seq<char>>,
    reply: Result<HttpReply, String>,
    reading: Option<(u64, u32)>,
) -> (SessionView, StepView) {
    match login_outcome(reply) {
        Err(failure) => (SessionView::Finished, StepView::Done(Err(failure))),
        Ok(token) => match image {
            Some(path) => (
                SessionView::BlueskyImage { handle, text, token, path },
                StepView::ReadImage(path),
            ),
            None => recording(handle, text, token, None, reading),
        },
    }
}

/// Whether a post may go on so after the login: as `after_login` says, for
/// some reading of the clock.
pub open spec fn follows_login(
    handle: Seq<char>,
    text: Seq<char>,
    image: Option<Seq<char>>,
    reply: Result<HttpReply, String>,
    next: (SessionView, StepView),
) -> bool {
    exists|reading: Option<(u64, u32)>|
        next == #[trigger] after_login(handle, text, image, reply, reading)
}

/// Goes on with a post after the login.
pub fn on_login(handle: String, text: String, image_path: Option<String>, reply: Result<
    HttpReply,
    String,
>) -> (next: (Session, Step))
    ensures
        follows_login(handle@, text@, optional_text(image_path), reply, (next.0@, next.1@)),
{
    let token = match read_login(reply) {
        Ok(token) => token,
        Err(e) => {
            let next = (Session::Finished, Step::Done(Err(e)));
            assert((next.0@, next.1@) == after_login(
                handle@,
                text@,
                optional_text(image_path),
                reply,
                None,
            ));
            return next;
        },
    };
    match image_path {
        Some(path) => {
            let next = (
                Session::BlueskyImage { handle, text, token, path: path.clone() },
                Step::ReadImage(path),
            );
            assert((next.0@, next.1@) == after_login(
                handle@,
                text@,
                optional_text(image_path),
                reply,
                None,
            ));
            next
        },
        None => {
            let reading = since_epoch();
            let next = record_step(handle.as_str(), text.as_str(), token.as_str(), None, reading);
            assert((next.0@, next.1@) == after_login(
                handle@,
                text@,
                optional_text(image_path),
                reply,
                reading,
            ));
            next
        },
    }
}

/// How a post goes on when the image was read, or could not be, given the
/// media type guessed from the path: an unreadable file ends it, and so does
/// one over the cap; otherwise the image is uploaded.
pub open spec fn after_image(
    handle: Seq<char>,
    text: Seq<char>,
    token: Seq<char>,
    image: Result<Vec<u8>, String>,
    mime: Seq<char>,
) -> (SessionView, StepView) {
    match image {
        Err(e) => (
            SessionView::Finished,
            StepView::failed(ErrorKind::Api, "Failed to read image: "@ + e@),
        ),
        Ok(bytes) => if bytes@.len() > MAX_IMAGE_BYTES {
            (
                SessionView::Finished,
                StepView::failed(ErrorKind::Api, TOO_LARGE@ + decimal(bytes@.len())),
            )
        } else {
            (
                SessionView::BlueskyUpload { handle, text, token },
                StepView::Send(upload_call(token, mime, bytes@)),
            )
        },
    }
}

/// Whether a post may go on so when the image was read, or could not be: as
/// `after_image` says, for some media type.
pub open spec fn follows_image(
    handle: Seq<char>,
    text: Seq<char>,
    token: Seq<char>,
    image: Result<Vec<u8>, String>,
    next: (SessionView, StepView),
) -> bool {
    exists|mime: Seq<char>| next == #[trigger] after_image(handle, text, token, image, mime)
}

/// Goes on with a post when the image was read, or could not be.
pub fn on_image(handle: String, text: String, token: String, path: String, image: Result<
    Vec<u8>,
    String,
>) -> (next: (Session, Step))
    ensures
        follows_image(handle@, text@, token@, image, (next.0@, next.1@)),
{
    match image {
        Err(e) => {
            let detail = "Failed to read image: ".to_owned().concat(e.as_str());
            let next = (Session::Finished, Step::Done(Err(PostError::Api(detail))));
            assert((next.0@, next.1@) == after_image(handle@, text@, token@, image, Seq::empty()));
            next
        },
        Ok(bytes) => {
            if bytes.len() > MAX_IMAGE_BYTES {
                let detail = TOO_LARGE.to_owned().concat(decimal_text(bytes.len()).as_str());
                let next = (Session::Finished, Step::Done(Err(PostError::Api(detail))));
                assert((next.0@, next.1@) == after_image(
                    handle@,
                    text@,
                    token@,
                    image,
                    Seq::empty(),
                ));
                next
            } else {
                let mime = guess_mime(path.as_str());
                let ghost shown = mime@;
                let request = upload_request(token.as_str(), mime, bytes);
                let next = (Session::BlueskyUpload { handle, text, token }, Step::Send(request));
                assert((next.0@, next.1@) == after_image(handle@, text@, token@, image, shown));
                next
            }
        },
    }
}

/// What the reply to an upload holds: the image as the post will embed it,
/// or nothing where the upload was refused or its reply names no blob; or
/// the failure that the post ends in.
pub open spec fn upload_outcome(reply: Result<HttpReply, String>) -> Result<
    Option<JsonView>,
    Failure,
> {
    match reply {
        Err(e) => Err(Failure { kind: ErrorKind::Network, detail: e@ }),
        Ok(reply) => if !success(reply.status) {
            Ok(None)
        } else {
            match reply.body {
                Err(e) => Err(Failure { kind: ErrorKind::Network, detail: e@ }),
                Ok(bytes) => match json_parsed(bytes@) {
                    None => Err(Failure { kind: ErrorKind::Network, detail: UNDECODABLE@ }),
                    Some(value) => match json_member(value, "blob"@) {
                        Some(blob) => Ok(Some(blob_of(blob))),
                        None => Ok(None),
                    },
                },
            }
        },
    }
}

/// Reads the reply to an upload.
pub fn read_upload(reply: Result<HttpReply, String>) -> (res: Result<Option<Json>, PostError>)
    ensures
        match res {
            Ok(blob) => upload_outcome(reply) == Ok::<Option<JsonView>, Failure>(
                optional_json(blob),
            ),
            Err(e) => upload_outcome(reply) == Err::<Option<JsonView>, Failure>(e@),
        },
{
    let reply = match reply {
        Ok(reply) => reply,
        Err(e) => {
            return Err(PostError::Network(e));
        },
    };
    if !is_success(reply.status) {
        return Ok(None);
    }
    let bytes = match reply.body {
        Ok(bytes) => bytes,
        Err(e) => {
            return Err(PostError::Network(e));
        },
    };
    let value = match parse_json(bytes.as_slice()) {
        Ok(value) => value,
        Err(_) => {
            return Err(PostError::Network(UNDECODABLE.to_owned()));
        },
    };
    match member(&value, "blob") {
        Some(blob) => Ok(Some(blob_json(&blob))),
        None => Ok(None),
    }
}

/// How a post goes on after the upload, given a reading of the clock: the
/// post is recorded under the time of the reading, with the image where the
/// upload gave one, unless the reply could not be had or read.
pub open spec fn after_upload(
    handle: Seq<char>,
    text: Seq<char>,
    token: Seq<char>,
    reply: Result<HttpReply, String>,
    reading: Option<(u64, u32)>,
) -> (SessionView, StepView) {
    match upload_outcome(reply) {
        Err(failure) => (SessionView::Finished, StepView::Done(Err(failure))),
        Ok(blob) => recording(handle, text, token, blob, reading),
    }
}

/// Whether a post may go on so after the upload: as `after_upload` says, for
/// some reading of the clock.
pub open spec fn follows_upload(
    handle: Seq<char>,
    text: Seq<char>,
    token: Seq<char>,
    reply: Result<HttpReply, String>,
    next: (SessionView, StepView),
) -> bool {
    exists|reading: Option<(u64, u32)>|
        next == #[trigger] after_upload(handle, text, token, reply, reading)
}

/// Goes on with a post after the upload.
pub fn on_upload(handle: String, text: String, token: String, reply: Result<HttpReply, String>) -> (next:
    (Session, Step))
    ensures
        follows_upload(handle@, text@, token@, reply, (next.0@, next.1@)),
{
    match read_upload(reply) {
        Err(e) => {
            let next = (Session::Finished, Step::Done(Err(e)));
            assert((next.0@, next.1@) == after_upload(handle@, text@, token@, reply, None));
            next
        },
        Ok(blob) => {
            let reading = since_epoch();
            let next = record_step(handle.as_str(), text.as_str(), token.as_str(), blob, reading);
            assert((next.0@, next.1@) == after_upload(handle@, text@, token@, reply, reading));
            next
        },
    }
}

} // verus!
