//! The application's state and its reaction to every message: what the user
//! composes, what the settings form holds, and what has to be done outside
//! the model as a consequence.

use vstd::prelude::*;
use vstd::string::*;
use crate::config::{BlueskyConfig, BlueskyView, Config, ConfigView, MastodonConfig, MastodonView};
use crate::config::{MicroBlogConfig, MicroBlogView, NostrConfig, NostrView};
use crate::crypto::{derived_key, CryptoManager, MachineIdentity, MACHINE_SALT};
use crate::publish::{planned, submit, Platform, Posting, Selection};
use crate::session::optional_text;
use crate::social::PostError;
use crate::text::{blank, decimal, decimal_text, is_blank};
use crate::validate::{valid_handle, valid_private_key, valid_relay_url, valid_url};
use crate::validate::{validate_handle, validate_private_key, validate_relay_url, validate_url};
use crate::{bluesky, mastodon, microblog, nostr};

verus! {

/// The most characters, counted by Unicode scalar value, that can be
/// submitted.
pub const MAX_POST_LENGTH: usize = 500;

/// The words shown when the settings could not be saved.
pub const SAVE_FAILED: &'static str = "Failed to save settings";

/// Which of the two views is shown.
#[derive(Debug, Clone, Copy, PartialEq, Eq, Structural)]
pub enum ViewMode {
    Compose,
    Settings,
}

impl Default for ViewMode {
    fn default() -> (mode: Self)
        ensures
            mode == ViewMode::Compose,
    {
        ViewMode::Compose
    }
}

/// What a `PostingStatus` holds.
pub enum StatusView {
    Idle,
    Posting,
    Success,
    Error(Seq<char>),
}

/// How the last submission or the last saving of the settings went.
#[derive(Debug, PartialEq, Eq)]
pub enum PostingStatus {
    Idle,
    Posting,
    Success,
    Error(String),
}

impl View for PostingStatus {
    type V = StatusView;

    open spec fn view(&self) -> StatusView {
        match self {
            PostingStatus::Idle => StatusView::Idle,
            PostingStatus::Posting => StatusView::Posting,
            PostingStatus::Success => StatusView::Success,
            PostingStatus::Error(text) => StatusView::Error(text@),
        }
    }
}

impl Default for PostingStatus {
    fn default() -> (status: Self)
        ensures
            status@ == StatusView::Idle,
    {
        PostingStatus::Idle
    }
}

impl Clone for PostingStatus {
    fn clone(&self) -> (copy: Self)
        ensures
            copy@ == self@,
    {
        match self {
            PostingStatus::Idle => PostingStatus::Idle,
            PostingStatus::Posting => PostingStatus::Posting,
            PostingStatus::Success => PostingStatus::Success,
            PostingStatus::Error(text) => PostingStatus::Error(text.clone()),
        }
    }
}

/// What the application and its widgets report to the model.
#[derive(Debug, PartialEq)]
pub enum Message {
    MicroBlogEnabledChanged(bool),
    MicroBlogTokenChanged(String),
    SwitchView(ViewMode),
    /// The persisted configuration changed on disk.
    UpdateConfig(Box<Config>),
    /// The editor holds this text now.
    PostEditorAction(String),
    PostSubmit,
    PostResult(Result<(), PostError>),
    PostToBlueskyToggled(bool),
    PostToMastodonToggled(bool),
    PostToMicroBlogToggled(bool),
    PostToNostrToggled(bool),
    /// The user asks for the file picker.
    AttachImage,
    /// The picker gave this path, or the attachment was cleared.
    ImageSelected(Option<String>),
    BlueskyEnabledChanged(bool),
    BlueskyHandleChanged(String),
    BlueskyPasswordChanged(String),
    MastodonEnabledChanged(bool),
    MastodonInstanceChanged(String),
    MastodonTokenChanged(String),
    NostrEnabledChanged(bool),
    NostrPrivateKeyChanged(String),
    NewRelayChanged(String),
    AddRelay,
    RemoveRelay(usize),
    SaveSettings,
    /// Whether the configuration that was handed out for saving reached the
    /// disk.
    SettingsSaved(bool),
    ToggleRelays,
}

/// What has to be done outside the model after a message.
#[derive(Debug, PartialEq)]
pub enum Command {
    /// Nothing.
    Nothing,
    /// Open the file picker and report the choice as `ImageSelected`.
    PickImage,
    /// Carry these posts to their ends, all at once, and report the
    /// aggregate as `PostResult`.
    Publish(Vec<Posting>),
    /// Write this configuration to disk and report as `SettingsSaved`. Its
    /// decrypted fields are empty: no plaintext secret leaves the model.
    Persist(Box<Config>),
    /// Empty the editor.
    ClearEditor,
}

/// What an `AppModel` holds.
pub struct ModelView {
    pub view_mode: ViewMode,
    pub config: ConfigView,
    pub post_text: Seq<char>,
    pub posting_status: StatusView,
    pub selection: Selection,
    pub attached_image: Option<Seq<char>>,
    pub temp_bluesky: BlueskyView,
    pub temp_mastodon: MastodonView,
    pub temp_nostr: NostrView,
    pub temp_microblog: MicroBlogView,
    pub new_relay: Seq<char>,
    pub show_relays: bool,
    pub key: Option<Seq<u8>>,
}

/// The application's state.
pub struct AppModel {
    /// Which view is shown.
    pub view_mode: ViewMode,
    /// The configuration in force, with its secrets decrypted.
    pub config: Config,
    /// The text in the editor.
    pub post_text: String,
    /// How the last submission or saving went.
    pub posting_status: PostingStatus,
    /// The platforms chosen for the next submission.
    pub selection: Selection,
    /// The path of the attached image.
    pub attached_image: Option<String>,
    /// What the settings form holds for Bluesky.
    pub temp_bluesky: BlueskyConfig,
    /// What the settings form holds for Mastodon.
    pub temp_mastodon: MastodonConfig,
    /// What the settings form holds for Nostr.
    pub temp_nostr: NostrConfig,
    /// What the settings form holds for Micro.blog.
    pub temp_microblog: MicroBlogConfig,
    /// The relay address being typed.
    pub new_relay: String,
    /// Whether the list of relays is unfolded.
    pub show_relays: bool,
    /// The cipher context.
    pub crypto_manager: CryptoManager,
}

impl View for AppModel {
    type V = ModelView;

    open spec fn view(&self) -> ModelView {
        ModelView {
            view_mode: self.view_mode,
            config: self.config@,
            post_text: self.post_text@,
            posting_status: self.posting_status@,
            selection: self.selection,
            attached_image: optional_text(self.attached_image),
            temp_bluesky: self.temp_bluesky@,
            temp_mastodon: self.temp_mastodon@,
            temp_nostr: self.temp_nostr@,
            temp_microblog: self.temp_microblog@,
            new_relay: self.new_relay@,
            show_relays: self.show_relays,
            key: self.crypto_manager.key(),
        }
    }
}

/// The platforms that a configuration enables.
pub open spec fn enabled_platforms(config: ConfigView) -> Selection {
    Selection {
        bluesky: config.bluesky.enabled,
        mastodon: config.mastodon.enabled,
        microblog: config.microblog.enabled,
        nostr: config.nostr.enabled,
    }
}

/// The state in which the application starts, for a key and the
/// configuration as it was loaded: the secrets are opened, the settings form
/// holds what is in force, and every enabled platform is chosen.
pub open spec fn initial(key: Option<Seq<u8>>, loaded: ConfigView) -> ModelView {
    let config = loaded.opened(key);
    ModelView {
        view_mode: ViewMode::Compose,
        config,
        post_text: Seq::empty(),
        posting_status: StatusView::Idle,
        selection: enabled_platforms(config),
        attached_image: None,
        temp_bluesky: config.bluesky,
        temp_mastodon: config.mastodon,
        temp_nostr: config.nostr,
        temp_microblog: config.microblog,
        new_relay: Seq::empty(),
        show_relays: true,
        key,
    }
}

impl AppModel {
    /// Starts the application: derives the machine-bound key, which may
    /// fail and then leaves no key, and opens the secrets of the loaded
    /// configuration.
    pub fn init(identity: &MachineIdentity, loaded: Config) -> (model: Self)
        ensures
            model@ == initial(derived_key(identity.entropy(), MACHINE_SALT@), loaded@),
    {
        let mut crypto_manager = CryptoManager::new();
        let _ = crypto_manager.init_with_machine_key(identity);
        let mut config = loaded;
        let _ = config.decrypt_credentials(&crypto_manager);
        let selection = Selection {
            bluesky: config.bluesky.enabled,
            mastodon: config.mastodon.enabled,
            microblog: config.microblog.enabled,
            nostr: config.nostr.enabled,
        };
        AppModel {
            view_mode: ViewMode::Compose,
            temp_bluesky: config.bluesky.clone(),
            temp_mastodon: config.mastodon.clone(),
            temp_nostr: config.nostr.clone(),
            temp_microblog: config.microblog.clone(),
            config,
            post_text: String::new(),
            posting_status: PostingStatus::Idle,
            selection,
            attached_image: None,
            new_relay: String::new(),
            show_relays: true,
            crypto_manager,
        }
    }
}

/// Whether the text in the editor can be submitted: it is not blank and no
/// longer than the cap.
pub open spec fn submittable(text: Seq<char>) -> bool {
    !blank(text) && text.len() <= MAX_POST_LENGTH
}

/// What the settings form holds, as a configuration.
pub open spec fn staged(model: ModelView) -> ConfigView {
    ConfigView {
        bluesky: model.temp_bluesky,
        mastodon: model.temp_mastodon,
        nostr: model.temp_nostr,
        microblog: model.temp_microblog,
    }
}

/// How the model reacts to a submission: a text that cannot be submitted
/// changes nothing; otherwise the status turns to `Posting`, and a post is
/// begun for each chosen platform.
pub open spec fn submits(before: ModelView, after: ModelView, command: Command) -> bool {
    if !submittable(before.post_text) {
        command is Nothing && after == before
    } else {
        &&& after == ModelView { posting_status: StatusView::Posting, ..before }
        &&& command matches Command::Publish(postings) && planned(
            before.selection,
            before.config,
            before.post_text,
            before.attached_image,
            postings@,
        )
    }
}

/// How the model reacts to the outcome of a submission: success empties the
/// editor, a failure is shown with its text.
pub open spec fn reports(
    before: ModelView,
    result: Result<(), PostError>,
    after: ModelView,
    command: Command,
) -> bool {
    match result {
        Ok(()) => command is ClearEditor && after == ModelView {
            posting_status: StatusView::Success,
            post_text: Seq::empty(),
            ..before
        },
        Err(e) => command is Nothing && after == ModelView {
            posting_status: StatusView::Error(e@.text()),
            ..before
        },
    }
}

/// How the model reacts to `AddRelay`: an acceptable address that the list
/// does not hold yet goes to its end, and the input is emptied; any other
/// input changes nothing.
pub open spec fn adds_relay(before: ModelView) -> ModelView {
    if valid_relay_url(before.new_relay) && !before.temp_nostr.relays.contains(before.new_relay) {
        ModelView {
            temp_nostr: NostrView {
                relays: before.temp_nostr.relays.push(before.new_relay),
                ..before.temp_nostr
            },
            new_relay: Seq::empty(),
            ..before
        }
    } else {
        before
    }
}

/// How the model reacts to `RemoveRelay`: the relay at the index leaves the
/// list, and an index beyond the list changes nothing.
pub open spec fn removes_relay(before: ModelView, index: usize) -> ModelView {
    if index < before.temp_nostr.relays.len() {
        ModelView {
            temp_nostr: NostrView {
                relays: before.temp_nostr.relays.remove(index as int),
                ..before.temp_nostr
            },
            ..before
        }
    } else {
        before
    }
}

/// How the model reacts to `SaveSettings`, given the configuration that
/// sealing the form's secrets left. Where a secret could not be sealed, the
/// failure is shown and nothing is handed out. Otherwise the sealed
/// configuration is handed out for saving, with nothing in its decrypted
/// fields, the enabled platforms are chosen, and the secrets are opened
/// again for use.
pub open spec fn saved_as(
    before: ModelView,
    sealed: ConfigView,
    after: ModelView,
    command: Command,
) -> bool {
    if staged(before).seal_outcome(before.key) is Err {
        command is Nothing && after == ModelView {
            config: sealed,
            posting_status: StatusView::Error(SAVE_FAILED@),
            ..before
        }
    } else {
        &&& command matches Command::Persist(config) && config@ == sealed.persisted()
        &&& after == ModelView {
            config: sealed.opened(before.key),
            selection: enabled_platforms(sealed),
            ..before
        }
    }
}

/// How the model reacts to `SaveSettings`: as `saved_as` says, for some
/// configuration that sealing what the form holds may leave.
pub open spec fn saves(before: ModelView, after: ModelView, command: Command) -> bool {
    exists|sealed: ConfigView|
        staged(before).sealed_as(before.key, sealed) && #[trigger] saved_as(
            before,
            sealed,
            after,
            command,
        )
}

/// The state after a message that changes it without any choice, for every
/// message but `PostSubmit`, `PostResult` and `SaveSettings`.
pub open spec fn updated(before: ModelView, message: Message) -> ModelView {
    match message {
        Message::SwitchView(mode) => ModelView { view_mode: mode, ..before },
        Message::UpdateConfig(config) => ModelView {
            config: config@.opened(before.key),
            ..before
        },
        Message::PostEditorAction(text) => ModelView { post_text: text@, ..before },
        Message::ImageSelected(path) => ModelView {
            attached_image: optional_text(path),
            ..before
        },
        Message::PostToBlueskyToggled(on) => ModelView {
            selection: Selection { bluesky: on, ..before.selection },
            ..before
        },
        Message::PostToMastodonToggled(on) => ModelView {
            selection: Selection { mastodon: on, ..before.selection },
            ..before
        },
        Message::PostToMicroBlogToggled(on) => ModelView {
            selection: Selection { microblog: on, ..before.selection },
            ..before
        },
        Message::PostToNostrToggled(on) => ModelView {
            selection: Selection { nostr: on, ..before.selection },
            ..before
        },
        Message::BlueskyEnabledChanged(on) => ModelView {
            temp_bluesky: BlueskyView { enabled: on, ..before.temp_bluesky },
            ..before
        },
        Message::BlueskyHandleChanged(handle) => ModelView {
            temp_bluesky: BlueskyView { handle: handle@, ..before.temp_bluesky },
            ..before
        },
        Message::BlueskyPasswordChanged(password) => ModelView {
            temp_bluesky: BlueskyView { decrypted_password: password@, ..before.temp_bluesky },
            ..before
        },
        Message::MastodonEnabledChanged(on) => ModelView {
            temp_mastodon: MastodonView { enabled: on, ..before.temp_mastodon },
            ..before
        },
        Message::MastodonInstanceChanged(instance) => ModelView {
            temp_mastodon: MastodonView { instance_url: instance@, ..before.temp_mastodon },
            ..before
        },
        Message::MastodonTokenChanged(token) => ModelView {
            temp_mastodon: MastodonView { decrypted_access_token: token@, ..before.temp_mastodon },
            ..before
        },
        Message::MicroBlogEnabledChanged(on) => ModelView {
            temp_microblog: MicroBlogView { enabled: on, ..before.temp_microblog },
            ..before
        },
        Message::MicroBlogTokenChanged(token) => ModelView {
            temp_microblog: MicroBlogView {
                decrypted_access_token: token@,
                ..before.temp_microblog
            },
            ..before
        },
        Message::NostrEnabledChanged(on) => ModelView {
            temp_nostr: NostrView { enabled: on, ..before.temp_nostr },
            ..before
        },
        Message::NostrPrivateKeyChanged(key) => ModelView {
            temp_nostr: NostrView { decrypted_private_key: key@, ..before.temp_nostr },
            ..before
        },
        Message::NewRelayChanged(relay) => ModelView { new_relay: relay@, ..before },
        Message::AddRelay => adds_relay(before),
        Message::RemoveRelay(index) => removes_relay(before, index),
        Message::SettingsSaved(ok) => ModelView {
            posting_status: if ok {
                StatusView::Success
            } else {
                StatusView::Error(SAVE_FAILED@)
            },
            ..before
        },
        Message::ToggleRelays => ModelView { show_relays: !before.show_relays, ..before },
        _ => before,
    }
}

/// Whether the model may pass from `before` to `after` on a message, with
/// `command` as what is left to do outside.
pub open spec fn reacts(before: ModelView, message: Message, after: ModelView, command: Command) -> bool {
    match message {
        Message::PostSubmit => submits(before, after, command),
        Message::PostResult(result) => reports(before, result, after, command),
        Message::SaveSettings => saves(before, after, command),
        Message::AttachImage => command is PickImage && after == before,
        _ => command is Nothing && after == updated(before, message),
    }
}

fn holds(list: &Vec<String>, wanted: &String) -> (res: bool)
    ensures
        res == list.deep_view().contains(wanted@),
{
    let mut i: usize = 0;
    while i < list.len()
        invariant
            i <= list@.len(),
            forall|j: int| 0 <= j < i ==> list.deep_view()[j] != wanted@,
        decreases list@.len() - i,
    {
        if list[i] == *wanted {
            assert(list.deep_view()[i as int] == wanted@);
            return true;
        }
        i += 1;
    }
    false
}

impl AppModel {
    /// Reacts to the outcome of a submission.
    fn report(&mut self, result: Result<(), PostError>) -> (command: Command)
        ensures
            reports(old(self)@, result, final(self)@, command),
    {
        match result {
            Ok(()) => {
                self.posting_status = PostingStatus::Success;
                self.post_text = String::new();
                Command::ClearEditor
            },
            Err(e) => {
                self.posting_status = PostingStatus::Error(e.to_string());
                Command::Nothing
            },
        }
    }

    /// Reacts to a submission.
    fn post(&mut self) -> (command: Command)
        ensures
            submits(old(self)@, final(self)@, command),
    {
        if is_blank(self.post_text.as_str()) || self.post_text.as_str().unicode_len()
            > MAX_POST_LENGTH {
            return Command::Nothing;
        }
        self.posting_status = PostingStatus::Posting;
        let image = match &self.attached_image {
            Some(path) => Some(path.as_str()),
            None => None,
        };
        Command::Publish(submit(self.post_text.as_str(), image, self.selection, &self.config))
    }

    /// Reacts to `AddRelay`.
    fn add_relay(&mut self)
        ensures
            final(self)@ == adds_relay(old(self)@),
    {
        if validate_relay_url(self.new_relay.as_str()) && !holds(
            &self.temp_nostr.relays,
            &self.new_relay,
        ) {
            let ghost before = self.temp_nostr.relays.deep_view();
            self.temp_nostr.relays.push(self.new_relay.clone());
            assert(self.temp_nostr.relays.deep_view() =~= before.push(self.new_relay@));
            self.new_relay = String::new();
        }
    }

    /// Reacts to `RemoveRelay`.
    fn remove_relay(&mut self, index: usize)
        ensures
            final(self)@ == removes_relay(old(self)@, index),
    {
        if index < self.temp_nostr.relays.len() {
            let ghost before = self.temp_nostr.relays.deep_view();
            let _ = self.temp_nostr.relays.remove(index);
            assert(self.temp_nostr.relays.deep_view() =~= before.remove(index as int));
        }
    }

    /// Reacts to `SaveSettings`.
    fn save(&mut self) -> (command: Command)
        ensures
            saves(old(self)@, final(self)@, command),
    {
        let ghost before = self@;
        self.config = Config {
            bluesky: self.temp_bluesky.clone(),
            mastodon: self.temp_mastodon.clone(),
            nostr: self.temp_nostr.clone(),
            microblog: self.temp_microblog.clone(),
        };
        assert(self.config@ == staged(before));
        let outcome = self.config.encrypt_credentials(&self.crypto_manager);
        let ghost sealed = self.config@;
        if outcome.is_err() {
            self.posting_status = PostingStatus::Error(SAVE_FAILED.to_owned());
            assert(saved_as(before, sealed, self@, Command::Nothing));
            return Command::Nothing;
        }
        self.selection = Selection {
            bluesky: self.config.bluesky.enabled,
            mastodon: self.config.mastodon.enabled,
            microblog: self.config.microblog.enabled,
            nostr: self.config.nostr.enabled,
        };
        let command = Command::Persist(Box::new(self.config.persisted()));
        let _ = self.config.decrypt_credentials(&self.crypto_manager);
        assert(saved_as(before, sealed, self@, command));
        command
    }

    /// Reacts to one message, and says what is left to do outside the
    /// model.
    pub fn update(&mut self, message: Message) -> (command: Command)
        ensures
            reacts(old(self)@, message, final(self)@, command),
    {
        match message {
            Message::PostSubmit => self.post(),
            Message::PostResult(result) => self.report(result),
            Message::SaveSettings => self.save(),
            Message::AttachImage => Command::PickImage,
            Message::UpdateConfig(config) => {
                let mut config = *config;
                let _ = config.decrypt_credentials(&self.crypto_manager);
                self.config = config;
                Command::Nothing
            },
            Message::AddRelay => {
                self.add_relay();
                Command::Nothing
            },
            Message::RemoveRelay(index) => {
                self.remove_relay(index);
                Command::Nothing
            },
            Message::SettingsSaved(ok) => {
                if ok {
                    self.posting_status = PostingStatus::Success;
                } else {
                    self.posting_status = PostingStatus::Error(SAVE_FAILED.to_owned());
                }
                Command::Nothing
            },
            Message::SwitchView(mode) => {
                self.view_mode = mode;
                Command::Nothing
            },
            Message::PostEditorAction(text) => {
                self.post_text = text;
                Command::Nothing
            },
            Message::ImageSelected(path) => {
                self.attached_image = path;
                Command::Nothing
            },
            Message::PostToBlueskyToggled(on) => {
                self.selection.bluesky = on;
                Command::Nothing
            },
            Message::PostToMastodonToggled(on) => {
                self.selection.mastodon = on;
                Command::Nothing
            },
            Message::PostToMicroBlogToggled(on) => {
                self.selection.microblog = on;
                Command::Nothing
            },
            Message::PostToNostrToggled(on) => {
                self.selection.nostr = on;
                Command::Nothing
            },
            Message::BlueskyEnabledChanged(on) => {
                self.temp_bluesky.enabled = on;
                Command::Nothing
            },
            Message::BlueskyHandleChanged(handle) => {
                self.temp_bluesky.handle = handle;
                Command::Nothing
            },
            Message::BlueskyPasswordChanged(password) => {
                self.temp_bluesky.decrypted_password = password;
                Command::Nothing
            },
            Message::MastodonEnabledChanged(on) => {
                self.temp_mastodon.enabled = on;
                Command::Nothing
            },
            Message::MastodonInstanceChanged(instance) => {
                self.temp_mastodon.instance_url = instance;
                Command::Nothing
            },
            Message::MastodonTokenChanged(token) => {
                self.temp_mastodon.decrypted_access_token = token;
                Command::Nothing
            },
            Message::MicroBlogEnabledChanged(on) => {
                self.temp_microblog.enabled = on;
                Command::Nothing
            },
            Message::MicroBlogTokenChanged(token) => {
                self.temp_microblog.decrypted_access_token = token;
                Command::Nothing
            },
            Message::NostrEnabledChanged(on) => {
                self.temp_nostr.enabled = on;
                Command::Nothing
            },
            Message::NostrPrivateKeyChanged(key) => {
                self.temp_nostr.decrypted_private_key = key;
                Command::Nothing
            },
            Message::NewRelayChanged(relay) => {
                self.new_relay = relay;
                Command::Nothing
            },
            Message::ToggleRelays => {
                self.show_relays = !self.show_relays;
                Command::Nothing
            },
        }
    }
}

/// Whether the compose view offers a platform: what the settings form holds
/// for it allows a post.
pub open spec fn offers(model: ModelView, platform: Platform) -> bool {
    match platform {
        Platform::Bluesky => bluesky::ready(model.temp_bluesky),
        Platform::Mastodon => mastodon::ready(model.temp_mastodon),
        Platform::MicroBlog => microblog::ready(model.temp_microblog),
        Platform::Nostr => nostr::ready(model.temp_nostr),
    }
}

/// Whether the compose view warns that Bluesky will cut the text: the text
/// is over Bluesky's cap, and Bluesky is chosen and offered.
pub open spec fn warns_of_truncation(model: ModelView) -> bool {
    model.post_text.len() > bluesky::BLUESKY_CHARACTER_LIMIT && model.selection.bluesky && offers(
        model,
        Platform::Bluesky,
    )
}

/// The line that the compose view shows for a status, if any.
pub open spec fn status_text(status: StatusView) -> Option<Seq<char>> {
    match status {
        StatusView::Idle => None,
        StatusView::Posting => Some("Posting..."@),
        StatusView::Success => Some("Posted successfully!"@),
        StatusView::Error(text) => Some("Failed to post: "@ + text),
    }
}

impl AppModel {
    /// Whether the text in the editor can be submitted.
    pub fn can_submit(&self) -> (res: bool)
        ensures
            res == submittable(self@.post_text),
    {
        !is_blank(self.post_text.as_str()) && self.post_text.as_str().unicode_len()
            <= MAX_POST_LENGTH
    }

    /// Whether the compose view offers a platform.
    pub fn is_offered(&self, platform: Platform) -> (res: bool)
        ensures
            res == offers(self@, platform),
    {
        match platform {
            Platform::Bluesky => bluesky::is_ready(&self.temp_bluesky),
            Platform::Mastodon => mastodon::is_ready(&self.temp_mastodon),
            Platform::MicroBlog => microblog::is_ready(&self.temp_microblog),
            Platform::Nostr => nostr::is_ready(&self.temp_nostr),
        }
    }

    /// Whether the compose view warns that Bluesky will cut the text.
    pub fn truncation_warning(&self) -> (res: bool)
        ensures
            res == warns_of_truncation(self@),
    {
        self.post_text.as_str().unicode_len() > bluesky::BLUESKY_CHARACTER_LIMIT
            && self.selection.bluesky && bluesky::is_ready(&self.temp_bluesky)
    }

    /// The count of characters in the editor against the cap, as the compose
    /// view shows it.
    pub fn counter(&self) -> (text: String)
        ensures
            text@ == decimal(self@.post_text.len()) + "/"@ + decimal(MAX_POST_LENGTH as nat),
    {
        let mut text = decimal_text(self.post_text.as_str().unicode_len());
        text.append("/");
        text.append(decimal_text(MAX_POST_LENGTH).as_str());
        text
    }

    /// The line that the compose view shows for the status, if any.
    pub fn status_line(&self) -> (line: Option<String>)
        ensures
            optional_text(line) == status_text(self@.posting_status),
    {
        match &self.posting_status {
            PostingStatus::Idle => None,
            PostingStatus::Posting => Some("Posting...".to_owned()),
            PostingStatus::Success => Some("Posted successfully!".to_owned()),
            PostingStatus::Error(text) => Some("Failed to post: ".to_owned().concat(text.as_str())),
        }
    }

    /// Whether the settings view marks the handle as malformed: Bluesky is
    /// enabled, and a handle is there that is not acceptable.
    pub fn handle_warning(&self) -> (res: bool)
        ensures
            res == (self@.temp_bluesky.enabled && self@.temp_bluesky.handle.len() > 0
                && !valid_handle(self@.temp_bluesky.handle)),
    {
        self.temp_bluesky.enabled && !self.temp_bluesky.handle.as_str().is_empty()
            && !validate_handle(self.temp_bluesky.handle.as_str())
    }

    /// Whether the settings view marks the instance's address as malformed:
    /// Mastodon is enabled, and an address is there that is not acceptable.
    pub fn url_warning(&self) -> (res: bool)
        ensures
            res == (self@.temp_mastodon.enabled && self@.temp_mastodon.instance_url.len() > 0
                && !valid_url(self@.temp_mastodon.instance_url)),
    {
        self.temp_mastodon.enabled && !self.temp_mastodon.instance_url.as_str().is_empty()
            && !validate_url(self.temp_mastodon.instance_url.as_str())
    }

    /// Whether the settings view marks the signing key as malformed: Nostr is
    /// enabled, and a key is there that is not acceptable.
    pub fn key_warning(&self) -> (res: bool)
        ensures
            res == (self@.temp_nostr.enabled && self@.temp_nostr.decrypted_private_key.len() > 0
                && !valid_private_key(self@.temp_nostr.decrypted_private_key)),
    {
        self.temp_nostr.enabled && !self.temp_nostr.decrypted_private_key.as_str().is_empty()
            && !validate_private_key(self.temp_nostr.decrypted_private_key.as_str())
    }
}

} // verus!
