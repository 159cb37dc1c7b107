use yall::config::Config;
use yall::crypto::MachineIdentity;
use yall::model::{AppModel, Command, Message, PostingStatus, ViewMode, MAX_POST_LENGTH};
use yall::publish::{Platform, Selection};
use yall::social::PostError;

fn identity() -> MachineIdentity {
    MachineIdentity { hostname: Some("box".to_string()), user: Some("ann".to_string()), ..MachineIdentity::default() }
}

fn fresh() -> AppModel {
    AppModel::init(&identity(), Config::default())
}

fn configured() -> AppModel {
    let mut model = fresh();
    for message in [
        Message::BlueskyEnabledChanged(true),
        Message::BlueskyHandleChanged("ann.bsky.social".to_string()),
        Message::BlueskyPasswordChanged("app-pass".to_string()),
        Message::MastodonEnabledChanged(true),
        Message::MastodonInstanceChanged("https://m.example".to_string()),
        Message::MastodonTokenChanged("masto".to_string()),
        Message::MicroBlogEnabledChanged(true),
        Message::MicroBlogTokenChanged("micro".to_string()),
        Message::NostrPrivateKeyChanged("33".repeat(32)),
    ] {
        assert_eq!(model.update(message), Command::Nothing);
    }
    model
}

fn saved() -> (AppModel, Config) {
    let mut model = configured();
    let stored = match model.update(Message::SaveSettings) {
        Command::Persist(config) => *config,
        other => panic!("{:?}", other),
    };
    assert_eq!(model.update(Message::SettingsSaved(true)), Command::Nothing);
    (model, stored)
}

#[test]
fn model_defaults() {
    assert_eq!(ViewMode::default(), ViewMode::Compose);
    assert_eq!(PostingStatus::default(), PostingStatus::Idle);
    assert_eq!(MAX_POST_LENGTH, 500);
    let status = PostingStatus::Error("x".to_string());
    assert_eq!(status.clone(), status);
}

#[test]
fn init_starts_in_the_compose_view() {
    let model = fresh();
    assert_eq!(model.view_mode, ViewMode::Compose);
    assert_eq!(model.config, Config::default());
    assert_eq!(model.post_text, "");
    assert_eq!(model.posting_status, PostingStatus::Idle);
    assert_eq!(model.selection, Selection { bluesky: false, mastodon: false, microblog: false, nostr: false });
    assert_eq!(model.attached_image, None);
    assert_eq!(model.temp_nostr, model.config.nostr);
    assert_eq!(model.new_relay, "");
    assert!(model.show_relays);
    assert!(model.crypto_manager.has_key());
}

#[test]
fn init_opens_the_stored_secrets() {
    let (_, stored) = saved();
    let mut on_disk = stored;
    on_disk.bluesky.decrypted_password.clear();
    on_disk.mastodon.decrypted_access_token.clear();
    on_disk.microblog.decrypted_access_token.clear();
    on_disk.nostr.decrypted_private_key.clear();
    let model = AppModel::init(&identity(), on_disk.clone());
    assert_eq!(model.config.bluesky.decrypted_password, "app-pass");
    assert_eq!(model.config.mastodon.decrypted_access_token, "masto");
    assert_eq!(model.config.microblog.decrypted_access_token, "micro");
    assert_eq!(model.config.nostr.decrypted_private_key, "33".repeat(32));
    assert_eq!(model.temp_bluesky, model.config.bluesky);
    assert_eq!(model.temp_mastodon, model.config.mastodon);
    assert_eq!(model.selection, Selection { bluesky: true, mastodon: true, microblog: true, nostr: false });

    let other = MachineIdentity { hostname: Some("box".to_string()), user: Some("eve".to_string()), ..MachineIdentity::default() };
    let model = AppModel::init(&other, on_disk);
    assert_eq!(model.config.bluesky.decrypted_password, "");
    assert_eq!(model.config.bluesky.handle, "ann.bsky.social");
}

#[test]
fn switching_views() {
    let mut model = fresh();
    assert_eq!(model.update(Message::SwitchView(ViewMode::Settings)), Command::Nothing);
    assert_eq!(model.view_mode, ViewMode::Settings);
    model.update(Message::SwitchView(ViewMode::Compose));
    assert_eq!(model.view_mode, ViewMode::Compose);
}

#[test]
fn toggles() {
    let mut model = fresh();
    model.update(Message::PostToBlueskyToggled(true));
    model.update(Message::PostToNostrToggled(true));
    assert_eq!(model.selection, Selection { bluesky: true, mastodon: false, microblog: false, nostr: true });
    model.update(Message::PostToMastodonToggled(true));
    model.update(Message::PostToMicroBlogToggled(true));
    model.update(Message::PostToBlueskyToggled(false));
    assert_eq!(model.selection, Selection { bluesky: false, mastodon: true, microblog: true, nostr: true });
    assert!(model.show_relays);
    model.update(Message::ToggleRelays);
    assert!(!model.show_relays);
    model.update(Message::ToggleRelays);
    assert!(model.show_relays);
}

#[test]
fn the_form_holds_what_is_typed() {
    let mut model = configured();
    assert!(model.temp_bluesky.enabled);
    assert_eq!(model.temp_bluesky.handle, "ann.bsky.social");
    assert_eq!(model.temp_bluesky.decrypted_password, "app-pass");
    assert!(model.temp_mastodon.enabled);
    assert_eq!(model.temp_mastodon.instance_url, "https://m.example");
    assert_eq!(model.temp_mastodon.decrypted_access_token, "masto");
    assert!(model.temp_microblog.enabled);
    assert_eq!(model.temp_microblog.decrypted_access_token, "micro");
    assert!(!model.temp_nostr.enabled);
    assert_eq!(model.temp_nostr.decrypted_private_key, "33".repeat(32));
    assert_eq!(model.config, Config::default());
    model.update(Message::NostrEnabledChanged(true));
    assert!(model.temp_nostr.enabled);
    model.update(Message::NewRelayChanged("wss://x".to_string()));
    assert_eq!(model.new_relay, "wss://x");
}

#[test]
fn relays_are_added_once_and_only_if_acceptable() {
    let mut model = fresh();
    for (typed, added) in [
        ("wss://mine.example", true),
        ("wss://mine.example", false),
        ("wss://nos.lol", false),
        ("ws://plain.example", false),
        ("wss://", false),
    ] {
        let before = model.temp_nostr.relays.clone();
        model.update(Message::NewRelayChanged(typed.to_string()));
        assert_eq!(model.update(Message::AddRelay), Command::Nothing);
        if added {
            assert_eq!(model.temp_nostr.relays.len(), before.len() + 1);
            assert_eq!(model.temp_nostr.relays.last().unwrap(), typed);
            assert_eq!(model.new_relay, "");
        } else {
            assert_eq!(model.temp_nostr.relays, before);
            assert_eq!(model.new_relay, typed);
        }
    }
}

#[test]
fn relays_are_removed_by_index() {
    let mut model = fresh();
    model.update(Message::RemoveRelay(1));
    assert_eq!(model.temp_nostr.relays, vec!["wss://relay.damus.io", "wss://relay.snort.social", "wss://nostr.wine"]);
    model.update(Message::RemoveRelay(3));
    model.update(Message::RemoveRelay(usize::MAX));
    assert_eq!(model.temp_nostr.relays.len(), 3);
    model.update(Message::RemoveRelay(0));
    model.update(Message::RemoveRelay(1));
    assert_eq!(model.temp_nostr.relays, vec!["wss://relay.snort.social"]);
}

#[test]
fn the_image_is_picked_outside() {
    let mut model = fresh();
    assert_eq!(model.update(Message::AttachImage), Command::PickImage);
    assert_eq!(model.attached_image, None);
    model.update(Message::ImageSelected(Some("/tmp/cat.png".to_string())));
    assert_eq!(model.attached_image, Some("/tmp/cat.png".to_string()));
    model.update(Message::ImageSelected(None));
    assert_eq!(model.attached_image, None);
}

#[test]
fn saving_seals_the_secrets_and_hands_the_configuration_out() {
    let (model, stored) = saved();
    assert_eq!(model.posting_status, PostingStatus::Success);
    assert_eq!(model.selection, Selection { bluesky: true, mastodon: true, microblog: true, nostr: false });
    assert!(stored.bluesky.password.is_some());
    assert!(stored.nostr.private_key.is_some());
    assert_eq!(stored.bluesky.handle, "ann.bsky.social");
    assert_eq!(model.config.bluesky.password, stored.bluesky.password);
    assert_eq!(model.config.bluesky.decrypted_password, "app-pass");
    assert_eq!(model.config.nostr.decrypted_private_key, "33".repeat(32));
    assert_eq!(model.crypto_manager.decrypt(stored.mastodon.access_token.as_ref().unwrap()).unwrap(), "masto");
}

#[test]
fn what_is_handed_out_for_saving_holds_no_plaintext() {
    let (model, stored) = saved();
    assert_eq!(stored.bluesky.decrypted_password, "");
    assert_eq!(stored.mastodon.decrypted_access_token, "");
    assert_eq!(stored.microblog.decrypted_access_token, "");
    assert_eq!(stored.nostr.decrypted_private_key, "");
    assert_eq!(stored, model.config.persisted());
    assert_eq!(stored.nostr.relays, model.config.nostr.relays);
    assert!(stored.bluesky.enabled);
}

#[test]
fn a_failed_write_is_shown() {
    let mut model = configured();
    model.update(Message::SaveSettings);
    model.update(Message::SettingsSaved(false));
    assert_eq!(model.posting_status, PostingStatus::Error("Failed to save settings".to_string()));
    assert_eq!(model.status_line(), Some("Failed to post: Failed to save settings".to_string()));
}

#[test]
fn saving_without_a_key_fails() {
    let mut model = configured();
    model.crypto_manager.discard_key();
    assert_eq!(model.update(Message::SaveSettings), Command::Nothing);
    assert_eq!(model.posting_status, PostingStatus::Error("Failed to save settings".to_string()));
    assert_eq!(model.config.bluesky.password, None);
    assert_eq!(model.config.bluesky.handle, "ann.bsky.social");

    let mut blank = fresh();
    blank.crypto_manager.discard_key();
    assert!(matches!(blank.update(Message::SaveSettings), Command::Persist(_)));
}

#[test]
fn a_changed_configuration_is_opened() {
    let (mut model, stored) = saved();
    let mut on_disk = stored;
    on_disk.bluesky.decrypted_password.clear();
    on_disk.bluesky.handle = "new.bsky.social".to_string();
    assert_eq!(model.update(Message::UpdateConfig(Box::new(on_disk))), Command::Nothing);
    assert_eq!(model.config.bluesky.handle, "new.bsky.social");
    assert_eq!(model.config.bluesky.decrypted_password, "app-pass");
    assert_eq!(model.temp_bluesky.handle, "ann.bsky.social");
}

#[test]
fn a_text_that_cannot_be_submitted_changes_nothing() {
    let (mut model, _) = saved();
    for text in ["".to_string(), " \n\t".to_string(), "x".repeat(501), "🚀".repeat(501)] {
        model.update(Message::PostEditorAction(text.clone()));
        assert!(!model.can_submit());
        assert_eq!(model.update(Message::PostSubmit), Command::Nothing);
        assert_eq!(model.posting_status, PostingStatus::Success);
        assert_eq!(model.post_text, text);
    }
}

#[test]
fn a_submission_starts_the_chosen_platforms() {
    let (mut model, _) = saved();
    model.update(Message::PostEditorAction("🚀".repeat(500)));
    model.update(Message::PostToMastodonToggled(false));
    assert!(model.can_submit());
    let postings = match model.update(Message::PostSubmit) {
        Command::Publish(postings) => postings,
        other => panic!("{:?}", other),
    };
    assert_eq!(model.posting_status, PostingStatus::Posting);
    assert_eq!(model.status_line(), Some("Posting...".to_string()));
    let platforms: Vec<Platform> = postings.iter().map(|p| p.platform).collect();
    assert_eq!(platforms, vec![Platform::Bluesky, Platform::MicroBlog]);
}

#[test]
fn the_outcome_of_a_submission_is_shown() {
    let (mut model, _) = saved();
    model.update(Message::PostEditorAction("hello".to_string()));
    model.update(Message::PostSubmit);
    let failure = PostError::Api("Bluesky: API error: no".to_string());
    assert_eq!(model.update(Message::PostResult(Err(failure))), Command::Nothing);
    assert_eq!(model.posting_status, PostingStatus::Error("API error: Bluesky: API error: no".to_string()));
    assert_eq!(model.post_text, "hello");
    assert_eq!(model.status_line(), Some("Failed to post: API error: Bluesky: API error: no".to_string()));

    assert_eq!(model.update(Message::PostResult(Ok(()))), Command::ClearEditor);
    assert_eq!(model.posting_status, PostingStatus::Success);
    assert_eq!(model.post_text, "");
    assert_eq!(model.status_line(), Some("Posted successfully!".to_string()));
    assert_eq!(fresh().status_line(), None);
}

#[test]
fn the_compose_view_offers_what_is_configured() {
    let model = configured();
    assert!(model.is_offered(Platform::Bluesky));
    assert!(model.is_offered(Platform::Mastodon));
    assert!(model.is_offered(Platform::MicroBlog));
    assert!(!model.is_offered(Platform::Nostr));
    let model = fresh();
    for platform in [Platform::Bluesky, Platform::Mastodon, Platform::MicroBlog, Platform::Nostr] {
        assert!(!model.is_offered(platform));
    }
}

#[test]
fn the_counter_and_the_truncation_warning() {
    let mut model = configured();
    assert_eq!(model.counter(), "0/500");
    model.update(Message::PostEditorAction("é".repeat(301)));
    assert_eq!(model.counter(), "301/500");
    assert!(!model.truncation_warning());
    model.update(Message::PostToBlueskyToggled(true));
    assert!(model.truncation_warning());
    model.update(Message::PostEditorAction("é".repeat(300)));
    assert!(!model.truncation_warning());
    model.update(Message::PostEditorAction("é".repeat(301)));
    model.update(Message::BlueskyEnabledChanged(false));
    assert!(!model.truncation_warning());
}

#[test]
fn the_settings_view_marks_malformed_input() {
    let mut model = fresh();
    assert!(!model.handle_warning() && !model.url_warning() && !model.key_warning());
    model.update(Message::BlueskyHandleChanged("ann".to_string()));
    model.update(Message::MastodonInstanceChanged("m.example".to_string()));
    model.update(Message::NostrPrivateKeyChanged("short".to_string()));
    assert!(!model.handle_warning() && !model.url_warning() && !model.key_warning());
    model.update(Message::BlueskyEnabledChanged(true));
    model.update(Message::MastodonEnabledChanged(true));
    model.update(Message::NostrEnabledChanged(true));
    assert!(model.handle_warning() && model.url_warning() && model.key_warning());
    model.update(Message::BlueskyHandleChanged("ann.bsky.social".to_string()));
    model.update(Message::MastodonInstanceChanged("https://m.example".to_string()));
    model.update(Message::NostrPrivateKeyChanged("ab".repeat(32)));
    assert!(!model.handle_warning() && !model.url_warning() && !model.key_warning());
}
