//! The credential store: what is persisted for each platform, with the
//! secret sealed, beside the decrypted secret that lives only in memory.

use vstd::prelude::*;
use vstd::string::*;
use vstd::utf8::*;
use crate::aead::MAX_PLAINTEXT_LEN;
use crate::crypto::{decrypted, seals, CryptoError, CryptoManager, EncryptedData, SecretView};
use crate::wipe::wipe_text;

verus! {

/// What an optional persisted secret holds.
pub open spec fn secret_view(secret: Option<EncryptedData>) -> Option<SecretView> {
    match secret {
        Some(data) => Some(data@),
        None => None,
    }
}

/// The decrypted field as `decrypt_credentials` leaves it: untouched where
/// nothing is persisted, the plaintext where the secret opens, and empty
/// where it does not.
pub open spec fn revealed(key: Option<Seq<u8>>, secret: Option<SecretView>, field: Seq<char>) -> Seq<
    char,
> {
    match secret {
        None => field,
        Some(data) => match decrypted(key, data) {
            Ok(text) => text,
            Err(_) => Seq::<char>::empty(),
        },
    }
}

/// The error, if any, that opening one persisted secret ends in.
pub open spec fn reveal_error(key: Option<Seq<u8>>, secret: Option<SecretView>) -> Option<
    CryptoError,
> {
    match secret {
        None => None,
        Some(data) => match decrypted(key, data) {
            Ok(_) => None,
            Err(e) => Some(e),
        },
    }
}

/// Whether a decrypted field can be sealed under the key: there is a key, and
/// the text is not too long for the cipher.
pub open spec fn sealable(key: Option<Seq<u8>>, field: Seq<char>) -> bool {
    key is Some && encode_utf8(field).len() <= MAX_PLAINTEXT_LEN
}

/// How `encrypt_credentials` may leave one persisted secret: where the
/// decrypted field is empty or cannot be sealed, as it was; otherwise a
/// secret that sealing the field under the key leaves.
pub open spec fn resealed(
    key: Option<Seq<u8>>,
    before: Option<SecretView>,
    field: Seq<char>,
    after: Option<SecretView>,
) -> bool {
    if field.len() > 0 && sealable(key, field) {
        after is Some && seals(key, field, after->Some_0)
    } else {
        after == before
    }
}

/// The error, if any, that sealing one decrypted field ends in.
pub open spec fn reseal_error(key: Option<Seq<u8>>, field: Seq<char>) -> Option<CryptoError> {
    if field.len() > 0 && !sealable(key, field) {
        Some(CryptoError::EncryptionFailed)
    } else {
        None
    }
}

/// The first error in a row of outcomes.
pub open spec fn first_error(outcomes: Seq<Option<CryptoError>>) -> Result<(), CryptoError>
    decreases outcomes.len(),
{
    if outcomes.len() == 0 {
        Ok(())
    } else {
        match outcomes[0] {
            Some(e) => Err(e),
            None => first_error(outcomes.drop_first()),
        }
    }
}

fn clone_secret(secret: &Option<EncryptedData>) -> (copy: Option<EncryptedData>)
    ensures
        secret_view(copy) == secret_view(*secret),
{
    match secret {
        Some(data) => Some(data.clone()),
        None => None,
    }
}

/// Opens one persisted secret into its decrypted field, overwriting what the
/// field held.
fn open_into(crypto: &CryptoManager, secret: &Option<EncryptedData>, field: &mut String) -> (err:
    Option<CryptoError>)
    ensures
        final(field)@ == revealed(crypto.key(), secret_view(*secret), old(field)@),
        err == reveal_error(crypto.key(), secret_view(*secret)),
{
    match secret {
        None => None,
        Some(data) => match crypto.decrypt(data) {
            Ok(text) => {
                wipe_text(field);
                *field = text;
                None
            },
            Err(e) => {
                wipe_text(field);
                Some(e)
            },
        },
    }
}

/// Seals one decrypted field into its persisted secret.
fn seal_from(crypto: &CryptoManager, field: &String, secret: &mut Option<EncryptedData>) -> (err:
    Option<CryptoError>)
    ensures
        resealed(crypto.key(), secret_view(*old(secret)), field@, secret_view(*final(secret))),
        err == reseal_error(crypto.key(), field@),
{
    if field.as_str().is_empty() {
        return None;
    }
    match crypto.encrypt(field.as_str()) {
        Ok(data) => {
            *secret = Some(data);
            None
        },
        Err(e) => Some(e),
    }
}

/// What a `MicroBlogConfig` holds.
pub struct MicroBlogView {
    pub enabled: bool,
    pub access_token: Option<SecretView>,
    pub decrypted_access_token: Seq<char>,
}

/// Settings of the token-authenticated micro-posting service.
#[derive(Debug, PartialEq, Eq)]
pub struct MicroBlogConfig {
    pub enabled: bool,
    /// The access token as it is persisted.
    pub access_token: Option<EncryptedData>,
    /// The access token in the clear: in memory only, never persisted.
    pub decrypted_access_token: String,
}

impl View for MicroBlogConfig {
    type V = MicroBlogView;

    open spec fn view(&self) -> MicroBlogView {
        MicroBlogView {
            enabled: self.enabled,
            access_token: secret_view(self.access_token),
            decrypted_access_token: self.decrypted_access_token@,
        }
    }
}

impl Default for MicroBlogConfig {
    fn default() -> (config: Self)
        ensures
            !config@.enabled,
            config@.access_token is None,
            config@.decrypted_access_token.len() == 0,
    {
        MicroBlogConfig { enabled: false, access_token: None, decrypted_access_token: String::new() }
    }
}

impl Clone for MicroBlogConfig {
    fn clone(&self) -> (copy: Self)
        ensures
            copy@ == self@,
    {
        MicroBlogConfig {
            enabled: self.enabled,
            access_token: clone_secret(&self.access_token),
            decrypted_access_token: self.decrypted_access_token.clone(),
        }
    }
}

/// What a `BlueskyConfig` holds.
pub struct BlueskyView {
    pub enabled: bool,
    pub handle: Seq<char>,
    pub password: Option<SecretView>,
    pub decrypted_password: Seq<char>,
}

/// Settings of the blog-style service that is entered through a session.
#[derive(Debug, PartialEq, Eq)]
pub struct BlueskyConfig {
    pub enabled: bool,
    /// The account's handle, which is no secret.
    pub handle: String,
    /// The app password as it is persisted.
    pub password: Option<EncryptedData>,
    /// The app password in the clear: in memory only, never persisted.
    pub decrypted_password: String,
}

impl View for BlueskyConfig {
    type V = BlueskyView;

    open spec fn view(&self) -> BlueskyView {
        BlueskyView {
            enabled: self.enabled,
            handle: self.handle@,
            password: secret_view(self.password),
            decrypted_password: self.decrypted_password@,
        }
    }
}

impl Default for BlueskyConfig {
    fn default() -> (config: Self)
        ensures
            !config@.enabled,
            config@.handle.len() == 0,
            config@.password is None,
            config@.decrypted_password.len() == 0,
    {
        BlueskyConfig {
            enabled: false,
            handle: String::new(),
            password: None,
            decrypted_password: String::new(),
        }
    }
}

impl Clone for BlueskyConfig {
    fn clone(&self) -> (copy: Self)
        ensures
            copy@ == self@,
    {
        BlueskyConfig {
            enabled: self.enabled,
            handle: self.handle.clone(),
            password: clone_secret(&self.password),
            decrypted_password: self.decrypted_password.clone(),
        }
    }
}

/// What a `MastodonConfig` holds.
pub struct MastodonView {
    pub enabled: bool,
    pub instance_url: Seq<char>,
    pub access_token: Option<SecretView>,
    pub decrypted_access_token: Seq<char>,
}

/// Settings of the federated microblog.
#[derive(Debug, PartialEq, Eq)]
pub struct MastodonConfig {
    pub enabled: bool,
    /// The instance's address, which is no secret.
    pub instance_url: String,
    /// The access token as it is persisted.
    pub access_token: Option<EncryptedData>,
    /// The access token in the clear: in memory only, never persisted.
    pub decrypted_access_token: String,
}

impl View for MastodonConfig {
    type V = MastodonView;

    open spec fn view(&self) -> MastodonView {
        MastodonView {
            enabled: self.enabled,
            instance_url: self.instance_url@,
            access_token: secret_view(self.access_token),
            decrypted_access_token: self.decrypted_access_token@,
        }
    }
}

impl Default for MastodonConfig {
    fn default() -> (config: Self)
        ensures
            !config@.enabled,
            config@.instance_url.len() == 0,
            config@.access_token is None,
            config@.decrypted_access_token.len() == 0,
    {
        MastodonConfig {
            enabled: false,
            instance_url: String::new(),
            access_token: None,
            decrypted_access_token: String::new(),
        }
    }
}

impl Clone for MastodonConfig {
    fn clone(&self) -> (copy: Self)
        ensures
            copy@ == self@,
    {
        MastodonConfig {
            enabled: self.enabled,
            instance_url: self.instance_url.clone(),
            access_token: clone_secret(&self.access_token),
            decrypted_access_token: self.decrypted_access_token.clone(),
        }
    }
}

/// What a `NostrConfig` holds.
pub struct NostrView {
    pub enabled: bool,
    pub private_key: Option<SecretView>,
    pub relays: Seq<Seq<char>>,
    pub decrypted_private_key: Seq<char>,
}

/// Settings of the relay-based protocol.
#[derive(Debug, PartialEq, Eq)]
pub struct NostrConfig {
    pub enabled: bool,
    /// The signing key as it is persisted.
    pub private_key: Option<EncryptedData>,
    /// The relays' addresses, which are no secret.
    pub relays: Vec<String>,
    /// The signing key in the clear: in memory only, never persisted.
    pub decrypted_private_key: String,
}

/// The relays that a fresh configuration starts with.
pub open spec fn default_relays() -> Seq<Seq<char>> {
    seq![
        "wss://relay.damus.io"@,
        "wss://nos.lol"@,
        "wss://relay.snort.social"@,
        "wss://nostr.wine"@,
    ]
}

impl View for NostrConfig {
    type V = NostrView;

    open spec fn view(&self) -> NostrView {
        NostrView {
            enabled: self.enabled,
            private_key: secret_view(self.private_key),
            relays: self.relays.deep_view(),
            decrypted_private_key: self.decrypted_private_key@,
        }
    }
}

impl Default for NostrConfig {
    fn default() -> (config: Self)
        ensures
            !config@.enabled,
            config@.private_key is None,
            config@.relays == default_relays(),
            config@.decrypted_private_key.len() == 0,
    {
        let mut relays: Vec<String> = Vec::new();
        relays.push("wss://relay.damus.io".to_owned());
        relays.push("wss://nos.lol".to_owned());
        relays.push("wss://relay.snort.social".to_owned());
        relays.push("wss://nostr.wine".to_owned());
        assert(relays.deep_view() =~= default_relays());
        NostrConfig {
            enabled: false,
            private_key: None,
            relays,
            decrypted_private_key: String::new(),
        }
    }
}

impl Clone for NostrConfig {
    fn clone(&self) -> (copy: Self)
        ensures
            copy@ == self@,
    {
        let relays = self.relays.clone();
        assert(relays.deep_view() =~= self.relays.deep_view());
        NostrConfig {
            enabled: self.enabled,
            private_key: clone_secret(&self.private_key),
            relays,
            decrypted_private_key: self.decrypted_private_key.clone(),
        }
    }
}

/// What a `Config` holds.
pub struct ConfigView {
    pub bluesky: BlueskyView,
    pub mastodon: MastodonView,
    pub nostr: NostrView,
    pub microblog: MicroBlogView,
}

impl ConfigView {
    /// The store after every persisted secret was opened under the key.
    pub open spec fn opened(self, key: Option<Seq<u8>>) -> ConfigView {
        ConfigView {
            bluesky: BlueskyView {
                decrypted_password: revealed(
                    key,
                    self.bluesky.password,
                    self.bluesky.decrypted_password,
                ),
                ..self.bluesky
            },
            mastodon: MastodonView {
                decrypted_access_token: revealed(
                    key,
                    self.mastodon.access_token,
                    self.mastodon.decrypted_access_token,
                ),
                ..self.mastodon
            },
            nostr: NostrView {
                decrypted_private_key: revealed(
                    key,
                    self.nostr.private_key,
                    self.nostr.decrypted_private_key,
                ),
                ..self.nostr
            },
            microblog: MicroBlogView {
                decrypted_access_token: revealed(
                    key,
                    self.microblog.access_token,
                    self.microblog.decrypted_access_token,
                ),
                ..self.microblog
            },
        }
    }

    /// What opening every persisted secret reports: the first failure, in the
    /// order Bluesky, Mastodon, Micro.blog, Nostr.
    pub open spec fn open_outcome(self, key: Option<Seq<u8>>) -> Result<(), CryptoError> {
        first_error(
            seq![
                reveal_error(key, self.bluesky.password),
                reveal_error(key, self.mastodon.access_token),
                reveal_error(key, self.microblog.access_token),
                reveal_error(key, self.nostr.private_key),
            ],
        )
    }

    /// Whether `after` is a store that sealing every decrypted field of
    /// `self` under the key may leave: nothing but the persisted secrets
    /// differs, and each of them is resealed.
    pub open spec fn sealed_as(self, key: Option<Seq<u8>>, after: ConfigView) -> bool {
        &&& after.bluesky == BlueskyView { password: after.bluesky.password, ..self.bluesky }
        &&& after.mastodon == MastodonView {
            access_token: after.mastodon.access_token,
            ..self.mastodon
        }
        &&& after.nostr == NostrView { private_key: after.nostr.private_key, ..self.nostr }
        &&& after.microblog == MicroBlogView {
            access_token: after.microblog.access_token,
            ..self.microblog
        }
        &&& resealed(
            key,
            self.bluesky.password,
            self.bluesky.decrypted_password,
            after.bluesky.password,
        )
        &&& resealed(
            key,
            self.mastodon.access_token,
            self.mastodon.decrypted_access_token,
            after.mastodon.access_token,
        )
        &&& resealed(
            key,
            self.microblog.access_token,
            self.microblog.decrypted_access_token,
            after.microblog.access_token,
        )
        &&& resealed(
            key,
            self.nostr.private_key,
            self.nostr.decrypted_private_key,
            after.nostr.private_key,
        )
    }

    /// What sealing every decrypted field reports: the first failure, in the
    /// order Bluesky, Mastodon, Micro.blog, Nostr.
    pub open spec fn seal_outcome(self, key: Option<Seq<u8>>) -> Result<(), CryptoError> {
        first_error(
            seq![
                reseal_error(key, self.bluesky.decrypted_password),
                reseal_error(key, self.mastodon.decrypted_access_token),
                reseal_error(key, self.microblog.decrypted_access_token),
                reseal_error(key, self.nostr.decrypted_private_key),
            ],
        )
    }

    /// The store as it is persisted: with nothing in its four decrypted
    /// fields.
    pub open spec fn persisted(self) -> ConfigView {
        ConfigView {
            bluesky: BlueskyView { decrypted_password: Seq::empty(), ..self.bluesky },
            mastodon: MastodonView { decrypted_access_token: Seq::empty(), ..self.mastodon },
            nostr: NostrView { decrypted_private_key: Seq::empty(), ..self.nostr },
            microblog: MicroBlogView { decrypted_access_token: Seq::empty(), ..self.microblog },
        }
    }

    /// The four decrypted fields, in the order Bluesky, Mastodon, Micro.blog,
    /// Nostr.
    pub open spec fn plaintexts(self) -> Seq<Seq<char>> {
        seq![
            self.bluesky.decrypted_password,
            self.mastodon.decrypted_access_token,
            self.microblog.decrypted_access_token,
            self.nostr.decrypted_private_key,
        ]
    }
}

/// The whole persisted configuration.
#[derive(Debug, PartialEq, Eq)]
pub struct Config {
    pub bluesky: BlueskyConfig,
    pub mastodon: MastodonConfig,
    pub nostr: NostrConfig,
    pub microblog: MicroBlogConfig,
}

impl View for Config {
    type V = ConfigView;

    open spec fn view(&self) -> ConfigView {
        ConfigView {
            bluesky: self.bluesky@,
            mastodon: self.mastodon@,
            nostr: self.nostr@,
            microblog: self.microblog@,
        }
    }
}

impl Default for Config {
    fn default() -> (config: Self)
        ensures
            !config@.bluesky.enabled && config@.bluesky.handle.len() == 0,
            config@.bluesky.password is None && config@.bluesky.decrypted_password.len() == 0,
            !config@.mastodon.enabled && config@.mastodon.instance_url.len() == 0,
            config@.mastodon.access_token is None,
            config@.mastodon.decrypted_access_token.len() == 0,
            !config@.nostr.enabled && config@.nostr.relays == default_relays(),
            config@.nostr.private_key is None && config@.nostr.decrypted_private_key.len() == 0,
            !config@.microblog.enabled && config@.microblog.access_token is None,
            config@.microblog.decrypted_access_token.len() == 0,
    {
        Config {
            bluesky: BlueskyConfig::default(),
            mastodon: MastodonConfig::default(),
            nostr: NostrConfig::default(),
            microblog: MicroBlogConfig::default(),
        }
    }
}

impl Clone for Config {
    fn clone(&self) -> (copy: Self)
        ensures
            copy@ == self@,
    {
        Config {
            bluesky: self.bluesky.clone(),
            mastodon: self.mastodon.clone(),
            nostr: self.nostr.clone(),
            microblog: self.microblog.clone(),
        }
    }
}

fn first_of(a: Option<CryptoError>, b: Option<CryptoError>, c: Option<CryptoError>, d: Option<
    CryptoError,
>) -> (res: Result<(), CryptoError>)
    ensures
        res == first_error(seq![a, b, c, d]),
{
    proof {
        let all = seq![a, b, c, d];
        assert(all.drop_first() =~= seq![b, c, d]);
        assert(seq![b, c, d].drop_first() =~= seq![c, d]);
        assert(seq![c, d].drop_first() =~= seq![d]);
        assert(seq![d].drop_first() =~= Seq::<Option<CryptoError>>::empty());
        reveal_with_fuel(first_error, 5);
    }
    if let Some(e) = a {
        Err(e)
    } else if let Some(e) = b {
        Err(e)
    } else if let Some(e) = c {
        Err(e)
    } else if let Some(e) = d {
        Err(e)
    } else {
        Ok(())
    }
}

impl Config {
    /// A copy for the disk: everything that is persisted, and nothing in the
    /// four decrypted fields.
    pub fn persisted(&self) -> (copy: Config)
        ensures
            copy@ == self@.persisted(),
    {
        let relays = self.nostr.relays.clone();
        assert(relays.deep_view() =~= self.nostr.relays.deep_view());
        Config {
            bluesky: BlueskyConfig {
                enabled: self.bluesky.enabled,
                handle: self.bluesky.handle.clone(),
                password: clone_secret(&self.bluesky.password),
                decrypted_password: String::new(),
            },
            mastodon: MastodonConfig {
                enabled: self.mastodon.enabled,
                instance_url: self.mastodon.instance_url.clone(),
                access_token: clone_secret(&self.mastodon.access_token),
                decrypted_access_token: String::new(),
            },
            nostr: NostrConfig {
                enabled: self.nostr.enabled,
                private_key: clone_secret(&self.nostr.private_key),
                relays,
                decrypted_private_key: String::new(),
            },
            microblog: MicroBlogConfig {
                enabled: self.microblog.enabled,
                access_token: clone_secret(&self.microblog.access_token),
                decrypted_access_token: String::new(),
            },
        }
    }

    /// Opens every persisted secret into its decrypted field. A secret that
    /// does not open leaves its own field empty and stops nothing: the others
    /// are opened all the same, and the first failure is reported.
    pub fn decrypt_credentials(&mut self, crypto: &CryptoManager) -> (res: Result<(), CryptoError>)
        ensures
            final(self)@ == old(self)@.opened(crypto.key()),
            res == old(self)@.open_outcome(crypto.key()),
    {
        let bluesky = open_into(crypto, &self.bluesky.password, &mut self.bluesky.decrypted_password);
        let mastodon = open_into(
            crypto,
            &self.mastodon.access_token,
            &mut self.mastodon.decrypted_access_token,
        );
        let microblog = open_into(
            crypto,
            &self.microblog.access_token,
            &mut self.microblog.decrypted_access_token,
        );
        let nostr = open_into(crypto, &self.nostr.private_key, &mut self.nostr.decrypted_private_key);
        first_of(bluesky, mastodon, microblog, nostr)
    }

    /// Seals every decrypted field that is not empty into its persisted
    /// secret. An empty field keeps what was persisted, and so does one that
    /// cannot be sealed: the others are sealed all the same, and the first
    /// failure is reported.
    pub fn encrypt_credentials(&mut self, crypto: &CryptoManager) -> (res: Result<(), CryptoError>)
        ensures
            old(self)@.sealed_as(crypto.key(), final(self)@),
            res == old(self)@.seal_outcome(crypto.key()),
    {
        let bluesky = seal_from(crypto, &self.bluesky.decrypted_password, &mut self.bluesky.password);
        let mastodon = seal_from(
            crypto,
            &self.mastodon.decrypted_access_token,
            &mut self.mastodon.access_token,
        );
        let microblog = seal_from(
            crypto,
            &self.microblog.decrypted_access_token,
            &mut self.microblog.access_token,
        );
        let nostr = seal_from(crypto, &self.nostr.decrypted_private_key, &mut self.nostr.private_key);
        first_of(bluesky, mastodon, microblog, nostr)
    }
}

/// Whether a decrypted field agrees with what is persisted beside it: where
/// it is not empty, the persisted secret opens to it under the key.
pub open spec fn consistent(key: Option<Seq<u8>>, secret: Option<SecretView>, field: Seq<char>) -> bool {
    field.len() > 0 ==> secret is Some && decrypted(key, secret->Some_0) == Ok::<
        Seq<char>,
        CryptoError,
    >(field)
}

/// Opening a persisted secret leaves its decrypted field in agreement with
/// it.
pub proof fn lemma_opened_is_consistent(
    key: Option<Seq<u8>>,
    secret: Option<SecretView>,
    field: Seq<char>,
)
    requires
        secret is Some,
    ensures
        consistent(key, secret, revealed(key, secret, field)),
{
}

/// Sealing a decrypted field leaves what is persisted in agreement with it,
/// unless the field could not be sealed.
pub proof fn lemma_sealed_is_consistent(
    key: Option<Seq<u8>>,
    before: Option<SecretView>,
    field: Seq<char>,
    after: Option<SecretView>,
)
    requires
        resealed(key, before, field, after),
        sealable(key, field),
    ensures
        consistent(key, after, field),
{
}

/// Whether a decrypted field that was not empty and could be sealed came
/// back as it was.
pub open spec fn recovered(key: Option<Seq<u8>>, field: Seq<char>, back: Seq<char>) -> bool {
    field.len() > 0 && sealable(key, field) ==> back == field
}

/// Sealing the store and opening it again gives back every decrypted field
/// that was not empty and could be sealed.
pub proof fn lemma_seal_then_open(key: Option<Seq<u8>>, before: ConfigView, after: ConfigView)
    requires
        before.sealed_as(key, after),
    ensures
        recovered(key, before.plaintexts()[0], after.opened(key).plaintexts()[0]),
        recovered(key, before.plaintexts()[1], after.opened(key).plaintexts()[1]),
        recovered(key, before.plaintexts()[2], after.opened(key).plaintexts()[2]),
        recovered(key, before.plaintexts()[3], after.opened(key).plaintexts()[3]),
{
}

/// Sealing the store twice in a row, with no change in between, leaves a
/// store that opens to the same decrypted fields as after the first time,
/// whatever ciphertexts the two rounds produced: both times every field that
/// was not empty and could be sealed comes back as it was.
pub proof fn lemma_seal_twice(
    key: Option<Seq<u8>>,
    start: ConfigView,
    first: ConfigView,
    second: ConfigView,
)
    requires
        start.sealed_as(key, first),
        first.sealed_as(key, second),
    ensures
        second.opened(key).plaintexts() == first.opened(key).plaintexts(),
        forall|i: int|
            0 <= i < 4 ==> recovered(
                key,
                start.plaintexts()[i],
                #[trigger] first.opened(key).plaintexts()[i],
            ),
        forall|i: int|
            0 <= i < 4 ==> recovered(
                key,
                start.plaintexts()[i],
                #[trigger] second.opened(key).plaintexts()[i],
            ),
{
    lemma_seal_then_open(key, start, first);
    lemma_seal_then_open(key, first, second);
}

} // verus!
