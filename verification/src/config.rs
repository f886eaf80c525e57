//! The settings of the player, and the credentials it keeps.

use vstd::hash_map::StringHashMap;
use vstd::prelude::*;

use crate::backend::{lemma_elements, pair};
use crate::foreign;
use crate::number::Real;
use crate::subsonic::SubsonicAuthMode;
use crate::text;

verus! {

broadcast use vstd::string::group_string_axioms;

/// The identifier of the application, under which its settings are kept.
pub const APP_ID: &'static str = "io.m51.Gelly";

/// The value of a setting.
#[derive(Clone, Debug)]
pub enum SettingValue {
    Text(String),
    Int(i32),
    UInt(u32),
    Bool(bool),
    Double(Real),
}

/// What a [`SettingValue`] holds.
#[verifier::ext_equal]
pub enum SettingView {
    Text(Seq<char>),
    Int(i32),
    UInt(u32),
    Bool(bool),
    Double(Real),
}

impl DeepView for SettingValue {
    type V = SettingView;

    open spec fn deep_view(&self) -> SettingView {
        match *self {
            SettingValue::Text(s) => SettingView::Text(s@),
            SettingValue::Int(i) => SettingView::Int(i),
            SettingValue::UInt(u) => SettingView::UInt(u),
            SettingValue::Bool(b) => SettingView::Bool(b),
            SettingValue::Double(d) => SettingView::Double(d),
        }
    }
}

/// The settings of the player: a value for each key.
pub struct Settings {
    entries: StringHashMap<SettingValue>,
}

impl View for Settings {
    type V = Map<Seq<char>, SettingView>;

    closed spec fn view(&self) -> Map<Seq<char>, SettingView> {
        self.entries@.map_values(|v: SettingValue| v.deep_view())
    }
}

impl Settings {
    /// Whether `key` holds a text.
    pub open spec fn has_text(self, key: Seq<char>) -> bool {
        self@.contains_key(key) && self@[key] is Text
    }

    /// Whether `key` holds a signed number.
    pub open spec fn has_int(self, key: Seq<char>) -> bool {
        self@.contains_key(key) && self@[key] is Int
    }

    /// Whether `key` holds an unsigned number.
    pub open spec fn has_uint(self, key: Seq<char>) -> bool {
        self@.contains_key(key) && self@[key] is UInt
    }

    /// Whether `key` holds a truth value.
    pub open spec fn has_bool(self, key: Seq<char>) -> bool {
        self@.contains_key(key) && self@[key] is Bool
    }

    /// Whether `key` holds a real number.
    pub open spec fn has_double(self, key: Seq<char>) -> bool {
        self@.contains_key(key) && self@[key] is Double
    }

    /// The text under `key`.
    pub open spec fn text_at(self, key: Seq<char>) -> Seq<char> {
        self@[key]->Text_0
    }

    /// The signed number under `key`.
    pub open spec fn int_at(self, key: Seq<char>) -> i32 {
        self@[key]->Int_0
    }

    /// The unsigned number under `key`.
    pub open spec fn uint_at(self, key: Seq<char>) -> u32 {
        self@[key]->UInt_0
    }

    /// The truth value under `key`.
    pub open spec fn bool_at(self, key: Seq<char>) -> bool {
        self@[key]->Bool_0
    }

    /// The real number under `key`.
    pub open spec fn double_at(self, key: Seq<char>) -> Real {
        self@[key]->Double_0
    }

    /// Whether every key of the player holds a value of its kind.
    pub open spec fn conforms(self) -> bool {
        &&& self.has_text("backend-type"@)
        &&& self.has_text("hostname"@)
        &&& self.has_text("user-id"@)
        &&& self.has_text("subsonic-username"@)
        &&& self.has_text("library-id"@)
        &&& self.has_text("uuid"@)
        &&& self.has_text("subsonic-auth-mode"@)
        &&& self.has_text("transcoding-profile"@)
        &&& self.has_int("max-bitrate"@)
        &&& self.has_uint("sort-albums-by"@)
        &&& self.has_uint("sort-albums-direction"@)
        &&& self.has_uint("sort-artists-by"@)
        &&& self.has_uint("sort-artists-direction"@)
        &&& self.has_uint("sort-playlists-by"@)
        &&& self.has_uint("sort-playlists-direction"@)
        &&& self.has_uint("playback-mode"@)
        &&& self.has_bool("refresh-on-startup"@)
        &&& self.has_bool("playlist-shuffle-enabled"@)
        &&& self.has_bool("playlist-most-played-enabled"@)
        &&& self.has_bool("playlist-favorites-enabled"@)
        &&& self.has_bool("normalize-audio"@)
        &&& self.has_bool("gapless-playback"@)
        &&& self.has_bool("inhibit-suspend"@)
        &&& self.has_bool("compact-mode"@)
        &&& self.has_bool("album-art-window-background"@)
        &&& self.has_double("volume"@)
    }

    /// Settings without any key.
    pub fn new() -> (r: Settings)
        ensures
            r@ == Map::<Seq<char>, SettingView>::empty(),
    {
        let r = Settings { entries: StringHashMap::new() };
        assert(r@ =~= Map::<Seq<char>, SettingView>::empty());
        r
    }

    /// Puts `value` under `key`, in place of whatever was there.
    pub fn set(&mut self, key: &str, value: SettingValue)
        ensures
            final(self)@ == old(self)@.insert(key@, value.deep_view()),
    {
        self.entries.insert(key.to_owned(), value);
        assert(self@ =~= old(self)@.insert(key@, value.deep_view()));
    }

    /// The value under `key`, if there is one.
    pub fn get(&self, key: &str) -> (r: Option<&SettingValue>)
        ensures
            r is Some <==> self@.contains_key(key@),
            r matches Some(v) ==> v.deep_view() == self@[key@],
    {
        self.entries.get(key)
    }

    /// Whether `key` holds a text.
    fn holds_text(&self, key: &str) -> (b: bool)
        ensures
            b == self.has_text(key@),
    {
        match self.get(key) {
            Some(SettingValue::Text(_)) => true,
            _ => false,
        }
    }

    /// The text under `key`.
    pub fn read_text(&self, key: &str) -> (r: String)
        requires
            self.has_text(key@),
        ensures
            r@ == self.text_at(key@),
    {
        match self.get(key) {
            Some(SettingValue::Text(s)) => s.clone(),
            _ => {
                assert(false);
                String::new()
            },
        }
    }

    /// Whether `key` holds a signed number.
    fn holds_int(&self, key: &str) -> (b: bool)
        ensures
            b == self.has_int(key@),
    {
        match self.get(key) {
            Some(SettingValue::Int(_)) => true,
            _ => false,
        }
    }

    /// The signed number under `key`.
    pub fn read_int(&self, key: &str) -> (r: i32)
        requires
            self.has_int(key@),
        ensures
            r == self.int_at(key@),
    {
        match self.get(key) {
            Some(SettingValue::Int(s)) => *s,
            _ => {
                assert(false);
                0
            },
        }
    }

    /// Whether `key` holds a unsigned number.
    fn holds_uint(&self, key: &str) -> (b: bool)
        ensures
            b == self.has_uint(key@),
    {
        match self.get(key) {
            Some(SettingValue::UInt(_)) => true,
            _ => false,
        }
    }

    /// The unsigned number under `key`.
    pub fn read_uint(&self, key: &str) -> (r: u32)
        requires
            self.has_uint(key@),
        ensures
            r == self.uint_at(key@),
    {
        match self.get(key) {
            Some(SettingValue::UInt(s)) => *s,
            _ => {
                assert(false);
                0
            },
        }
    }

    /// Whether `key` holds a truth value.
    fn holds_bool(&self, key: &str) -> (b: bool)
        ensures
            b == self.has_bool(key@),
    {
        match self.get(key) {
            Some(SettingValue::Bool(_)) => true,
            _ => false,
        }
    }

    /// The truth value under `key`.
    pub fn read_bool(&self, key: &str) -> (r: bool)
        requires
            self.has_bool(key@),
        ensures
            r == self.bool_at(key@),
    {
        match self.get(key) {
            Some(SettingValue::Bool(s)) => *s,
            _ => {
                assert(false);
                false
            },
        }
    }

    /// Whether `key` holds a real number.
    fn holds_double(&self, key: &str) -> (b: bool)
        ensures
            b == self.has_double(key@),
    {
        match self.get(key) {
            Some(SettingValue::Double(_)) => true,
            _ => false,
        }
    }

    /// The real number under `key`.
    pub fn read_double(&self, key: &str) -> (r: Real)
        requires
            self.has_double(key@),
        ensures
            r == self.double_at(key@),
    {
        match self.get(key) {
            Some(SettingValue::Double(s)) => *s,
            _ => {
                assert(false);
                Real { bits: 0 }
            },
        }
    }

    /// Whether every key of the player holds a value of its kind.
    pub fn is_complete(&self) -> (b: bool)
        ensures
            b == self.conforms(),
    {
        self.holds_text("backend-type")
            && self.holds_text("hostname")
            && self.holds_text("user-id")
            && self.holds_text("subsonic-username")
            && self.holds_text("library-id")
            && self.holds_text("uuid")
            && self.holds_text("subsonic-auth-mode")
            && self.holds_text("transcoding-profile")
            && self.holds_int("max-bitrate")
            && self.holds_uint("sort-albums-by")
            && self.holds_uint("sort-albums-direction")
            && self.holds_uint("sort-artists-by")
            && self.holds_uint("sort-artists-direction")
            && self.holds_uint("sort-playlists-by")
            && self.holds_uint("sort-playlists-direction")
            && self.holds_uint("playback-mode")
            && self.holds_bool("refresh-on-startup")
            && self.holds_bool("playlist-shuffle-enabled")
            && self.holds_bool("playlist-most-played-enabled")
            && self.holds_bool("playlist-favorites-enabled")
            && self.holds_bool("normalize-audio")
            && self.holds_bool("gapless-playback")
            && self.holds_bool("inhibit-suspend")
            && self.holds_bool("compact-mode")
            && self.holds_bool("album-art-window-background")
            && self.holds_double("volume")
    }
}

/// The kind of server that the player talks to.
#[derive(Debug, Clone, Copy, PartialEq, Eq, Structural)]
pub enum BackendType {
    Jellyfin,
    Subsonic,
}

impl Default for BackendType {
    fn default() -> (r: BackendType)
        ensures
            r == BackendType::Jellyfin,
    {
        BackendType::Jellyfin
    }
}

impl BackendType {
    /// The name of the kind of server in the settings.
    pub open spec fn name(self) -> Seq<char> {
        match self {
            BackendType::Jellyfin => "jellyfin"@,
            BackendType::Subsonic => "subsonic"@,
        }
    }

    /// The kind of server that a name stands for. Any other name stands for Jellyfin.
    pub open spec fn named(name: Seq<char>) -> BackendType {
        if name == "subsonic"@ {
            BackendType::Subsonic
        } else {
            BackendType::Jellyfin
        }
    }

    /// The key that tells who the user is on this kind of server.
    pub open spec fn id_key_name(self) -> Seq<char> {
        match self {
            BackendType::Jellyfin => "user-id"@,
            BackendType::Subsonic => "subsonic-username"@,
        }
    }

    /// The name of the kind of server in the settings.
    pub fn as_str(self) -> (r: &'static str)
        ensures
            r@ == self.name(),
    {
        match self {
            BackendType::Jellyfin => "jellyfin",
            BackendType::Subsonic => "subsonic",
        }
    }

    /// The kind of server that a name stands for. Any other name stands for Jellyfin.
    pub fn from_str(value: &str) -> (r: BackendType)
        ensures
            r == BackendType::named(value@),
    {
        if text::same(value, "subsonic") {
            BackendType::Subsonic
        } else {
            BackendType::Jellyfin
        }
    }

    /// The key that tells who the user is on this kind of server.
    pub fn id_key(self) -> (r: &'static str)
        ensures
            r@ == self.id_key_name(),
    {
        match self {
            BackendType::Jellyfin => "user-id",
            BackendType::Subsonic => "subsonic-username",
        }
    }
}

/// A way to transcode songs: the codec and the container to ask a server for.
#[derive(Debug, Clone, PartialEq)]
pub struct TranscodingProfile {
    pub name: &'static str,
    pub codec: &'static str,
    pub container: &'static str,
}

/// What a [`TranscodingProfile`] holds.
#[verifier::ext_equal]
pub struct TranscodingProfileView {
    pub name: Seq<char>,
    pub codec: Seq<char>,
    pub container: Seq<char>,
}

impl DeepView for TranscodingProfile {
    type V = TranscodingProfileView;

    open spec fn deep_view(&self) -> TranscodingProfileView {
        TranscodingProfileView {
            name: self.name@,
            codec: self.codec@,
            container: self.container@,
        }
    }
}

/// Opus in an MP4 container.
pub open spec fn opus_mp4() -> TranscodingProfileView {
    TranscodingProfileView { name: "OPUS+MP4"@, codec: "opus"@, container: "mp4"@ }
}

/// AAC in a transport stream.
pub open spec fn aac_ts() -> TranscodingProfileView {
    TranscodingProfileView { name: "AAC+TS"@, codec: "aac"@, container: "ts"@ }
}

/// The profile of a name. Any other name stands for Opus in an MP4 container.
pub open spec fn profile_named(name: Seq<char>) -> TranscodingProfileView {
    if name == aac_ts().name {
        aac_ts()
    } else {
        opus_mp4()
    }
}

impl TranscodingProfile {
    /// Opus in an MP4 container.
    pub fn opus_mp4() -> (r: TranscodingProfile)
        ensures
            r.deep_view() == opus_mp4(),
    {
        TranscodingProfile { name: "OPUS+MP4", codec: "opus", container: "mp4" }
    }

    /// AAC in a transport stream.
    pub fn aac_ts() -> (r: TranscodingProfile)
        ensures
            r.deep_view() == aac_ts(),
    {
        TranscodingProfile { name: "AAC+TS", codec: "aac", container: "ts" }
    }

    /// The profiles that the player offers.
    pub fn profiles() -> (r: Vec<TranscodingProfile>)
        ensures
            r.deep_view() == seq![opus_mp4(), aac_ts()],
    {
        let r = vec![TranscodingProfile::opus_mp4(), TranscodingProfile::aac_ts()];
        assert(r.deep_view() =~= seq![opus_mp4(), aac_ts()]);
        r
    }

    /// The names of the profiles that the player offers, in their order.
    pub fn as_string_list() -> (r: Vec<&'static str>)
        ensures
            r.deep_view() == seq![opus_mp4().name, aac_ts().name],
    {
        let profiles = TranscodingProfile::profiles();
        let ghost all = profiles.deep_view();
        assert(profiles@.len() == all.len());
        let mut r: Vec<&'static str> = Vec::new();
        let mut i: usize = 0;
        while i < profiles.len()
            invariant
                all == profiles.deep_view(),
                all == seq![opus_mp4(), aac_ts()],
                profiles@.len() == 2,
                i <= profiles@.len(),
                r@.len() == i,
                forall|j: int| 0 <= j < i ==> #[trigger] r@[j]@ == all[j].name,
            decreases profiles@.len() - i,
        {
            assert(all[i as int] == profiles@[i as int].deep_view());
            r.push(profiles[i].name);
            i = i + 1;
        }
        assert(r@[0]@ == opus_mp4().name && r@[1]@ == aac_ts().name);
        assert(r.deep_view() =~= seq![opus_mp4().name, aac_ts().name]);
        r
    }
}

/// The kind of server that the settings name.
pub open spec fn backend_type(settings: Settings) -> BackendType {
    BackendType::named(settings.text_at("backend-type"@))
}

/// The kind of server that the settings name.
pub fn get_backend_type(settings: &Settings) -> (r: BackendType)
    requires
        settings.has_text("backend-type"@),
    ensures
        r == backend_type(*settings),
{
    BackendType::from_str(settings.read_text("backend-type").as_str())
}

/// Sets the kind of server that the player talks to.
pub fn set_backend_type(settings: &mut Settings, backend_type: BackendType)
    ensures
        final(settings)@ == old(settings)@.insert(
            "backend-type"@,
            SettingView::Text(backend_type.name()),
        ),
{
    settings.set("backend-type", SettingValue::Text(backend_type.as_str().to_owned()));
}

/// The attributes under which the keyring keeps the credentials of a user of a server.
pub open spec fn credential_attributes(
    backend_type: BackendType,
    host: Seq<char>,
    identifier: Seq<char>,
) -> Seq<(Seq<char>, Seq<char>)> {
    seq![("host"@, host), (backend_type.id_key_name(), identifier)]
}

/// The attributes under which the keyring keeps the credentials of a user of a server.
fn attributes_for(backend_type: BackendType, host: &str, identifier: &str) -> (r: Vec<
    (String, String),
>)
    ensures
        r.deep_view() == credential_attributes(backend_type, host@, identifier@),
{
    let r = vec![pair("host", host), pair(backend_type.id_key(), identifier)];
    assert(r.deep_view() =~= credential_attributes(backend_type, host@, identifier@));
    r
}

/// A secret to put into the keyring, in place of any that is there under the same attributes.
#[derive(Debug)]
pub struct KeyringItem {
    pub label: &'static str,
    pub attributes: Vec<(String, String)>,
    pub secret: String,
}

/// What a [`KeyringItem`] holds.
#[verifier::ext_equal]
pub struct KeyringItemView {
    pub label: Seq<char>,
    pub attributes: Seq<(Seq<char>, Seq<char>)>,
    pub secret: Seq<char>,
}

impl DeepView for KeyringItem {
    type V = KeyringItemView;

    open spec fn deep_view(&self) -> KeyringItemView {
        KeyringItemView {
            label: self.label@,
            attributes: self.attributes.deep_view(),
            secret: self.secret@,
        }
    }
}

/// The keyring item that keeps the API token of a Jellyfin user.
pub fn store_jellyfin_api_token(host: &str, user_id: &str, api_token: &str) -> (r: KeyringItem)
    ensures
        r.deep_view() == (KeyringItemView {
            label: "Jellyfin API Token"@,
            attributes: credential_attributes(BackendType::Jellyfin, host@, user_id@),
            secret: api_token@,
        }),
{
    KeyringItem {
        label: "Jellyfin API Token",
        attributes: attributes_for(BackendType::Jellyfin, host, user_id),
        secret: api_token.to_owned(),
    }
}

/// The keyring item that keeps the password of a Subsonic user.
pub fn store_subsonic_password(host: &str, username: &str, password: &str) -> (r: KeyringItem)
    ensures
        r.deep_view() == (KeyringItemView {
            label: "Subsonic Password"@,
            attributes: credential_attributes(BackendType::Subsonic, host@, username@),
            secret: password@,
        }),
{
    KeyringItem {
        label: "Subsonic Password",
        attributes: attributes_for(BackendType::Subsonic, host, username),
        secret: password.to_owned(),
    }
}

/// The attributes to search the keyring by for the API token of a Jellyfin user.
pub fn retrieve_jellyfin_api_token(host: &str, user_id: &str) -> (r: Vec<(String, String)>)
    ensures
        r.deep_view() == credential_attributes(BackendType::Jellyfin, host@, user_id@),
{
    attributes_for(BackendType::Jellyfin, host, user_id)
}

/// The attributes to search the keyring by for the password of a Subsonic user.
pub fn retrieve_subsonic_password(host: &str, username: &str) -> (r: Vec<(String, String)>)
    ensures
        r.deep_view() == credential_attributes(BackendType::Subsonic, host@, username@),
{
    attributes_for(BackendType::Subsonic, host, username)
}

/// The credentials that a search of the keyring found: the secret of the first item, with what is
/// not UTF-8 in it replaced. A search that failed found nothing.
pub fn retrieve_credentials(found: Result<Option<Vec<u8>>, String>) -> (r: Option<String>)
    ensures
        r is Some <==> found matches Ok(Some(_)),
        found matches Ok(Some(secret)) ==> r->0@ == foreign::utf8_lossy(secret@),
        found matches Ok(Some(secret)) ==> (vstd::utf8::valid_utf8(secret@) ==> r->0@
            == vstd::utf8::decode_utf8(secret@)),
{
    match found {
        Ok(Some(secret)) => Some(foreign::from_utf8_lossy(secret.as_slice())),
        _ => None,
    }
}

/// The attributes of the credentials of the user that the settings name for a kind of server.
pub open spec fn current_attributes(settings: Settings, backend_type: BackendType) -> Seq<
    (Seq<char>, Seq<char>),
> {
    credential_attributes(
        backend_type,
        settings.text_at("hostname"@),
        settings.text_at(backend_type.id_key_name()),
    )
}

/// The attributes of the credentials to delete from the keyring: those of the user that the
/// settings name for a kind of server.
pub fn clear_credentials(settings: &Settings, backend_type: BackendType) -> (r: Vec<
    (String, String),
>)
    requires
        settings.has_text("hostname"@),
        settings.has_text(backend_type.id_key_name()),
    ensures
        r.deep_view() == current_attributes(*settings, backend_type),
{
    let host = settings.read_text("hostname");
    let identifier = settings.read_text(backend_type.id_key());
    attributes_for(backend_type, host.as_str(), identifier.as_str())
}

/// Settings in which nobody is logged in.
pub open spec fn logged_out(settings: Map<Seq<char>, SettingView>) -> Map<Seq<char>, SettingView> {
    settings.insert(BackendType::Jellyfin.id_key_name(), SettingView::Text(seq![])).insert(
        BackendType::Subsonic.id_key_name(),
        SettingView::Text(seq![]),
    ).insert("library-id"@, SettingView::Text(seq![])).insert(
        "backend-type"@,
        SettingView::Text(BackendType::Jellyfin.name()),
    )
}

/// Logs out: forgets the users, the library and the kind of server. Returned are the attributes of
/// the credentials to delete from the keyring, which are those of the user who was logged in.
pub fn logout(settings: &mut Settings) -> (r: Vec<(String, String)>)
    requires
        old(settings).has_text("backend-type"@),
        old(settings).has_text("hostname"@),
        old(settings).has_text(backend_type(*old(settings)).id_key_name()),
    ensures
        r.deep_view() == current_attributes(*old(settings), backend_type(*old(settings))),
        final(settings)@ == logged_out(old(settings)@),
{
    let attributes = clear_credentials(settings, get_backend_type(settings));
    settings.set(BackendType::Jellyfin.id_key(), SettingValue::Text(String::new()));
    settings.set(BackendType::Subsonic.id_key(), SettingValue::Text(String::new()));
    settings.set("library-id", SettingValue::Text(String::new()));
    set_backend_type(settings, BackendType::Jellyfin);
    attributes
}

/// How Subsonic requests are authenticated.
pub fn get_subsonic_auth_mode(settings: &Settings) -> (r: SubsonicAuthMode)
    requires
        settings.has_text("subsonic-auth-mode"@),
    ensures
        r == SubsonicAuthMode::named(settings.text_at("subsonic-auth-mode"@)),
{
    SubsonicAuthMode::from_str(settings.read_text("subsonic-auth-mode").as_str())
}

/// The identifier of this client where `fresh` is at hand for a client that has none yet.
pub open spec fn client_id(kept: Seq<char>, fresh: Seq<char>) -> Seq<char> {
    if kept.len() == 0 {
        fresh
    } else {
        kept
    }
}

/// The identifier of this client. Where the settings hold none, `fresh` becomes it.
pub fn application_uuid_or(settings: &mut Settings, fresh: String) -> (r: String)
    requires
        old(settings).has_text("uuid"@),
    ensures
        r@ == client_id(old(settings).text_at("uuid"@), fresh@),
        final(settings)@ == old(settings)@.insert("uuid"@, SettingView::Text(r@)),
{
    let kept = settings.read_text("uuid");
    if kept.as_str().is_empty() {
        settings.set("uuid", SettingValue::Text(fresh.clone()));
        fresh
    } else {
        assert(settings@ =~= settings@.insert("uuid"@, SettingView::Text(kept@)));
        kept
    }
}

/// The identifier of this client, which is generated where the settings hold none.
pub fn application_uuid(settings: &mut Settings) -> (r: String)
    requires
        old(settings).has_text("uuid"@),
    ensures
        r@.len() > 0,
        old(settings).text_at("uuid"@).len() > 0 ==> r@ == old(settings).text_at("uuid"@),
        old(settings).text_at("uuid"@).len() == 0 ==> foreign::is_uuid_v4(r@),
        final(settings)@ == old(settings)@.insert("uuid"@, SettingView::Text(r@)),
{
    let kept = settings.read_text("uuid");
    if kept.as_str().is_empty() {
        application_uuid_or(settings, foreign::new_uuid())
    } else {
        application_uuid_or(settings, String::new())
    }
}

/// The transcoding profile that the settings name.
pub fn get_transcoding_profile(settings: &Settings) -> (r: TranscodingProfile)
    requires
        settings.has_text("transcoding-profile"@),
    ensures
        r.deep_view() == profile_named(settings.text_at("transcoding-profile"@)),
{
    let name = settings.read_text("transcoding-profile");
    if text::same(name.as_str(), TranscodingProfile::opus_mp4().name) {
        proof {
            reveal_strlit("OPUS+MP4");
            reveal_strlit("AAC+TS");
        }
        TranscodingProfile::opus_mp4()
    } else if text::same(name.as_str(), TranscodingProfile::aac_ts().name) {
        TranscodingProfile::aac_ts()
    } else {
        TranscodingProfile::opus_mp4()
    }
}

/// Sets the transcoding profile.
pub fn set_transcoding_profile(settings: &mut Settings, profile: TranscodingProfile)
    ensures
        final(settings)@ == old(settings)@.insert(
            "transcoding-profile"@,
            SettingView::Text(profile.name@),
        ),
{
    settings.set("transcoding-profile", SettingValue::Text(profile.name.to_owned()));
}

/// `i`, brought into the range of a signed 32-bit number.
pub open spec fn saturated(i: int) -> i32 {
    if i < i32::MIN {
        i32::MIN
    } else if i > i32::MAX {
        i32::MAX
    } else {
        i as i32
    }
}

/// The largest bit rate to stream at, in the unit of the server: bits per second for Jellyfin,
/// kilobits per second for Subsonic. The settings hold kilobits per second, and zero for no limit.
pub open spec fn max_bitrate(settings: Settings) -> Option<i32> {
    let value = settings.int_at("max-bitrate"@);
    if value == 0 {
        None
    } else if backend_type(settings) == BackendType::Jellyfin {
        Some(saturated(value * 1000))
    } else {
        Some(value)
    }
}

/// The largest bit rate to stream at, in the unit of the server: bits per second for Jellyfin,
/// kilobits per second for Subsonic. There is none where the settings hold zero.
pub fn get_max_bitrate(settings: &Settings) -> (r: Option<i32>)
    requires
        settings.has_int("max-bitrate"@),
        settings.has_text("backend-type"@),
    ensures
        r == max_bitrate(*settings),
{
    // From the settings as kilobits per second.
    let value: i32 = settings.read_int("max-bitrate");
    if value == 0 {
        None
    } else if get_backend_type(settings) == BackendType::Jellyfin {
        let bits: i64 = value as i64 * 1000;
        if bits < i32::MIN as i64 {
            Some(i32::MIN)
        } else if bits > i32::MAX as i64 {
            Some(i32::MAX)
        } else {
            Some(bits as i32)
        }
    } else {
        Some(value)
    }
}

/// Whether the library is fetched anew when the player starts.
pub fn get_refresh_on_startup(settings: &Settings) -> (r: bool)
    requires
        settings.has_bool("refresh-on-startup"@),
    ensures
        r == settings.bool_at("refresh-on-startup"@),
{
    settings.read_bool("refresh-on-startup")
}

/// Whether the playlist of all songs in random order is offered.
pub fn get_playlist_shuffle_enabled(settings: &Settings) -> (r: bool)
    requires
        settings.has_bool("playlist-shuffle-enabled"@),
    ensures
        r == settings.bool_at("playlist-shuffle-enabled"@),
{
    settings.read_bool("playlist-shuffle-enabled")
}

/// Whether the playlist of the most played songs is offered.
pub fn get_playlist_most_played_enabled(settings: &Settings) -> (r: bool)
    requires
        settings.has_bool("playlist-most-played-enabled"@),
    ensures
        r == settings.bool_at("playlist-most-played-enabled"@),
{
    settings.read_bool("playlist-most-played-enabled")
}

/// Whether the playlist of the favorite songs is offered.
pub fn get_playlist_favorites_enabled(settings: &Settings) -> (r: bool)
    requires
        settings.has_bool("playlist-favorites-enabled"@),
    ensures
        r == settings.bool_at("playlist-favorites-enabled"@),
{
    settings.read_bool("playlist-favorites-enabled")
}

/// Whether songs are brought to a common loudness.
pub fn get_normalize_audio_enabled(settings: &Settings) -> (r: bool)
    requires
        settings.has_bool("normalize-audio"@),
    ensures
        r == settings.bool_at("normalize-audio"@),
{
    settings.read_bool("normalize-audio")
}

/// Whether a song follows the last without a gap.
pub fn get_gapless_playback_enabled(settings: &Settings) -> (r: bool)
    requires
        settings.has_bool("gapless-playback"@),
    ensures
        r == settings.bool_at("gapless-playback"@),
{
    settings.read_bool("gapless-playback")
}

/// Whether the machine is kept awake while a song plays.
pub fn get_inhibit_suspend_enabled(settings: &Settings) -> (r: bool)
    requires
        settings.has_bool("inhibit-suspend"@),
    ensures
        r == settings.bool_at("inhibit-suspend"@),
{
    settings.read_bool("inhibit-suspend")
}

/// What the albums are sorted by.
pub fn get_albums_sort_by(settings: &Settings) -> (r: u32)
    requires
        settings.has_uint("sort-albums-by"@),
    ensures
        r == settings.uint_at("sort-albums-by"@),
{
    settings.read_uint("sort-albums-by")
}

/// Sets what the albums are sorted by.
pub fn set_albums_sort_by(settings: &mut Settings, sort_by: u32)
    ensures
        final(settings)@ == old(settings)@.insert("sort-albums-by"@, SettingView::UInt(sort_by)),
{
    settings.set("sort-albums-by", SettingValue::UInt(sort_by));
}

/// Which way the albums are sorted.
pub fn get_albums_sort_direction(settings: &Settings) -> (r: u32)
    requires
        settings.has_uint("sort-albums-direction"@),
    ensures
        r == settings.uint_at("sort-albums-direction"@),
{
    settings.read_uint("sort-albums-direction")
}

/// Sets which way the albums are sorted.
pub fn set_albums_sort_direction(settings: &mut Settings, direction: u32)
    ensures
        final(settings)@ == old(settings)@.insert(
            "sort-albums-direction"@,
            SettingView::UInt(direction),
        ),
{
    settings.set("sort-albums-direction", SettingValue::UInt(direction));
}

/// What the artists are sorted by.
pub fn get_artists_sort_by(settings: &Settings) -> (r: u32)
    requires
        settings.has_uint("sort-artists-by"@),
    ensures
        r == settings.uint_at("sort-artists-by"@),
{
    settings.read_uint("sort-artists-by")
}

/// Sets what the artists are sorted by.
pub fn set_artists_sort_by(settings: &mut Settings, sort_by: u32)
    ensures
        final(settings)@ == old(settings)@.insert("sort-artists-by"@, SettingView::UInt(sort_by)),
{
    settings.set("sort-artists-by", SettingValue::UInt(sort_by));
}

/// Which way the artists are sorted.
pub fn get_artists_sort_direction(settings: &Settings) -> (r: u32)
    requires
        settings.has_uint("sort-artists-direction"@),
    ensures
        r == settings.uint_at("sort-artists-direction"@),
{
    settings.read_uint("sort-artists-direction")
}

/// Sets which way the artists are sorted.
pub fn set_artists_sort_direction(settings: &mut Settings, direction: u32)
    ensures
        final(settings)@ == old(settings)@.insert(
            "sort-artists-direction"@,
            SettingView::UInt(direction),
        ),
{
    settings.set("sort-artists-direction", SettingValue::UInt(direction));
}

/// What the playlists are sorted by.
pub fn get_playlists_sort_by(settings: &Settings) -> (r: u32)
    requires
        settings.has_uint("sort-playlists-by"@),
    ensures
        r == settings.uint_at("sort-playlists-by"@),
{
    settings.read_uint("sort-playlists-by")
}

/// Sets what the playlists are sorted by.
pub fn set_playlists_sort_by(settings: &mut Settings, sort_by: u32)
    ensures
        final(settings)@ == old(settings)@.insert("sort-playlists-by"@, SettingView::UInt(sort_by)),
{
    settings.set("sort-playlists-by", SettingValue::UInt(sort_by));
}

/// Which way the playlists are sorted.
pub fn get_playlists_sort_direction(settings: &Settings) -> (r: u32)
    requires
        settings.has_uint("sort-playlists-direction"@),
    ensures
        r == settings.uint_at("sort-playlists-direction"@),
{
    settings.read_uint("sort-playlists-direction")
}

/// Sets which way the playlists are sorted.
pub fn set_playlists_sort_direction(settings: &mut Settings, direction: u32)
    ensures
        final(settings)@ == old(settings)@.insert(
            "sort-playlists-direction"@,
            SettingView::UInt(direction),
        ),
{
    settings.set("sort-playlists-direction", SettingValue::UInt(direction));
}

/// How loud the player is.
pub fn get_volume(settings: &Settings) -> (r: Real)
    requires
        settings.has_double("volume"@),
    ensures
        r == settings.double_at("volume"@),
{
    settings.read_double("volume")
}

/// Sets how loud the player is.
pub fn set_volume(settings: &mut Settings, volume: Real)
    ensures
        final(settings)@ == old(settings)@.insert("volume"@, SettingView::Double(volume)),
{
    settings.set("volume", SettingValue::Double(volume));
}

/// How the queue is played.
pub fn get_playback_mode(settings: &Settings) -> (r: u32)
    requires
        settings.has_uint("playback-mode"@),
    ensures
        r == settings.uint_at("playback-mode"@),
{
    settings.read_uint("playback-mode")
}

/// Sets how the queue is played.
pub fn set_playback_mode(settings: &mut Settings, mode: u32)
    ensures
        final(settings)@ == old(settings)@.insert("playback-mode"@, SettingView::UInt(mode)),
{
    settings.set("playback-mode", SettingValue::UInt(mode));
}

/// Whether the window is in its compact form.
pub fn get_compact_mode_enabled(settings: &Settings) -> (r: bool)
    requires
        settings.has_bool("compact-mode"@),
    ensures
        r == settings.bool_at("compact-mode"@),
{
    settings.read_bool("compact-mode")
}

/// Whether the cover of the album is shown behind the window.
pub fn get_album_art_window_background_enabled(settings: &Settings) -> (r: bool)
    requires
        settings.has_bool("album-art-window-background"@),
    ensures
        r == settings.bool_at("album-art-window-background"@),
{
    settings.read_bool("album-art-window-background")
}

/// Whether two values are of one kind.
pub open spec fn same_kind(a: SettingView, b: SettingView) -> bool {
    ||| a is Text && b is Text
    ||| a is Int && b is Int
    ||| a is UInt && b is UInt
    ||| a is Bool && b is Bool
    ||| a is Double && b is Double
}

/// A setting that was set is read back, no other setting changes, and settings that were complete
/// stay so where the kind of the value stays the same.
pub proof fn law_set_is_read_back(
    before: Settings,
    after: Settings,
    key: Seq<char>,
    value: SettingView,
)
    requires
        after@ == before@.insert(key, value),
    ensures
        after@.contains_key(key),
        after@[key] == value,
        forall|other: Seq<char>| #![trigger after@.contains_key(other)]
            other != key ==> after@.contains_key(other) == before@.contains_key(other),
        forall|other: Seq<char>| #![trigger after@[other]]
            other != key ==> after@[other] == before@[other],
        before.conforms() && before@.contains_key(key) && same_kind(before@[key], value)
            ==> after.conforms(),
{
}

/// The keys of the settings that hold texts.
pub open spec fn text_keys() -> Seq<Seq<char>> {
    seq![
        "backend-type"@,
        "hostname"@,
        "user-id"@,
        "subsonic-username"@,
        "library-id"@,
        "uuid"@,
        "subsonic-auth-mode"@,
        "transcoding-profile"@,
    ]
}

/// The keys of the settings that hold unsigned numbers.
pub open spec fn uint_keys() -> Seq<Seq<char>> {
    seq![
        "sort-albums-by"@,
        "sort-albums-direction"@,
        "sort-artists-by"@,
        "sort-artists-direction"@,
        "sort-playlists-by"@,
        "sort-playlists-direction"@,
        "playback-mode"@,
    ]
}

/// The keys of the settings that hold truth values.
pub open spec fn bool_keys() -> Seq<Seq<char>> {
    seq![
        "refresh-on-startup"@,
        "playlist-shuffle-enabled"@,
        "playlist-most-played-enabled"@,
        "playlist-favorites-enabled"@,
        "normalize-audio"@,
        "gapless-playback"@,
        "inhibit-suspend"@,
        "compact-mode"@,
        "album-art-window-background"@,
    ]
}

/// No two settings of one kind share a key, so that setting one leaves the others as they are.
pub proof fn law_keys_are_distinct()
    ensures
        text_keys().no_duplicates(),
        uint_keys().no_duplicates(),
        bool_keys().no_duplicates(),
{
    reveal_strlit("backend-type");
    assert("backend-type"@.len() == 12);
    reveal_strlit("hostname");
    assert("hostname"@.len() == 8);
    reveal_strlit("user-id");
    assert("user-id"@.len() == 7);
    reveal_strlit("subsonic-username");
    assert("subsonic-username"@.len() == 17);
    reveal_strlit("library-id");
    assert("library-id"@.len() == 10);
    reveal_strlit("uuid");
    assert("uuid"@.len() == 4);
    reveal_strlit("subsonic-auth-mode");
    assert("subsonic-auth-mode"@.len() == 18);
    reveal_strlit("transcoding-profile");
    assert("transcoding-profile"@.len() == 19);
    reveal_strlit("sort-albums-by");
    assert("sort-albums-by"@.len() == 14);
    reveal_strlit("sort-albums-direction");
    assert("sort-albums-direction"@.len() == 21);
    reveal_strlit("sort-artists-by");
    assert("sort-artists-by"@.len() == 15);
    reveal_strlit("sort-artists-direction");
    assert("sort-artists-direction"@.len() == 22);
    reveal_strlit("sort-playlists-by");
    assert("sort-playlists-by"@.len() == 17);
    reveal_strlit("sort-playlists-direction");
    assert("sort-playlists-direction"@.len() == 24);
    reveal_strlit("playback-mode");
    assert("playback-mode"@.len() == 13);
    reveal_strlit("refresh-on-startup");
    assert("refresh-on-startup"@.len() == 18);
    reveal_strlit("playlist-shuffle-enabled");
    assert("playlist-shuffle-enabled"@.len() == 24);
    reveal_strlit("playlist-most-played-enabled");
    assert("playlist-most-played-enabled"@.len() == 28);
    reveal_strlit("playlist-favorites-enabled");
    assert("playlist-favorites-enabled"@.len() == 26);
    reveal_strlit("normalize-audio");
    assert("normalize-audio"@.len() == 15);
    reveal_strlit("gapless-playback");
    assert("gapless-playback"@.len() == 16);
    reveal_strlit("inhibit-suspend");
    assert("inhibit-suspend"@.len() == 15);
    reveal_strlit("compact-mode");
    assert("compact-mode"@.len() == 12);
    reveal_strlit("album-art-window-background");
    assert("album-art-window-background"@.len() == 27);
    assert("normalize-audio"@[0] != "inhibit-suspend"@[0]);
}

/// A kind of server that was put into the settings is read back from them.
pub proof fn law_backend_type_is_read_back(backend_type: BackendType)
    ensures
        BackendType::named(backend_type.name()) == backend_type,
{
    reveal_strlit("jellyfin");
    reveal_strlit("subsonic");
    assert("jellyfin"@[0] != "subsonic"@[0]);
}

/// A transcoding profile that the player offers is read back from the settings by its name.
pub proof fn law_profile_is_read_back(profile: TranscodingProfileView)
    requires
        profile == opus_mp4() || profile == aac_ts(),
    ensures
        profile_named(profile.name) == profile,
{
    reveal_strlit("OPUS+MP4");
    reveal_strlit("AAC+TS");
    assert("OPUS+MP4"@.len() != "AAC+TS"@.len());
}

/// After a log-out no user and no library is left, the kind of server is the default one, every
/// other setting is as it was, complete settings are still complete, and logging out once more
/// changes nothing.
pub proof fn law_logout(before: Settings, after: Settings)
    requires
        after@ == logged_out(before@),
    ensures
        backend_type(after) == BackendType::Jellyfin,
        after.has_text("user-id"@) && after.text_at("user-id"@) == Seq::<char>::empty(),
        after.has_text("subsonic-username"@) && after.text_at("subsonic-username"@) == Seq::<
            char,
        >::empty(),
        after.has_text("library-id"@) && after.text_at("library-id"@) == Seq::<char>::empty(),
        forall|key: Seq<char>| #![trigger after@[key]]
            key != "user-id"@ && key != "subsonic-username"@ && key != "library-id"@ && key
                != "backend-type"@ ==> after@.contains_key(key) == before@.contains_key(key)
                && after@[key] == before@[key],
        before.conforms() ==> after.conforms(),
        logged_out(after@) == after@,
{
    reveal_strlit("user-id");
    reveal_strlit("subsonic-username");
    reveal_strlit("library-id");
    reveal_strlit("backend-type");
    assert("user-id"@.len() == 7 && "subsonic-username"@.len() == 17 && "library-id"@.len() == 10
        && "backend-type"@.len() == 12);
    law_backend_type_is_read_back(BackendType::Jellyfin);
    assert(logged_out(after@) =~= after@);
}

/// The identifier of a client, once it has one, stays the same whatever is generated later.
pub proof fn law_client_id_stays(kept: Seq<char>, fresh: Seq<char>, later: Seq<char>)
    requires
        fresh.len() > 0,
    ensures
        client_id(kept, fresh).len() > 0,
        client_id(client_id(kept, fresh), later) == client_id(kept, fresh),
        kept.len() > 0 ==> client_id(kept, fresh) == kept,
        kept.len() == 0 ==> client_id(kept, fresh) == fresh,
{
}

/// The keyring tells users apart: two searches are the same only for the same kind of server, host
/// and user, so that a secret is found by those it was stored for and by no others.
pub proof fn law_credentials_are_kept_apart(
    backend: BackendType,
    host: Seq<char>,
    identifier: Seq<char>,
    other_backend: BackendType,
    other_host: Seq<char>,
    other_identifier: Seq<char>,
)
    ensures
        credential_attributes(backend, host, identifier) == credential_attributes(
            other_backend,
            other_host,
            other_identifier,
        ) <==> backend == other_backend && host == other_host && identifier == other_identifier,
{
    let a = credential_attributes(backend, host, identifier);
    let b = credential_attributes(other_backend, other_host, other_identifier);
    reveal_strlit("user-id");
    reveal_strlit("subsonic-username");
    if a == b {
        assert(a[0] == b[0]);
        assert(a[1] == b[1]);
        assert(backend.id_key_name().len() == other_backend.id_key_name().len());
    }
}

/// The kinds of server are called so, and any name but the second stands for the first. Each has a
/// key of its own for its user.
pub proof fn law_backend_types_are_named(
    kind: BackendType,
    name: &str,
    written: &'static str,
    read: BackendType,
    key: &'static str,
)
    requires
        call_ensures(BackendType::as_str, (kind,), written),
        call_ensures(BackendType::from_str, (name,), read),
        call_ensures(BackendType::id_key, (kind,), key),
    ensures
        kind == BackendType::Jellyfin ==> written@ == "jellyfin"@ && key@ == "user-id"@,
        kind == BackendType::Subsonic ==> written@ == "subsonic"@ && key@ == "subsonic-username"@,
        read == BackendType::Subsonic <==> name@ == "subsonic"@,
{
}

/// What the settings hold under a key is what is read there.
pub proof fn law_settings_are_read(
    settings: &Settings,
    key: &str,
    text: String,
    signed: i32,
    unsigned: u32,
    truth: bool,
    double: Real,
)
    requires
        call_ensures(Settings::read_text, (settings, key), text),
        call_ensures(Settings::read_int, (settings, key), signed),
        call_ensures(Settings::read_uint, (settings, key), unsigned),
        call_ensures(Settings::read_bool, (settings, key), truth),
        call_ensures(Settings::read_double, (settings, key), double),
    ensures
        settings@[key@] matches SettingView::Text(held) ==> text@ == held,
        settings@[key@] matches SettingView::Int(held) ==> signed == held,
        settings@[key@] matches SettingView::UInt(held) ==> unsigned == held,
        settings@[key@] matches SettingView::Bool(held) ==> truth == held,
        settings@[key@] matches SettingView::Double(held) ==> double == held,
{
}

/// The kind of server, the way of authentication and the profile are those that the settings name.
pub proof fn law_settings_name_what_is_used(
    settings: &Settings,
    backend: Seq<char>,
    mode: Seq<char>,
    name: Seq<char>,
    kind: BackendType,
    used: SubsonicAuthMode,
    profile: TranscodingProfile,
)
    requires
        call_ensures(get_backend_type, (settings,), kind),
        call_ensures(get_subsonic_auth_mode, (settings,), used),
        call_ensures(get_transcoding_profile, (settings,), profile),
        settings@["backend-type"@] == SettingView::Text(backend),
        settings@["subsonic-auth-mode"@] == SettingView::Text(mode),
        settings@["transcoding-profile"@] == SettingView::Text(name),
    ensures
        kind == BackendType::Subsonic <==> backend == "subsonic"@,
        used == SubsonicAuthMode::LegacyPassword <==> mode == "legacy-password"@,
        name == "AAC+TS"@ ==> profile.name@ == "AAC+TS"@ && profile.codec@ == "aac"@
            && profile.container@ == "ts"@,
        name != "AAC+TS"@ ==> profile.name@ == "OPUS+MP4"@ && profile.codec@ == "opus"@
            && profile.container@ == "mp4"@,
{
}

/// The largest bit rate is what the settings hold: in kilobits for Subsonic, and a thousand times
/// as much for Jellyfin as far as that can be counted. Zero is no limit.
pub proof fn law_bit_rate_is_limited(
    settings: &Settings,
    limit: i32,
    backend: Seq<char>,
    r: Option<i32>,
)
    requires
        call_ensures(get_max_bitrate, (settings,), r),
        settings@["max-bitrate"@] == SettingView::Int(limit),
        settings@["backend-type"@] == SettingView::Text(backend),
    ensures
        r is None <==> limit == 0,
        limit != 0 && backend == "subsonic"@ ==> r == Some(limit),
        limit != 0 && backend != "subsonic"@ && i32::MIN <= limit * 1000 <= i32::MAX ==> r->0
            == limit * 1000,
        limit != 0 && backend != "subsonic"@ && limit * 1000 > i32::MAX ==> r == Some(i32::MAX),
        limit != 0 && backend != "subsonic"@ && limit * 1000 < i32::MIN ==> r == Some(i32::MIN),
{
}

/// Whether attributes name a host and, under a key, a user.
pub open spec fn names_user(
    attributes: Seq<(String, String)>,
    host: Seq<char>,
    key: Seq<char>,
    user: Seq<char>,
) -> bool {
    &&& attributes.len() == 2
    &&& attributes[0].0@ == "host"@ && attributes[0].1@ == host
    &&& attributes[1].0@ == key && attributes[1].1@ == user
}

/// Attributes that hold a host and a user name them.
proof fn lemma_names_user(
    attributes: Vec<(String, String)>,
    kind: BackendType,
    host: Seq<char>,
    user: Seq<char>,
)
    requires
        attributes.deep_view() == credential_attributes(kind, host, user),
    ensures
        kind == BackendType::Jellyfin ==> names_user(attributes@, host, "user-id"@, user),
        kind == BackendType::Subsonic ==> names_user(attributes@, host, "subsonic-username"@, user),
{
    lemma_elements(attributes);
    assert(attributes.deep_view()[0] == attributes@[0].deep_view());
    assert(attributes.deep_view()[1] == attributes@[1].deep_view());
}

/// A secret is stored whole under the host and the user that it is for, and searched for by them.
pub proof fn law_secrets_are_stored_for_their_user(
    host: &str,
    user: &str,
    secret: &str,
    token: KeyringItem,
    password: KeyringItem,
    token_search: Vec<(String, String)>,
    password_search: Vec<(String, String)>,
)
    requires
        call_ensures(store_jellyfin_api_token, (host, user, secret), token),
        call_ensures(store_subsonic_password, (host, user, secret), password),
        call_ensures(retrieve_jellyfin_api_token, (host, user), token_search),
        call_ensures(retrieve_subsonic_password, (host, user), password_search),
    ensures
        token.secret@ == secret@,
        password.secret@ == secret@,
        names_user(token.attributes@, host@, "user-id"@, user@),
        names_user(token_search@, host@, "user-id"@, user@),
        names_user(password.attributes@, host@, "subsonic-username"@, user@),
        names_user(password_search@, host@, "subsonic-username"@, user@),
        token.label@ == "Jellyfin API Token"@,
        password.label@ == "Subsonic Password"@,
{
    lemma_names_user(token.attributes, BackendType::Jellyfin, host@, user@);
    lemma_names_user(token_search, BackendType::Jellyfin, host@, user@);
    lemma_names_user(password.attributes, BackendType::Subsonic, host@, user@);
    lemma_names_user(password_search, BackendType::Subsonic, host@, user@);
}

/// The credentials that are cleared are those of the user of that kind of server.
pub proof fn law_credentials_of_the_user_are_cleared(
    settings: &Settings,
    kind: BackendType,
    host: Seq<char>,
    user: Seq<char>,
    r: Vec<(String, String)>,
)
    requires
        call_ensures(clear_credentials, (settings, kind), r),
        settings@["hostname"@] == SettingView::Text(host),
        kind == BackendType::Jellyfin ==> settings@["user-id"@] == SettingView::Text(user),
        kind == BackendType::Subsonic ==> settings@["subsonic-username"@] == SettingView::Text(
            user,
        ),
    ensures
        kind == BackendType::Jellyfin ==> names_user(r@, host, "user-id"@, user),
        kind == BackendType::Subsonic ==> names_user(r@, host, "subsonic-username"@, user),
{
    lemma_names_user(r, kind, host, user);
}

/// A secret that was found is given back as the text that it is, and nothing is where none was.
pub proof fn law_secrets_are_given_back(
    found: Result<Option<Vec<u8>>, String>,
    secret: Seq<char>,
    r: Option<String>,
)
    requires
        call_ensures(retrieve_credentials, (found,), r),
    ensures
        r is Some <==> found is Ok && found->Ok_0 is Some,
        found is Ok && found->Ok_0 is Some && found->Ok_0->0@ == vstd::utf8::encode_utf8(secret)
            ==> r->0@ == secret,
{
    vstd::utf8::encode_utf8_decode_utf8(secret);
    vstd::utf8::encode_utf8_valid_utf8(secret);
}

/// The names of the profiles are offered in their order.
pub proof fn law_profiles_are_offered(r: Vec<&'static str>)
    requires
        call_ensures(TranscodingProfile::as_string_list, (), r),
    ensures
        r@.len() == 2,
        r@[0]@ == "OPUS+MP4"@,
        r@[1]@ == "AAC+TS"@,
{
    lemma_elements(r);
    assert(r.deep_view()[0] == r@[0].deep_view());
    assert(r.deep_view()[1] == r@[1].deep_view());
}

/// Every switch is the one that the settings hold under its key.
pub proof fn law_switches_are_read(
    settings: &Settings,
    refresh: bool,
    shuffle: bool,
    most_played: bool,
    favorites: bool,
    normalize: bool,
    gapless: bool,
    awake: bool,
    compact: bool,
    background: bool,
)
    requires
        call_ensures(get_refresh_on_startup, (settings,), refresh),
        call_ensures(get_playlist_shuffle_enabled, (settings,), shuffle),
        call_ensures(get_playlist_most_played_enabled, (settings,), most_played),
        call_ensures(get_playlist_favorites_enabled, (settings,), favorites),
        call_ensures(get_normalize_audio_enabled, (settings,), normalize),
        call_ensures(get_gapless_playback_enabled, (settings,), gapless),
        call_ensures(get_inhibit_suspend_enabled, (settings,), awake),
        call_ensures(get_compact_mode_enabled, (settings,), compact),
        call_ensures(get_album_art_window_background_enabled, (settings,), background),
    ensures
        settings@["refresh-on-startup"@] matches SettingView::Bool(held) ==> refresh == held,
        settings@["playlist-shuffle-enabled"@] matches SettingView::Bool(held) ==> shuffle == held,
        settings@["playlist-most-played-enabled"@] matches SettingView::Bool(held)
            ==> most_played == held,
        settings@["playlist-favorites-enabled"@] matches SettingView::Bool(held)
            ==> favorites == held,
        settings@["normalize-audio"@] matches SettingView::Bool(held) ==> normalize == held,
        settings@["gapless-playback"@] matches SettingView::Bool(held) ==> gapless == held,
        settings@["inhibit-suspend"@] matches SettingView::Bool(held) ==> awake == held,
        settings@["compact-mode"@] matches SettingView::Bool(held) ==> compact == held,
        settings@["album-art-window-background"@] matches SettingView::Bool(held)
            ==> background == held,
{
}

/// Every number is the one that the settings hold under its key.
pub proof fn law_numbers_are_read(
    settings: &Settings,
    albums_by: u32,
    albums_direction: u32,
    artists_by: u32,
    artists_direction: u32,
    playlists_by: u32,
    playlists_direction: u32,
    mode: u32,
)
    requires
        call_ensures(get_albums_sort_by, (settings,), albums_by),
        call_ensures(get_albums_sort_direction, (settings,), albums_direction),
        call_ensures(get_artists_sort_by, (settings,), artists_by),
        call_ensures(get_artists_sort_direction, (settings,), artists_direction),
        call_ensures(get_playlists_sort_by, (settings,), playlists_by),
        call_ensures(get_playlists_sort_direction, (settings,), playlists_direction),
        call_ensures(get_playback_mode, (settings,), mode),
    ensures
        settings@["sort-albums-by"@] matches SettingView::UInt(held) ==> albums_by == held,
        settings@["sort-albums-direction"@] matches SettingView::UInt(held)
            ==> albums_direction == held,
        settings@["sort-artists-by"@] matches SettingView::UInt(held) ==> artists_by == held,
        settings@["sort-artists-direction"@] matches SettingView::UInt(held)
            ==> artists_direction == held,
        settings@["sort-playlists-by"@] matches SettingView::UInt(held) ==> playlists_by == held,
        settings@["sort-playlists-direction"@] matches SettingView::UInt(held)
            ==> playlists_direction == held,
        settings@["playback-mode"@] matches SettingView::UInt(held) ==> mode == held,
{
}

/// The volume is the one that the settings hold.
pub proof fn law_volume_is_read(
    settings: &Settings,
    volume: Real,
)
    requires
        call_ensures(get_volume, (settings,), volume),
    ensures
        settings@["volume"@] matches SettingView::Double(held) ==> volume == held,
{
}

/// Settings are complete exactly where every key of the player holds a value of its kind.
pub proof fn law_complete_settings(settings: Settings)
    ensures
        settings.conforms() <==> {
            &&& forall|i: int|
                0 <= i < text_keys().len() ==> settings@.contains_key(#[trigger] text_keys()[i])
                    && settings@[text_keys()[i]] is Text
            &&& forall|i: int|
                0 <= i < uint_keys().len() ==> settings@.contains_key(#[trigger] uint_keys()[i])
                    && settings@[uint_keys()[i]] is UInt
            &&& forall|i: int|
                0 <= i < bool_keys().len() ==> settings@.contains_key(#[trigger] bool_keys()[i])
                    && settings@[bool_keys()[i]] is Bool
            &&& settings@.contains_key("max-bitrate"@) && settings@["max-bitrate"@] is Int
            &&& settings@.contains_key("volume"@) && settings@["volume"@] is Double
        },
        text_keys().len() == 8 && uint_keys().len() == 7 && bool_keys().len() == 9,
{
    let t = text_keys();
    let u = uint_keys();
    let b = bool_keys();
    assert(t[0] == "backend-type"@ && t[1] == "hostname"@ && t[2] == "user-id"@ && t[3]
        == "subsonic-username"@ && t[4] == "library-id"@ && t[5] == "uuid"@ && t[6]
        == "subsonic-auth-mode"@ && t[7] == "transcoding-profile"@);
    assert(u[0] == "sort-albums-by"@ && u[1] == "sort-albums-direction"@ && u[2]
        == "sort-artists-by"@ && u[3] == "sort-artists-direction"@ && u[4] == "sort-playlists-by"@
        && u[5] == "sort-playlists-direction"@ && u[6] == "playback-mode"@);
    assert(b[0] == "refresh-on-startup"@ && b[1] == "playlist-shuffle-enabled"@ && b[2]
        == "playlist-most-played-enabled"@ && b[3] == "playlist-favorites-enabled"@ && b[4]
        == "normalize-audio"@ && b[5] == "gapless-playback"@ && b[6] == "inhibit-suspend"@ && b[7]
        == "compact-mode"@ && b[8] == "album-art-window-background"@);
}

/// A key holds a value of a kind exactly where the settings have that key with such a value.
pub proof fn law_kinds_of_values(settings: Settings, key: Seq<char>)
    ensures
        settings.has_text(key) <==> settings@.contains_key(key) && settings@[key] is Text,
        settings.has_int(key) <==> settings@.contains_key(key) && settings@[key] is Int,
        settings.has_uint(key) <==> settings@.contains_key(key) && settings@[key] is UInt,
        settings.has_bool(key) <==> settings@.contains_key(key) && settings@[key] is Bool,
        settings.has_double(key) <==> settings@.contains_key(key) && settings@[key] is Double,
{
}

} // verus!
