//! Nostr events and profiles, as the JSON of the Primal API carries them.
use vstd::prelude::*;

verus! {

/// The kind of an event whose content is the profile of its author.
pub const KIND_METADATA: u16 = 0;

/// The kind of an event whose content is an encrypted direct message.
pub const KIND_ENCRYPTED_DIRECT_MESSAGE: u16 = 4;

/// A Nostr event. Its id, its author's key and its signature are held in hexadecimal.
#[derive(Debug, PartialEq, Eq)]
pub struct NostrEvent {
    pub id: String,
    pub pubkey: String,
    pub created_at: u64,
    pub kind: u16,
    pub tags: Vec<Vec<String>>,
    pub content: String,
    pub sig: String,
}

/// What an event says, apart from how it is held.
pub struct NostrEventView {
    pub id: Seq<char>,
    pub pubkey: Seq<char>,
    pub created_at: u64,
    pub kind: u16,
    pub tags: Seq<Seq<Seq<char>>>,
    pub content: Seq<char>,
    pub sig: Seq<char>,
}

/// The texts that strings hold.
pub open spec fn texts(strings: Seq<String>) -> Seq<Seq<char>> {
    Seq::new(strings.len(), |i: int| strings[i]@)
}

impl View for NostrEvent {
    type V = NostrEventView;

    open spec fn view(&self) -> NostrEventView {
        NostrEventView {
            id: self.id@,
            pubkey: self.pubkey@,
            created_at: self.created_at,
            kind: self.kind,
            tags: Seq::new(self.tags@.len(), |i: int| texts(self.tags@[i]@)),
            content: self.content@,
            sig: self.sig@,
        }
    }
}

/// The profile of a Nostr user.
#[derive(Debug, PartialEq, Eq)]
pub struct Metadata {
    pub name: Option<String>,
    pub display_name: Option<String>,
    pub about: Option<String>,
    pub website: Option<String>,
    pub picture: Option<String>,
    pub banner: Option<String>,
    pub nip05: Option<String>,
    pub lud06: Option<String>,
    pub lud16: Option<String>,
    /// Every other field, as the text of a JSON object.
    pub custom: String,
}

/// What a profile says, apart from how it is held.
pub struct MetadataView {
    pub name: Option<Seq<char>>,
    pub display_name: Option<Seq<char>>,
    pub about: Option<Seq<char>>,
    pub website: Option<Seq<char>>,
    pub picture: Option<Seq<char>>,
    pub banner: Option<Seq<char>>,
    pub nip05: Option<Seq<char>>,
    pub lud06: Option<Seq<char>>,
    pub lud16: Option<Seq<char>>,
    pub custom: Seq<char>,
}

/// The text of an optional string.
pub open spec fn text_of(string: Option<String>) -> Option<Seq<char>> {
    match string {
        Some(string) => Some(string@),
        None => None,
    }
}

impl View for Metadata {
    type V = MetadataView;

    open spec fn view(&self) -> MetadataView {
        MetadataView {
            name: text_of(self.name),
            display_name: text_of(self.display_name),
            about: text_of(self.about),
            website: text_of(self.website),
            picture: text_of(self.picture),
            banner: text_of(self.banner),
            nip05: text_of(self.nip05),
            lud06: text_of(self.lud06),
            lud16: text_of(self.lud16),
            custom: self.custom@,
        }
    }
}

/// The error that reading JSON gives.
#[verifier::external_type_specification]
#[verifier::external_body]
pub struct ExJsonError(serde_json::Error);

/// The elements of the JSON array that `json` is, each as the text that `serde_json` writes for
/// it; nothing where `json` is no JSON array.
pub uninterp spec fn json_array(json: Seq<u8>) -> Option<Seq<Seq<char>>>;

/// The event that a JSON text is; nothing where it is none.
pub uninterp spec fn event_of_json(json: Seq<char>) -> Option<NostrEventView>;

/// The profile that a JSON text is; nothing where it is none.
pub uninterp spec fn metadata_of_json(json: Seq<char>) -> Option<MetadataView>;

/// Calls `serde_json::from_slice` for an array of `serde_json::Value`, and takes each element by
/// its text.
///
/// Claimed is only that the bytes decide what comes out, under the name `json_array`.
#[verifier::external_body]
pub(crate) fn read_array(json: &Vec<u8>) -> (items: Result<Vec<String>, serde_json::Error>)
    ensures
        match items {
            Ok(items) => json_array(json@) == Some(texts(items@)),
            Err(_) => json_array(json@) is None,
        },
{
    let values: Vec<serde_json::Value> = serde_json::from_slice(json)?;
    Ok(values.iter().map(|value| value.to_string()).collect())
}

/// Calls `serde_json::from_str` for a `nostr::Event`, which checks the form of the event and not
/// its signature.
///
/// Claimed is only that the text decides what comes out, under the name `event_of_json`.
#[verifier::external_body]
pub(crate) fn read_event(json: &String) -> (event: Result<NostrEvent, serde_json::Error>)
    ensures
        match event {
            Ok(event) => event_of_json(json@) == Some(event@),
            Err(_) => event_of_json(json@) is None,
        },
{
    let event: nostr::Event = serde_json::from_str(json)?;
    Ok(NostrEvent {
        id: event.id.to_hex(),
        pubkey: event.pubkey.to_hex(),
        created_at: event.created_at.as_u64(),
        kind: event.kind.as_u16(),
        tags: event.tags.to_vec().into_iter().map(|tag| tag.to_vec()).collect(),
        content: event.content,
        sig: event.sig.to_string(),
    })
}

/// Calls `serde_json::from_str` for a `nostr::Metadata`. The fields that the profile does not
/// name are taken together as one JSON object, whose text `serde_json` writes with its names in
/// order.
///
/// Claimed is only that the text decides what comes out, under the name `metadata_of_json`.
#[verifier::external_body]
pub(crate) fn read_metadata(json: &String) -> (metadata: Result<Metadata, serde_json::Error>)
    ensures
        match metadata {
            Ok(metadata) => metadata_of_json(json@) == Some(metadata@),
            Err(_) => metadata_of_json(json@) is None,
        },
{
    let nostr::Metadata {
        name, display_name, about, website, picture, banner, nip05, lud06, lud16, custom,
    } = serde_json::from_str(json)?;
    let custom = serde_json::Value::from_iter(custom).to_string();
    Ok(Metadata {
        name, display_name, about, website, picture, banner, nip05, lud06, lud16, custom,
    })
}

/// What an event says is what its fields hold.
pub proof fn law_event_says_its_fields(event: NostrEvent)
    ensures
        event@.id == event.id@,
        event@.pubkey == event.pubkey@,
        event@.created_at == event.created_at,
        event@.kind == event.kind,
        event@.tags.len() == event.tags@.len(),
        forall|i: int|
            0 <= i < event.tags@.len() ==> (#[trigger] event@.tags[i]).len()
                == event.tags@[i]@.len(),
        forall|i: int, k: int|
            0 <= i < event.tags@.len() && 0 <= k < event.tags@[i]@.len()
                ==> #[trigger] event@.tags[i][k] == event.tags@[i]@[k]@,
        event@.content == event.content@,
        event@.sig == event.sig@,
{
}

/// What a profile says is what its fields hold.
pub proof fn law_profile_says_its_fields(metadata: Metadata)
    ensures
        metadata.name is Some <==> metadata@.name is Some,
        metadata.name is Some ==> metadata@.name->0 == metadata.name->0@,
        metadata.display_name is Some <==> metadata@.display_name is Some,
        metadata.display_name is Some ==> metadata@.display_name->0 == metadata.display_name->0@,
        metadata.about is Some <==> metadata@.about is Some,
        metadata.about is Some ==> metadata@.about->0 == metadata.about->0@,
        metadata.website is Some <==> metadata@.website is Some,
        metadata.website is Some ==> metadata@.website->0 == metadata.website->0@,
        metadata.picture is Some <==> metadata@.picture is Some,
        metadata.picture is Some ==> metadata@.picture->0 == metadata.picture->0@,
        metadata.banner is Some <==> metadata@.banner is Some,
        metadata.banner is Some ==> metadata@.banner->0 == metadata.banner->0@,
        metadata.nip05 is Some <==> metadata@.nip05 is Some,
        metadata.nip05 is Some ==> metadata@.nip05->0 == metadata.nip05->0@,
        metadata.lud06 is Some <==> metadata@.lud06 is Some,
        metadata.lud06 is Some ==> metadata@.lud06->0 == metadata.lud06->0@,
        metadata.lud16 is Some <==> metadata@.lud16 is Some,
        metadata.lud16 is Some ==> metadata@.lud16->0 == metadata.lud16->0@,
        metadata@.custom == metadata.custom@,
{
}

} // verus!
