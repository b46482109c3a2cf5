//! A client of the Primal API.
//!
//! A query has two parts. One of the `.._request` functions says what to send; once the answer is
//! there, or sending has failed, the function named after the query reads it.
use vstd::prelude::*;

use crate::hex::{hex, to_hex};
use crate::json::JsonView;
use crate::nostr_event::{
    event_of_json, json_array, metadata_of_json, read_array, read_event, read_metadata, texts,
    Metadata, MetadataView, NostrEvent, NostrEventView, KIND_ENCRYPTED_DIRECT_MESSAGE,
    KIND_METADATA,
};

verus! {

/// What can go wrong with a query.
#[derive(Clone, Copy, Debug, PartialEq, Eq, Structural)]
pub enum MutinyError {
    /// The API did not answer, or not as it should.
    NostrError,
}

/// The value of a parameter.
#[derive(Debug, PartialEq, Eq)]
pub enum ParamValue {
    Text(String),
    Number(u64),
    Texts(Vec<String>),
}

/// A named parameter of a request.
#[derive(Debug, PartialEq, Eq)]
pub struct Param {
    pub name: String,
    pub value: ParamValue,
}

/// What is asked of the API: a verb with parameters.
#[derive(Debug, PartialEq, Eq)]
pub struct Request {
    pub verb: String,
    pub params: Vec<Param>,
}

/// A parameter's value, apart from how it is held.
pub enum ParamView {
    Text(Seq<char>),
    Number(u64),
    Texts(Seq<Seq<char>>),
}

impl View for ParamValue {
    type V = ParamView;

    open spec fn view(&self) -> ParamView {
        match self {
            ParamValue::Text(text) => ParamView::Text(text@),
            ParamValue::Number(n) => ParamView::Number(*n),
            ParamValue::Texts(strings) => ParamView::Texts(texts(strings@)),
        }
    }
}

/// A request, apart from how it is held.
#[verifier::ext_equal]
pub struct RequestView {
    pub verb: Seq<char>,
    pub params: Seq<(Seq<char>, ParamView)>,
}

impl View for Request {
    type V = RequestView;

    open spec fn view(&self) -> RequestView {
        RequestView {
            verb: self.verb@,
            params: params_view(self.params@),
        }
    }
}

/// The JSON value of a parameter: a string, a number or an array of strings.
pub open spec fn param_json(value: ParamView) -> JsonView {
    match value {
        ParamView::Text(text) => JsonView::Text(text),
        ParamView::Number(n) => JsonView::Unsigned(n),
        ParamView::Texts(texts) => JsonView::List(
            texts.map_values(|text: Seq<char>| JsonView::Text(text)),
        ),
    }
}

/// The JSON object of the parameters.
pub open spec fn params_json(params: Seq<(Seq<char>, ParamView)>) -> JsonView {
    JsonView::Object(params.map_values(|p: (Seq<char>, ParamView)| (p.0, param_json(p.1))))
}

/// The JSON array that a request is sent as: the verb, and then the object of the parameters.
pub open spec fn request_json(request: RequestView) -> JsonView {
    JsonView::List(seq![JsonView::Text(request.verb), params_json(request.params)])
}

/// The parameters, apart from how they are held.
pub open spec fn params_view(params: Seq<Param>) -> Seq<(Seq<char>, ParamView)> {
    Seq::new(params.len(), |i: int| (params[i].name@, params[i].value@))
}

/// An element of a JSON array: a string, or an object of parameters.
enum Element<'a> {
    Text(&'a String),
    Object(&'a Vec<Param>),
}

impl View for Element<'_> {
    type V = JsonView;

    closed spec fn view(&self) -> JsonView {
        match self {
            Element::Text(text) => JsonView::Text(text@),
            Element::Object(params) => params_json(params_view(params@)),
        }
    }
}

/// The compact text that `serde_json` writes for a JSON value.
pub uninterp spec fn json_text(json: JsonView) -> Seq<char>;

/// Calls `to_string` of the `serde_json::Value` that is the array of the elements.
///
/// Claimed is only that the JSON value decides the text, under the name `json_text`.
#[verifier::external_body]
fn write_array(elements: &Vec<Element>) -> (text: String)
    ensures
        text@ == json_text(JsonView::List(elements@.map_values(|e: Element| e@))),
{
    let values = elements.iter().map(|element| match element {
        Element::Text(text) => serde_json::Value::from(text.as_str()),
        Element::Object(params) => serde_json::Value::Object(params.iter().map(|param| {
            let value = match &param.value {
                ParamValue::Text(text) => serde_json::Value::from(text.as_str()),
                ParamValue::Number(n) => serde_json::Value::from(*n),
                ParamValue::Texts(texts) => serde_json::Value::from(texts.clone()),
            };
            (param.name.clone(), value)
        }).collect()),
    });
    serde_json::Value::Array(values.collect()).to_string()
}

/// A message to send with the method POST.
#[derive(Debug, PartialEq, Eq)]
pub struct Post {
    pub url: String,
    /// The value of the header `Content-Type`.
    pub content_type: String,
    pub body: String,
}

/// The parameter `name` with the key in hexadecimal.
pub open spec fn key_param(name: Seq<char>, key: Seq<u8>) -> (Seq<char>, ParamView) {
    (name, ParamView::Text(hex(key)))
}

/// The request for the profile of a user.
pub open spec fn user_profile(npub: Seq<u8>) -> RequestView {
    RequestView { verb: "user_profile"@, params: seq![key_param("pubkey"@, npub)] }
}

/// The keys in hexadecimal.
pub open spec fn hex_all(npubs: Seq<[u8; 32]>) -> Seq<Seq<char>> {
    Seq::new(npubs.len(), |i: int| hex(npubs[i]@))
}

/// The request for the profiles of several users.
pub open spec fn user_infos(npubs: Seq<[u8; 32]>) -> RequestView {
    RequestView {
        verb: "user_infos"@,
        params: seq![("pubkeys"@, ParamView::Texts(hex_all(npubs)))],
    }
}

/// The request for the profiles of a user's contacts.
pub open spec fn contact_list(npub: Seq<u8>) -> RequestView {
    RequestView { verb: "contact_list"@, params: seq![key_param("pubkey"@, npub)] }
}

/// The times that bound a conversation. One without bounds is asked for from the beginning.
pub open spec fn time_params(until: Option<u64>, since: Option<u64>) -> Seq<
    (Seq<char>, ParamView),
> {
    match (until, since) {
        (Some(until), Some(since)) => seq![
            ("until"@, ParamView::Number(until)),
            ("since"@, ParamView::Number(since)),
        ],
        (None, Some(since)) => seq![("since"@, ParamView::Number(since))],
        (Some(until), None) => seq![("until"@, ParamView::Number(until))],
        (None, None) => seq![("since"@, ParamView::Number(0))],
    }
}

/// The request for the messages between two users.
pub open spec fn directmsgs(
    npub1: Seq<u8>,
    npub2: Seq<u8>,
    limit: u64,
    until: Option<u64>,
    since: Option<u64>,
) -> RequestView {
    RequestView {
        verb: "get_directmsgs"@,
        params: seq![
            key_param("sender"@, npub1),
            key_param("receiver"@, npub2),
            ("limit"@, ParamView::Number(limit)),
        ] + time_params(until, since),
    }
}

/// The values that an answer holds: the elements of its array, or an error where sending failed or
/// the answer is no array.
pub open spec fn reply_values(reply: Option<Seq<u8>>) -> Result<Seq<Seq<char>>, MutinyError> {
    match reply {
        Some(json) => match json_array(json) {
            Some(values) => Ok(values),
            None => Err(MutinyError::NostrError),
        },
        None => Err(MutinyError::NostrError),
    }
}

/// The profile that the values of an answer give. The first value decides: it has to be an event,
/// and if the event is a profile, its content has to be one.
pub open spec fn profile_in(values: Seq<Seq<char>>) -> Result<Option<MetadataView>, MutinyError> {
    if values.len() == 0 {
        Ok(None)
    } else {
        match event_of_json(values[0]) {
            None => Err(MutinyError::NostrError),
            Some(event) => if event.kind != KIND_METADATA {
                Ok(None)
            } else {
                match metadata_of_json(event.content) {
                    None => Err(MutinyError::NostrError),
                    Some(metadata) => Ok(Some(metadata)),
                }
            },
        }
    }
}

/// Whether `profiles` is what reading an answer with profiles can give: what `parse` can make of
/// the values of the answer, or the error where the answer has none.
pub open spec fn profiles_read<Profiles, Parse: FnOnce(Vec<String>) -> Profiles>(
    reply: Option<Seq<u8>>,
    parse: Parse,
    profiles: Result<Profiles, MutinyError>,
) -> bool {
    match profiles {
        Ok(profiles) => exists|values: Vec<String>|
            reply_values(reply) == Ok::<_, MutinyError>(#[trigger] texts(values@)) && call_ensures(
                parse,
                (values,),
                profiles,
            ),
        Err(error) => reply_values(reply) == Err::<Seq<Seq<char>>, _>(error),
    }
}

/// The direct message that a value is, if it is one.
pub open spec fn message_in(value: Seq<char>) -> Option<NostrEventView> {
    match event_of_json(value) {
        Some(event) => if event.kind == KIND_ENCRYPTED_DIRECT_MESSAGE {
            Some(event)
        } else {
            None
        },
        None => None,
    }
}

/// The direct messages among the values, in their order.
pub open spec fn conversation_in(values: Seq<Seq<char>>) -> Seq<NostrEventView> {
    values.filter_map(|value: Seq<char>| message_in(value))
}

/// The events, apart from how they are held.
pub open spec fn events_view(events: Seq<NostrEvent>) -> Seq<NostrEventView> {
    Seq::new(events.len(), |i: int| events[i]@)
}

/// Whether `profile` is what reading the answer to a query for a profile gives.
pub open spec fn profile_read(
    reply: Option<Seq<u8>>,
    profile: Result<Option<Metadata>, MutinyError>,
) -> bool {
    match (profile, reply_values(reply)) {
        (Err(error), Err(expected)) => error == expected,
        (Err(error), Ok(values)) => profile_in(values) == Err::<Option<MetadataView>, _>(error),
        (Ok(None), Ok(values)) => profile_in(values) == Ok::<_, MutinyError>(None::<MetadataView>),
        (Ok(Some(metadata)), Ok(values)) => profile_in(values) == Ok::<_, MutinyError>(
            Some(metadata@),
        ),
        _ => false,
    }
}

/// Whether `messages` is what reading the answer to a query for a conversation gives.
pub open spec fn conversation_read(
    reply: Option<Seq<u8>>,
    messages: Result<Vec<NostrEvent>, MutinyError>,
) -> bool {
    match (messages, reply_values(reply)) {
        (Err(error), Err(expected)) => error == expected,
        (Ok(messages), Ok(values)) => events_view(messages@) == conversation_in(values),
        _ => false,
    }
}

/// The bytes of an answer.
pub open spec fn reply_view(reply: Option<Vec<u8>>) -> Option<Seq<u8>> {
    match reply {
        Some(json) => Some(json@),
        None => None,
    }
}

/// The event, if it is a direct message.
pub open spec fn kept_message(event: Option<NostrEvent>) -> Option<NostrEvent> {
    match event {
        Some(event) => if event.kind == KIND_ENCRYPTED_DIRECT_MESSAGE {
            Some(event)
        } else {
            None
        },
        None => None,
    }
}

/// A client of the API at one address.
#[derive(Debug)]
pub struct PrimalClient {
    api_url: String,
}

impl Clone for PrimalClient {
    /// A client of the API at the same address.
    fn clone(&self) -> (client: PrimalClient)
        ensures
            client.url() == self.url(),
    {
        PrimalClient { api_url: self.api_url.clone() }
    }
}

/// Makes the parameter `name` with the key in hexadecimal.
fn write_key_param(name: &str, key: &[u8; 32]) -> (param: Param)
    ensures
        (param.name@, param.value@) == key_param(name@, key@),
{
    Param { name: name.to_owned(), value: ParamValue::Text(to_hex(key.as_slice())) }
}

/// Makes the parameter `name` with a number.
fn write_number_param(name: &str, n: u64) -> (param: Param)
    ensures
        param.name@ == name@,
        param.value@ == ParamView::Number(n),
{
    Param { name: name.to_owned(), value: ParamValue::Number(n) }
}

impl PrimalClient {
    /// The address of the API.
    pub closed spec fn url(&self) -> Seq<char> {
        self.api_url@
    }

    /// A client of the API at this address.
    pub fn new(api_url: String) -> (client: PrimalClient)
        ensures
            client.url() == api_url@,
    {
        PrimalClient { api_url }
    }

    /// The message that carries a request to the API.
    pub fn primal_request(&self, request: &Request) -> (post: Post)
        ensures
            post.url@ == self.url(),
            post.content_type@ == "application/json"@,
            post.body@ == json_text(request_json(request@)),
    {
        let elements = vec![Element::Text(&request.verb), Element::Object(&request.params)];
        assert(elements@.map_values(|e: Element| e@) =~= request_json(request@)->List_0);
        Post {
            url: self.api_url.clone(),
            content_type: "application/json".to_owned(),
            body: write_array(&elements),
        }
    }

    /// Asks for the profile of a user.
    pub fn user_profile_request(npub: &[u8; 32]) -> (request: Request)
        ensures
            request@ == user_profile(npub@),
            request.verb@ == "user_profile"@,
            request.params@.len() == 1,
            request.params@[0].name@ == "pubkey"@,
            request.params@[0].value matches ParamValue::Text(text) && text@ == hex(npub@),
    {
        let params = vec![write_key_param("pubkey", npub)];
        let request = Request { verb: "user_profile".to_owned(), params };
        assert(request@ =~= user_profile(npub@));
        request
    }

    /// Asks for the profiles of several users.
    pub fn user_profiles_request(npubs: &Vec<[u8; 32]>) -> (request: Request)
        ensures
            request@ == user_infos(npubs@),
            request.verb@ == "user_infos"@,
            request.params@.len() == 1,
            request.params@[0].name@ == "pubkeys"@,
            request.params@[0].value matches ParamValue::Texts(keys) && keys@.len() == npubs@.len()
                && forall|i: int|
                0 <= i < npubs@.len() ==> (#[trigger] keys@[i])@ == hex(npubs@[i]@),
    {
        let mut keys: Vec<String> = Vec::new();
        let mut i: usize = 0;
        while i < npubs.len()
            invariant
                i <= npubs@.len(),
                keys@.len() == i,
                forall|j: int| 0 <= j < i ==> (#[trigger] keys@[j])@ == hex(npubs@[j]@),
            decreases npubs@.len() - i,
        {
            keys.push(to_hex(npubs[i].as_slice()));
            i = i + 1;
        }
        assert(texts(keys@) =~= hex_all(npubs@));
        let params = vec![Param { name: "pubkeys".to_owned(), value: ParamValue::Texts(keys) }];
        let request = Request { verb: "user_infos".to_owned(), params };
        assert(request@ =~= user_infos(npubs@));
        request
    }

    /// Asks for the profiles of a user's contacts.
    pub fn nostr_contacts_request(npub: &[u8; 32]) -> (request: Request)
        ensures
            request@ == contact_list(npub@),
            request.verb@ == "contact_list"@,
            request.params@.len() == 1,
            request.params@[0].name@ == "pubkey"@,
            request.params@[0].value matches ParamValue::Text(text) && text@ == hex(npub@),
    {
        let params = vec![write_key_param("pubkey", npub)];
        let request = Request { verb: "contact_list".to_owned(), params };
        assert(request@ =~= contact_list(npub@));
        request
    }

    /// Asks for the messages between two users.
    ///
    /// The API has a sender and a receiver, but gives the whole conversation all the same.
    pub fn dm_conversation_request(
        npub1: &[u8; 32],
        npub2: &[u8; 32],
        limit: u64,
        until: Option<u64>,
        since: Option<u64>,
    ) -> (request: Request)
        ensures
            request@ == directmsgs(npub1@, npub2@, limit, until, since),
            request.verb@ == "get_directmsgs"@,
            request.params@.len() == if until is Some && since is Some {
                5int
            } else {
                4int
            },
            request.params@[0].name@ == "sender"@,
            request.params@[0].value matches ParamValue::Text(text) && text@ == hex(npub1@),
            request.params@[1].name@ == "receiver"@,
            request.params@[1].value matches ParamValue::Text(text) && text@ == hex(npub2@),
            request.params@[2].name@ == "limit"@,
            request.params@[2].value == ParamValue::Number(limit),
            until is Some ==> request.params@[3].name@ == "until"@ && request.params@[3].value
                == ParamValue::Number(until->0),
            since is Some ==> request.params@.last().name@ == "since"@
                && request.params@.last().value == ParamValue::Number(since->0),
            until is None && since is None ==> request.params@[3].name@ == "since"@
                && request.params@[3].value == ParamValue::Number(0),
    {
        let mut params = vec![
            write_key_param("sender", npub1),
            write_key_param("receiver", npub2),
            write_number_param("limit", limit),
        ];
        match (until, since) {
            (Some(until), Some(since)) => {
                params.push(write_number_param("until", until));
                params.push(write_number_param("since", since));
            },
            (None, Some(since)) => {
                params.push(write_number_param("since", since));
            },
            (Some(until), None) => {
                params.push(write_number_param("until", until));
            },
            (None, None) => {
                params.push(write_number_param("since", 0));
            },
        }
        let request = Request { verb: "get_directmsgs".to_owned(), params };
        assert(request@ =~= directmsgs(npub1@, npub2@, limit, until, since));
        request
    }

    /// Takes an answer apart into its values, each as a JSON text.
    pub fn reply_values(reply: Option<Vec<u8>>) -> (values: Result<Vec<String>, MutinyError>)
        ensures
            match values {
                Ok(values) => reply_values(reply_view(reply)) == Ok::<_, MutinyError>(
                    texts(values@),
                ),
                Err(error) => reply_values(reply_view(reply)) == Err::<Seq<Seq<char>>, _>(error),
            },
            reply is None ==> values is Err,
            reply is Some ==> match json_array(reply->0@) {
                Some(elements) => values is Ok && texts(values->Ok_0@) == elements,
                None => values is Err,
            },
    {
        match reply {
            Some(json) => match read_array(&json) {
                Ok(values) => Ok(values),
                Err(_) => Err(MutinyError::NostrError),
            },
            None => Err(MutinyError::NostrError),
        }
    }

    /// The content of the event that should hold a profile: an error where the value could not be
    /// read as an event, and nothing where the event is something else than a profile.
    pub fn profile_content(event: Option<NostrEvent>) -> (content: Result<
        Option<String>,
        MutinyError,
    >)
        ensures
            content == match event {
                None => Err(MutinyError::NostrError),
                Some(event) => if event.kind == KIND_METADATA {
                    Ok(Some(event.content))
                } else {
                    Ok(None)
                },
            },
    {
        match event {
            None => Err(MutinyError::NostrError),
            Some(event) => if event.kind != KIND_METADATA {
                Ok(None)
            } else {
                Ok(Some(event.content))
            },
        }
    }

    /// The direct messages among the events that could be read, in their order.
    pub fn direct_messages(events: Vec<Option<NostrEvent>>) -> (messages: Vec<NostrEvent>)
        ensures
            messages@ == events@.filter_map(|event: Option<NostrEvent>| kept_message(event)),
    {
        let ghost kept = |event: Option<NostrEvent>| kept_message(event);
        let ghost all = events@;
        let mut messages: Vec<NostrEvent> = Vec::new();
        assert(messages@ =~= all.take(0).filter_map(kept));
        for event in iter: events
            invariant
                iter.seq() == all,
                kept == (|event: Option<NostrEvent>| kept_message(event)),
                messages@ == all.take(iter.index()).filter_map(kept),
        {
            proof {
                let i = iter.index();
                assert(all.take(i + 1).drop_last() =~= all.take(i));
                assert(all.take(i + 1).last() == event);
            }
            let ghost before = messages@;
            match event {
                Some(event) => {
                    if event.kind == KIND_ENCRYPTED_DIRECT_MESSAGE {
                        messages.push(event);
                        assert(messages@ =~= before + seq![event]);
                    }
                },
                None => {},
            }
        }
        assert(all.take(all.len() as int) =~= all);
        messages
    }

    /// Reads the answer to `user_profile_request`.
    pub fn get_user_profile(reply: Option<Vec<u8>>) -> (profile: Result<
        Option<Metadata>,
        MutinyError,
    >)
        ensures
            profile_read(reply_view(reply), profile),
    {
        let values = match PrimalClient::reply_values(reply) {
            Ok(values) => values,
            Err(error) => {
                return Err(error);
            },
        };
        if values.len() == 0 {
            return Ok(None);
        }
        let event = match read_event(&values[0]) {
            Ok(event) => Some(event),
            Err(_) => None,
        };
        match PrimalClient::profile_content(event) {
            Ok(Some(content)) => match read_metadata(&content) {
                Ok(metadata) => Ok(Some(metadata)),
                Err(_) => Err(MutinyError::NostrError),
            },
            Ok(None) => Ok(None),
            Err(error) => Err(error),
        }
    }

    /// Reads an answer with profiles.
    fn read_profiles<Profiles, Parse: FnOnce(Vec<String>) -> Profiles>(
        reply: Option<Vec<u8>>,
        parse: Parse,
    ) -> (profiles: Result<Profiles, MutinyError>)
        requires
            forall|values: Vec<String>| call_requires(parse, (values,)),
        ensures
            profiles_read(reply_view(reply), parse, profiles),
    {
        match PrimalClient::reply_values(reply) {
            Ok(values) => Ok(parse(values)),
            Err(error) => Err(error),
        }
    }

    /// Reads the answer to `user_profiles_request`: whatever `parse_profile_metadata` makes of the
    /// values of the answer.
    pub fn get_user_profiles<Profiles, Parse: FnOnce(Vec<String>) -> Profiles>(
        reply: Option<Vec<u8>>,
        parse_profile_metadata: Parse,
    ) -> (profiles: Result<Profiles, MutinyError>)
        requires
            forall|values: Vec<String>| call_requires(parse_profile_metadata, (values,)),
        ensures
            profiles_read(reply_view(reply), parse_profile_metadata, profiles),
    {
        PrimalClient::read_profiles(reply, parse_profile_metadata)
    }

    /// Reads the answer to `nostr_contacts_request`: whatever `parse_profile_metadata` makes of
    /// the values of the answer.
    pub fn get_nostr_contacts<Profiles, Parse: FnOnce(Vec<String>) -> Profiles>(
        reply: Option<Vec<u8>>,
        parse_profile_metadata: Parse,
    ) -> (profiles: Result<Profiles, MutinyError>)
        requires
            forall|values: Vec<String>| call_requires(parse_profile_metadata, (values,)),
        ensures
            profiles_read(reply_view(reply), parse_profile_metadata, profiles),
    {
        PrimalClient::read_profiles(reply, parse_profile_metadata)
    }

    /// Reads the answer to `dm_conversation_request`. What is no direct message is left out.
    pub fn get_dm_conversation(reply: Option<Vec<u8>>) -> (messages: Result<
        Vec<NostrEvent>,
        MutinyError,
    >)
        ensures
            conversation_read(reply_view(reply), messages),
    {
        let values = match PrimalClient::reply_values(reply) {
            Ok(values) => values,
            Err(error) => {
                return Err(error);
            },
        };
        let mut events: Vec<Option<NostrEvent>> = Vec::new();
        let mut i: usize = 0;
        while i < values.len()
            invariant
                i <= values@.len(),
                events@.len() == i,
                forall|j: int|
                    0 <= j < i ==> match #[trigger] events@[j] {
                        Some(event) => event_of_json(values@[j]@) == Some(event@),
                        None => event_of_json(values@[j]@) is None,
                    },
            decreases values@.len() - i,
        {
            let event = match read_event(&values[i]) {
                Ok(event) => Some(event),
                Err(_) => None,
            };
            events.push(event);
            i = i + 1;
        }
        proof {
            lemma_kept_messages(events@, texts(values@));
        }
        Ok(PrimalClient::direct_messages(events))
    }
}

/// The messages kept of the events that were read are those among the values.
proof fn lemma_kept_messages(events: Seq<Option<NostrEvent>>, values: Seq<Seq<char>>)
    requires
        events.len() == values.len(),
        forall|j: int|
            0 <= j < events.len() ==> match #[trigger] events[j] {
                Some(event) => event_of_json(values[j]) == Some(event@),
                None => event_of_json(values[j]) is None,
            },
    ensures
        events_view(events.filter_map(|event: Option<NostrEvent>| kept_message(event)))
            == conversation_in(values),
    decreases events.len(),
{
    let kept = |event: Option<NostrEvent>| kept_message(event);
    if events.len() == 0 {
        assert(events_view(events.filter_map(kept)) =~= conversation_in(values));
    } else {
        lemma_kept_messages(events.drop_last(), values.drop_last());
        assert(events.last() == events[events.len() - 1]);
        assert(events_view(events.filter_map(kept)) =~= conversation_in(values));
    }
}

} // verus!
