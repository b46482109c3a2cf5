//! What holds of all requests to the Primal API and of all its answers.
use vstd::prelude::*;

use crate::hex::{hex, law_hex_is_injective};
use crate::json::JsonView;
use crate::nostr_event::{
    event_of_json, json_array, metadata_of_json, texts, Metadata, NostrEvent, NostrEventView,
    KIND_ENCRYPTED_DIRECT_MESSAGE,
};
use crate::primal::{
    contact_list, conversation_in, conversation_read, directmsgs, events_view, hex_all,
    kept_message, key_param, param_json, params_json, profile_read, profiles_read, reply_values,
    reply_view,
    request_json, time_params, user_infos, user_profile, MutinyError, ParamValue, ParamView,
    Request, RequestView,
};

verus! {

/// The values of parameters tell the parameters apart.
proof fn lemma_param_json(a: ParamView, b: ParamView)
    requires
        param_json(a) == param_json(b),
    ensures
        a == b,
{
    if let (ParamView::Texts(a_texts), ParamView::Texts(b_texts)) = (a, b) {
        let a_items = param_json(a)->List_0;
        let b_items = param_json(b)->List_0;
        assert(a_items.len() == a_texts.len() && b_items.len() == b_texts.len());
        assert forall|i: int| 0 <= i < a_texts.len() implies a_texts[i] == b_texts[i] by {
            assert(a_items[i] == b_items[i]);
        }
        assert(a_texts =~= b_texts);
    }
}

/// Different requests are sent as different JSON values: nothing of a request is lost.
pub proof fn law_request_json_says_everything(a: RequestView, b: RequestView)
    requires
        request_json(a) == request_json(b),
    ensures
        a == b,
{
    let a_items = request_json(a)->List_0;
    let b_items = request_json(b)->List_0;
    assert(a_items[0] == b_items[0] && a_items[1] == b_items[1]);
    let a_members = params_json(a.params)->Object_0;
    let b_members = params_json(b.params)->Object_0;
    assert(a_members.len() == a.params.len() && b_members.len() == b.params.len());
    assert forall|i: int| 0 <= i < a.params.len() implies a.params[i] == b.params[i] by {
        assert(a_members[i] == b_members[i]);
        lemma_param_json(a.params[i].1, b.params[i].1);
    }
    assert(a =~= b);
}

/// Requests about different users are different.
pub proof fn law_requests_name_their_user(a: Seq<u8>, b: Seq<u8>)
    ensures
        user_profile(a) == user_profile(b) ==> a == b,
        contact_list(a) == contact_list(b) ==> a == b,
{
    if user_profile(a) == user_profile(b) {
        assert(user_profile(a).params[0] == user_profile(b).params[0]);
        law_hex_is_injective(a, b);
    }
    if contact_list(a) == contact_list(b) {
        assert(contact_list(a).params[0] == contact_list(b).params[0]);
        law_hex_is_injective(a, b);
    }
}

/// A request about several users names each of them, in order.
pub proof fn law_requests_name_their_users(a: Seq<[u8; 32]>, b: Seq<[u8; 32]>)
    requires
        user_infos(a) == user_infos(b),
    ensures
        a == b,
{
    assert(user_infos(a).params[0] == user_infos(b).params[0]);
    assert(hex_all(a).len() == a.len() && hex_all(b).len() == b.len());
    assert forall|i: int| 0 <= i < a.len() implies a[i] == b[i] by {
        assert(hex_all(a)[i] == hex_all(b)[i]);
        law_hex_is_injective(a[i]@, b[i]@);
        assert(a[i] =~= b[i]);
    }
    assert(a =~= b);
}

/// A conversation is always asked for with a bound in time.
pub proof fn law_conversations_are_bounded(
    npub1: Seq<u8>,
    npub2: Seq<u8>,
    limit: u64,
    until: Option<u64>,
    since: Option<u64>,
)
    ensures
        ({
            let params = directmsgs(npub1, npub2, limit, until, since).params;
            exists|i: int|
                0 <= i < params.len() && ((#[trigger] params[i]).0 == "until"@ || params[i].0
                    == "since"@)
        }),
{
    let params = directmsgs(npub1, npub2, limit, until, since).params;
    assert(params[3] == time_params(until, since)[0]);
}

/// Two requests for a conversation are the same only if they ask for the same: with the same
/// users, of whom each has the same part, the same limit and the same times. A conversation
/// without bounds is the one since the time zero.
pub proof fn law_conversation_requests_say_everything(
    a1: Seq<u8>,
    a2: Seq<u8>,
    a_limit: u64,
    a_until: Option<u64>,
    a_since: Option<u64>,
    b1: Seq<u8>,
    b2: Seq<u8>,
    b_limit: u64,
    b_until: Option<u64>,
    b_since: Option<u64>,
)
    requires
        directmsgs(a1, a2, a_limit, a_until, a_since) == directmsgs(
            b1,
            b2,
            b_limit,
            b_until,
            b_since,
        ),
    ensures
        a1 == b1,
        a2 == b2,
        a_limit == b_limit,
        a_until == b_until,
        a_since == b_since || (a_until is None && (a_since is None || a_since == Some(0u64)) && (
        b_since is None || b_since == Some(0u64))),
{
    let a = directmsgs(a1, a2, a_limit, a_until, a_since).params;
    let b = directmsgs(b1, b2, b_limit, b_until, b_since).params;
    assert(a[0] == key_param("sender"@, a1) && b[0] == key_param("sender"@, b1));
    assert(a[1] == key_param("receiver"@, a2) && b[1] == key_param("receiver"@, b2));
    assert(a[2] == ("limit"@, ParamView::Number(a_limit)));
    assert(b[2] == ("limit"@, ParamView::Number(b_limit)));
    law_hex_is_injective(a1, b1);
    law_hex_is_injective(a2, b2);
    let at = time_params(a_until, a_since);
    let bt = time_params(b_until, b_since);
    assert(a.skip(3) =~= at);
    assert(b.skip(3) =~= bt);
    assert(at[0] == bt[0]);
    reveal_strlit("until");
    reveal_strlit("since");
    assert("until"@[0] == 'u' && "since"@[0] == 's');
    if at.len() == 2 {
        assert(at[1] == bt[1]);
    }
}

/// Whether the texts of the values alone decide what `parse` makes of them.
pub open spec fn decided_by_texts<Profiles, Parse: FnOnce(Vec<String>) -> Profiles>(
    parse: Parse,
) -> bool {
    forall|a: Vec<String>, b: Vec<String>, a_profiles: Profiles, b_profiles: Profiles|
        #![trigger call_ensures(parse, (a,), a_profiles), call_ensures(parse, (b,), b_profiles)]
        texts(a@) == texts(b@) && call_ensures(parse, (a,), a_profiles) && call_ensures(
            parse,
            (b,),
            b_profiles,
        ) ==> a_profiles == b_profiles
}

/// One answer gives one result. `PrimalClient::get_user_profiles` and
/// `PrimalClient::get_nostr_contacts` promise the same of what they read, so on the same answer
/// both return the same profiles, or both the error, which comes exactly where the answer holds
/// no values.
pub proof fn law_profiles_are_read_alike<Profiles, Parse: FnOnce(Vec<String>) -> Profiles>(
    reply: Option<Seq<u8>>,
    parse: Parse,
    users: Result<Profiles, MutinyError>,
    contacts: Result<Profiles, MutinyError>,
)
    requires
        decided_by_texts(parse),
        profiles_read(reply, parse, users),
        profiles_read(reply, parse, contacts),
    ensures
        users == contacts,
        users is Err <==> reply_values(reply) is Err,
        users is Err ==> users->Err_0 == MutinyError::NostrError,
{
}

/// Messages keep the order of the values: the conversation in one run of values after another is
/// the one conversation after the other.
pub proof fn law_conversation_keeps_order(a: Seq<Seq<char>>, b: Seq<Seq<char>>)
    ensures
        conversation_in(a + b) == conversation_in(a) + conversation_in(b),
    decreases b.len(),
{
    if b.len() == 0 {
        assert(a + b =~= a);
        assert(conversation_in(a) + conversation_in(b) =~= conversation_in(a));
    } else {
        assert((a + b).drop_last() =~= a + b.drop_last());
        assert((a + b).last() == b.last());
        law_conversation_keeps_order(a, b.drop_last());
        assert(conversation_in(a + b) =~= conversation_in(a) + conversation_in(b));
    }
}

/// A conversation is made of direct messages alone, and each of them is a value of the answer.
pub proof fn law_conversation_holds_only_messages(values: Seq<Seq<char>>, i: int)
    requires
        0 <= i < conversation_in(values).len(),
    ensures
        conversation_in(values)[i].kind == KIND_ENCRYPTED_DIRECT_MESSAGE,
        exists|j: int|
            0 <= j < values.len() && event_of_json(#[trigger] values[j]) == Some(
                conversation_in(values)[i],
            ),
    decreases values.len(),
{
    let rest = values.drop_last();
    if i < conversation_in(rest).len() {
        law_conversation_holds_only_messages(rest, i);
        let j = choose|j: int|
            0 <= j < rest.len() && event_of_json(#[trigger] rest[j]) == Some(
                conversation_in(rest)[i],
            );
        assert(values[j] == rest[j]);
        assert(conversation_in(values)[i] == conversation_in(rest)[i]);
    } else {
        assert(values[values.len() - 1] == values.last());
        assert(event_of_json(values[values.len() - 1]) == Some(conversation_in(values)[i]));
    }
}

/// No direct message of the answer is missing from the conversation: a value that is an event of
/// kind 4 is in it, whatever else the event holds.
pub proof fn law_no_message_is_lost(values: Seq<Seq<char>>, j: int, event: NostrEventView)
    requires
        0 <= j < values.len(),
        event_of_json(values[j]) == Some(event),
        event.kind == 4,
    ensures
        conversation_in(values).contains(event),
{
    let at = law_messages_stand_in_the_order_of_the_answer(values);
    assert(event_of_json(values[j])->0.kind == 4);
    let i = at.index_of(j);
    assert(conversation_in(values)[i] == event);
}

/// The messages of a conversation are the values that are events of kind 4, each once for each
/// time that it stands in the answer, and in the same order: `at` gives the place of each.
pub proof fn law_messages_stand_in_the_order_of_the_answer(values: Seq<Seq<char>>) -> (at: Seq<
    int,
>)
    ensures
        at.len() == conversation_in(values).len(),
        forall|i: int|
            0 <= i < at.len() ==> {
                &&& 0 <= #[trigger] at[i] < values.len()
                &&& event_of_json(values[at[i]]) == Some(conversation_in(values)[i])
                &&& conversation_in(values)[i].kind == 4
            },
        forall|i: int, k: int| 0 <= i < k < at.len() ==> at[i] < at[k],
        forall|j: int|
            0 <= j < values.len() && event_of_json(#[trigger] values[j]) is Some && event_of_json(
                values[j],
            )->0.kind == 4 ==> at.contains(j),
    decreases values.len(),
{
    if values.len() == 0 {
        Seq::empty()
    } else {
        let rest = values.drop_last();
        let last = values.len() - 1;
        let before = law_messages_stand_in_the_order_of_the_answer(rest);
        assert(values[last] == values.last());
        let is_message = event_of_json(values[last]) is Some && event_of_json(values[last])->0.kind
            == 4;
        let at = if is_message {
            before.push(last)
        } else {
            before
        };
        if is_message {
            assert(conversation_in(values) =~= conversation_in(rest).push(
                event_of_json(values[last])->0,
            ));
            assert(at[before.len() as int] == last);
        } else {
            assert(conversation_in(values) =~= conversation_in(rest));
        }
        assert forall|i: int| 0 <= i < at.len() implies {
            &&& 0 <= #[trigger] at[i] < values.len()
            &&& event_of_json(values[at[i]]) == Some(conversation_in(values)[i])
            &&& conversation_in(values)[i].kind == 4
        } by {
            if i < before.len() {
                assert(at[i] == before[i]);
                assert(values[at[i]] == rest[at[i]]);
            }
        }
        assert forall|j: int|
            0 <= j < values.len() && event_of_json(#[trigger] values[j]) is Some && event_of_json(
                values[j],
            )->0.kind == 4 implies at.contains(j) by {
            if j < last {
                assert(rest[j] == values[j]);
                let i = before.index_of(j);
                assert(at[i] == j);
            }
        }
        at
    }
}

/// One value that is an event of kind 4 is the whole conversation; one that is another event, or
/// none, is no conversation.
pub proof fn law_one_value_makes_at_most_one_message(value: Seq<char>)
    ensures
        match event_of_json(value) {
            Some(event) => conversation_in(seq![value]) == if event.kind == 4 {
                seq![event]
            } else {
                seq![]
            },
            None => conversation_in(seq![value]) == Seq::<NostrEventView>::empty(),
        },
{
    assert(seq![value].drop_last() =~= seq![]);
    assert(conversation_in(seq![]) =~= seq![]);
    assert(seq![value].last() == value);
    if let Some(event) = event_of_json(value) {
        if event.kind == 4 {
            assert(conversation_in(seq![value]) =~= seq![event]);
        }
    }
}

/// A conversation is read whole from every answer that is a JSON array: its messages are the
/// values of kind 4, in order, at the places `at`. Without an answer, or with one that is no
/// array, there is the error and nothing else.
pub proof fn law_conversations_are_read_whole(
    reply: Option<Seq<u8>>,
    messages: Result<Vec<NostrEvent>, MutinyError>,
) -> (at: Seq<int>)
    requires
        conversation_read(reply, messages),
    ensures
        reply is None || json_array(reply->0) is None ==> messages == Err::<Vec<NostrEvent>, _>(
            MutinyError::NostrError,
        ),
        reply is Some && json_array(reply->0) is Some ==> {
            let values = json_array(reply->0)->0;
            &&& messages matches Ok(found)
            &&& at.len() == found@.len()
            &&& forall|i: int|
                0 <= i < at.len() ==> {
                    &&& 0 <= #[trigger] at[i] < values.len()
                    &&& event_of_json(values[at[i]]) == Some(found@[i]@)
                    &&& found@[i].kind == 4
                }
            &&& forall|i: int, k: int| 0 <= i < k < at.len() ==> at[i] < at[k]
            &&& forall|j: int|
                0 <= j < values.len() && event_of_json(#[trigger] values[j]) is Some
                    && event_of_json(values[j])->0.kind == 4 ==> at.contains(j)
        },
{
    if reply is Some && json_array(reply->0) is Some {
        let values = json_array(reply->0)->0;
        let found = messages->Ok_0@;
        let at = law_messages_stand_in_the_order_of_the_answer(values);
        assert(events_view(found).len() == found.len());
        assert forall|i: int| 0 <= i < at.len() implies {
            &&& 0 <= #[trigger] at[i] < values.len()
            &&& event_of_json(values[at[i]]) == Some(found[i]@)
            &&& found[i].kind == 4
        } by {
            assert(events_view(found)[i] == found[i]@);
        }
        at
    } else {
        Seq::empty()
    }
}

/// The messages among events that were read are those of kind 4, whatever else they hold, in
/// order, at the places `at`.
pub proof fn law_messages_among_events(
    events: Seq<Option<NostrEvent>>,
    messages: Seq<NostrEvent>,
) -> (at: Seq<int>)
    requires
        messages == events.filter_map(|event: Option<NostrEvent>| kept_message(event)),
    ensures
        at.len() == messages.len(),
        forall|i: int|
            0 <= i < at.len() ==> {
                &&& 0 <= #[trigger] at[i] < events.len()
                &&& events[at[i]] == Some(messages[i])
                &&& messages[i].kind == 4
            },
        forall|i: int, k: int| 0 <= i < k < at.len() ==> at[i] < at[k],
        forall|j: int|
            0 <= j < events.len() && #[trigger] events[j] is Some && events[j]->0.kind == 4
                ==> at.contains(j),
    decreases events.len(),
{
    let kept = |event: Option<NostrEvent>| kept_message(event);
    if events.len() == 0 {
        Seq::empty()
    } else {
        let rest = events.drop_last();
        let last = events.len() - 1;
        let before = law_messages_among_events(rest, rest.filter_map(kept));
        assert(events[last] == events.last());
        let is_message = events[last] is Some && events[last]->0.kind == 4;
        let at = if is_message {
            before.push(last)
        } else {
            before
        };
        if is_message {
            assert(messages =~= rest.filter_map(kept).push(events[last]->0));
            assert(at[before.len() as int] == last);
        } else {
            assert(messages =~= rest.filter_map(kept));
        }
        assert forall|i: int| 0 <= i < at.len() implies {
            &&& 0 <= #[trigger] at[i] < events.len()
            &&& events[at[i]] == Some(messages[i])
            &&& messages[i].kind == 4
        } by {
            if i < before.len() {
                assert(at[i] == before[i]);
                assert(events[at[i]] == rest[at[i]]);
            }
        }
        assert forall|j: int|
            0 <= j < events.len() && #[trigger] events[j] is Some && events[j]->0.kind
                == 4 implies at.contains(j) by {
            if j < last {
                assert(rest[j] == events[j]);
                let i = before.index_of(j);
                assert(at[i] == j);
            }
        }
        at
    }
}

/// The profile is the one in the first value of the answer, whatever else its event holds and
/// whatever comes after it. An answer without values has no profile, and so has one whose first
/// value is an event of another kind than 0; where there is no such array, no event or no profile
/// in its content, there is the error.
pub proof fn law_profile_is_in_the_first_value(
    reply: Option<Seq<u8>>,
    profile: Result<Option<Metadata>, MutinyError>,
)
    requires
        profile_read(reply, profile),
    ensures
        reply is None ==> profile == Err::<Option<Metadata>, _>(MutinyError::NostrError),
        reply is Some ==> match json_array(reply->0) {
            None => profile == Err::<Option<Metadata>, _>(MutinyError::NostrError),
            Some(values) => if values.len() == 0 {
                profile == Ok::<_, MutinyError>(None::<Metadata>)
            } else {
                match event_of_json(values[0]) {
                    None => profile == Err::<Option<Metadata>, _>(MutinyError::NostrError),
                    Some(event) => if event.kind == 0 {
                        match metadata_of_json(event.content) {
                            None => profile == Err::<Option<Metadata>, _>(MutinyError::NostrError),
                            Some(expected) => {
                                &&& profile matches Ok(Some(metadata))
                                &&& metadata@ == expected
                            },
                        }
                    } else {
                        profile == Ok::<_, MutinyError>(None::<Metadata>)
                    },
                }
            },
        },
{
}

/// The bytes of an answer are taken as they came.
pub proof fn law_answer_is_taken_as_it_came(reply: Option<Vec<u8>>)
    ensures
        reply is Some <==> reply_view(reply) is Some,
        reply is Some ==> reply_view(reply)->0 == reply->0@,
{
}

/// Every answer that is a JSON array reaches the parser of profiles whole, and what the parser
/// makes of it is the result; every other answer, and none, is the error.
pub proof fn law_parser_gets_the_whole_answer<Profiles, Parse: FnOnce(Vec<String>) -> Profiles>(
    reply: Option<Seq<u8>>,
    parse: Parse,
    profiles: Result<Profiles, MutinyError>,
)
    requires
        profiles_read(reply, parse, profiles),
    ensures
        reply is None || json_array(reply->0) is None ==> profiles == Err::<Profiles, _>(
            MutinyError::NostrError,
        ),
        reply is Some && json_array(reply->0) is Some ==> {
            let elements = json_array(reply->0)->0;
            &&& profiles is Ok
            &&& exists|values: Vec<String>|
                {
                    &&& #[trigger] call_ensures(parse, (values,), profiles->Ok_0)
                    &&& values@.len() == elements.len()
                    &&& forall|i: int|
                        0 <= i < elements.len() ==> (#[trigger] values@[i])@ == elements[i]
                }
        },
{
    if reply is Some && json_array(reply->0) is Some {
        let elements = json_array(reply->0)->0;
        let values = choose|values: Vec<String>|
            reply_values(reply) == Ok::<_, MutinyError>(#[trigger] texts(values@)) && call_ensures(
                parse,
                (values,),
                profiles->Ok_0,
            );
        assert(texts(values@) == elements);
        assert(texts(values@).len() == values@.len());
        assert forall|i: int| 0 <= i < elements.len() implies (#[trigger] values@[i])@
            == elements[i] by {
            assert(texts(values@)[i] == values@[i]@);
        }
        assert(call_ensures(parse, (values,), profiles->Ok_0));
    }
}

/// A request is sent as a JSON array of two: the verb as a string, and an object that has each
/// parameter under its name, in order, as a string, a number or an array of strings.
pub proof fn law_request_is_sent_as_it_is(request: Request)
    ensures
        ({
            &&& request_json(request@) matches JsonView::List(items)
            &&& items.len() == 2
            &&& items[0] == JsonView::Text(request.verb@)
            &&& items[1] matches JsonView::Object(members)
            &&& members.len() == request.params@.len()
            &&& forall|i: int|
                0 <= i < members.len() ==> {
                    let param = request.params@[i];
                    &&& (#[trigger] members[i]).0 == param.name@
                    &&& match param.value {
                        ParamValue::Text(text) => members[i].1 == JsonView::Text(text@),
                        ParamValue::Number(n) => members[i].1 == JsonView::Unsigned(n),
                        ParamValue::Texts(strings) => {
                            &&& members[i].1 matches JsonView::List(elements)
                            &&& elements.len() == strings@.len()
                            &&& forall|k: int|
                                0 <= k < elements.len() ==> #[trigger] elements[k]
                                    == JsonView::Text(strings@[k]@)
                        },
                    }
                }
        }),
{
    let items = request_json(request@)->List_0;
    let members = items[1]->Object_0;
    assert(items.len() == 2);
    assert(members.len() == request.params@.len());
    assert forall|i: int| 0 <= i < members.len() implies {
        let param = request.params@[i];
        &&& (#[trigger] members[i]).0 == param.name@
        &&& members[i].1 == param_json(param.value@)
    } by {
        assert(request@.params[i] == (request.params@[i].name@, request.params@[i].value@));
    }
}

/// What is asked for a user, for several or for contacts: one parameter with the key or the keys
/// in hexadecimal.
pub proof fn law_user_requests(npub: Seq<u8>, npubs: Seq<[u8; 32]>)
    ensures
        user_profile(npub).verb == "user_profile"@,
        user_profile(npub).params == seq![("pubkey"@, ParamView::Text(hex(npub)))],
        contact_list(npub).verb == "contact_list"@,
        contact_list(npub).params == seq![("pubkey"@, ParamView::Text(hex(npub)))],
        user_infos(npubs).verb == "user_infos"@,
        ({
            let params = user_infos(npubs).params;
            &&& params.len() == 1
            &&& params[0].0 == "pubkeys"@
            &&& params[0].1 matches ParamView::Texts(keys)
            &&& keys.len() == npubs.len()
            &&& forall|i: int| 0 <= i < keys.len() ==> #[trigger] keys[i] == hex(npubs[i]@)
        }),
{
}

/// What is asked for a conversation: the sender, the receiver, the limit, and each bound in time
/// that is given under its name. Without any the messages since the time zero are asked for.
pub proof fn law_conversation_request(
    npub1: Seq<u8>,
    npub2: Seq<u8>,
    limit: u64,
    until: u64,
    since: u64,
)
    ensures
        ({
            let parties = seq![
                ("sender"@, ParamView::Text(hex(npub1))),
                ("receiver"@, ParamView::Text(hex(npub2))),
                ("limit"@, ParamView::Number(limit)),
            ];
            let before = ("until"@, ParamView::Number(until));
            let after = ("since"@, ParamView::Number(since));
            let always = ("since"@, ParamView::Number(0));
            let both = directmsgs(npub1, npub2, limit, Some(until), Some(since));
            let only_until = directmsgs(npub1, npub2, limit, Some(until), None);
            let only_since = directmsgs(npub1, npub2, limit, None, Some(since));
            let neither = directmsgs(npub1, npub2, limit, None, None);
            &&& both.verb == "get_directmsgs"@ && both.params == parties.push(before).push(after)
            &&& only_until.verb == "get_directmsgs"@ && only_until.params == parties.push(before)
            &&& only_since.verb == "get_directmsgs"@ && only_since.params == parties.push(after)
            &&& neither.verb == "get_directmsgs"@ && neither.params == parties.push(always)
        }),
{
    let parties = seq![
        ("sender"@, ParamView::Text(hex(npub1))),
        ("receiver"@, ParamView::Text(hex(npub2))),
        ("limit"@, ParamView::Number(limit)),
    ];
    let before = ("until"@, ParamView::Number(until));
    let after = ("since"@, ParamView::Number(since));
    let always = ("since"@, ParamView::Number(0));
    assert(directmsgs(npub1, npub2, limit, Some(until), Some(since)).params =~= parties.push(
        before,
    ).push(after));
    assert(directmsgs(npub1, npub2, limit, Some(until), None).params =~= parties.push(before));
    assert(directmsgs(npub1, npub2, limit, None, Some(since)).params =~= parties.push(after));
    assert(directmsgs(npub1, npub2, limit, None, None).params =~= parties.push(always));
}

} // verus!
