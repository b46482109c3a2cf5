use mutiny_core::hex::to_hex;
use mutiny_core::nostr_event::{Metadata, NostrEvent};
use mutiny_core::primal::{MutinyError, Param, ParamValue, PrimalClient, Request};

const URL: &str = "https://primal-cache.example/api";

fn body(request: Request) -> String {
    let post = PrimalClient::new(URL.to_string()).primal_request(&request);
    assert_eq!(post.url, URL);
    assert_eq!(post.content_type, "application/json");
    post.body
}

fn event_json(kind: u16, content: &str) -> String {
    format!(
        "{{\"id\":\"{}\",\"pubkey\":\"{}\",\"created_at\":1700000000,\"kind\":{},\
        \"tags\":[[\"p\",\"{}\"]],\"content\":{},\"sig\":\"{}\"}}",
        "ab".repeat(32),
        "cd".repeat(32),
        kind,
        "ef".repeat(32),
        serde_json::to_string(content).unwrap(),
        "12".repeat(64)
    )
}

fn event(kind: u16, content: &str) -> NostrEvent {
    NostrEvent {
        id: "ab".repeat(32),
        pubkey: "cd".repeat(32),
        created_at: 1_700_000_000,
        kind,
        tags: vec![vec!["p".to_string(), "ef".repeat(32)]],
        content: content.to_string(),
        sig: "12".repeat(64),
    }
}

fn reply(values: &[String]) -> Option<Vec<u8>> {
    Some(format!("[{}]", values.join(",")).into_bytes())
}

#[test]
fn hexadecimal_text() {
    assert_eq!(to_hex(&[]), "");
    assert_eq!(to_hex(&[0x00, 0x9a, 0xff, 0x10]), "009aff10");
    assert_ne!(to_hex(&[1]), to_hex(&[16]));
}

#[test]
fn body_of_a_profile_request() {
    assert_eq!(
        body(PrimalClient::user_profile_request(&[0xa1; 32])),
        format!("[\"user_profile\",{{\"pubkey\":\"{}\"}}]", "a1".repeat(32))
    );
}

#[test]
fn body_of_a_request_for_profiles() {
    assert_eq!(
        body(PrimalClient::user_profiles_request(&vec![[1; 32], [2; 32]])),
        format!(
            "[\"user_infos\",{{\"pubkeys\":[\"{}\",\"{}\"]}}]",
            "01".repeat(32),
            "02".repeat(32)
        )
    );
    assert_eq!(
        body(PrimalClient::user_profiles_request(&vec![])),
        "[\"user_infos\",{\"pubkeys\":[]}]"
    );
}

#[test]
fn body_of_a_request_for_contacts() {
    assert_eq!(
        body(PrimalClient::nostr_contacts_request(&[0; 32])),
        format!("[\"contact_list\",{{\"pubkey\":\"{}\"}}]", "00".repeat(32))
    );
}

#[test]
fn bodies_of_requests_for_a_conversation() {
    let expected = |times: &str| {
        format!(
            "[\"get_directmsgs\",{{\"limit\":20,\"receiver\":\"{}\",\"sender\":\"{}\",{}}}]",
            "22".repeat(32),
            "11".repeat(32),
            times
        )
    };
    let request = |until: Option<u64>, since: Option<u64>| {
        body(PrimalClient::dm_conversation_request(&[0x11; 32], &[0x22; 32], 20, until, since))
    };
    assert_eq!(request(Some(9), Some(3)), expected("\"since\":3,\"until\":9"));
    assert_eq!(request(None, Some(3)), expected("\"since\":3"));
    assert_eq!(request(Some(9), None), expected("\"until\":9"));
    assert_eq!(request(None, None), expected("\"since\":0"));
}

#[test]
fn request_text_is_escaped() {
    let request = Request {
        verb: "a\"b".to_string(),
        params: vec![Param { name: "n".to_string(), value: ParamValue::Number(u64::MAX) }],
    };
    assert_eq!(body(request), "[\"a\\\"b\",{\"n\":18446744073709551615}]");
}

#[test]
fn answers_are_taken_apart() {
    assert_eq!(PrimalClient::reply_values(None), Err(MutinyError::NostrError));
    assert_eq!(
        PrimalClient::reply_values(Some(b"{}".to_vec())),
        Err(MutinyError::NostrError)
    );
    assert_eq!(
        PrimalClient::reply_values(Some(b"[1,".to_vec())),
        Err(MutinyError::NostrError)
    );
    assert_eq!(PrimalClient::reply_values(Some(b" [ ] ".to_vec())), Ok(vec![]));
    assert_eq!(
        PrimalClient::reply_values(Some(b"[1, {\"b\": 2, \"a\": null}]".to_vec())),
        Ok(vec!["1".to_string(), "{\"a\":null,\"b\":2}".to_string()])
    );
}

#[test]
fn profile_of_a_user() {
    let content = "{\"name\":\"jack\",\"lud16\":\"jack@example.com\",\"zap\":1,\"bot\":false}";
    let answer = reply(&[event_json(0, content), "\"ignored\"".to_string()]);
    assert_eq!(
        PrimalClient::get_user_profile(answer),
        Ok(Some(Metadata {
            name: Some("jack".to_string()),
            display_name: None,
            about: None,
            website: None,
            picture: None,
            banner: None,
            nip05: None,
            lud06: None,
            lud16: Some("jack@example.com".to_string()),
            custom: "{\"bot\":false,\"zap\":1}".to_string(),
        }))
    );
}

#[test]
fn no_profile_in_the_answer() {
    assert_eq!(PrimalClient::get_user_profile(reply(&[])), Ok(None));
    assert_eq!(PrimalClient::get_user_profile(reply(&[event_json(1, "{}")])), Ok(None));
    let profile_comes_second = reply(&[event_json(1, "{}"), event_json(0, "{}")]);
    assert_eq!(PrimalClient::get_user_profile(profile_comes_second), Ok(None));
}

#[test]
fn answers_that_are_no_profile() {
    let error = Err(MutinyError::NostrError);
    assert_eq!(PrimalClient::get_user_profile(None), error);
    assert_eq!(PrimalClient::get_user_profile(Some(b"nothing".to_vec())), error);
    assert_eq!(PrimalClient::get_user_profile(reply(&["{}".to_string()])), error);
    assert_eq!(PrimalClient::get_user_profile(reply(&[event_json(0, "jack")])), error);
}

#[test]
fn content_of_a_profile_event() {
    assert_eq!(PrimalClient::profile_content(None), Err(MutinyError::NostrError));
    assert_eq!(PrimalClient::profile_content(Some(event(4, "x"))), Ok(None));
    assert_eq!(
        PrimalClient::profile_content(Some(event(0, "x"))),
        Ok(Some("x".to_string()))
    );
}

#[test]
fn profiles_are_left_to_the_parser() {
    let answer = reply(&["1".to_string(), "\"x\"".to_string()]);
    let parse = |values: Vec<String>| values.join("|");
    assert_eq!(
        PrimalClient::get_user_profiles(answer.clone(), parse),
        Ok("1|\"x\"".to_string())
    );
    assert_eq!(PrimalClient::get_nostr_contacts(answer, parse), Ok("1|\"x\"".to_string()));
    assert_eq!(PrimalClient::get_user_profiles(None, parse), Err(MutinyError::NostrError));
    assert_eq!(PrimalClient::get_nostr_contacts(None, parse), Err(MutinyError::NostrError));
}

#[test]
fn conversation_keeps_direct_messages_in_order() {
    let answer = reply(&[
        event_json(4, "first"),
        event_json(1, "note"),
        "{\"kind\":4}".to_string(),
        "7".to_string(),
        event_json(4, "second"),
    ]);
    assert_eq!(
        PrimalClient::get_dm_conversation(answer),
        Ok(vec![event(4, "first"), event(4, "second")])
    );
    assert_eq!(PrimalClient::get_dm_conversation(reply(&[])), Ok(vec![]));
}

#[test]
fn conversation_needs_an_answer() {
    assert_eq!(PrimalClient::get_dm_conversation(None), Err(MutinyError::NostrError));
    assert_eq!(
        PrimalClient::get_dm_conversation(Some(b"{\"a\":1}".to_vec())),
        Err(MutinyError::NostrError)
    );
}

#[test]
fn messages_among_events() {
    let events = vec![None, Some(event(4, "a")), Some(event(5, "b")), Some(event(4, "c"))];
    assert_eq!(PrimalClient::direct_messages(events), vec![event(4, "a"), event(4, "c")]);
}

#[test]
fn requests_differ_with_what_they_ask_for() {
    let request = PrimalClient::dm_conversation_request;
    let (a, b) = ([1u8; 32], [2u8; 32]);
    assert_ne!(PrimalClient::user_profile_request(&a), PrimalClient::user_profile_request(&b));
    assert_ne!(PrimalClient::nostr_contacts_request(&a), PrimalClient::nostr_contacts_request(&b));
    assert_ne!(
        PrimalClient::user_profiles_request(&vec![a, b]),
        PrimalClient::user_profiles_request(&vec![b, a]),
    );
    assert_ne!(request(&a, &b, 5, None, None), request(&b, &a, 5, None, None));
    assert_ne!(request(&a, &b, 5, Some(1), None), request(&a, &b, 5, None, Some(1)));
    assert_eq!(request(&a, &b, 5, None, None), request(&a, &b, 5, None, Some(0)));
}

#[test]
fn clone_of_a_client_has_its_address() {
    let client = PrimalClient::new(URL.to_string());
    let request = PrimalClient::user_profile_request(&[1; 32]);
    assert_eq!(client.clone().primal_request(&request), client.primal_request(&request));
    assert_eq!(client.clone().primal_request(&request).url, URL);
}

#[test]
fn profiles_and_contacts_are_read_alike() {
    let parse = |values: Vec<String>| values.concat();
    let answers = [
        None,
        Some(b"{}".to_vec()),
        Some(b"[]".to_vec()),
        Some(b"[1, {\"b\": 2, \"a\": null}]".to_vec()),
    ];
    for answer in answers {
        assert_eq!(
            PrimalClient::get_user_profiles(answer.clone(), parse),
            PrimalClient::get_nostr_contacts(answer, parse),
        );
    }
}
