use spotlight_core::exchange::{
    build_request, collect_sources, extract_reply, host_of, model_role, thinking_budget, Candidate,
    ChatMessage, GroundingChunk, GroundingMetadata, Part, Reply, Request, Response, SourceInfo,
    Turn, WebInfo, UNLIMITED_THINKING_BUDGET,
};

fn message(role: &str, content: &str) -> ChatMessage {
    ChatMessage { role: role.to_string(), content: content.to_string() }
}

fn text_turn(role: &str, content: &str) -> Turn {
    Turn { role: role.to_string(), parts: vec![Part::Text(content.to_string())] }
}

fn web(uri: Option<&str>, title: Option<&str>) -> GroundingChunk {
    GroundingChunk {
        web: Some(WebInfo { uri: uri.map(str::to_string), title: title.map(str::to_string) }),
    }
}

fn grounding(chunks: Vec<GroundingChunk>) -> Option<GroundingMetadata> {
    Some(GroundingMetadata { grounding_chunks: Some(chunks) })
}

fn source(title: &str, uri: &str) -> SourceInfo {
    SourceInfo { title: title.to_string(), uri: uri.to_string() }
}

fn candidate(parts: &[&str], grounding_metadata: Option<GroundingMetadata>) -> Candidate {
    Candidate { parts: parts.iter().map(|part| part.to_string()).collect(), grounding_metadata }
}

#[test]
fn assistant_is_known_as_model() {
    assert_eq!(model_role(&"assistant".to_string()), "model");
    assert_eq!(model_role(&"user".to_string()), "user");
    assert_eq!(model_role(&"system".to_string()), "system");
    assert_eq!(model_role(&"Assistant".to_string()), "Assistant");
    assert_eq!(model_role(&"".to_string()), "");
}

#[test]
fn thinking_budget_follows_the_setting() {
    assert_eq!(UNLIMITED_THINKING_BUDGET, -1);
    assert_eq!(thinking_budget(Some(true)), Some(-1));
    assert_eq!(thinking_budget(Some(false)), Some(0));
    assert_eq!(thinking_budget(None), None);
}

#[test]
fn request_for_a_first_message() {
    let request = build_request("hello".to_string(), None, None, None, &Vec::new());
    assert_eq!(
        request,
        Request { contents: vec![text_turn("user", "hello")], search: false, thinking_budget: None }
    );
}

#[test]
fn request_keeps_the_conversation_in_order() {
    let history = vec![
        message("user", "what is this?"),
        message("assistant", "a screenshot"),
        message("tool", "noted"),
    ];
    let request =
        build_request("and now?".to_string(), None, Some(false), Some(false), &history);
    assert_eq!(
        request,
        Request {
            contents: vec![
                text_turn("user", "what is this?"),
                text_turn("model", "a screenshot"),
                text_turn("tool", "noted"),
                text_turn("user", "and now?"),
            ],
            search: false,
            thinking_budget: Some(0),
        }
    );
}

#[test]
fn request_carries_the_image_after_the_text() {
    let request = build_request(
        "look".to_string(),
        Some("Zm9v".to_string()),
        Some(true),
        Some(true),
        &Vec::new(),
    );
    assert_eq!(
        request,
        Request {
            contents: vec![Turn {
                role: "user".to_string(),
                parts: vec![
                    Part::Text("look".to_string()),
                    Part::InlineData {
                        mime_type: "image/png".to_string(),
                        data: "Zm9v".to_string(),
                    },
                ],
            }],
            search: true,
            thinking_budget: Some(-1),
        }
    );
}

#[test]
fn hosts_of_addresses() {
    assert_eq!(host_of("https://example.com/path/to"), "example.com");
    assert_eq!(host_of("https://example.com"), "example.com");
    assert_eq!(host_of("http://example.com:8080/x"), "example.com:8080");
    assert_eq!(host_of("example.com/path"), "example.com/path");
    assert_eq!(host_of(""), "");
    assert_eq!(host_of("://"), "");
    assert_eq!(host_of("https:///path"), "");
    assert_eq!(host_of("http://a://b/c"), "a");
    assert_eq!(host_of("http://a/b://c"), "a");
    assert_eq!(host_of("x://é.example/ü"), "é.example");
}

#[test]
fn hosts_are_what_splitting_gives() {
    let pieces = ["", "a", ":", "/", "//", "://", "b.c", ":/", "é"];
    for first in pieces {
        for second in pieces {
            for third in pieces {
                for fourth in pieces {
                    let uri = format!("{}{}{}{}", first, second, third, fourth);
                    let expected = uri
                        .split("://")
                        .nth(1)
                        .and_then(|rest| rest.split('/').next())
                        .unwrap_or(&uri)
                        .to_string();
                    assert_eq!(host_of(&uri), expected, "address {:?}", uri);
                }
            }
        }
    }
}

#[test]
fn sources_keep_their_order_and_need_an_address() {
    let chunks = vec![
        web(Some("https://one.example/a"), Some("One")),
        GroundingChunk { web: None },
        web(None, Some("No address")),
        web(Some("https://two.example/b"), None),
        web(Some("three"), None),
    ];
    assert_eq!(
        collect_sources(&chunks),
        vec![
            source("One", "https://one.example/a"),
            source("two.example", "https://two.example/b"),
            source("three", "three"),
        ]
    );
    assert_eq!(collect_sources(&Vec::new()), Vec::new());
}

#[test]
fn reply_is_the_first_text_of_the_first_candidate() {
    let response = Response {
        candidates: vec![candidate(&["first", "second"], None), candidate(&["other"], None)],
        grounding_metadata: None,
    };
    assert_eq!(extract_reply(&response), Some(Reply { text: "first".to_string(), sources: None }));
}

#[test]
fn response_without_text_has_no_reply() {
    assert_eq!(extract_reply(&Response { candidates: Vec::new(), grounding_metadata: None }), None);
    let empty_first = Response {
        candidates: vec![candidate(&[], None), candidate(&["late"], None)],
        grounding_metadata: grounding(vec![web(Some("https://a.example"), None)]),
    };
    assert_eq!(extract_reply(&empty_first), None);
}

#[test]
fn grounding_of_the_candidate_comes_first() {
    let response = Response {
        candidates: vec![candidate(
            &["answer"],
            grounding(vec![web(Some("https://near.example/x"), None)]),
        )],
        grounding_metadata: grounding(vec![web(Some("https://far.example/y"), Some("Far"))]),
    };
    assert_eq!(
        extract_reply(&response),
        Some(Reply {
            text: "answer".to_string(),
            sources: Some(vec![source("near.example", "https://near.example/x")]),
        })
    );
}

#[test]
fn grounding_of_the_response_stands_in() {
    let response = Response {
        candidates: vec![candidate(&["answer"], None)],
        grounding_metadata: grounding(vec![web(Some("https://far.example/y"), Some("Far"))]),
    };
    assert_eq!(
        extract_reply(&response),
        Some(Reply {
            text: "answer".to_string(),
            sources: Some(vec![source("Far", "https://far.example/y")]),
        })
    );
}

#[test]
fn candidate_grounding_without_chunks_hides_that_of_the_response() {
    let response = Response {
        candidates: vec![candidate(
            &["answer"],
            Some(GroundingMetadata { grounding_chunks: None }),
        )],
        grounding_metadata: grounding(vec![web(Some("https://far.example/y"), Some("Far"))]),
    };
    assert_eq!(extract_reply(&response), Some(Reply { text: "answer".to_string(), sources: None }));
}

#[test]
fn no_usable_source_means_no_sources() {
    let response = Response {
        candidates: vec![candidate(
            &["answer"],
            grounding(vec![GroundingChunk { web: None }, web(None, Some("t"))]),
        )],
        grounding_metadata: None,
    };
    assert_eq!(extract_reply(&response), Some(Reply { text: "answer".to_string(), sources: None }));
    let none_at_all = Response {
        candidates: vec![candidate(&["answer"], grounding(Vec::new()))],
        grounding_metadata: None,
    };
    assert_eq!(
        extract_reply(&none_at_all),
        Some(Reply { text: "answer".to_string(), sources: None })
    );
}
