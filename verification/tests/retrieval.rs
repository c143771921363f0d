use portfolio_core::chat::{chat_start, chat_step, ChatAction, ChatEvent, ChatPhase, CollectionKind,
    extract_reply, ReplyCandidate};
use portfolio_core::config::PortfolioOwner;
use portfolio_core::record::{DocRecord, GroupField};
use portfolio_core::search::{keyword_matches, keyword_search, lookup_path, tokenize};

fn owner() -> PortfolioOwner {
    PortfolioOwner {
        name: "Test User".to_string(),
        title: "Engineer".to_string(),
        tagline: "Ship it".to_string(),
        location: "Pune".to_string(),
        expertise: vec!["Rust".to_string()],
        youtube_url: None,
        youtube_channel_name: None,
        linkedin_url: None,
        github_url: None,
        twitter_url: None,
        email: None,
        website_url: None,
    }
}

fn cert_doc(name: &str, issuer: &str) -> DocRecord {
    let mut d = DocRecord::new();
    d.push_text("name".to_string(), name.to_string());
    d.push_text("issuer".to_string(), issuer.to_string());
    d
}

fn strings(items: &[&str]) -> Vec<String> {
    items.iter().map(|s| s.to_string()).collect()
}

#[test]
fn test_tokenize_splits_on_whitespace() {
    assert_eq!(tokenize("  Tell me   about\tAI  "), strings(&["Tell", "me", "about", "AI"]));
    assert_eq!(tokenize(""), Vec::<String>::new());
}

#[test]
fn test_keyword_match_case_insensitive() {
    let d = cert_doc("AI Certificate", "Coursera");
    assert!(keyword_matches(&d, &strings(&["ai", "certificate"]), &strings(&["name", "issuer"])));
    assert!(keyword_matches(&d, &strings(&["COURSERA"]), &strings(&["name", "issuer"])));
    assert!(!keyword_matches(&d, &strings(&["blockchain"]), &strings(&["name", "issuer"])));
}

#[test]
fn test_keyword_match_dotted_path() {
    let mut d = DocRecord::new();
    d.push_text("title".to_string(), "Dashboard".to_string());
    d.push_group(
        "description".to_string(),
        vec![GroupField { name: "overview".to_string(), text: "Sales Analytics".to_string() }],
    );
    assert_eq!(lookup_path(&d, "description.overview"), Some("Sales Analytics".to_string()));
    assert!(keyword_matches(&d, &strings(&["analytics"]), &strings(&["title", "description.overview"])));
    assert!(!keyword_matches(&d, &strings(&["analytics"]), &strings(&["title"])));
}

#[test]
fn test_keyword_search_keeps_order_and_limit() {
    let docs = vec![
        cert_doc("AI Basics", "A"),
        cert_doc("Cooking", "B"),
        cert_doc("AI Advanced", "C"),
        cert_doc("AI Expert", "D"),
        cert_doc("AI Master", "E"),
    ];
    let found = keyword_search(docs, "ai courses", &strings(&["name"]), 3);
    let names: Vec<String> = found.iter().map(|d| d.get_text("name").unwrap()).collect();
    assert_eq!(names, strings(&["AI Basics", "AI Advanced", "AI Expert"]));
}

#[test]
fn test_extract_reply_takes_first_part() {
    let candidates = vec![
        ReplyCandidate { parts: vec!["first".to_string(), "second".to_string()] },
        ReplyCandidate { parts: vec!["other".to_string()] },
    ];
    assert_eq!(extract_reply(&candidates), "first");
}

#[test]
fn test_extract_reply_sentinel_on_empty() {
    assert_eq!(extract_reply(&vec![]), "No response generated");
    let empty_candidate = vec![ReplyCandidate { parts: vec![] }];
    assert_eq!(extract_reply(&empty_candidate), "No response generated");
}

#[test]
fn test_direct_fallback_on_embedding_failure() {
    let o = owner();
    let query = "Tell me about your work";
    let (phase, action) = chat_start();
    assert!(matches!(action, ChatAction::Embed));
    let (phase, action) = chat_step(&o, query, phase, ChatEvent::EmbeddingDone { ok: false });
    match &action {
        ChatAction::RunCompletion { prompt } => assert_eq!(prompt, query),
        other => panic!("expected direct completion, got {:?}", kind_of(other)),
    }
    let (phase, action) = chat_step(
        &o,
        query,
        phase,
        ChatEvent::CompletionDone { reply: Some("direct answer".to_string()) },
    );
    assert!(matches!(phase, ChatPhase::Done { .. }));
    match action {
        ChatAction::Respond { reply } => assert_eq!(reply, "direct answer"),
        other => panic!("expected a reply, got {:?}", kind_of(&other)),
    }
}

#[test]
fn test_completion_failure_is_fatal() {
    let o = owner();
    let (phase, _) = chat_start();
    let (phase, _) = chat_step(&o, "q", phase, ChatEvent::EmbeddingDone { ok: false });
    let (phase, action) = chat_step(&o, "q", phase, ChatEvent::CompletionDone { reply: None });
    assert!(matches!(phase, ChatPhase::Failed));
    assert!(matches!(action, ChatAction::Fail));
}

#[test]
fn test_keyword_fallback_after_empty_vector_search() {
    let o = owner();
    let (phase, _) = chat_start();
    let (phase, action) = chat_step(&o, "q", phase, ChatEvent::EmbeddingDone { ok: true });
    assert!(matches!(
        action,
        ChatAction::RunVectorSearch { collection: CollectionKind::Projects, .. }
    ));
    let (_, action) = chat_step(&o, "q", phase, ChatEvent::SearchDone { docs: Some(vec![]) });
    match action {
        ChatAction::RunKeywordSearch { collection, fields, limit } => {
            assert!(matches!(collection, CollectionKind::Projects));
            assert_eq!(fields, strings(&["title", "description.overview"]));
            assert_eq!(limit, 3);
        }
        other => panic!("expected keyword fallback, got {:?}", kind_of(&other)),
    }
}

#[test]
fn test_keyword_results_feed_the_context() {
    let o = owner();
    let query = "projects please";
    let (phase, _) = chat_start();
    let (phase, _) = chat_step(&o, query, phase, ChatEvent::EmbeddingDone { ok: true });
    // vector search over projects finds nothing
    let (phase, _) = chat_step(&o, query, phase, ChatEvent::SearchDone { docs: Some(vec![]) });
    // keyword search returns two documents
    let mut one = DocRecord::new();
    one.push_text("title".to_string(), "Alpha".to_string());
    let mut two = DocRecord::new();
    two.push_text("title".to_string(), "Beta".to_string());
    let (phase, _) = chat_step(&o, query, phase, ChatEvent::SearchDone { docs: Some(vec![one, two]) });
    // certificates: vector fails, keyword fails
    let (phase, _) = chat_step(&o, query, phase, ChatEvent::SearchDone { docs: None });
    let (_, action) = chat_step(&o, query, phase, ChatEvent::SearchDone { docs: None });
    match action {
        ChatAction::RunCompletion { prompt } => {
            assert!(prompt.contains("**Alpha**\n---\n\n**Beta**\n---"));
            assert!(!prompt.contains("No specific projects"));
            assert!(prompt.contains("No specific certifications"));
        }
        other => panic!("expected completion, got {:?}", kind_of(&other)),
    }
}

#[test]
fn test_end_to_end_rag_prompt() {
    let o = owner();
    let query = "Tell me about your AI projects";
    let (phase, _) = chat_start();
    let (phase, action) = chat_step(&o, query, phase, ChatEvent::EmbeddingDone { ok: true });
    match &action {
        ChatAction::RunVectorSearch { index, limit, candidate_pool, .. } => {
            assert_eq!(index, "projects_index");
            assert_eq!(*limit, 3);
            assert_eq!(*candidate_pool, 10);
        }
        other => panic!("expected vector search, got {:?}", kind_of(other)),
    }
    // vector search over projects returns one document
    let mut chatbot = DocRecord::new();
    chatbot.push_text("title".to_string(), "Chatbot".to_string());
    chatbot.push_group(
        "description".to_string(),
        vec![GroupField { name: "overview".to_string(), text: "talks to visitors".to_string() }],
    );
    let (phase, action) = chat_step(
        &o,
        query,
        phase,
        ChatEvent::SearchDone { docs: Some(vec![chatbot]) },
    );
    match &action {
        ChatAction::RunVectorSearch { index, .. } => assert_eq!(index, "certificates_index"),
        other => panic!("expected certificate vector search, got {:?}", kind_of(other)),
    }
    // certificates: vector empty, keyword fallback empty
    let (phase, action) = chat_step(&o, query, phase, ChatEvent::SearchDone { docs: Some(vec![]) });
    match &action {
        ChatAction::RunKeywordSearch { fields, .. } => {
            assert_eq!(fields, &strings(&["name", "issuer"]));
        }
        other => panic!("expected certificate keyword search, got {:?}", kind_of(other)),
    }
    let (phase, action) = chat_step(&o, query, phase, ChatEvent::SearchDone { docs: Some(vec![]) });
    let prompt = match action {
        ChatAction::RunCompletion { prompt } => prompt,
        other => panic!("expected completion, got {:?}", kind_of(&other)),
    };
    assert!(prompt.contains("**Chatbot**\nWhat it does: talks to visitors\n---"));
    assert!(prompt.contains("No specific certifications to reference right now."));
    assert!(prompt.ends_with("User Question: Tell me about your AI projects"));
    // the reply is whatever the completion client returns for that payload
    let (phase, action) = chat_step(
        &o,
        query,
        phase,
        ChatEvent::CompletionDone { reply: Some("Here is the story.".to_string()) },
    );
    match phase {
        ChatPhase::Done { reply } => assert_eq!(reply, "Here is the story."),
        _ => panic!("expected the pipeline to finish"),
    }
    match action {
        ChatAction::Respond { reply } => assert_eq!(reply, "Here is the story."),
        other => panic!("expected a reply, got {:?}", kind_of(&other)),
    }
}

#[test]
fn test_unexpected_event_fails_request() {
    let o = owner();
    let (phase, _) = chat_start();
    let (phase, action) = chat_step(&o, "q", phase, ChatEvent::CompletionDone { reply: None });
    assert!(matches!(phase, ChatPhase::Failed));
    assert!(matches!(action, ChatAction::Fail));
}

fn kind_of(a: &ChatAction) -> &'static str {
    match a {
        ChatAction::Embed => "Embed",
        ChatAction::RunVectorSearch { .. } => "RunVectorSearch",
        ChatAction::RunKeywordSearch { .. } => "RunKeywordSearch",
        ChatAction::RunCompletion { .. } => "RunCompletion",
        ChatAction::Respond { .. } => "Respond",
        ChatAction::Fail => "Fail",
    }
}
