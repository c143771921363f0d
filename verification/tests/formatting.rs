use portfolio_core::formatter::{format_certificates, format_projects};
use portfolio_core::record::{DocRecord, Field, FieldValue, GroupField};

fn text_doc(pairs: &[(&str, &str)]) -> DocRecord {
    let mut d = DocRecord::new();
    for (name, value) in pairs {
        d.push_text(name.to_string(), value.to_string());
    }
    d
}

#[test]
fn test_format_empty_projects() {
    let result = format_projects(vec![]);
    assert!(result.contains("No specific projects"));
}

#[test]
fn test_format_empty_certificates() {
    let result = format_certificates(vec![]);
    assert!(result.contains("No specific certifications"));
}

#[test]
fn test_format_project_with_title() {
    let doc = text_doc(&[("title", "Test Project"), ("date", "2024")]);
    let result = format_projects(vec![doc]);
    assert!(result.contains("**Test Project**"));
    assert!(result.contains("Built: 2024"));
}

#[test]
fn test_format_certificate_with_details() {
    let doc = text_doc(&[
        ("name", "AI Certificate"),
        ("issuer", "Coursera"),
        ("issue_date", "2024"),
    ]);
    let result = format_certificates(vec![doc]);
    assert!(result.contains("**AI Certificate**"));
    assert!(result.contains("From: Coursera"));
}

#[test]
fn test_format_empty_projects_exact_placeholder() {
    assert_eq!(
        format_projects(vec![]),
        "No specific projects to reference right now. If asked about projects, share that you have various projects on your GitHub and invite them to explore."
    );
}

#[test]
fn test_format_empty_certificates_exact_placeholder() {
    assert_eq!(
        format_certificates(vec![]),
        "No specific certifications to reference right now. If asked about learning, share your commitment to continuous growth and self-directed learning."
    );
}

#[test]
fn test_format_project_full_block() {
    let mut d = DocRecord::new();
    d.push_text("title".to_string(), "Chatbot".to_string());
    d.push_text("date".to_string(), "2024".to_string());
    d.push_list(
        "technologies".to_string(),
        vec!["Rust".to_string(), "Axum".to_string()],
    );
    d.push_group(
        "description".to_string(),
        vec![
            GroupField { name: "problem".to_string(), text: "slow support".to_string() },
            GroupField { name: "overview".to_string(), text: "answers questions".to_string() },
            GroupField { name: "solution".to_string(), text: "retrieval pipeline".to_string() },
        ],
    );
    d.push_text("githubUrl".to_string(), "https://github.com/x".to_string());
    d.push_text("demoUrl".to_string(), "https://demo.x".to_string());
    let result = format_projects(vec![d]);
    assert_eq!(
        result,
        "**Chatbot**\n*Built: 2024*\nTech used: Rust, Axum\nThe problem I wanted to solve: slow support\nWhat it does: answers questions\nHow I solved it: retrieval pipeline\nLinks: GitHub: https://github.com/x | Live demo: https://demo.x\n---"
    );
}

#[test]
fn test_format_project_untitled_dropped() {
    let untitled = text_doc(&[("date", "2020")]);
    let titled = text_doc(&[("title", "Keeper")]);
    let result = format_projects(vec![untitled, titled]);
    assert_eq!(result, "**Keeper**\n---");
}

#[test]
fn test_format_certificate_nameless_dropped() {
    let nameless = text_doc(&[("issuer", "Nobody")]);
    let named = text_doc(&[("name", "Kept Cert"), ("link", "https://verify.me")]);
    let result = format_certificates(vec![nameless, named]);
    assert_eq!(result, "**Kept Cert**\nVerify: https://verify.me\n---");
}

#[test]
fn test_format_projects_blocks_joined_by_blank_line() {
    let a = text_doc(&[("title", "One")]);
    let b = text_doc(&[("title", "Two")]);
    let result = format_projects(vec![a, b]);
    assert_eq!(result, "**One**\n---\n\n**Two**\n---");
}

#[test]
fn test_format_project_empty_tech_list_omitted() {
    let mut d = DocRecord::new();
    d.push_text("title".to_string(), "Bare".to_string());
    d.push_list("technologies".to_string(), vec![]);
    let result = format_projects(vec![d]);
    assert_eq!(result, "**Bare**\n---");
}

#[test]
fn test_record_first_field_wins() {
    let mut d = DocRecord::new();
    d.push_text("title".to_string(), "First".to_string());
    d.push_text("title".to_string(), "Second".to_string());
    assert_eq!(d.get_text("title"), Some("First".to_string()));
}

#[test]
fn test_record_wrong_kind_is_absent() {
    let d = DocRecord {
        fields: vec![Field {
            name: "title".to_string(),
            value: FieldValue::TextList(vec!["not text".to_string()]),
        }],
    };
    assert_eq!(d.get_text("title"), None);
    let result = format_projects(vec![d]);
    assert_eq!(result, "");
}
