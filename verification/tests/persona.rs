use portfolio_core::config::{OwnerSecrets, PortfolioOwner};
use portfolio_core::prompt::{build_full_prompt, build_system_prompt};

fn bare_owner() -> PortfolioOwner {
    PortfolioOwner {
        name: "Test".to_string(),
        title: "Dev".to_string(),
        tagline: "Test".to_string(),
        location: "Test".to_string(),
        expertise: vec![],
        youtube_url: None,
        youtube_channel_name: None,
        linkedin_url: None,
        github_url: None,
        twitter_url: None,
        email: None,
        website_url: None,
    }
}

fn test_owner() -> PortfolioOwner {
    PortfolioOwner {
        name: "Test User".to_string(),
        title: "Software Developer".to_string(),
        tagline: "Building cool stuff".to_string(),
        location: "San Francisco".to_string(),
        expertise: vec!["Rust".to_string(), "TypeScript".to_string()],
        youtube_url: Some("https://youtube.com/@test".to_string()),
        youtube_channel_name: Some("TestChannel".to_string()),
        linkedin_url: Some("https://linkedin.com/in/test".to_string()),
        github_url: None,
        twitter_url: None,
        email: Some("test@example.com".to_string()),
        website_url: None,
    }
}

#[test]
fn test_format_social_links_empty() {
    let owner = bare_owner();
    assert_eq!(owner.format_social_links(), "No social links configured.");
}

#[test]
fn test_format_expertise() {
    let mut owner = bare_owner();
    owner.expertise = vec!["Rust".to_string(), "TypeScript".to_string()];
    assert_eq!(owner.format_expertise(), "Rust, TypeScript");
}

#[test]
fn test_build_system_prompt() {
    let owner = test_owner();
    let projects = "Project: Test App";
    let certs = "Cert: AI Certificate";
    let prompt = build_system_prompt(&owner, projects, certs);

    assert!(prompt.contains("Test User"));
    assert!(prompt.contains("San Francisco"));
    assert!(prompt.contains("Story"));
    assert!(prompt.contains("Voice"));
    assert!(prompt.contains("Test App"));
    assert!(prompt.contains("AI Certificate"));
    assert!(prompt.contains("Never fabricate"));
    assert!(prompt.contains("youtube.com/@test"));
    assert!(prompt.contains("linkedin.com/in/test"));
}

#[test]
fn test_prompt_no_hardcoded_personal_info() {
    let owner = test_owner();
    let prompt = build_system_prompt(&owner, "", "");

    assert!(!prompt.contains("Gaurav Wankhede"));
    assert!(!prompt.contains("UPSC"));
    assert!(!prompt.contains("TECHVERSE"));
    assert!(!prompt.contains("AegisIDE"));
    assert!(!prompt.contains("gauravanilwankhede"));
}

#[test]
fn test_social_links_order_and_wording() {
    let owner = test_owner();
    let links = owner.format_social_links();
    let lines: Vec<&str> = links.lines().collect();
    assert_eq!(lines.len(), 3);
    assert_eq!(
        lines[0],
        "- **YouTube (TestChannel):** https://youtube.com/@test — \"I share tutorials and insights here\""
    );
    assert_eq!(
        lines[1],
        "- **LinkedIn:** https://linkedin.com/in/test — \"Let's connect professionally\""
    );
    assert_eq!(
        lines[2],
        "- **Email:** test@example.com — \"For collaborations or questions\""
    );
}

#[test]
fn test_social_links_default_channel_name() {
    let mut owner = bare_owner();
    owner.youtube_url = Some("https://youtube.com/@x".to_string());
    let links = owner.format_social_links();
    assert!(links.contains("- **YouTube (My Channel):** https://youtube.com/@x"));
}

#[test]
fn test_format_expertise_empty_default() {
    let owner = bare_owner();
    assert_eq!(owner.format_expertise(), "Software Development");
}

#[test]
fn test_from_secrets_defaults() {
    let owner = PortfolioOwner::from_secrets(OwnerSecrets {
        name: None,
        title: None,
        tagline: None,
        location: None,
        expertise: None,
        youtube_url: None,
        youtube_channel: None,
        linkedin_url: None,
        github_url: None,
        twitter_url: None,
        email: None,
        website_url: None,
    });
    assert_eq!(owner.name, "Portfolio Owner");
    assert_eq!(owner.title, "Software Developer");
    assert_eq!(owner.tagline, "Building solutions that matter");
    assert_eq!(owner.location, "Earth");
    assert_eq!(owner.expertise, vec!["Software Development", "Web Development"]);
    assert!(owner.youtube_url.is_none());
}

#[test]
fn test_from_secrets_expertise_trimmed_and_filtered() {
    let owner = PortfolioOwner::from_secrets(OwnerSecrets {
        name: Some("A".to_string()),
        title: Some("B".to_string()),
        tagline: Some("C".to_string()),
        location: Some("D".to_string()),
        expertise: Some("  Rust ,, ,  Go,Python  ".to_string()),
        youtube_url: None,
        youtube_channel: None,
        linkedin_url: None,
        github_url: None,
        twitter_url: None,
        email: None,
        website_url: None,
    });
    assert_eq!(owner.expertise, vec!["Rust", "Go", "Python"]);
}

#[test]
fn test_full_prompt_carries_question_verbatim() {
    let full = build_full_prompt("SYSTEM TEXT", "What do you build?");
    assert_eq!(full, "SYSTEM TEXT\n\nUser Question: What do you build?");
    assert!(full.ends_with("User Question: What do you build?"));
}
