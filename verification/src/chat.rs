//! The chat orchestrator as an explicit decision table. One request walks
//! the phases embed, retrieve projects, retrieve certificates, complete; the
//! caller performs each returned action (the outside calls) and feeds the
//! outcome back in as the next event. If embedding fails the pipeline
//! degrades to direct chat on the raw message; a failed or empty vector
//! search falls back to keyword search; only a completion failure is fatal.

use vstd::prelude::*;
use crate::config::PortfolioOwner;
use crate::formatter::{format_certificates, format_projects, spec_format_certificates,
    spec_format_projects};
use crate::prompt::{build_full_prompt, build_system_prompt, spec_full_prompt, spec_system_prompt};
use crate::record::DocRecord;

verus! {

/// The two content collections the retrieval layer reads.
#[derive(Clone, Copy, PartialEq, Eq, Structural, Debug)]
pub enum CollectionKind {
    Projects,
    Certificates,
}

/// Where a chat request stands between two outside calls.
pub enum ChatPhase {
    /// The query is being embedded.
    AwaitEmbedding,
    /// Vector search over projects is running.
    AwaitProjectsVector,
    /// Keyword fallback over projects is running.
    AwaitProjectsKeyword,
    /// Vector search over certificates is running.
    AwaitCertificatesVector { projects: Vec<DocRecord> },
    /// Keyword fallback over certificates is running.
    AwaitCertificatesKeyword { projects: Vec<DocRecord> },
    /// The assembled prompt is at the completion client.
    AwaitCompletion,
    /// Embedding failed; the raw message is at the completion client.
    AwaitDirectCompletion,
    /// The reply is ready.
    Done { reply: String },
    /// The request failed; the caller maps this to a service error.
    Failed,
}

/// The outcome of the outside call the orchestrator waited on.
pub enum ChatEvent {
    /// Whether the embedding call produced a vector.
    EmbeddingDone { ok: bool },
    /// What a search call returned: documents, or `None` on failure.
    SearchDone { docs: Option<Vec<DocRecord>> },
    /// What the completion call returned: text, or `None` on failure.
    CompletionDone { reply: Option<String> },
}

/// What the caller must do next.
pub enum ChatAction {
    /// Embed the user's message.
    Embed,
    /// Run vector search with the held embedding.
    RunVectorSearch { collection: CollectionKind, index: String, limit: usize, candidate_pool: usize },
    /// Run keyword search with the raw message over the given fields.
    RunKeywordSearch { collection: CollectionKind, fields: Vec<String>, limit: usize },
    /// Send this prompt to the completion client.
    RunCompletion { prompt: String },
    /// Return this reply to the user.
    Respond { reply: String },
    /// Report a service error to the user.
    Fail,
}

/// How many documents each retrieval asks for.
pub open spec fn search_limit() -> int {
    3
}

/// How many nearest-neighbour candidates vector search examines.
pub open spec fn candidate_pool_size() -> int {
    10
}

/// The vector index serving a collection.
pub open spec fn index_name(k: CollectionKind) -> Seq<char> {
    match k {
        CollectionKind::Projects => "projects_index"@,
        CollectionKind::Certificates => "certificates_index"@,
    }
}

/// The fields keyword search scans for a collection.
pub open spec fn keyword_fields(k: CollectionKind) -> Seq<Seq<char>> {
    match k {
        CollectionKind::Projects => seq!["title"@, "description.overview"@],
        CollectionKind::Certificates => seq!["name"@, "issuer"@],
    }
}

/// The action is exactly a vector search on `k` with the fixed parameters.
pub open spec fn is_vector_action(a: ChatAction, k: CollectionKind) -> bool {
    match a {
        ChatAction::RunVectorSearch { collection, index, limit, candidate_pool } => {
            &&& collection == k
            &&& index@ == index_name(k)
            &&& limit == search_limit()
            &&& candidate_pool == candidate_pool_size()
        },
        _ => false,
    }
}

/// The action is exactly a keyword search on `k` with the fixed parameters.
pub open spec fn is_keyword_action(a: ChatAction, k: CollectionKind) -> bool {
    match a {
        ChatAction::RunKeywordSearch { collection, fields, limit } => {
            &&& collection == k
            &&& fields@.map_values(|p: String| p@) == keyword_fields(k)
            &&& limit == search_limit()
        },
        _ => false,
    }
}

/// The step into completion: both contexts formatted, the system prompt
/// assembled around them, and the user's question appended verbatim.
pub open spec fn is_completion_step(
    o: PortfolioOwner,
    query: Seq<char>,
    projects: Seq<DocRecord>,
    certificates: Seq<DocRecord>,
    next: ChatPhase,
    action: ChatAction,
) -> bool {
    &&& next is AwaitCompletion
    &&& match action {
        ChatAction::RunCompletion { prompt } => prompt@ == spec_full_prompt(
            spec_system_prompt(
                o,
                spec_format_projects(projects),
                spec_format_certificates(certificates),
            ),
            query,
        ),
        _ => false,
    }
}

/// The reply step: a completion result becomes the final reply, a completion
/// failure is fatal.
pub open spec fn is_reply_step(reply: Option<String>, next: ChatPhase, action: ChatAction) -> bool {
    match reply {
        Some(t) => {
            &&& match next {
                ChatPhase::Done { reply: r } => r@ == t@,
                _ => false,
            }
            &&& match action {
                ChatAction::Respond { reply: r } => r@ == t@,
                _ => false,
            }
        },
        None => next is Failed && action is Fail,
    }
}

/// The orchestrator's full decision table: what follows each phase on each
/// event. A phase fed an event it does not wait for fails the request.
pub open spec fn chat_transition(
    o: PortfolioOwner,
    query: Seq<char>,
    phase: ChatPhase,
    event: ChatEvent,
    next: ChatPhase,
    action: ChatAction,
) -> bool {
    match (phase, event) {
        (ChatPhase::AwaitEmbedding, ChatEvent::EmbeddingDone { ok }) => {
            if ok {
                next is AwaitProjectsVector && is_vector_action(action, CollectionKind::Projects)
            } else {
                next is AwaitDirectCompletion && match action {
                    ChatAction::RunCompletion { prompt } => prompt@ == query,
                    _ => false,
                }
            }
        },
        (ChatPhase::AwaitProjectsVector, ChatEvent::SearchDone { docs }) => {
            match docs {
                Some(ds) => if ds@.len() > 0 {
                    &&& match next {
                        ChatPhase::AwaitCertificatesVector { projects } => projects@ == ds@,
                        _ => false,
                    }
                    &&& is_vector_action(action, CollectionKind::Certificates)
                } else {
                    next is AwaitProjectsKeyword && is_keyword_action(
                        action,
                        CollectionKind::Projects,
                    )
                },
                None => next is AwaitProjectsKeyword && is_keyword_action(
                    action,
                    CollectionKind::Projects,
                ),
            }
        },
        (ChatPhase::AwaitProjectsKeyword, ChatEvent::SearchDone { docs }) => {
            let ds = match docs {
                Some(d) => d@,
                None => Seq::empty(),
            };
            &&& match next {
                ChatPhase::AwaitCertificatesVector { projects } => projects@ == ds,
                _ => false,
            }
            &&& is_vector_action(action, CollectionKind::Certificates)
        },
        (ChatPhase::AwaitCertificatesVector { projects }, ChatEvent::SearchDone { docs }) => {
            match docs {
                Some(ds) => if ds@.len() > 0 {
                    is_completion_step(o, query, projects@, ds@, next, action)
                } else {
                    &&& match next {
                        ChatPhase::AwaitCertificatesKeyword { projects: kept } => kept@
                            == projects@,
                        _ => false,
                    }
                    &&& is_keyword_action(action, CollectionKind::Certificates)
                },
                None => {
                    &&& match next {
                        ChatPhase::AwaitCertificatesKeyword { projects: kept } => kept@
                            == projects@,
                        _ => false,
                    }
                    &&& is_keyword_action(action, CollectionKind::Certificates)
                },
            }
        },
        (ChatPhase::AwaitCertificatesKeyword { projects }, ChatEvent::SearchDone { docs }) => {
            let ds = match docs {
                Some(d) => d@,
                None => Seq::empty(),
            };
            is_completion_step(o, query, projects@, ds, next, action)
        },
        (ChatPhase::AwaitCompletion, ChatEvent::CompletionDone { reply }) => is_reply_step(
            reply,
            next,
            action,
        ),
        (ChatPhase::AwaitDirectCompletion, ChatEvent::CompletionDone { reply }) => is_reply_step(
            reply,
            next,
            action,
        ),
        _ => next is Failed && action is Fail,
    }
}

fn vector_action(k: CollectionKind) -> (a: ChatAction)
    ensures
        is_vector_action(a, k),
{
    let index = match k {
        CollectionKind::Projects => "projects_index".to_owned(),
        CollectionKind::Certificates => "certificates_index".to_owned(),
    };
    ChatAction::RunVectorSearch { collection: k, index, limit: 3, candidate_pool: 10 }
}

fn keyword_action(k: CollectionKind) -> (a: ChatAction)
    ensures
        is_keyword_action(a, k),
{
    let mut fields: Vec<String> = Vec::new();
    match k {
        CollectionKind::Projects => {
            fields.push("title".to_owned());
            fields.push("description.overview".to_owned());
        },
        CollectionKind::Certificates => {
            fields.push("name".to_owned());
            fields.push("issuer".to_owned());
        },
    }
    proof {
        assert(fields@.map_values(|p: String| p@) =~= keyword_fields(k));
    }
    ChatAction::RunKeywordSearch { collection: k, fields, limit: 3 }
}

fn complete_with(
    owner: &PortfolioOwner,
    query: &str,
    projects: Vec<DocRecord>,
    certificates: Vec<DocRecord>,
) -> (r: (ChatPhase, ChatAction))
    ensures
        is_completion_step(*owner, query@, projects@, certificates@, r.0, r.1),
{
    let projects_context = format_projects(projects);
    let certificates_context = format_certificates(certificates);
    let system = build_system_prompt(owner, projects_context.as_str(), certificates_context.as_str());
    let prompt = build_full_prompt(system.as_str(), query);
    (ChatPhase::AwaitCompletion, ChatAction::RunCompletion { prompt })
}

fn reply_step(reply: Option<String>) -> (r: (ChatPhase, ChatAction))
    ensures
        is_reply_step(reply, r.0, r.1),
{
    match reply {
        Some(t) => {
            let echo = t.clone();
            (ChatPhase::Done { reply: t }, ChatAction::Respond { reply: echo })
        },
        None => (ChatPhase::Failed, ChatAction::Fail),
    }
}

/// Where a chat request starts: embedding the user's message.
pub fn chat_start() -> (r: (ChatPhase, ChatAction))
    ensures
        r.0 is AwaitEmbedding,
        r.1 is Embed,
{
    (ChatPhase::AwaitEmbedding, ChatAction::Embed)
}

/// Advances the orchestrator one step: from the current phase and the
/// outcome of the last outside call, decides the next phase and the next
/// action, exactly as the decision table states.
pub fn chat_step(owner: &PortfolioOwner, query: &str, phase: ChatPhase, event: ChatEvent) -> (r: (
    ChatPhase,
    ChatAction,
))
    ensures
        chat_transition(*owner, query@, phase, event, r.0, r.1),
{
    match (phase, event) {
        (ChatPhase::AwaitEmbedding, ChatEvent::EmbeddingDone { ok }) => {
            if ok {
                (ChatPhase::AwaitProjectsVector, vector_action(CollectionKind::Projects))
            } else {
                (
                    ChatPhase::AwaitDirectCompletion,
                    ChatAction::RunCompletion { prompt: query.to_owned() },
                )
            }
        },
        (ChatPhase::AwaitProjectsVector, ChatEvent::SearchDone { docs }) => {
            match docs {
                Some(ds) => {
                    if ds.len() > 0 {
                        (
                            ChatPhase::AwaitCertificatesVector { projects: ds },
                            vector_action(CollectionKind::Certificates),
                        )
                    } else {
                        (
                            ChatPhase::AwaitProjectsKeyword,
                            keyword_action(CollectionKind::Projects),
                        )
                    }
                },
                None => (
                    ChatPhase::AwaitProjectsKeyword,
                    keyword_action(CollectionKind::Projects),
                ),
            }
        },
        (ChatPhase::AwaitProjectsKeyword, ChatEvent::SearchDone { docs }) => {
            let ds = match docs {
                Some(d) => d,
                None => Vec::new(),
            };
            (
                ChatPhase::AwaitCertificatesVector { projects: ds },
                vector_action(CollectionKind::Certificates),
            )
        },
        (ChatPhase::AwaitCertificatesVector { projects }, ChatEvent::SearchDone { docs }) => {
            match docs {
                Some(ds) => {
                    if ds.len() > 0 {
                        complete_with(owner, query, projects, ds)
                    } else {
                        (
                            ChatPhase::AwaitCertificatesKeyword { projects },
                            keyword_action(CollectionKind::Certificates),
                        )
                    }
                },
                None => (
                    ChatPhase::AwaitCertificatesKeyword { projects },
                    keyword_action(CollectionKind::Certificates),
                ),
            }
        },
        (ChatPhase::AwaitCertificatesKeyword { projects }, ChatEvent::SearchDone { docs }) => {
            let ds = match docs {
                Some(d) => d,
                None => Vec::new(),
            };
            complete_with(owner, query, projects, ds)
        },
        (ChatPhase::AwaitCompletion, ChatEvent::CompletionDone { reply }) => reply_step(reply),
        (ChatPhase::AwaitDirectCompletion, ChatEvent::CompletionDone { reply }) => reply_step(
            reply,
        ),
        (_, _) => (ChatPhase::Failed, ChatAction::Fail),
    }
}

/// If embedding fails, the pipeline degrades to direct chat: the one action
/// taken is a completion on the raw user message with no context injected,
/// no retrieval runs, and the final reply is exactly what the completion
/// client returned.
pub proof fn lemma_direct_fallback(
    o: PortfolioOwner,
    query: Seq<char>,
    p1: ChatPhase,
    a1: ChatAction,
    p2: ChatPhase,
    a2: ChatAction,
    reply: String,
)
    requires
        chat_transition(
            o,
            query,
            ChatPhase::AwaitEmbedding,
            ChatEvent::EmbeddingDone { ok: false },
            p1,
            a1,
        ),
        chat_transition(o, query, p1, ChatEvent::CompletionDone { reply: Some(reply) }, p2, a2),
    ensures
        match a1 {
            ChatAction::RunCompletion { prompt } => prompt@ == query,
            _ => false,
        },
        !(a1 is RunVectorSearch) && !(a1 is RunKeywordSearch),
        !(a2 is RunVectorSearch) && !(a2 is RunKeywordSearch),
        match p2 {
            ChatPhase::Done { reply: r } => r@ == reply@,
            _ => false,
        },
        match a2 {
            ChatAction::Respond { reply: r } => r@ == reply@,
            _ => false,
        },
{
}

/// If vector search over projects returns zero documents and the keyword
/// fallback returns two, the project context the prompt is later built from
/// is exactly those two documents' blocks, not the empty-set placeholder.
pub proof fn lemma_keyword_fallback_feeds_context(
    o: PortfolioOwner,
    query: Seq<char>,
    none_found: Vec<DocRecord>,
    found: Vec<DocRecord>,
    p1: ChatPhase,
    a1: ChatAction,
    p2: ChatPhase,
    a2: ChatAction,
)
    requires
        none_found@.len() == 0,
        found@.len() == 2,
        crate::formatter::has_title(found@[0]),
        crate::formatter::has_title(found@[1]),
        chat_transition(
            o,
            query,
            ChatPhase::AwaitProjectsVector,
            ChatEvent::SearchDone { docs: Some(none_found) },
            p1,
            a1,
        ),
        chat_transition(o, query, p1, ChatEvent::SearchDone { docs: Some(found) }, p2, a2),
    ensures
        p1 is AwaitProjectsKeyword,
        is_keyword_action(a1, CollectionKind::Projects),
        match p2 {
            ChatPhase::AwaitCertificatesVector { projects } => projects@ == found@,
            _ => false,
        },
        spec_format_projects(found@) == crate::text::join_sep(
            seq![
                crate::formatter::project_block(found@[0]),
                crate::formatter::project_block(found@[1]),
            ],
            "\n\n"@,
        ),
        spec_format_projects(found@) != crate::formatter::projects_empty_note(),
{
    let ds = found@;
    let b0 = crate::formatter::project_block(ds[0]);
    let b1 = crate::formatter::project_block(ds[1]);
    let tail = ds.drop_first();
    assert(tail[0] == ds[1]);
    assert(tail.drop_first() =~= Seq::<DocRecord>::empty());
    assert(crate::formatter::project_blocks(Seq::<DocRecord>::empty()) =~= Seq::<
        Seq<char>,
    >::empty());
    assert(crate::formatter::project_blocks(tail) =~= seq![b1]);
    assert(crate::formatter::project_blocks(ds) =~= seq![b0, b1]);
    let blocks = seq![b0, b1];
    assert(blocks.drop_first() =~= seq![b1]);
    assert(crate::text::join_sep(seq![b1], "\n\n"@) == b1);
    let joined = crate::text::join_sep(blocks, "\n\n"@);
    assert(joined == b0 + "\n\n"@ + b1);
    reveal_strlit("**");
    reveal_strlit(
        "No specific projects to reference right now. If asked about projects, share that you have various projects on your GitHub and invite them to explore.",
    );
    assert(b0[0] == '*');
    assert(joined[0] == '*');
    assert(crate::formatter::projects_empty_note()[0] == 'N');
    assert(joined != crate::formatter::projects_empty_note());
}

/// One candidate answer of the completion provider: the texts of its parts.
pub struct ReplyCandidate {
    pub parts: Vec<String>,
}

/// What `extract_reply` returns: the first part of the first candidate, or a
/// fixed sentinel so the caller never surfaces an empty reply.
pub open spec fn spec_extract_reply(candidates: Seq<ReplyCandidate>) -> Seq<char> {
    if candidates.len() > 0 && candidates[0].parts@.len() > 0 {
        candidates[0].parts@[0]@
    } else {
        "No response generated"@
    }
}

/// Extracts the reply text from a completion response: the first candidate's
/// first part, or the fixed sentinel where the response carries none.
pub fn extract_reply(candidates: &Vec<ReplyCandidate>) -> (r: String)
    ensures
        r@ == spec_extract_reply(candidates@),
{
    if candidates.len() > 0 && candidates[0].parts.len() > 0 {
        candidates[0].parts[0].clone()
    } else {
        "No response generated".to_owned()
    }
}

} // verus!
