//! The plain data types the request layer exchanges with the library, and
//! the slug rule for certificates.

use vstd::prelude::*;
use crate::text::{is_alphanum, char_is_alphanum, join_sep, join_strings, keep_nonblank, lower_of,
    lowercase, nonblank_strings, split_sep, split_string, str_chars, string_from_chars, Separator};

verus! {

/// A chat request from the client.
pub struct ChatRequest {
    pub messages: String,
    pub chat_history: Option<Vec<ChatMessage>>,
}

/// One message of a chat history.
pub struct ChatMessage {
    pub role: String,
    pub content: String,
}

/// The chat reply returned to the client.
pub struct ChatResponse {
    pub content: String,
}

/// A certificate as the library reads it; identifiers and the stored
/// embedding stay with the storage layer.
pub struct Certificate {
    pub name: String,
    pub issuer: String,
    pub link: String,
    pub slug: String,
    pub issue_date: Option<String>,
    pub image_url: Option<String>,
}

/// The certificate fields a client may update; slug and embedding are
/// managed by the backend.
pub struct CertificateUpdate {
    pub name: String,
    pub issuer: String,
    pub link: String,
    pub issue_date: Option<String>,
    pub image_url: Option<String>,
}

/// What a database listing reports.
pub struct DatabaseInfo {
    pub databases: Vec<String>,
    pub current_database: String,
    pub collections: Vec<CollectionInfo>,
}

/// One collection and its document count.
pub struct CollectionInfo {
    pub name: String,
    pub document_count: i64,
}

/// `s` with every non-alphanumeric character replaced by a dash.
pub open spec fn dashed(s: Seq<char>) -> Seq<char> {
    s.map_values(
        |c: char|
            if is_alphanum(c) {
                c
            } else {
                '-'
            },
    )
}

/// What `generate_slug` returns: the name lowercased, every other character
/// turned into a dash, and the dash-separated pieces joined by single
/// dashes, so no slug starts or ends with a dash or repeats one.
pub open spec fn spec_slug(name: Seq<char>) -> Seq<char> {
    join_sep(keep_nonblank(split_sep(dashed(lower_of(name)), Separator::Dash)), "-"@)
}

impl Certificate {
    /// Derives the URL slug for a certificate name.
    pub fn generate_slug(name: &str) -> (r: String)
        ensures
            r@ == spec_slug(name@),
    {
        let low = lowercase(name);
        let cs = str_chars(low.as_str());
        let ghost target = dashed(lower_of(name@));
        let mut mapped: Vec<char> = Vec::new();
        let mut i: usize = 0;
        proof {
            assert(mapped@ =~= target.subrange(0, 0));
        }
        while i < cs.len()
            invariant
                i <= cs@.len(),
                cs@ == lower_of(name@),
                target == dashed(lower_of(name@)),
                mapped@ == target.subrange(0, i as int),
            decreases cs@.len() - i,
        {
            let c = cs[i];
            if char_is_alphanum(c) {
                mapped.push(c);
            } else {
                mapped.push('-');
            }
            proof {
                assert(mapped@ =~= target.subrange(0, i + 1));
            }
            i = i + 1;
        }
        proof {
            assert(target.subrange(0, cs@.len() as int) =~= target);
        }
        let flat = string_from_chars(&mapped);
        let parts = nonblank_strings(split_string(flat.as_str(), Separator::Dash));
        join_strings(&parts, "-")
    }
}

} // verus!
