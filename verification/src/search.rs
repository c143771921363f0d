//! Keyword-search semantics: the query is split into whitespace tokens, and
//! a document matches when any token occurs case-insensitively as a
//! substring of any of the searched fields. Results keep store order and are
//! capped at a limit; there is no relevance ranking — a known limitation of
//! this fallback, kept as it is.

use vstd::prelude::*;
use crate::record::{group_text_field, text_field, DocRecord};
use crate::text::{keep_nonblank, lower_of, lowercase, contains_str, nonblank_strings,
    seq_contains, split_sep, split_string, Separator};

verus! {

/// The whitespace-delimited tokens of a query.
pub open spec fn spec_tokens(s: Seq<char>) -> Seq<Seq<char>> {
    keep_nonblank(split_sep(s, Separator::Space))
}

/// Splits a query into whitespace-delimited tokens.
pub fn tokenize(s: &str) -> (r: Vec<String>)
    ensures
        r@.map_values(|p: String| p@) == spec_tokens(s@),
{
    nonblank_strings(split_string(s, Separator::Space))
}

/// The text a dotted field path reaches in a document: one segment names a
/// top-level text field, two name an entry of a group field.
pub open spec fn path_text(d: DocRecord, path: Seq<char>) -> Option<Seq<char>> {
    let segs = split_sep(path, Separator::Dot);
    if segs.len() == 1 {
        text_field(d, segs[0])
    } else if segs.len() == 2 {
        group_text_field(d, segs[0], segs[1])
    } else {
        None
    }
}

/// Looks up the text a dotted field path reaches, if any.
pub fn lookup_path(d: &DocRecord, path: &str) -> (r: Option<String>)
    ensures
        match r {
            Some(t) => path_text(*d, path@) == Some(t@),
            None => path_text(*d, path@) is None,
        },
{
    let segs = split_string(path, Separator::Dot);
    if segs.len() == 1 {
        d.get_text(segs[0].as_str())
    } else if segs.len() == 2 {
        d.get_group_text(segs[0].as_str(), segs[1].as_str())
    } else {
        None
    }
}

/// Whether `token` occurs case-insensitively in the field `path` reaches.
pub open spec fn field_matches(d: DocRecord, path: Seq<char>, token: Seq<char>) -> bool {
    match path_text(d, path) {
        Some(t) => seq_contains(lower_of(t), lower_of(token)),
        None => false,
    }
}

/// Whether any token matches any searched field of the document.
pub open spec fn doc_matches(d: DocRecord, tokens: Seq<Seq<char>>, fields: Seq<Seq<char>>) -> bool {
    exists|i: int, j: int|
        0 <= i < tokens.len() && 0 <= j < fields.len() && #[trigger] field_matches(
            d,
            fields[j],
            tokens[i],
        )
}

/// Decides whether the document matches the keyword query: any token, in any
/// of the given fields, as a case-insensitive substring.
pub fn keyword_matches(d: &DocRecord, tokens: &Vec<String>, fields: &Vec<String>) -> (r: bool)
    ensures
        r == doc_matches(
            *d,
            tokens@.map_values(|p: String| p@),
            fields@.map_values(|p: String| p@),
        ),
{
    let ghost tviews = tokens@.map_values(|p: String| p@);
    let ghost fviews = fields@.map_values(|p: String| p@);
    let mut i: usize = 0;
    while i < tokens.len()
        invariant
            i <= tokens@.len(),
            tviews == tokens@.map_values(|p: String| p@),
            fviews == fields@.map_values(|p: String| p@),
            forall|a: int, b: int|
                0 <= a < i && 0 <= b < fviews.len() ==> !#[trigger] field_matches(
                    *d,
                    fviews[b],
                    tviews[a],
                ),
        decreases tokens@.len() - i,
    {
        let low_token = lowercase(tokens[i].as_str());
        let mut j: usize = 0;
        while j < fields.len()
            invariant
                i < tokens@.len(),
                j <= fields@.len(),
                tviews == tokens@.map_values(|p: String| p@),
                fviews == fields@.map_values(|p: String| p@),
                low_token@ == lower_of(tviews[i as int]),
                forall|b: int|
                    0 <= b < j ==> !#[trigger] field_matches(*d, fviews[b], tviews[i as int]),
            decreases fields@.len() - j,
        {
            if let Some(text) = lookup_path(d, fields[j].as_str()) {
                let low_text = lowercase(text.as_str());
                if contains_str(low_text.as_str(), low_token.as_str()) {
                    proof {
                        assert(field_matches(*d, fviews[j as int], tviews[i as int]));
                    }
                    return true;
                }
            }
            j = j + 1;
        }
        i = i + 1;
    }
    false
}

/// The first documents that match the query, in store order, at most `limit`
/// of them.
pub open spec fn spec_select(
    docs: Seq<DocRecord>,
    tokens: Seq<Seq<char>>,
    fields: Seq<Seq<char>>,
    limit: int,
) -> Seq<DocRecord>
    decreases docs.len(),
{
    if docs.len() == 0 || limit <= 0 {
        Seq::empty()
    } else if doc_matches(docs[0], tokens, fields) {
        seq![docs[0]] + spec_select(docs.drop_first(), tokens, fields, limit - 1)
    } else {
        spec_select(docs.drop_first(), tokens, fields, limit)
    }
}

/// Keyword search over already-fetched documents: splits the query into
/// whitespace tokens and keeps, in order, up to `limit` documents in which
/// any token occurs case-insensitively in any of the given fields.
pub fn keyword_search(
    docs: Vec<DocRecord>,
    query: &str,
    fields: &Vec<String>,
    limit: usize,
) -> (r: Vec<DocRecord>)
    ensures
        r@ == spec_select(
            docs@,
            spec_tokens(query@),
            fields@.map_values(|p: String| p@),
            limit as int,
        ),
        r@.len() <= limit,
{
    let ghost tviews = spec_tokens(query@);
    let ghost fviews = fields@.map_values(|p: String| p@);
    let ghost orig = docs@;
    let tokens = tokenize(query);
    let mut rest = docs;
    let mut out: Vec<DocRecord> = Vec::new();
    proof {
        assert(out@ + spec_select(orig, tviews, fviews, limit as int) =~= spec_select(
            orig,
            tviews,
            fviews,
            limit as int,
        ));
    }
    while rest.len() > 0 && out.len() < limit
        invariant
            out@.len() <= limit,
            tviews == tokens@.map_values(|p: String| p@),
            fviews == fields@.map_values(|p: String| p@),
            spec_select(orig, tviews, fviews, limit as int) == out@ + spec_select(
                rest@,
                tviews,
                fviews,
                limit - out@.len(),
            ),
        decreases rest@.len(),
    {
        let ghost prev_rest = rest@;
        let ghost prev_out = out@;
        let d = rest.remove(0);
        proof {
            assert(prev_rest[0] == d);
            assert(prev_rest.drop_first() =~= rest@);
        }
        if keyword_matches(&d, &tokens, fields) {
            out.push(d);
            proof {
                assert(spec_select(prev_rest, tviews, fviews, limit - prev_out.len())
                    == seq![prev_rest[0]] + spec_select(
                    rest@,
                    tviews,
                    fviews,
                    limit - prev_out.len() - 1,
                ));
                assert(out@ =~= prev_out.push(prev_rest[0]));
                assert(out@ + spec_select(rest@, tviews, fviews, limit - out@.len()) =~= prev_out
                    + (seq![prev_rest[0]] + spec_select(
                    rest@,
                    tviews,
                    fviews,
                    limit - prev_out.len() - 1,
                )));
            }
        }
    }
    proof {
        if rest@.len() == 0 {
            assert(spec_select(rest@, tviews, fviews, limit - out@.len()) =~= Seq::<
                DocRecord,
            >::empty());
        } else {
            assert(spec_select(rest@, tviews, fviews, 0) =~= Seq::<DocRecord>::empty());
        }
        assert(out@ + Seq::<DocRecord>::empty() =~= out@);
    }
    out
}

} // verus!
