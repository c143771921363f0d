//! The portfolio owner's persona: identity fields injected into the system
//! prompt. Every field comes from configuration, with fixed defaults where a
//! value is missing.

use vstd::prelude::*;
use crate::text::{concat3, join_sep, join_strings, keep_nonblank, spec_trim, split_sep,
    split_string, trim_string, Separator};

verus! {

/// Identity and social links of the portfolio owner.
#[derive(Clone, Debug)]
pub struct PortfolioOwner {
    /// Full name of the portfolio owner.
    pub name: String,
    /// Professional title.
    pub title: String,
    /// Short bio line.
    pub tagline: String,
    /// Location.
    pub location: String,
    /// Core expertise areas.
    pub expertise: Vec<String>,
    /// Social links, each optional.
    pub youtube_url: Option<String>,
    pub youtube_channel_name: Option<String>,
    pub linkedin_url: Option<String>,
    pub github_url: Option<String>,
    pub twitter_url: Option<String>,
    pub email: Option<String>,
    pub website_url: Option<String>,
}

/// The raw configuration values an owner is built from; a `None` falls back
/// to the default for that field.
pub struct OwnerSecrets {
    pub name: Option<String>,
    pub title: Option<String>,
    pub tagline: Option<String>,
    pub location: Option<String>,
    /// Comma-separated expertise areas.
    pub expertise: Option<String>,
    pub youtube_url: Option<String>,
    pub youtube_channel: Option<String>,
    pub linkedin_url: Option<String>,
    pub github_url: Option<String>,
    pub twitter_url: Option<String>,
    pub email: Option<String>,
    pub website_url: Option<String>,
}

/// A configured value, or the default where none was given.
pub open spec fn value_or(v: Option<String>, dflt: Seq<char>) -> Seq<char> {
    match v {
        Some(s) => s@,
        None => dflt,
    }
}

/// The expertise areas parsed from a comma-separated string: each part
/// trimmed of whitespace, blank parts dropped.
pub open spec fn parsed_expertise(s: Seq<char>) -> Seq<Seq<char>> {
    keep_nonblank(split_sep(s, Separator::Comma).map_values(|p: Seq<char>| spec_trim(p)))
}

/// Splits a comma-separated expertise string into trimmed, non-blank areas.
pub fn parse_expertise(s: &str) -> (r: Vec<String>)
    ensures
        r@.map_values(|p: String| p@) == parsed_expertise(s@),
{
    let parts = split_string(s, Separator::Comma);
    let ghost part_views = parts@.map_values(|p: String| p@);
    let ghost trimmed = part_views.map_values(|p: Seq<char>| spec_trim(p));
    let mut out: Vec<String> = Vec::new();
    let mut i: usize = 0;
    proof {
        assert(trimmed.subrange(0, 0) =~= Seq::<Seq<char>>::empty());
    }
    while i < parts.len()
        invariant
            i <= parts@.len(),
            part_views == parts@.map_values(|p: String| p@),
            trimmed == part_views.map_values(|p: Seq<char>| spec_trim(p)),
            out@.map_values(|p: String| p@) == keep_nonblank(trimmed.subrange(0, i as int)),
        decreases parts@.len() - i,
    {
        let ghost prev = out@;
        let t = trim_string(parts[i].as_str());
        proof {
            let pre = trimmed.subrange(0, i as int);
            let ext = trimmed.subrange(0, i + 1);
            assert(ext.drop_last() =~= pre);
            assert(ext.last() == trimmed[i as int]);
            assert(keep_nonblank(ext) == if trimmed[i as int].len() > 0 {
                keep_nonblank(pre).push(trimmed[i as int])
            } else {
                keep_nonblank(pre)
            });
        }
        if !t.as_str().is_empty() {
            out.push(t);
            proof {
                assert(out@.map_values(|p: String| p@) =~= prev.map_values(|p: String| p@).push(
                    trimmed[i as int],
                ));
            }
        }
        i = i + 1;
    }
    proof {
        assert(trimmed.subrange(0, parts@.len() as int) =~= trimmed);
        assert(parsed_expertise(s@) == keep_nonblank(trimmed));
    }
    out
}

fn or_default(v: Option<String>, dflt: &str) -> (r: String)
    ensures
        r@ == value_or(v, dflt@),
{
    match v {
        Some(s) => s,
        None => dflt.to_owned(),
    }
}

/// The expertise section of the prompt: the areas joined by commas, or a
/// fixed default where none are configured.
pub open spec fn expertise_note(o: PortfolioOwner) -> Seq<char> {
    if o.expertise@.len() == 0 {
        "Software Development"@
    } else {
        join_sep(o.expertise@.map_values(|p: String| p@), ", "@)
    }
}

/// The social-links section of the prompt: one bullet line per configured
/// link, in fixed order, or a fixed sentence where none is configured.
pub open spec fn social_links_note(o: PortfolioOwner) -> Seq<char> {
    if social_lines(o).len() == 0 {
        "No social links configured."@
    } else {
        join_sep(social_lines(o), "\n"@)
    }
}

/// The bullet lines of the social-links section, in fixed order.
pub open spec fn social_lines(o: PortfolioOwner) -> Seq<Seq<char>> {
    (match o.youtube_url {
        Some(u) => seq![
            "- **YouTube ("@ + value_or(o.youtube_channel_name, "My Channel"@) + "):** "@ + u@
                + " — \"I share tutorials and insights here\""@,
        ],
        None => Seq::empty(),
    }) + (match o.linkedin_url {
        Some(u) => seq!["- **LinkedIn:** "@ + u@ + " — \"Let's connect professionally\""@],
        None => Seq::empty(),
    }) + (match o.github_url {
        Some(u) => seq!["- **GitHub:** "@ + u@ + " — \"Check out my open-source work\""@],
        None => Seq::empty(),
    }) + (match o.twitter_url {
        Some(u) => seq!["- **Twitter/X:** "@ + u@ + " — \"Follow for tech updates\""@],
        None => Seq::empty(),
    }) + (match o.email {
        Some(e) => seq!["- **Email:** "@ + e@ + " — \"For collaborations or questions\""@],
        None => Seq::empty(),
    }) + (match o.website_url {
        Some(u) => seq!["- **Website:** "@ + u@ + " — \"Visit my portfolio\""@],
        None => Seq::empty(),
    })
}

impl PortfolioOwner {
    /// Builds the owner from configuration values, falling back to fixed
    /// defaults for identity fields and parsing the expertise list.
    pub fn from_secrets(s: OwnerSecrets) -> (r: PortfolioOwner)
        ensures
            r.name@ == value_or(s.name, "Portfolio Owner"@),
            r.title@ == value_or(s.title, "Software Developer"@),
            r.tagline@ == value_or(s.tagline, "Building solutions that matter"@),
            r.location@ == value_or(s.location, "Earth"@),
            r.expertise@.map_values(|p: String| p@) == parsed_expertise(
                value_or(s.expertise, "Software Development, Web Development"@),
            ),
            r.youtube_url == s.youtube_url,
            r.youtube_channel_name == s.youtube_channel,
            r.linkedin_url == s.linkedin_url,
            r.github_url == s.github_url,
            r.twitter_url == s.twitter_url,
            r.email == s.email,
            r.website_url == s.website_url,
    {
        let expertise_str = or_default(s.expertise, "Software Development, Web Development");
        let expertise = parse_expertise(expertise_str.as_str());
        PortfolioOwner {
            name: or_default(s.name, "Portfolio Owner"),
            title: or_default(s.title, "Software Developer"),
            tagline: or_default(s.tagline, "Building solutions that matter"),
            location: or_default(s.location, "Earth"),
            expertise,
            youtube_url: s.youtube_url,
            youtube_channel_name: s.youtube_channel,
            linkedin_url: s.linkedin_url,
            github_url: s.github_url,
            twitter_url: s.twitter_url,
            email: s.email,
            website_url: s.website_url,
        }
    }

    /// Formats the social-links section for the prompt.
    pub fn format_social_links(&self) -> (r: String)
        ensures
            r@ == social_links_note(*self),
    {
        let mut lines: Vec<String> = Vec::new();
        if let Some(url) = &self.youtube_url {
            let channel = match &self.youtube_channel_name {
                Some(c) => c.as_str(),
                None => "My Channel",
            };
            let head = concat3("- **YouTube (", channel, "):** ");
            lines.push(
                concat3(head.as_str(), url.as_str(), " — \"I share tutorials and insights here\""),
            );
        }
        if let Some(url) = &self.linkedin_url {
            lines.push(
                concat3("- **LinkedIn:** ", url.as_str(), " — \"Let's connect professionally\""),
            );
        }
        if let Some(url) = &self.github_url {
            lines.push(
                concat3("- **GitHub:** ", url.as_str(), " — \"Check out my open-source work\""),
            );
        }
        if let Some(url) = &self.twitter_url {
            lines.push(concat3("- **Twitter/X:** ", url.as_str(), " — \"Follow for tech updates\""));
        }
        if let Some(email) = &self.email {
            lines.push(
                concat3("- **Email:** ", email.as_str(), " — \"For collaborations or questions\""),
            );
        }
        if let Some(url) = &self.website_url {
            lines.push(concat3("- **Website:** ", url.as_str(), " — \"Visit my portfolio\""));
        }
        proof {
            assert(lines@.map_values(|p: String| p@) =~= social_lines(*self));
        }
        if lines.len() == 0 {
            "No social links configured.".to_owned()
        } else {
            join_strings(&lines, "\n")
        }
    }

    /// Formats the expertise section for the prompt.
    pub fn format_expertise(&self) -> (r: String)
        ensures
            r@ == expertise_note(*self),
    {
        if self.expertise.len() == 0 {
            "Software Development".to_owned()
        } else {
            join_strings(&self.expertise, ", ")
        }
    }
}

} // verus!
