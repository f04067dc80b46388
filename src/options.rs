//! The values of the command-line options, read from their text.
use vstd::prelude::*;

use crate::text::same_text;
use crate::error::Error;

verus! {

/// What `str::to_lowercase` makes of a text.
pub uninterp spec fn lower_of(s: Seq<char>) -> Seq<char>;

/// Relies on `str::to_lowercase`: the lowercase form of `s`, which depends
/// on its characters alone.
#[verifier::external_body]
fn lowercase(s: &str) -> (r: String)
    ensures
        r@ == lower_of(s@),
{
    s.to_lowercase()
}

/// Where the report goes.
#[derive(Copy, Clone, Debug, PartialEq, Eq, Structural)]
pub enum Output {
    Terminal,
    Markdown,
}

/// The column that the summaries are sorted by.
#[derive(Copy, Clone, Debug, PartialEq, Eq, Structural)]
pub enum SortBy {
    Language,
    Files,
    Size,
    Blank,
    Comment,
    Code,
}

/// The direction of the sort.
#[derive(Copy, Clone, Debug, PartialEq, Eq, Structural)]
pub enum OrderBy {
    Asc,
    Desc,
}

pub open spec fn output_named(s: Seq<char>) -> Option<Output> {
    if s == "terminal"@ {
        Some(Output::Terminal)
    } else if s == "markdown"@ {
        Some(Output::Markdown)
    } else {
        None
    }
}

pub open spec fn sort_named(s: Seq<char>) -> Option<SortBy> {
    if s == "language"@ {
        Some(SortBy::Language)
    } else if s == "files"@ {
        Some(SortBy::Files)
    } else if s == "size"@ {
        Some(SortBy::Size)
    } else if s == "blank"@ {
        Some(SortBy::Blank)
    } else if s == "comment"@ {
        Some(SortBy::Comment)
    } else if s == "code"@ {
        Some(SortBy::Code)
    } else {
        None
    }
}

pub open spec fn order_named(s: Seq<char>) -> Option<OrderBy> {
    if s == "asc"@ {
        Some(OrderBy::Asc)
    } else if s == "desc"@ {
        Some(OrderBy::Desc)
    } else {
        None
    }
}

impl Output {
    /// The output that the lowercase name `s` selects; else an invalid argument that carries `s`.
    pub fn from_lowered(s: String) -> (r: Result<Output, Error>)
        ensures
            match output_named(s@) {
                Some(o) => r == Ok::<Output, Error>(o),
                None => (r matches Err(Error::InvalidArg(t)) && t@ == s@),
            },
    {
        if same_text(s.as_str(), "terminal") {
            Ok(Output::Terminal)
        } else if same_text(s.as_str(), "markdown") {
            Ok(Output::Markdown)
        } else {
            Err(Error::InvalidArg(s))
        }
    }

    /// The output named by `s`, in any case.
    pub fn parse(s: &str) -> (r: Result<Output, Error>)
        ensures
            match output_named(lower_of(s@)) {
                Some(o) => r == Ok::<Output, Error>(o),
                None => (r matches Err(Error::InvalidArg(t)) && t@ == lower_of(s@)),
            },
    {
        Output::from_lowered(lowercase(s))
    }
}

impl SortBy {
    /// The column that the lowercase name `s` selects; else an invalid argument that carries `s`.
    pub fn from_lowered(s: String) -> (r: Result<SortBy, Error>)
        ensures
            match sort_named(s@) {
                Some(o) => r == Ok::<SortBy, Error>(o),
                None => (r matches Err(Error::InvalidArg(t)) && t@ == s@),
            },
    {
        if same_text(s.as_str(), "language") {
            Ok(SortBy::Language)
        } else if same_text(s.as_str(), "files") {
            Ok(SortBy::Files)
        } else if same_text(s.as_str(), "size") {
            Ok(SortBy::Size)
        } else if same_text(s.as_str(), "blank") {
            Ok(SortBy::Blank)
        } else if same_text(s.as_str(), "comment") {
            Ok(SortBy::Comment)
        } else if same_text(s.as_str(), "code") {
            Ok(SortBy::Code)
        } else {
            Err(Error::InvalidArg(s))
        }
    }

    /// The column named by `s`, in any case.
    pub fn parse(s: &str) -> (r: Result<SortBy, Error>)
        ensures
            match sort_named(lower_of(s@)) {
                Some(o) => r == Ok::<SortBy, Error>(o),
                None => (r matches Err(Error::InvalidArg(t)) && t@ == lower_of(s@)),
            },
    {
        SortBy::from_lowered(lowercase(s))
    }
}

impl OrderBy {
    /// The direction that the lowercase name `s` selects; else an invalid argument that carries `s`.
    pub fn from_lowered(s: String) -> (r: Result<OrderBy, Error>)
        ensures
            match order_named(s@) {
                Some(o) => r == Ok::<OrderBy, Error>(o),
                None => (r matches Err(Error::InvalidArg(t)) && t@ == s@),
            },
    {
        if same_text(s.as_str(), "asc") {
            Ok(OrderBy::Asc)
        } else if same_text(s.as_str(), "desc") {
            Ok(OrderBy::Desc)
        } else {
            Err(Error::InvalidArg(s))
        }
    }

    /// The direction named by `s`, in any case.
    pub fn parse(s: &str) -> (r: Result<OrderBy, Error>)
        ensures
            match order_named(lower_of(s@)) {
                Some(o) => r == Ok::<OrderBy, Error>(o),
                None => (r matches Err(Error::InvalidArg(t)) && t@ == lower_of(s@)),
            },
    {
        OrderBy::from_lowered(lowercase(s))
    }
}

impl std::str::FromStr for Output {
    type Err = Error;

    fn from_str(s: &str) -> Result<Self, Self::Err> {
        Output::parse(s)
    }
}

impl std::str::FromStr for SortBy {
    type Err = Error;

    fn from_str(s: &str) -> Result<Self, Self::Err> {
        SortBy::parse(s)
    }
}

impl std::str::FromStr for OrderBy {
    type Err = Error;

    fn from_str(s: &str) -> Result<Self, Self::Err> {
        OrderBy::parse(s)
    }
}

/// The options of a run: where the report goes, how its summaries are
/// ordered, the directory to count and the file that lists paths to ignore.
pub struct Options {
    pub output: Output,
    pub sort_by: SortBy,
    pub order_by: OrderBy,
    pub entry: Option<String>,
    pub ignore_file: Option<String>,
}

} // verus!
