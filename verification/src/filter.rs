//! Value filters: exact text, compiled pattern, and the boolean
//! combinations of them. Pattern matching itself is the regex crate's work;
//! everything around it is verified against `spec_matches`.
use crate::text::str_eq;
use vstd::prelude::*;

verus! {

/// Whether the regex crate accepts a pattern.
pub uninterp spec fn regex_valid(pattern: Seq<char>) -> bool;

/// Whether a compiled pattern matches a text.
pub uninterp spec fn regex_match(pattern: Seq<char>, text: Seq<char>) -> bool;

/// Relies on regex::Regex::new and regex::Regex::is_match: the pattern
/// compiles or not on its own account, and whether the compiled pattern
/// matches the text depends on the pattern and the text alone.
#[verifier::external_body]
fn regex_is_match(pattern: &str, text: &str) -> (r: Option<bool>)
    ensures
        r is Some <==> regex_valid(pattern@),
        r matches Some(b) ==> b == regex_match(pattern@, text@),
{
    regex::Regex::new(pattern).ok().map(|re| re.is_match(text))
}

/// A filter over text values: exact equality, a regex pattern, or a
/// conjunction, disjunction or negation of other filters.
#[derive(Debug)]
pub enum LogFilter {
    ExactFilter(String),
    PatternFilter(String),
    AndFilter(Vec<LogFilter>),
    OrFilter(Vec<LogFilter>),
    NotFilter(Box<LogFilter>),
}

/// Every pattern in the filter compiles. The constructors establish this.
pub open spec fn wf_filter(f: LogFilter) -> bool
    decreases f,
{
    match f {
        LogFilter::ExactFilter(_) => true,
        LogFilter::PatternFilter(p) => regex_valid(p@),
        LogFilter::AndFilter(fs) => forall|i: int|
            0 <= i < fs@.len() ==> wf_filter(#[trigger] fs@[i]),
        LogFilter::OrFilter(fs) => forall|i: int|
            0 <= i < fs@.len() ==> wf_filter(#[trigger] fs@[i]),
        LogFilter::NotFilter(g) => wf_filter(*g),
    }
}

/// What a filter means: an exact filter is string equality, a pattern
/// filter is a regex match, a conjunction needs every branch, a disjunction
/// some branch, a negation none.
pub open spec fn spec_matches(f: LogFilter, value: Seq<char>) -> bool
    decreases f,
{
    match f {
        LogFilter::ExactFilter(s) => s@ == value,
        LogFilter::PatternFilter(p) => regex_match(p@, value),
        LogFilter::AndFilter(fs) => forall|i: int|
            0 <= i < fs@.len() ==> spec_matches(#[trigger] fs@[i], value),
        LogFilter::OrFilter(fs) => exists|i: int|
            0 <= i < fs@.len() && spec_matches(#[trigger] fs@[i], value),
        LogFilter::NotFilter(g) => !spec_matches(*g, value),
    }
}

impl LogFilter {
    /// A filter that demands exact equality with `t`.
    pub fn exact(t: String) -> (r: LogFilter)
        ensures
            r == LogFilter::ExactFilter(t),
            wf_filter(r),
    {
        LogFilter::ExactFilter(t)
    }

    /// The negation of this filter.
    pub fn negate(self) -> (r: LogFilter)
        ensures
            r == LogFilter::NotFilter(Box::new(self)),
            wf_filter(self) ==> wf_filter(r),
    {
        LogFilter::NotFilter(Box::new(self))
    }

    /// The negation of `f`.
    pub fn not(f: LogFilter) -> (r: LogFilter)
        ensures
            r == LogFilter::NotFilter(Box::new(f)),
            wf_filter(f) ==> wf_filter(r),
    {
        LogFilter::NotFilter(Box::new(f))
    }

    /// A filter for the regex pattern `p`, or nothing when the pattern does
    /// not compile.
    pub fn pattern(p: &str) -> (r: Option<LogFilter>)
        ensures
            match r {
                Some(f) => f matches LogFilter::PatternFilter(q) && q@ == p@ && regex_valid(p@)
                    && wf_filter(f),
                None => !regex_valid(p@),
            },
    {
        match regex_is_match(p, "") {
            Some(_) => Some(LogFilter::PatternFilter(p.to_owned())),
            None => None,
        }
    }

    /// The conjunction of `filters`.
    pub fn and(filters: Vec<LogFilter>) -> (r: LogFilter)
        ensures
            r == LogFilter::AndFilter(filters),
            (forall|i: int| 0 <= i < filters@.len() ==> wf_filter(#[trigger] filters@[i]))
                ==> wf_filter(r),
    {
        LogFilter::AndFilter(filters)
    }

    /// The disjunction of `filters`.
    pub fn or(filters: Vec<LogFilter>) -> (r: LogFilter)
        ensures
            r == LogFilter::OrFilter(filters),
            (forall|i: int| 0 <= i < filters@.len() ==> wf_filter(#[trigger] filters@[i]))
                ==> wf_filter(r),
    {
        LogFilter::OrFilter(filters)
    }

    /// Whether the filter matches `value`. On a filter whose patterns all
    /// compile this decides `spec_matches`; a pattern that does not compile
    /// matches nothing.
    pub fn matches(&self, value: &str) -> (r: bool)
        ensures
            wf_filter(*self) ==> r == spec_matches(*self, value@),
        decreases *self,
    {
        match self {
            LogFilter::ExactFilter(s) => str_eq(s.as_str(), value),
            LogFilter::PatternFilter(p) => match regex_is_match(p.as_str(), value) {
                Some(b) => b,
                None => false,
            },
            LogFilter::AndFilter(fs) => {
                let n = fs.len();
                let mut i: usize = 0;
                while i < n
                    invariant
                        n == fs@.len(),
                        i <= n,
                        *self matches LogFilter::AndFilter(fsv) && fsv == *fs,
                        wf_filter(*self) ==> forall|j: int|
                            0 <= j < i ==> spec_matches(#[trigger] fs@[j], value@),
                    decreases n - i,
                {
                    proof {
                        broadcast use vstd::std_specs::vec::axiom_vec_index_decreases;

                        assert(decreases_to!(*self => *fs));
                        assert(decreases_to!(*self => fs@[i as int]));
                    }
                    if !fs[i].matches(value) {
                        return false;
                    }
                    i = i + 1;
                }
                true
            },
            LogFilter::OrFilter(fs) => {
                let n = fs.len();
                let mut i: usize = 0;
                while i < n
                    invariant
                        n == fs@.len(),
                        i <= n,
                        *self matches LogFilter::OrFilter(fsv) && fsv == *fs,
                        wf_filter(*self) ==> forall|j: int|
                            0 <= j < i ==> !spec_matches(#[trigger] fs@[j], value@),
                    decreases n - i,
                {
                    proof {
                        broadcast use vstd::std_specs::vec::axiom_vec_index_decreases;

                        assert(decreases_to!(*self => *fs));
                        assert(decreases_to!(*self => fs@[i as int]));
                    }
                    if fs[i].matches(value) {
                        return true;
                    }
                    i = i + 1;
                }
                false
            },
            LogFilter::NotFilter(g) => !g.matches(value),
        }
    }
}

} // verus!
