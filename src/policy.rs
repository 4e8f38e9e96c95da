use vstd::prelude::*;

verus! {

/// The categories of text whose audio is worth keeping: short template
/// phrases that stand for a span of code or a link, and recur often.
#[derive(Clone, Copy, Debug, PartialEq, Eq, Structural)]
pub enum CacheTarget {
    Code,
    Url,
}

/// The literal text that names a category.
pub open spec fn target_text(t: CacheTarget) -> Seq<char> {
    match t {
        CacheTarget::Code => "CODE"@,
        CacheTarget::Url => "URL"@,
    }
}

/// The category that a text names, if any: the text must be exactly one
/// category's name (case-sensitive, no trimming).
pub open spec fn target_of(text: Seq<char>) -> Option<CacheTarget> {
    if text == "CODE"@ {
        Some(CacheTarget::Code)
    } else if text == "URL"@ {
        Some(CacheTarget::Url)
    } else {
        None
    }
}

/// Whether audio for this text may be kept in the cache.
pub open spec fn cacheable(text: Seq<char>) -> bool {
    target_of(text) is Some
}

impl CacheTarget {
    /// Reads a category from a text; `None` for any text that names none.
    pub fn parse(text: &String) -> (r: Option<CacheTarget>)
        ensures
            r == target_of(text@),
    {
        let code = "CODE".to_owned();
        let url = "URL".to_owned();
        if text.eq(&code) {
            Some(CacheTarget::Code)
        } else if text.eq(&url) {
            Some(CacheTarget::Url)
        } else {
            None
        }
    }

    /// The text that names this category.
    pub fn name(&self) -> (r: String)
        ensures
            r@ == target_text(*self),
            target_of(r@) == Some(*self),
    {
        proof {
            reveal_strlit("CODE");
            reveal_strlit("URL");
        }
        match self {
            CacheTarget::Code => "CODE".to_owned(),
            CacheTarget::Url => "URL".to_owned(),
        }
    }
}

/// Whether audio generated for this text is to be kept in the cache. Depends on
/// the text alone.
pub fn is_cacheable(text: &String) -> (r: bool)
    ensures
        r == cacheable(text@),
{
    CacheTarget::parse(text).is_some()
}

} // verus!
