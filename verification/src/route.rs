//! The route table: a deterministic mapping from a request path to a
//! `(ResourceType, capture)` pair.
//!
//! The table holds two patterns, in priority order: a prefix pattern
//! `/project/<rest>` tagged `Bundle` (capturing `<rest>`, which may contain
//! `/`), and a universal catch-all tagged `External` matching every other
//! non-empty path. The more specific prefix pattern always wins.

use vstd::prelude::*;
use vstd::string::StrSliceExecFns;
use vstd::string::StringExecFns;

verus! {

/// The kind of resource a matched route serves; it selects which configured
/// subdirectory of the project the capture is resolved under.
#[derive(Clone, Copy, Debug, PartialEq, Eq, Structural)]
pub enum ResourceType {
    Bundle,
    External,
}

/// The literal prefix of the bundle route pattern.
pub open spec fn spec_bundle_prefix() -> Seq<char> {
    "/project/"@
}

/// `pre` is a literal prefix of `p`.
pub open spec fn seq_has_prefix(p: Seq<char>, pre: Seq<char>) -> bool {
    p.len() >= pre.len() && p.subrange(0, pre.len() as int) == pre
}

/// What `ResourceRouter::lookup` returns: the most specific match wins.
///
/// A path beginning with `/project/` matches the bundle pattern, with the
/// remainder as capture. Any other non-empty path matches the catch-all,
/// capturing the path with one leading `/` removed. Only the empty path
/// matches neither pattern.
pub open spec fn spec_lookup(p: Seq<char>) -> Option<(ResourceType, Seq<char>)> {
    if seq_has_prefix(p, spec_bundle_prefix()) {
        Some((ResourceType::Bundle, p.skip(spec_bundle_prefix().len() as int)))
    } else if p.len() > 0 {
        if p[0] == '/' {
            Some((ResourceType::External, p.skip(1)))
        } else {
            Some((ResourceType::External, p))
        }
    } else {
        None
    }
}

/// Returns whether `pre` is a literal prefix of `s`.
pub fn str_has_prefix(s: &str, pre: &str) -> (b: bool)
    ensures
        b == seq_has_prefix(s@, pre@),
{
    let n = pre.unicode_len();
    let m = s.unicode_len();
    if m < n {
        return false;
    }
    let mut i: usize = 0;
    while i < n
        invariant
            i <= n,
            n == pre@.len(),
            m == s@.len(),
            n <= m,
            forall|j: int| 0 <= j < i ==> s@[j] == pre@[j],
        decreases n - i,
    {
        if s.get_char(i) != pre.get_char(i) {
            proof {
                if seq_has_prefix(s@, pre@) {
                    assert(s@.subrange(0, n as int)[i as int] == pre@[i as int]);
                }
            }
            return false;
        }
        i += 1;
    }
    proof {
        assert(s@.subrange(0, n as int) =~= pre@);
    }
    true
}

/// The immutable route table. Built once at startup; lookups are read-only,
/// so any number of concurrent callers may share it.
pub struct ResourceRouter {
    bundle_prefix: String,
}

impl ResourceRouter {
    /// The table always holds the fixed pair of patterns.
    #[verifier::type_invariant]
    pub closed spec fn wf(self) -> bool {
        self.bundle_prefix@ == spec_bundle_prefix()
    }

    /// Builds the table with its two entries, the bundle prefix pattern
    /// ahead of the catch-all.
    pub fn new() -> ResourceRouter {
        ResourceRouter { bundle_prefix: String::from_str("/project/") }
    }

    /// Finds the most specific pattern matching `path` and returns its kind
    /// and capture; `None` only when no pattern matches (the empty path).
    pub fn lookup(&self, path: &str) -> (r: Option<(ResourceType, String)>)
        ensures
            match spec_lookup(path@) {
                Some(m) => r matches Some(p) && p.0 == m.0 && p.1@ == m.1,
                None => r is None,
            },
    {
        proof {
            use_type_invariant(self);
        }
        let m = path.unicode_len();
        if str_has_prefix(path, self.bundle_prefix.as_str()) {
            let n = self.bundle_prefix.as_str().unicode_len();
            let cap = path.substring_char(n, m);
            proof {
                assert(cap@ =~= path@.skip(spec_bundle_prefix().len() as int));
            }
            Some((ResourceType::Bundle, String::from_str(cap)))
        } else if m == 0 {
            None
        } else if path.get_char(0) == '/' {
            let cap = path.substring_char(1, m);
            proof {
                assert(cap@ =~= path@.skip(1));
            }
            Some((ResourceType::External, String::from_str(cap)))
        } else {
            Some((ResourceType::External, String::from_str(path)))
        }
    }
}

/// Routing law: every path beginning with `/project/` selects `Bundle`,
/// never `External`, whatever follows the prefix; the capture is the
/// remainder of the path.
pub proof fn lemma_project_prefix_selects_bundle(p: Seq<char>)
    requires
        seq_has_prefix(p, spec_bundle_prefix()),
    ensures
        spec_lookup(p) matches Some(m) && m.0 == ResourceType::Bundle && m.1 == p.skip(
            spec_bundle_prefix().len() as int,
        ),
{
}

/// Routing law: every non-empty path not beginning with `/project/` selects
/// `External` — the catch-all is a universal fallback; the capture is the
/// path with one leading `/` removed.
pub proof fn lemma_catch_all_selects_external(p: Seq<char>)
    requires
        p.len() > 0,
        !seq_has_prefix(p, spec_bundle_prefix()),
    ensures
        spec_lookup(p) matches Some(m) && m.0 == ResourceType::External && m.1 == (
        if p[0] == '/' {
            p.skip(1)
        } else {
            p
        }),
{
}

} // verus!
