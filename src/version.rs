use vstd::prelude::*;
use vstd::string::*;

verus! {

/// The release channel every canonical identifier ends in.
pub open spec fn channel_suffix() -> Seq<char> {
    "-stable"@
}

/// Canonical release identifier of a requested version: the request with the
/// channel suffix appended.
pub open spec fn canonical_of(requested: Seq<char>) -> Seq<char> {
    requested + channel_suffix()
}

/// A request is safe to embed in a path when it holds no path separator.
pub open spec fn path_safe(requested: Seq<char>) -> bool {
    forall|i: int| 0 <= i < requested.len() ==> requested[i] != '/' && requested[i] != '\\'
}

/// A requested version and its canonical release identifier. The view is the
/// requested text; the canonical text always equals `canonical_of` of it.
pub struct VersionSpec {
    requested: String,
    canonical: String,
}

impl View for VersionSpec {
    type V = Seq<char>;

    closed spec fn view(&self) -> Seq<char> {
        self.requested@
    }
}

impl VersionSpec {
    #[verifier::type_invariant]
    spec fn derived(&self) -> bool {
        self.canonical@ == canonical_of(self.requested@)
    }

    /// Builds the spec of any requested text; no validation.
    pub fn new(requested: &str) -> (r: VersionSpec)
        ensures
            r@ == requested@,
    {
        let canonical = String::from_str(requested).concat("-stable");
        VersionSpec { requested: String::from_str(requested), canonical }
    }

    /// Builds the spec only of a request that holds no path separator.
    pub fn checked(requested: &str) -> (r: Option<VersionSpec>)
        ensures
            r.is_some() == path_safe(requested@),
            r matches Some(v) ==> v@ == requested@,
    {
        let n = requested.unicode_len();
        let mut i: usize = 0;
        while i < n
            invariant
                n == requested@.len(),
                i <= n,
                forall|j: int| 0 <= j < i ==> requested@[j] != '/' && requested@[j] != '\\',
            decreases n - i,
        {
            let c = requested.get_char(i);
            if c == '/' || c == '\\' {
                return None;
            }
            i = i + 1;
        }
        Some(VersionSpec::new(requested))
    }

    /// The requested text.
    pub fn requested(&self) -> (r: &str)
        ensures
            r@ == self@,
    {
        self.requested.as_str()
    }

    /// The canonical release identifier.
    pub fn canonical(&self) -> (r: &str)
        ensures
            r@ == canonical_of(self@),
    {
        proof {
            use_type_invariant(self);
        }
        self.canonical.as_str()
    }
}

/// Two specs built from the same requested text have the same canonical
/// identifier: it depends on that text alone.
pub proof fn canonical_is_deterministic(a: VersionSpec, b: VersionSpec)
    requires
        a@ == b@,
    ensures
        canonical_of(a@) == canonical_of(b@),
{
}

} // verus!
