//! Package versions as plain values: the pieces of a parsed standard
//! (semver-style) version that the npm package validator compares.

use vstd::prelude::*;

use crate::strutil::str_eq;

verus! {

/// A parsed version: release triple plus pre-release and build
/// identifier lists, held as plain values.
#[derive(Clone, Debug)]
pub struct Version {
    pub major: u64,
    pub minor: u64,
    pub patch: u64,
    pub pre: Vec<String>,
    pub build: Vec<String>,
}

/// The mathematical value of a [`Version`].
#[verifier::ext_equal]
pub struct VersionView {
    pub major: u64,
    pub minor: u64,
    pub patch: u64,
    pub pre: Seq<Seq<char>>,
    pub build: Seq<Seq<char>>,
}

impl View for Version {
    type V = VersionView;

    open spec fn view(&self) -> VersionView {
        VersionView {
            major: self.major,
            minor: self.minor,
            patch: self.patch,
            pre: self.pre.deep_view(),
            build: self.build.deep_view(),
        }
    }
}

/// What `deno_semver`'s standard parse yields for a version text, if
/// anything: a function of the text alone.
pub uninterp spec fn parsed_standard_version(text: Seq<char>) -> Option<VersionView>;

/// Relies on `deno_semver::Version::parse_standard`: parsing depends
/// on the text alone, and an unparsable text yields an error rather
/// than a version.
#[verifier::external_body]
pub(crate) fn parse_standard_version(text: &str) -> (r: Option<Version>)
    ensures
        r matches Some(v) ==> parsed_standard_version(text@) == Some(v@),
        r is None ==> parsed_standard_version(text@) is None,
{
    match deno_semver::Version::parse_standard(text) {
        Ok(v) => Some(
            Version {
                major: v.major,
                minor: v.minor,
                patch: v.patch,
                pre: v.pre,
                build: v.build,
            },
        ),
        Err(_) => None,
    }
}

/// Element-for-element equality of two identifier lists.
fn str_vec_eq(a: &Vec<String>, b: &Vec<String>) -> (r: bool)
    ensures
        r == (a.deep_view() == b.deep_view()),
{
    if a.len() != b.len() {
        assert(a.deep_view().len() != b.deep_view().len());
        return false;
    }
    let mut i: usize = 0;
    while i < a.len()
        invariant
            i <= a.len() == b.len(),
            forall|j: int| 0 <= j < i ==> a.deep_view()[j] == b.deep_view()[j],
        decreases a.len() - i,
    {
        if !str_eq(a[i].as_str(), b[i].as_str()) {
            assert(a.deep_view()[i as int] == a[i as int]@);
            assert(b.deep_view()[i as int] == b[i as int]@);
            return false;
        }
        i += 1;
    }
    assert(a.deep_view() =~= b.deep_view());
    true
}

impl Version {
    /// Whether two versions have the same value, every field compared.
    pub fn same_version(&self, other: &Version) -> (r: bool)
        ensures
            r == (self@ == other@),
    {
        let r = self.major == other.major && self.minor == other.minor && self.patch
            == other.patch && str_vec_eq(&self.pre, &other.pre) && str_vec_eq(
            &self.build,
            &other.build,
        );
        proof {
            if r {
                assert(self@ =~= other@);
            }
        }
        r
    }
}

} // verus!
