//! The deterministic key that names a synthesized build project on disk.
//!
//! The key is derived from the host package's name, its version truncated to
//! major.minor, and the annotated module's name. Identical keys reuse one
//! filesystem location, so the external build tool's own incremental cache
//! applies; the patch component of the version deliberately does not enter
//! the key.

use vstd::prelude::*;

use crate::text::dec_of;
use crate::text::is_identifier;
use crate::text::is_package_name;
use crate::text::lemma_dec_of_digits;
use crate::text::u64_to_dec;

verus! {

/// The package that the annotated module lives in, as the host frontend
/// reports it: name plus full semantic version.
pub struct HostPackage {
    pub name: String,
    pub major: u64,
    pub minor: u64,
    pub patch: u64,
}

/// The derived key of one synthesized project.
pub struct CrateIdentity {
    pub package_name: String,
    pub major: u64,
    pub minor: u64,
    pub module_name: String,
}

/// The major.minor rendering of a truncated version: `major "." minor`.
pub open spec fn version_seq(major: u64, minor: u64) -> Seq<char> {
    dec_of(major as nat) + seq!['.'] + dec_of(minor as nat)
}

/// The identity string: `package "-" major "." minor "-" module`.
pub open spec fn identity_seq(package: Seq<char>, major: u64, minor: u64, module: Seq<char>) -> Seq<
    char,
> {
    package + seq!['-'] + version_seq(major, minor) + seq!['-'] + module
}

impl CrateIdentity {
    /// Both name components are syntactically valid.
    pub open spec fn wf(self) -> bool {
        &&& is_package_name(self.package_name@)
        &&& is_identifier(self.module_name@)
    }

    /// The key of the identity as a single spec-level string.
    pub open spec fn spec_string(self) -> Seq<char> {
        identity_seq(self.package_name@, self.major, self.minor, self.module_name@)
    }

    /// Derives the identity from the host package and the module name.
    /// The patch component of the host version is dropped.
    pub fn of_host(host: &HostPackage, module_name: &str) -> (r: CrateIdentity)
        ensures
            r.package_name@ == host.name@,
            r.major == host.major,
            r.minor == host.minor,
            r.module_name@ == module_name@,
    {
        CrateIdentity {
            package_name: host.name.clone(),
            major: host.major,
            minor: host.minor,
            module_name: String::from_str(module_name),
        }
    }

    /// Renders the identity string used as the project's directory name.
    pub fn identity_string(&self) -> (r: String)
        ensures
            r@ == self.spec_string(),
    {
        let mut r = self.package_name.clone();
        r.append("-");
        r.append(u64_to_dec(self.major).as_str());
        r.append(".");
        r.append(u64_to_dec(self.minor).as_str());
        r.append("-");
        r.append(self.module_name.as_str());
        proof {
            reveal_strlit("-");
            reveal_strlit(".");
            assert(r@ =~= self.spec_string());
        }
        r
    }
}

/// Equal truncated versions render equally; distinct ones render distinctly.
proof fn lemma_version_seq_injective(a1: u64, b1: u64, a2: u64, b2: u64)
    ensures
        version_seq(a1, b1) == version_seq(a2, b2) ==> a1 == a2 && b1 == b2,
{
    if version_seq(a1, b1) == version_seq(a2, b2) {
        lemma_dec_of_digits(a1 as nat);
        lemma_dec_of_digits(a2 as nat);
        lemma_dec_of_digits(b1 as nat);
        lemma_dec_of_digits(b2 as nat);
        let l1 = dec_of(a1 as nat).len();
        let l2 = dec_of(a2 as nat).len();
        assert(version_seq(a1, b1)[l1 as int] == '.');
        assert(version_seq(a2, b2)[l2 as int] == '.');
        if l1 < l2 {
            assert(version_seq(a2, b2)[l1 as int] == dec_of(a2 as nat)[l1 as int]);
            assert(false);
        }
        if l2 < l1 {
            assert(version_seq(a1, b1)[l2 as int] == dec_of(a1 as nat)[l2 as int]);
            assert(false);
        }
        assert(dec_of(a1 as nat) =~= dec_of(a2 as nat)) by {
            assert(forall|i: int|
                0 <= i < l1 ==> #[trigger] dec_of(a1 as nat)[i] == version_seq(a1, b1)[i]
                    && dec_of(a2 as nat)[i] == version_seq(a2, b2)[i]);
        }
        crate::text::lemma_dec_of_injective(a1 as nat, a2 as nat);
        assert(dec_of(b1 as nat) =~= dec_of(b2 as nat)) by {
            assert(version_seq(a1, b1).len() == version_seq(a2, b2).len());
            assert(forall|i: int|
                0 <= i < dec_of(b1 as nat).len() ==> #[trigger] dec_of(b1 as nat)[i]
                    == version_seq(a1, b1)[l1 + 1 + i] && dec_of(b2 as nat)[i] == version_seq(
                    a2,
                    b2,
                )[l1 + 1 + i]);
        }
        crate::text::lemma_dec_of_injective(b1 as nat, b2 as nat);
    }
}

/// The identity is a pure function of package name, truncated version and
/// module name: identities with equal components render to the same string,
/// and the patch version never enters the result.
pub proof fn lemma_identity_pure(x: CrateIdentity, y: CrateIdentity)
    requires
        x.package_name@ == y.package_name@,
        x.major == y.major,
        x.minor == y.minor,
        x.module_name@ == y.module_name@,
    ensures
        x.spec_string() == y.spec_string(),
{
}

/// Changing the module name with all else fixed changes the identity string.
pub proof fn lemma_identity_module_sensitive(x: CrateIdentity, y: CrateIdentity)
    requires
        x.package_name@ == y.package_name@,
        x.major == y.major,
        x.minor == y.minor,
        x.module_name@ != y.module_name@,
    ensures
        x.spec_string() != y.spec_string(),
{
    if x.spec_string() == y.spec_string() {
        let p = x.package_name@ + seq!['-'] + version_seq(x.major, x.minor) + seq!['-'];
        assert(x.module_name@ =~= y.module_name@) by {
            assert(x.spec_string().len() == y.spec_string().len());
            assert(forall|i: int|
                0 <= i < x.module_name@.len() ==> #[trigger] x.module_name@[i] == x.spec_string()[
                    p.len() + i
                ] && y.module_name@[i] == y.spec_string()[p.len() + i]);
        }
    }
}

/// Changing the truncated version with all else fixed changes the identity
/// string.
pub proof fn lemma_identity_version_sensitive(x: CrateIdentity, y: CrateIdentity)
    requires
        x.package_name@ == y.package_name@,
        x.module_name@ == y.module_name@,
        !(x.major == y.major && x.minor == y.minor),
    ensures
        x.spec_string() != y.spec_string(),
{
    if x.spec_string() == y.spec_string() {
        let p = x.package_name@ + seq!['-'];
        let v1 = version_seq(x.major, x.minor);
        let v2 = version_seq(y.major, y.minor);
        assert(x.spec_string().len() == p.len() + v1.len() + 1 + x.module_name@.len());
        assert(y.spec_string().len() == p.len() + v2.len() + 1 + y.module_name@.len());
        assert(v1.len() == v2.len());
        assert(v1 =~= v2) by {
            assert(forall|i: int|
                0 <= i < v1.len() ==> #[trigger] v1[i] == x.spec_string()[p.len() + i] && v2[i]
                    == y.spec_string()[p.len() + i]);
        }
        lemma_version_seq_injective(x.major, x.minor, y.major, y.minor);
    }
}

/// Deriving identities from two host packages that differ only in the patch
/// version yields the same identity string: the patch version alone never
/// invalidates the on-disk project location.
pub proof fn lemma_identity_patch_insensitive(
    x: CrateIdentity,
    y: CrateIdentity,
    hx: HostPackage,
    hy: HostPackage,
)
    requires
        hx.name@ == hy.name@,
        hx.major == hy.major,
        hx.minor == hy.minor,
        x.package_name@ == hx.name@,
        x.major == hx.major,
        x.minor == hx.minor,
        y.package_name@ == hy.name@,
        y.major == hy.major,
        y.minor == hy.minor,
        x.module_name@ == y.module_name@,
    ensures
        x.spec_string() == y.spec_string(),
{
}

} // verus!
