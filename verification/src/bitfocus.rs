//! Choosing the build to offer from the Bitfocus builds API.
//!
//! The API lists packages such as `{"version": "v4.3.1", "target":
//! "linux-tgz"}`; the latest stable Linux version is the highest version
//! among packages whose target starts with `linux-`.
use vstd::prelude::*;

use crate::text::{chars_of, has_prefix, starts_with_chars};
use crate::version::{is_update_available, law_compare_total, law_not_older_transitive, version_lt};

verus! {

/// One package of the builds API.
pub struct Package {
    pub version: String,
    pub target: String,
}

/// The package is built for Linux: its target starts with `linux-`.
pub open spec fn is_linux(p: Package) -> bool {
    has_prefix(p.target@, "linux-"@)
}

/// `ps[k]` is what `Iterator::max_by` picks among the Linux packages: a
/// Linux package no other Linux package is newer than, and the last such.
pub open spec fn is_latest_linux(ps: Seq<Package>, k: int) -> bool {
    &&& 0 <= k < ps.len()
    &&& is_linux(ps[k])
    &&& forall|j: int|
        0 <= j < ps.len() && is_linux(#[trigger] ps[j]) ==> !version_lt(
            ps[k].version@,
            ps[j].version@,
        )
    &&& forall|j: int|
        k < j < ps.len() && is_linux(#[trigger] ps[j]) ==> version_lt(
            ps[j].version@,
            ps[k].version@,
        )
}

/// At most one package is the latest Linux package.
pub proof fn law_latest_linux_unique(ps: Seq<Package>, k1: int, k2: int)
    requires
        is_latest_linux(ps, k1),
        is_latest_linux(ps, k2),
    ensures
        k1 == k2,
{
    if k1 < k2 {
        law_compare_total(ps[k2].version@, ps[k1].version@);
        assert(version_lt(ps[k2].version@, ps[k1].version@));
    } else if k2 < k1 {
        law_compare_total(ps[k1].version@, ps[k2].version@);
        assert(version_lt(ps[k1].version@, ps[k2].version@));
    }
}

fn is_linux_package(p: &Package) -> (b: bool)
    ensures
        b == is_linux(*p),
{
    let target = chars_of(p.target.as_str());
    let prefix = chars_of("linux-");
    starts_with_chars(&target, &prefix)
}

/// The version of the newest Linux package, if there is one.
pub fn pick_latest_linux(packages: &[Package]) -> (r: Option<String>)
    ensures
        r is None <==> forall|j: int| 0 <= j < packages@.len() ==> !is_linux(#[trigger] packages@[j]),
        r matches Some(v) ==> exists|k: int|
            is_latest_linux(packages@, k) && v@ == #[trigger] packages@[k].version@,
{
    let mut best: Option<usize> = None;
    let mut i: usize = 0;
    while i < packages.len()
        invariant
            i <= packages@.len(),
            best is None <==> forall|j: int| 0 <= j < i ==> !is_linux(#[trigger] packages@[j]),
            best matches Some(k) ==> {
                &&& k < i
                &&& is_linux(packages@[k as int])
                &&& forall|j: int|
                    0 <= j < i && is_linux(#[trigger] packages@[j]) ==> !version_lt(
                        packages@[k as int].version@,
                        packages@[j].version@,
                    )
                &&& forall|j: int|
                    k < j < i && is_linux(#[trigger] packages@[j]) ==> version_lt(
                        packages@[j].version@,
                        packages@[k as int].version@,
                    )
            },
        decreases packages@.len() - i,
    {
        let p = &packages[i];
        if is_linux_package(p) {
            match best {
                None => {
                    proof {
                        law_compare_total(p.version@, p.version@);
                    }
                    best = Some(i);
                },
                Some(k) => {
                    let older = is_update_available(p.version.as_str(), packages[k].version.as_str());
                    if !older {
                        proof {
                            let pk = packages@[k as int].version@;
                            law_compare_total(p.version@, p.version@);
                            assert forall|j: int|
                                0 <= j < i + 1 && is_linux(#[trigger] packages@[j]) implies !version_lt(
                                p.version@,
                                packages@[j].version@,
                            ) by {
                                if j < i {
                                    law_not_older_transitive(packages@[j].version@, pk, p.version@);
                                }
                            }
                        }
                        best = Some(i);
                    } else {
                        proof {
                            law_compare_total(p.version@, packages@[k as int].version@);
                        }
                    }
                },
            }
        }
        i = i + 1;
    }
    match best {
        None => None,
        Some(k) => {
            let v = packages[k].version.clone();
            proof {
                assert(is_latest_linux(packages@, k as int));
            }
            Some(v)
        },
    }
}

} // verus!
