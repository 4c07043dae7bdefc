//! The version registry's records as they arrive over the network, and
//! the selection of the program for a platform described by plain OS and
//! architecture names.
//!
//! Deserializing the JSON into these records is done by the embedding
//! layer; the selection logic lives here. A platform name of `"any"`
//! matches every platform, and a record's platforms are tried from the
//! most specific pairing to the least specific one.

use vstd::prelude::*;

verus! {

/// A platform name pair as the registry writes it, e.g. `("windows",
/// "x64")` or `("any", "any")`.
#[derive(Debug, PartialEq, Eq)]
pub struct Platform {
    os: String,
    arch: String,
}

impl Platform {
    /// The OS name.
    pub closed spec fn os_name(&self) -> Seq<char> {
        self.os@
    }

    /// The architecture name.
    pub closed spec fn arch_name(&self) -> Seq<char> {
        self.arch@
    }

    /// A platform from its two names.
    pub fn new(os: String, arch: String) -> (r: Self)
        ensures
            r.os_name() == os@,
            r.arch_name() == arch@,
    {
        Platform { os, arch }
    }
}

/// How to obtain and start one build of a game version.
#[derive(Debug, PartialEq, Eq)]
pub struct Program {
    pub archive: String,
    pub jar_file: Option<String>,
    pub java_exe: Option<String>,
    pub executable: Option<String>,
}

impl Clone for Program {
    fn clone(&self) -> (r: Self)
        ensures
            r == *self,
    {
        Program {
            archive: self.archive.clone(),
            jar_file: match &self.jar_file {
                Some(s) => Some(s.clone()),
                None => None,
            },
            java_exe: match &self.java_exe {
                Some(s) => Some(s.clone()),
                None => None,
            },
            executable: match &self.executable {
                Some(s) => Some(s.clone()),
                None => None,
            },
        }
    }
}

/// One build and the platform name pairs it serves.
#[derive(Debug, PartialEq, Eq)]
pub struct Distribution {
    platforms: Vec<Platform>,
    program: Program,
}

impl Distribution {
    /// The platform name pairs this build serves.
    pub closed spec fn spec_platforms(&self) -> Seq<Platform> {
        self.platforms@
    }

    /// The build itself.
    pub closed spec fn spec_program(&self) -> Program {
        self.program
    }

    /// A distribution from its parts.
    pub fn new(platforms: Vec<Platform>, program: Program) -> (r: Self)
        ensures
            r.spec_platforms() == platforms@,
            r.spec_program() == program,
    {
        Distribution { platforms, program }
    }
}

/// A released game version as the registry lists it.
#[derive(Debug, PartialEq, Eq)]
pub struct GameVersion {
    pub id: String,
    pub name: String,
    pub release_date: String,
    pub distributions: Vec<Distribution>,
}

/// Whether a distribution names the pair `(os, arch)` among its platforms.
pub open spec fn dist_matches(d: Distribution, os: Seq<char>, arch: Seq<char>) -> bool {
    exists|i: int|
        0 <= i < d.spec_platforms().len() && (#[trigger] d.spec_platforms()[i]).os_name() == os
            && d.spec_platforms()[i].arch_name() == arch
}

/// The program of the first distribution naming the pair `(os, arch)`.
pub open spec fn first_program_match(
    dists: Seq<Distribution>,
    os: Seq<char>,
    arch: Seq<char>,
) -> Option<Program>
    decreases dists.len(),
{
    if dists.len() == 0 {
        None
    } else if dist_matches(dists[0], os, arch) {
        Some(dists[0].spec_program())
    } else {
        first_program_match(dists.drop_first(), os, arch)
    }
}

/// The program selected for `(os, arch)`: the exact pair is preferred,
/// then the OS with any architecture, then the architecture on any OS,
/// then the fully unrestricted pair.
pub open spec fn preferred_program(
    dists: Seq<Distribution>,
    os: Seq<char>,
    arch: Seq<char>,
) -> Option<Program> {
    match first_program_match(dists, os, arch) {
        Some(p) => Some(p),
        None => match first_program_match(dists, os, "any"@) {
            Some(p) => Some(p),
            None => match first_program_match(dists, "any"@, arch) {
                Some(p) => Some(p),
                None => first_program_match(dists, "any"@, "any"@),
            },
        },
    }
}

impl GameVersion {
    /// The program of the first distribution naming exactly `(os, arch)`.
    fn distribution_exact(&self, os: &String, arch: &String) -> (r: Option<Program>)
        ensures
            r == first_program_match(self.distributions@, os@, arch@),
    {
        let n = self.distributions.len();
        let mut i: usize = 0;
        assert(self.distributions@.skip(0) =~= self.distributions@);
        while i < n
            invariant
                i <= n,
                n == self.distributions@.len(),
                first_program_match(self.distributions@, os@, arch@) == first_program_match(
                    self.distributions@.skip(i as int),
                    os@,
                    arch@,
                ),
            decreases n - i,
        {
            let d = &self.distributions[i];
            let m = d.platforms.len();
            let mut j: usize = 0;
            let mut found: bool = false;
            while j < m
                invariant
                    j <= m,
                    i < self.distributions@.len(),
                    *d == self.distributions@[i as int],
                    m == d.platforms@.len(),
                    !found ==> forall|k: int|
                        0 <= k < j ==> !((#[trigger] d.platforms@[k]).os_name() == os@
                            && d.platforms@[k].arch_name() == arch@),
                    found ==> dist_matches(*d, os@, arch@),
                decreases m - j,
            {
                if d.platforms[j].os == *os && d.platforms[j].arch == *arch {
                    proof {
                        assert((#[trigger] d.spec_platforms()[j as int]).os_name() == os@
                            && d.spec_platforms()[j as int].arch_name() == arch@);
                    }
                    found = true;
                }
                j = j + 1;
            }
            assert(self.distributions@.skip(i as int)[0] == self.distributions@[i as int]);
            if found {
                return Some(d.program.clone());
            }
            assert(!dist_matches(*d, os@, arch@));
            assert(self.distributions@.skip(i as int).drop_first() =~= self.distributions@.skip(
                i + 1,
            ));
            i = i + 1;
        }
        assert(self.distributions@.skip(n as int).len() == 0);
        None
    }

    /// Select the program for the platform, preferring the most specific
    /// matching name pair; `"any"` stands in for the missing names.
    pub fn distribution(&self, platform: &Platform) -> (r: Option<Program>)
        ensures
            r == preferred_program(
                self.distributions@,
                platform.os_name(),
                platform.arch_name(),
            ),
    {
        let any = String::from_str("any");
        match self.distribution_exact(&platform.os, &platform.arch) {
            Some(p) => Some(p),
            None => match self.distribution_exact(&platform.os, &any) {
                Some(p) => Some(p),
                None => match self.distribution_exact(&any, &platform.arch) {
                    Some(p) => Some(p),
                    None => self.distribution_exact(&any, &any),
                },
            },
        }
    }
}

} // verus!
