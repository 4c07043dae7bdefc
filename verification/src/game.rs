//! Data model of the launcher: game versions and their platform-specific
//! distributions, and the selection of the best distribution for a platform.

use vstd::prelude::*;

verus! {

/// Machine architecture a distribution can target.
#[derive(Debug, PartialEq, Eq, Clone, Copy, Structural)]
pub enum Arch {
    X64,
    Arm64,
}

/// Operating system a distribution can target.
#[derive(Debug, PartialEq, Eq, Clone, Copy, Structural)]
pub enum OS {
    Windows,
    Linux,
    Macos,
}

/// Platform filter of a distribution; `None` in a field means the
/// distribution accepts any value there.
#[derive(Debug, PartialEq, Eq, Clone, Copy, Structural)]
pub struct Platform {
    pub os: Option<OS>,
    pub arch: Option<Arch>,
}

impl Platform {
    /// The filter that accepts every platform.
    pub fn any() -> (r: Self)
        ensures
            r == (Platform { os: None, arch: None }),
    {
        Platform { os: None, arch: None }
    }

    /// Restrict the filter to one operating system.
    pub fn with_os(self, os: OS) -> (r: Self)
        ensures
            r == (Platform { os: Some(os), arch: self.arch }),
    {
        Platform { os: Some(os), ..self }
    }

    /// Restrict the filter to one architecture.
    pub fn with_arch(self, arch: Arch) -> (r: Self)
        ensures
            r == (Platform { os: self.os, arch: Some(arch) }),
    {
        Platform { arch: Some(arch), ..self }
    }
}

/// How a downloaded game version is started.
#[derive(Debug, PartialEq, Eq)]
pub enum ProgramExe {
    Jvm { jar_file: String, java_exe: Option<String> },
    Native { executable: String },
}

impl Clone for ProgramExe {
    fn clone(&self) -> (r: Self)
        ensures
            r == *self,
    {
        match self {
            ProgramExe::Jvm { jar_file, java_exe } => ProgramExe::Jvm {
                jar_file: jar_file.clone(),
                java_exe: match java_exe {
                    Some(j) => Some(j.clone()),
                    None => None,
                },
            },
            ProgramExe::Native { executable } => ProgramExe::Native {
                executable: executable.clone(),
            },
        }
    }
}

impl ProgramExe {
    /// A jar file run by a Java installation provided by the system.
    pub fn provided_jvm(jar_file: String) -> (r: Self)
        ensures
            r == (ProgramExe::Jvm { jar_file, java_exe: None }),
    {
        ProgramExe::Jvm { jar_file, java_exe: None }
    }

    /// A jar file run by a Java installation shipped with the game.
    pub fn embedded_jvm(jar_file: String, java_exe: String) -> (r: Self)
        ensures
            r == (ProgramExe::Jvm { jar_file, java_exe: Some(java_exe) }),
    {
        ProgramExe::Jvm { jar_file, java_exe: Some(java_exe) }
    }

    /// A native executable.
    pub fn native(executable: String) -> (r: Self)
        ensures
            r == (ProgramExe::Native { executable }),
    {
        ProgramExe::Native { executable }
    }
}

/// One downloadable build of a game version, together with the platforms
/// it is meant for and the way to start it.
#[derive(Debug, PartialEq, Eq)]
pub struct Distribution {
    pub platform: Platform,
    pub archive: String,
    pub exe: ProgramExe,
}

impl Clone for Distribution {
    fn clone(&self) -> (r: Self)
        ensures
            r == *self,
    {
        Distribution {
            platform: self.platform,
            archive: self.archive.clone(),
            exe: self.exe.clone(),
        }
    }
}

/// A released game version and its distributions.
#[derive(Debug, PartialEq, Eq)]
pub struct GameVersion {
    pub id: String,
    pub name: String,
    pub release_date: String,
    pub distributions: Vec<Distribution>,
}

/// The first distribution in `dists` whose platform filter is exactly
/// `(os, arch)`.
pub open spec fn first_exact_match(
    dists: Seq<Distribution>,
    os: Option<OS>,
    arch: Option<Arch>,
) -> Option<Distribution>
    decreases dists.len(),
{
    if dists.len() == 0 {
        None
    } else if dists[0].platform.os == os && dists[0].platform.arch == arch {
        Some(dists[0])
    } else {
        first_exact_match(dists.drop_first(), os, arch)
    }
}

/// The distribution selected for `(os, arch)`: an exact match is preferred,
/// then a match on the OS alone, then on the architecture alone, then a
/// fully unrestricted one.
pub open spec fn preferred_distribution(
    dists: Seq<Distribution>,
    os: OS,
    arch: Arch,
) -> Option<Distribution> {
    match first_exact_match(dists, Some(os), Some(arch)) {
        Some(d) => Some(d),
        None => match first_exact_match(dists, Some(os), None) {
            Some(d) => Some(d),
            None => match first_exact_match(dists, None, Some(arch)) {
                Some(d) => Some(d),
                None => first_exact_match(dists, None, None),
            },
        },
    }
}

impl GameVersion {
    /// A version with the given identifiers and no distributions yet.
    pub fn new(id: String, name: String, release_date: String) -> (r: Self)
        ensures
            r.id == id,
            r.name == name,
            r.release_date == release_date,
            r.distributions@ == Seq::<Distribution>::empty(),
    {
        GameVersion { id, name, release_date, distributions: Vec::new() }
    }

    /// The first distribution whose filter equals `(os, arch)` exactly.
    fn distribution_with(&self, os: Option<OS>, arch: Option<Arch>) -> (r: Option<Distribution>)
        ensures
            r == first_exact_match(self.distributions@, os, arch),
    {
        let n = self.distributions.len();
        let mut i: usize = 0;
        assert(self.distributions@.skip(0) =~= self.distributions@);
        while i < n
            invariant
                i <= n,
                n == self.distributions@.len(),
                first_exact_match(self.distributions@, os, arch)
                    == first_exact_match(self.distributions@.skip(i as int), os, arch),
            decreases n - i,
        {
            let d = &self.distributions[i];
            let os_eq = match (&d.platform.os, &os) {
                (Some(a), Some(b)) => *a == *b,
                (None, None) => true,
                _ => false,
            };
            let arch_eq = match (&d.platform.arch, &arch) {
                (Some(a), Some(b)) => *a == *b,
                (None, None) => true,
                _ => false,
            };
            if os_eq && arch_eq {
                assert(self.distributions@.skip(i as int)[0] == self.distributions@[i as int]);
                return Some(d.clone());
            }
            assert(self.distributions@.skip(i as int).drop_first()
                =~= self.distributions@.skip(i + 1));
            i = i + 1;
        }
        assert(self.distributions@.skip(n as int).len() == 0);
        None
    }

    /// Select the distribution for the given platform, preferring the most
    /// specific matching filter.
    pub fn distribution(&self, os: OS, arch: Arch) -> (r: Option<Distribution>)
        ensures
            r == preferred_distribution(self.distributions@, os, arch),
    {
        match self.distribution_with(Some(os), Some(arch)) {
            Some(d) => Some(d),
            None => match self.distribution_with(Some(os), None) {
                Some(d) => Some(d),
                None => match self.distribution_with(None, Some(arch)) {
                    Some(d) => Some(d),
                    None => self.distribution_with(None, None),
                },
            },
        }
    }
}

} // verus!
