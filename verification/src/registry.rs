//! The version registry's records in their raw shape, and their
//! conversion into the launcher's model.
//!
//! A raw record pairs one program with a list of platform name pairs; the
//! launcher's model wants one entry per platform. The conversion flattens
//! the records in order, maps the platform names onto the model's OS and
//! architecture (unknown names mean "any"), and rejects a program that
//! names neither a jar file nor a native executable.

use vstd::prelude::*;

use crate::game;

verus! {

/// Why turning registry text into the launcher's model failed.
#[derive(Debug, PartialEq, Eq)]
pub enum RegistryError {
    /// The JSON text could not be read; holds the reader's message.
    InvalidJson(String),
    /// The records were well-formed JSON but incomplete; holds the reason.
    Parsing(String),
}

/// A platform name pair as the registry writes it.
#[derive(Debug, PartialEq, Eq)]
pub struct Platform {
    pub os: String,
    pub arch: String,
}

impl Clone for Platform {
    fn clone(&self) -> (r: Self)
        ensures
            r == *self,
    {
        Platform { os: self.os.clone(), arch: self.arch.clone() }
    }
}

/// How to obtain and start one build.
#[derive(Debug, PartialEq, Eq)]
pub struct Program {
    pub archive: String,
    pub jar_file: Option<String>,
    pub java_exe: Option<String>,
    pub executable: Option<String>,
}

/// One raw record: a build and the platform name pairs it serves.
#[derive(Debug, PartialEq, Eq)]
pub struct Distribution {
    pub platforms: Vec<Platform>,
    pub program: Program,
}

/// A released game version as the registry lists it.
#[derive(Debug, PartialEq, Eq)]
pub struct GameVersion {
    pub id: String,
    pub name: String,
    pub release_date: String,
    pub distributions: Vec<Distribution>,
}

/// The model's OS named by a registry string: `"any"` and unknown names
/// restrict nothing.
pub open spec fn core_os(os: Seq<char>) -> Option<game::OS> {
    if os == "mac"@ {
        Some(game::OS::Macos)
    } else if os == "linux"@ {
        Some(game::OS::Linux)
    } else if os == "windows"@ {
        Some(game::OS::Windows)
    } else {
        None
    }
}

/// The model's architecture named by a registry string: `"any"` and
/// unknown names restrict nothing.
pub open spec fn core_arch(arch: Seq<char>) -> Option<game::Arch> {
    if arch == "arm64"@ {
        Some(game::Arch::Arm64)
    } else if arch == "x64"@ {
        Some(game::Arch::X64)
    } else {
        None
    }
}

/// The model's platform filter for a raw name pair.
pub open spec fn core_platform(p: Platform) -> game::Platform {
    game::Platform { os: core_os(p.os@), arch: core_arch(p.arch@) }
}

/// The way to start a raw program: a native executable wins over a jar
/// file; a program naming neither is invalid.
pub open spec fn exe_spec(p: Program) -> Option<game::ProgramExe> {
    match p.executable {
        Some(executable) => Some(game::ProgramExe::Native { executable }),
        None => match p.jar_file {
            Some(jar_file) => Some(
                game::ProgramExe::Jvm { jar_file, java_exe: p.java_exe },
            ),
            None => None,
        },
    }
}

/// The model entries one raw record flattens to: one per platform pair,
/// in order, all sharing the record's program.
pub open spec fn dist_entries(d: Distribution) -> Seq<game::Distribution> {
    d.platforms@.map_values(
        |p: Platform|
            game::Distribution {
                platform: core_platform(p),
                archive: d.program.archive,
                exe: exe_spec(d.program).unwrap(),
            },
    )
}

/// The model entries a whole record list flattens to, in order.
pub open spec fn flattened_distributions(dists: Seq<Distribution>) -> Seq<game::Distribution> {
    dists.map_values(|d: Distribution| dist_entries(d)).flatten()
}

/// A record is valid when its program can be started — or when it lists
/// no platform at all, in which case its program is never looked at.
pub open spec fn dist_valid(d: Distribution) -> bool {
    d.platforms@.len() == 0 || exe_spec(d.program) is Some
}

/// The message a program without jar file and executable is rejected with.
pub open spec fn missing_program_message() -> Seq<char> {
    "must have either program.jar_file or program.executable"@
}

impl Program {
    /// The archive location.
    pub fn archive(&self) -> (r: String)
        ensures
            r == self.archive,
    {
        self.archive.clone()
    }

    /// The way to start this program, or the reason there is none.
    pub fn exe(&self) -> (r: Result<game::ProgramExe, RegistryError>)
        ensures
            match exe_spec(*self) {
                Some(e) => r == Ok::<game::ProgramExe, RegistryError>(e),
                None => r matches Err(RegistryError::Parsing(m)) && m@
                    == missing_program_message(),
            },
            r is Ok <==> exe_spec(*self) is Some,
    {
        if let Some(executable) = &self.executable {
            Ok(game::ProgramExe::Native { executable: executable.clone() })
        } else if let Some(jar_file) = &self.jar_file {
            Ok(
                game::ProgramExe::Jvm {
                    jar_file: jar_file.clone(),
                    java_exe: match &self.java_exe {
                        Some(j) => Some(j.clone()),
                        None => None,
                    },
                },
            )
        } else {
            Err(
                RegistryError::Parsing(
                    String::from_str("must have either program.jar_file or program.executable"),
                ),
            )
        }
    }
}

impl Platform {
    /// Map the raw name pair onto the model's platform filter.
    pub fn into_core(self) -> (r: game::Platform)
        ensures
            r == core_platform(self),
    {
        let os = if self.os == String::from_str("mac") {
            Some(game::OS::Macos)
        } else if self.os == String::from_str("linux") {
            Some(game::OS::Linux)
        } else if self.os == String::from_str("windows") {
            Some(game::OS::Windows)
        } else {
            None
        };
        let arch = if self.arch == String::from_str("arm64") {
            Some(game::Arch::Arm64)
        } else if self.arch == String::from_str("x64") {
            Some(game::Arch::X64)
        } else {
            None
        };
        game::Platform { os, arch }
    }
}

impl GameVersion {
    /// Flatten the record into the launcher's model: one entry per
    /// platform pair, in record order. Fails exactly when a record with
    /// at least one platform has a program that cannot be started.
    pub fn into_core(self) -> (r: Result<game::GameVersion, RegistryError>)
        ensures
            r is Ok <==> (forall|i: int|
                0 <= i < self.distributions@.len() ==> dist_valid(#[trigger] self.distributions@[i])),
            match r {
                Ok(v) => {
                    &&& v.id == self.id
                    &&& v.name == self.name
                    &&& v.release_date == self.release_date
                    &&& v.distributions@ == flattened_distributions(self.distributions@)
                },
                Err(e) => e matches RegistryError::Parsing(m) && m@ == missing_program_message(),
            },
    {
        let ghost all = self.distributions@;
        let ghost entry_seqs = all.map_values(|d: Distribution| dist_entries(d));
        let mut dists: Vec<game::Distribution> = Vec::new();
        let n = self.distributions.len();
        let mut i: usize = 0;
        assert(entry_seqs.subrange(0, 0) =~= Seq::<Seq<game::Distribution>>::empty());
        assert(Seq::<Seq<game::Distribution>>::empty().flatten()
            =~= Seq::<game::Distribution>::empty());
        while i < n
            invariant
                i <= n,
                n == all.len(),
                all == self.distributions@,
                entry_seqs == all.map_values(|d: Distribution| dist_entries(d)),
                forall|k: int| 0 <= k < i ==> dist_valid(#[trigger] all[k]),
                dists@ =~= entry_seqs.subrange(0, i as int).flatten(),
            decreases n - i,
        {
            let d = &self.distributions[i];
            let m = d.platforms.len();
            let mut j: usize = 0;
            while j < m
                invariant
                    j <= m,
                    i < all.len(),
                    all == self.distributions@,
                    entry_seqs == all.map_values(|d: Distribution| dist_entries(d)),
                    *d == all[i as int],
                    m == d.platforms@.len(),
                    j > 0 ==> exe_spec(d.program) is Some,
                    dists@ =~= entry_seqs.subrange(0, i as int).flatten() + dist_entries(
                        *d,
                    ).subrange(0, j as int),
                decreases m - j,
            {
                let platform = d.platforms[j].clone().into_core();
                let archive = d.program.archive();
                let exe = match d.program.exe() {
                    Ok(e) => e,
                    Err(e) => {
                        return Err(e);
                    },
                };
                dists.push(game::Distribution { platform, archive, exe });
                assert(dist_entries(*d).subrange(0, j as int + 1) =~= dist_entries(*d).subrange(
                    0,
                    j as int,
                ).push(dist_entries(*d)[j as int]));
                j = j + 1;
            }
            proof {
                assert(dist_valid(all[i as int]));
                assert(dist_entries(*d).subrange(0, m as int) =~= dist_entries(*d));
                assert(entry_seqs.subrange(0, i as int + 1) =~= entry_seqs.subrange(
                    0,
                    i as int,
                ).push(entry_seqs[i as int]));
                entry_seqs.subrange(0, i as int).lemma_flatten_push(entry_seqs[i as int]);
            }
            i = i + 1;
        }
        proof {
            assert(entry_seqs.subrange(0, entry_seqs.len() as int) =~= entry_seqs);
        }
        Ok(
            game::GameVersion {
                id: self.id,
                name: self.name,
                release_date: self.release_date,
                distributions: dists,
            },
        )
    }
}

} // verus!
