use hexcore::game::{Arch, Distribution, GameVersion, Platform, ProgramExe, OS};

fn dist(os: Option<OS>, arch: Option<Arch>, archive: &str) -> Distribution {
    Distribution {
        platform: Platform { os, arch },
        archive: archive.to_string(),
        exe: ProgramExe::provided_jvm("game.jar".to_string()),
    }
}

#[test]
fn platform_builders() {
    assert_eq!(Platform::any(), Platform { os: None, arch: None });
    assert_eq!(
        Platform::any().with_os(OS::Windows),
        Platform { os: Some(OS::Windows), arch: None }
    );
    assert_eq!(
        Platform::any().with_arch(Arch::Arm64),
        Platform { os: None, arch: Some(Arch::Arm64) }
    );
    assert_eq!(
        Platform::any().with_os(OS::Linux).with_arch(Arch::X64),
        Platform { os: Some(OS::Linux), arch: Some(Arch::X64) }
    );
}

#[test]
fn program_exe_builders() {
    assert_eq!(
        ProgramExe::provided_jvm("a.jar".to_string()),
        ProgramExe::Jvm { jar_file: "a.jar".to_string(), java_exe: None }
    );
    assert_eq!(
        ProgramExe::embedded_jvm("a.jar".to_string(), "jre/bin/java".to_string()),
        ProgramExe::Jvm {
            jar_file: "a.jar".to_string(),
            java_exe: Some("jre/bin/java".to_string()),
        }
    );
    assert_eq!(
        ProgramExe::native("bin/a".to_string()),
        ProgramExe::Native { executable: "bin/a".to_string() }
    );
}

#[test]
fn distribution_prefers_exact_match() {
    let mut v = GameVersion::new(
        "1.0".to_string(),
        "V1.0".to_string(),
        "2020-01-01T00:00:00+00:00".to_string(),
    );
    v.distributions = vec![
        dist(None, None, "generic.zip"),
        dist(Some(OS::Linux), None, "linux.zip"),
        dist(Some(OS::Linux), Some(Arch::X64), "linux-x64.zip"),
    ];

    let d = v.distribution(OS::Linux, Arch::X64).unwrap();
    assert_eq!(d.archive, "linux-x64.zip");
}

#[test]
fn distribution_falls_back_by_specificity() {
    let mut v = GameVersion::new(
        "1.0".to_string(),
        "V1.0".to_string(),
        "2020-01-01T00:00:00+00:00".to_string(),
    );
    v.distributions = vec![
        dist(None, None, "generic.zip"),
        dist(None, Some(Arch::Arm64), "arm64.zip"),
        dist(Some(OS::Macos), None, "mac.zip"),
    ];

    // OS match beats architecture match, which beats the unrestricted one.
    let d = v.distribution(OS::Macos, Arch::Arm64).unwrap();
    assert_eq!(d.archive, "mac.zip");
    let d = v.distribution(OS::Windows, Arch::Arm64).unwrap();
    assert_eq!(d.archive, "arm64.zip");
    let d = v.distribution(OS::Windows, Arch::X64).unwrap();
    assert_eq!(d.archive, "generic.zip");
}

#[test]
fn distribution_takes_first_of_equal_matches() {
    let mut v = GameVersion::new(
        "1.0".to_string(),
        "V1.0".to_string(),
        "2020-01-01T00:00:00+00:00".to_string(),
    );
    v.distributions = vec![
        dist(Some(OS::Linux), Some(Arch::X64), "first.zip"),
        dist(Some(OS::Linux), Some(Arch::X64), "second.zip"),
    ];

    let d = v.distribution(OS::Linux, Arch::X64).unwrap();
    assert_eq!(d.archive, "first.zip");
}

#[test]
fn distribution_none_when_nothing_matches() {
    let mut v = GameVersion::new(
        "1.0".to_string(),
        "V1.0".to_string(),
        "2020-01-01T00:00:00+00:00".to_string(),
    );
    v.distributions = vec![dist(Some(OS::Windows), Some(Arch::X64), "win.zip")];

    assert_eq!(v.distribution(OS::Linux, Arch::Arm64), None);
    assert_eq!(
        GameVersion::new("a".to_string(), "b".to_string(), "c".to_string())
            .distribution(OS::Linux, Arch::X64),
        None
    );
}
