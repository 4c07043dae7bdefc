use hexcore::net::{Distribution, GameVersion, Platform, Program};

fn program(archive: &str) -> Program {
    Program {
        archive: archive.to_string(),
        jar_file: Some("hexacraft.jar".to_string()),
        java_exe: None,
        executable: None,
    }
}

fn version(distributions: Vec<Distribution>) -> GameVersion {
    GameVersion {
        id: "1.2.3".to_string(),
        name: "V1.2.3".to_string(),
        release_date: "2018-10-30T20:40:50+01:00".to_string(),
        distributions,
    }
}

fn platform(os: &str, arch: &str) -> Platform {
    Platform::new(os.to_string(), arch.to_string())
}

#[test]
fn net_distribution_prefers_exact_pair() {
    let v = version(vec![
        Distribution::new(vec![platform("any", "any")], program("generic.zip")),
        Distribution::new(vec![platform("windows", "any")], program("windows.zip")),
        Distribution::new(
            vec![platform("mac", "x64"), platform("windows", "x64")],
            program("desktop-x64.zip"),
        ),
    ]);

    let p = v.distribution(&platform("windows", "x64")).unwrap();
    assert_eq!(p.archive, "desktop-x64.zip");
    let p = v.distribution(&platform("windows", "arm64")).unwrap();
    assert_eq!(p.archive, "windows.zip");
    let p = v.distribution(&platform("linux", "arm64")).unwrap();
    assert_eq!(p.archive, "generic.zip");
}

#[test]
fn net_distribution_falls_back_to_any_arch_then_any_os() {
    let v = version(vec![
        Distribution::new(vec![platform("any", "x64")], program("x64.zip")),
        Distribution::new(vec![platform("linux", "any")], program("linux.zip")),
    ]);

    // The OS pairing with "any" architecture is tried before "any" OS.
    let p = v.distribution(&platform("linux", "x64")).unwrap();
    assert_eq!(p.archive, "linux.zip");
    let p = v.distribution(&platform("mac", "x64")).unwrap();
    assert_eq!(p.archive, "x64.zip");
}

#[test]
fn net_distribution_none_without_match() {
    let v = version(vec![Distribution::new(
        vec![platform("windows", "x64")],
        program("win.zip"),
    )]);
    assert_eq!(v.distribution(&platform("linux", "arm64")), None);
    assert_eq!(version(vec![]).distribution(&platform("linux", "x64")), None);
}
