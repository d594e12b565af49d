use termlibs::app_downloader::{
    ArchiveType, Filetype, InstallerType, Target, TargetArch, TargetDeployment, TargetOs,
    get_extensions,
};

struct ITC {
    input: String,
    expected: Target,
}

impl ITC {
    fn new(input: &str, expected: Target) -> ITC {
        ITC { input: input.to_string(), expected }
    }
}

fn target(os: TargetOs, arch: TargetArch, filetype: Filetype) -> Target {
    Target { deployment: TargetDeployment { os, arch }, filetype }
}

#[test]
fn test_assumptions() {}

#[test]
fn test_identify() {
    let cases = vec![
        ITC::new(
            "yq_darwin_amd64",
            target(TargetOs::Mac, TargetArch::Amd64, Filetype::Binary),
        ),
        ITC::new(
            "yq_darwin_amd64.tar.gz",
            target(TargetOs::Mac, TargetArch::Amd64, Filetype::Archive(ArchiveType::TarGz)),
        ),
        ITC::new(
            "yq_darwin_arm64",
            target(TargetOs::Mac, TargetArch::Arm64, Filetype::Binary),
        ),
        ITC::new(
            "yq_darwin_arm64.tar.gz",
            target(TargetOs::Mac, TargetArch::Arm64, Filetype::Archive(ArchiveType::TarGz)),
        ),
        ITC::new(
            "yq_freebsd_386",
            target(TargetOs::Freebsd, TargetArch::x86, Filetype::Binary),
        ),
        ITC::new(
            "yq_freebsd_386.tar.gz",
            target(TargetOs::Freebsd, TargetArch::x86, Filetype::Archive(ArchiveType::TarGz)),
        ),
        ITC::new(
            "yq_freebsd_amd64",
            target(TargetOs::Freebsd, TargetArch::Amd64, Filetype::Binary),
        ),
        ITC::new(
            "yq_freebsd_amd64.tar.gz",
            target(TargetOs::Freebsd, TargetArch::Amd64, Filetype::Archive(ArchiveType::TarGz)),
        ),
        ITC::new(
            "yq_freebsd_arm",
            target(TargetOs::Freebsd, TargetArch::Arm32, Filetype::Binary),
        ),
        ITC::new(
            "yq_freebsd_arm.tar.gz",
            target(TargetOs::Freebsd, TargetArch::Arm32, Filetype::Archive(ArchiveType::TarGz)),
        ),
        ITC::new(
            "yq_linux_386",
            target(TargetOs::Linux, TargetArch::x86, Filetype::Binary),
        ),
        ITC::new(
            "yq_linux_386.tar.gz",
            target(TargetOs::Linux, TargetArch::x86, Filetype::Archive(ArchiveType::TarGz)),
        ),
        ITC::new(
            "yq_linux_amd64",
            target(TargetOs::Linux, TargetArch::Amd64, Filetype::Binary),
        ),
        ITC::new(
            "yq_linux_amd64.tar.gz",
            target(TargetOs::Linux, TargetArch::Amd64, Filetype::Archive(ArchiveType::TarGz)),
        ),
        ITC::new(
            "yq_linux_arm",
            target(TargetOs::Linux, TargetArch::Arm32, Filetype::Binary),
        ),
        ITC::new(
            "yq_linux_mips",
            target(TargetOs::Linux, TargetArch::Mips, Filetype::Binary),
        ),
        ITC::new(
            "yq_linux_mips.tar.gz",
            target(TargetOs::Linux, TargetArch::Mips, Filetype::Archive(ArchiveType::TarGz)),
        ),
        ITC::new(
            "yq_linux_mips64",
            target(TargetOs::Linux, TargetArch::Mips64, Filetype::Binary),
        ),
        ITC::new(
            "yq_linux_mips64.tar.gz",
            target(TargetOs::Linux, TargetArch::Mips64, Filetype::Archive(ArchiveType::TarGz)),
        ),
        ITC::new(
            "yq_linux_mips64le",
            target(TargetOs::Linux, TargetArch::Mips64Le, Filetype::Binary),
        ),
        ITC::new(
            "yq_linux_mips64le.tar.gz",
            target(TargetOs::Linux, TargetArch::Mips64Le, Filetype::Archive(ArchiveType::TarGz)),
        ),
    ];

    for case in cases {
        println!("{:?} -> {:?}", case.input, case.expected);
        assert_eq!(Target::identify(&case.input), case.expected);
    }
}

#[test]
fn test_darwin_is_mac_not_windows() {
    // `darwin` contains `win`; the Mac rule must win.
    assert_eq!(TargetOs::identify("darwin"), TargetOs::Mac);
    assert_eq!(TargetOs::identify("yq_darwin_arm64"), TargetOs::Mac);
    assert_eq!(TargetOs::identify("win"), TargetOs::Windows);
    assert_eq!(TargetOs::identify("WINDOWS-installer"), TargetOs::Windows);
}

#[test]
fn test_mips64le_precedence() {
    // `mips64le` contains `mips64`, `mipsle` and `mips`; the longest rule
    // comes first.
    assert_eq!(TargetArch::identify("app_linux_mips64le"), TargetArch::Mips64Le);
    assert_eq!(TargetArch::identify("app_linux_mips64"), TargetArch::Mips64);
    assert_eq!(TargetArch::identify("app_linux_mipsle"), TargetArch::MipsLe);
    assert_eq!(TargetArch::identify("app_linux_mips"), TargetArch::Mips);
}

#[test]
fn test_arm64_not_shadowed_by_arm() {
    // The 32-bit `arm` fallback must not shadow the 64-bit rule.
    assert_eq!(TargetArch::identify("app_arm64_v8"), TargetArch::Arm64);
    assert_eq!(TargetArch::identify("app_armv7"), TargetArch::Arm32);
    assert_eq!(TargetArch::identify("app_aarch64"), TargetArch::Aarch64);
}

#[test]
fn test_classification_is_pure() {
    // Repeated invocations, interleaved with other calls, return identical
    // results.
    let first = Target::identify("yq_linux_amd64.tar.gz");
    let _ = TargetOs::identify("darwin");
    let _ = TargetArch::identify("app_arm64_v8");
    let second = Target::identify("yq_linux_amd64.tar.gz");
    assert_eq!(first, second);
    assert_eq!(TargetOs::identify(""), TargetOs::identify(""));
}

#[test]
fn test_classification_is_total() {
    // Unsupported inputs resolve to Unknown variants, never an error.
    assert_eq!(TargetOs::identify(""), TargetOs::Unknown);
    assert_eq!(TargetArch::identify(""), TargetArch::Unknown);
    assert_eq!(Filetype::identify(""), Filetype::Binary);
    assert_eq!(TargetOs::identify("mystery-asset"), TargetOs::Unknown);
    assert_eq!(TargetArch::identify("mystery-asset"), TargetArch::Unknown);
    assert_eq!(
        Target::identify("mystery.abc").deployment,
        TargetDeployment { os: TargetOs::Unknown, arch: TargetArch::Unknown }
    );
}

#[test]
fn test_scenarios() {
    assert_eq!(
        Target::identify("yq_linux_amd64"),
        target(TargetOs::Linux, TargetArch::Amd64, Filetype::Binary)
    );
    assert_eq!(
        Target::identify("yq_linux_amd64.tar.gz"),
        target(TargetOs::Linux, TargetArch::Amd64, Filetype::Archive(ArchiveType::TarGz))
    );
    assert_eq!(
        Target::identify("yq_darwin_arm64.tar.gz"),
        target(TargetOs::Mac, TargetArch::Arm64, Filetype::Archive(ArchiveType::TarGz))
    );
    assert_eq!(
        Filetype::identify("package.msi"),
        Filetype::Installer(InstallerType::Msi)
    );
}

#[test]
fn test_get_extensions() {
    assert_eq!(get_extensions("yq_linux_amd64.tar.gz"), vec!["tar".to_string(), "gz".to_string()]);
    assert_eq!(get_extensions("archive..gz"), vec!["gz".to_string()]);
    assert_eq!(get_extensions("noext"), Vec::<String>::new());
    // Tokens longer than four characters are not treated as extensions.
    assert_eq!(get_extensions("file.longext"), Vec::<String>::new());
}

#[test]
fn test_archive_kinds() {
    assert_eq!(ArchiveType::identify("x.tar"), Some(ArchiveType::Tar));
    assert_eq!(ArchiveType::identify("x.tar.gz"), Some(ArchiveType::TarGz));
    assert_eq!(ArchiveType::identify("x.tgz"), Some(ArchiveType::TarGz));
    assert_eq!(ArchiveType::identify("x.tar.bz2"), Some(ArchiveType::TarBz2));
    assert_eq!(ArchiveType::identify("x.tar.xz"), Some(ArchiveType::TarXz));
    assert_eq!(ArchiveType::identify("x.7z"), Some(ArchiveType::_7z));
    assert_eq!(ArchiveType::identify("x.zip"), Some(ArchiveType::Zip));
    assert_eq!(ArchiveType::identify("x.rar"), Some(ArchiveType::Rar));
    // Plain gz is matched last, so compound suffixes are not shadowed.
    assert_eq!(ArchiveType::identify("x.gz"), Some(ArchiveType::Gzip));
    assert_eq!(ArchiveType::identify("x.bin"), None);
}

#[test]
fn test_installer_kinds() {
    assert_eq!(InstallerType::identify("package.msi"), Some(InstallerType::Msi));
    assert_eq!(InstallerType::identify("setup.exe"), Some(InstallerType::Exe));
    assert_eq!(InstallerType::identify("tool.deb"), Some(InstallerType::Deb));
    assert_eq!(InstallerType::identify("tool.rpm"), Some(InstallerType::Rpm));
    assert_eq!(InstallerType::identify("tool.pkg"), Some(InstallerType::Pkg));
    assert_eq!(InstallerType::identify("tool"), None);
    assert_eq!(Filetype::identify("setup.exe"), Filetype::Installer(InstallerType::Exe));
    assert_eq!(Filetype::identify("data.abc"), Filetype::Unknown);
}

#[test]
fn test_render_names() {
    assert_eq!(TargetDeployment::new(TargetOs::Linux, TargetArch::Amd64).name(), "linux-amd64");
    assert_eq!(TargetDeployment::new(TargetOs::Mac, TargetArch::Arm64).name(), "mac-arm64");
    assert_eq!(
        TargetDeployment::new(TargetOs::Unknown, TargetArch::Unknown).name(),
        "unknown-unknown"
    );
    assert_eq!(Filetype::Binary.name(), "binary");
    assert_eq!(Filetype::Archive(ArchiveType::TarGz).name(), "tar.gz");
    assert_eq!(Filetype::Archive(ArchiveType::Gzip).name(), "gz");
    assert_eq!(Filetype::Installer(InstallerType::Msi).name(), "Msi installer");
    assert_eq!(Filetype::Unknown.name(), "unknown");
    assert_eq!(TargetArch::PPC.name(), "ppc64");
    assert_eq!(TargetArch::PPCLe.name(), "ppc64le");
}

#[test]
fn test_default_deployment() {
    let default = TargetDeployment::default();
    assert_eq!(default, TargetDeployment { os: TargetOs::Linux, arch: TargetArch::Amd64 });
    assert!(!default.is_unknown());
    assert!(TargetDeployment::new(TargetOs::Unknown, TargetArch::Amd64).is_unknown());
    assert!(TargetDeployment::new(TargetOs::Linux, TargetArch::Unknown).is_unknown());
}

#[test]
fn test_os_qualified_bitness_fallback() {
    // Bitness recovered from combined OS tokens, after every explicit rule.
    assert_eq!(TargetArch::identify("tool_win64"), TargetArch::Amd64);
    assert_eq!(TargetArch::identify("tool_win32"), TargetArch::x86);
    assert_eq!(TargetArch::identify("tool_linux64"), TargetArch::Amd64);
    assert_eq!(TargetArch::identify("tool_linux32"), TargetArch::x86);
    assert_eq!(TargetOs::identify("tool_win64"), TargetOs::Windows);
}
