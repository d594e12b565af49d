//! Classification of release-asset filenames.
//!
//! A filename is mapped to the operating system, CPU architecture and
//! packaging format it appears to be built for.  Matching is substring (or
//! suffix) containment over a fixed, ordered rule list; the order matters
//! because many markers overlap as substrings (`darwin` contains `win`,
//! `mips64le` contains `mips64`, `mipsle` and `mips`).  Every classifier is
//! total: an undetermined input yields an `Unknown` variant, never an error.

use vstd::prelude::*;

use crate::text::{
    chars_of, contains_chars, ends_with_chars, has_substring, has_suffix, lower, lower_chars,
    split_on, split_str, str_eq,
};

verus! {

/// A dot-separated suffix segment counts as an extension token when it is
/// non-empty and at most four characters long.  This is a deliberately
/// imprecise heuristic for "looks like a real extension": tightening it
/// would change how edge-case filenames classify, so it stays as it is.
pub open spec fn is_ext_token(t: Seq<char>) -> bool {
    0 < t.len() <= 4
}

/// The qualifying extension tokens among `parts`, in order.
pub open spec fn ext_tokens_from(parts: Seq<Seq<char>>) -> Seq<Seq<char>>
    decreases parts.len(),
{
    if parts.len() == 0 {
        Seq::empty()
    } else if is_ext_token(parts[0]) {
        seq![parts[0]] + ext_tokens_from(parts.drop_first())
    } else {
        ext_tokens_from(parts.drop_first())
    }
}

/// The extension tokens of a filename: split on `'.'`, drop the base name,
/// keep the qualifying tokens.
pub open spec fn extension_tokens(s: Seq<char>) -> Seq<Seq<char>> {
    ext_tokens_from(split_on(s, '.').drop_first())
}

/// Split `filename` on `'.'`, drop the first segment (the base name), and
/// keep the remaining non-empty segments of at most four characters.
pub fn get_extensions(filename: &str) -> (r: Vec<String>)
    ensures
        r.deep_view() == extension_tokens(filename@),
{
    let parts = split_str(filename, '.');
    let ghost all = parts.deep_view().drop_first();
    let mut r: Vec<String> = Vec::new();
    let mut j: usize = 1;
    proof {
        crate::text::lemma_split_on_nonempty(filename@, '.');
        assert(all =~= parts.deep_view().subrange(1, parts.deep_view().len() as int));
        assert(all.skip(0) =~= all);
        assert(r.deep_view() + ext_tokens_from(all.skip(0)) =~= ext_tokens_from(all));
    }
    while j < parts.len()
        invariant
            1 <= j <= parts@.len(),
            all == parts.deep_view().drop_first(),
            parts.deep_view().len() == parts@.len(),
            r.deep_view() + ext_tokens_from(all.skip(j - 1)) == ext_tokens_from(all),
        decreases parts@.len() - j,
    {
        let ghost suffix = all.skip(j - 1);
        proof {
            assert(suffix.len() > 0);
            assert(suffix[0] == all[j - 1]);
            assert(all[j - 1] == parts@[j as int].deep_view());
            assert(suffix.drop_first() =~= all.skip(j as int));
        }
        let t = &parts[j];
        let tlen = t.as_str().unicode_len();
        if 0 < tlen && tlen <= 4 {
            let ghost prev = r.deep_view();
            r.push(t.clone());
            proof {
                assert(r.deep_view() =~= prev.push(t@));
                assert(ext_tokens_from(suffix) == seq![suffix[0]] + ext_tokens_from(
                    suffix.drop_first(),
                ));
                assert(r.deep_view() + ext_tokens_from(all.skip(j as int)) =~= prev
                    + ext_tokens_from(suffix));
            }
        } else {
            proof {
                assert(ext_tokens_from(suffix) == ext_tokens_from(suffix.drop_first()));
            }
        }
        j += 1;
    }
    proof {
        assert(all.skip(parts@.len() - 1) =~= Seq::<Seq<char>>::empty());
        assert(r.deep_view() + ext_tokens_from(Seq::<Seq<char>>::empty()) =~= r.deep_view());
    }
    r
}

/// The archive (container or compression) formats the classifier recognises.
#[derive(Clone, Copy, Debug, PartialEq, Eq, Structural)]
pub enum ArchiveType {
    Tar,
    TarGz,
    TarBz2,
    TarXz,
    _7z,
    Zip,
    Rar,
    Gzip,
}

/// The archive format a filename's suffix indicates, if any.  Compound
/// suffixes are tried before the plain `gz` rule, which would otherwise
/// shadow them.
pub open spec fn archive_of(s: Seq<char>) -> Option<ArchiveType> {
    if has_suffix(s, "tar"@) {
        Some(ArchiveType::Tar)
    } else if has_suffix(s, "tar.gz"@) || has_suffix(s, "tgz"@) {
        Some(ArchiveType::TarGz)
    } else if has_suffix(s, "tar.bz2"@) {
        Some(ArchiveType::TarBz2)
    } else if has_suffix(s, "tar.xz"@) {
        Some(ArchiveType::TarXz)
    } else if has_suffix(s, "7z"@) {
        Some(ArchiveType::_7z)
    } else if has_suffix(s, "zip"@) {
        Some(ArchiveType::Zip)
    } else if has_suffix(s, "rar"@) {
        Some(ArchiveType::Rar)
    } else if has_suffix(s, "gz"@) {
        Some(ArchiveType::Gzip)
    } else {
        None
    }
}

/// How each archive format renders in human-readable output.
pub open spec fn archive_name(a: ArchiveType) -> Seq<char> {
    match a {
        ArchiveType::Tar => "tar"@,
        ArchiveType::TarGz => "tar.gz"@,
        ArchiveType::TarBz2 => "tar.bz2"@,
        ArchiveType::TarXz => "tar.xz"@,
        ArchiveType::_7z => "7z"@,
        ArchiveType::Zip => "zip"@,
        ArchiveType::Rar => "rar"@,
        ArchiveType::Gzip => "gz"@,
    }
}

impl ArchiveType {
    /// Classify a filename by its suffix.
    pub fn identify(input: &str) -> (r: Option<ArchiveType>)
        ensures
            r == archive_of(input@),
    {
        let cs = chars_of(input);
        if ends_with_chars(&cs, &chars_of("tar")) {
            Some(ArchiveType::Tar)
        } else if ends_with_chars(&cs, &chars_of("tar.gz")) || ends_with_chars(
            &cs,
            &chars_of("tgz"),
        ) {
            Some(ArchiveType::TarGz)
        } else if ends_with_chars(&cs, &chars_of("tar.bz2")) {
            Some(ArchiveType::TarBz2)
        } else if ends_with_chars(&cs, &chars_of("tar.xz")) {
            Some(ArchiveType::TarXz)
        } else if ends_with_chars(&cs, &chars_of("7z")) {
            Some(ArchiveType::_7z)
        } else if ends_with_chars(&cs, &chars_of("zip")) {
            Some(ArchiveType::Zip)
        } else if ends_with_chars(&cs, &chars_of("rar")) {
            Some(ArchiveType::Rar)
        } else if ends_with_chars(&cs, &chars_of("gz")) {
            Some(ArchiveType::Gzip)
        } else {
            None
        }
    }

    /// The render name of this archive format, e.g. `"tar.gz"`.
    pub fn name(&self) -> (r: String)
        ensures
            r@ == archive_name(*self),
    {
        match self {
            ArchiveType::Tar => String::from_str("tar"),
            ArchiveType::TarGz => String::from_str("tar.gz"),
            ArchiveType::TarBz2 => String::from_str("tar.bz2"),
            ArchiveType::TarXz => String::from_str("tar.xz"),
            ArchiveType::_7z => String::from_str("7z"),
            ArchiveType::Zip => String::from_str("zip"),
            ArchiveType::Rar => String::from_str("rar"),
            ArchiveType::Gzip => String::from_str("gz"),
        }
    }
}

/// The installer package formats the classifier recognises.
#[derive(Clone, Copy, Debug, PartialEq, Eq, Structural)]
pub enum InstallerType {
    Msi,
    Exe,
    Deb,
    Rpm,
    Pkg,
}

/// The installer format of a filename's last extension token, if any.
pub open spec fn installer_of(s: Seq<char>) -> Option<InstallerType> {
    let ts = extension_tokens(s);
    if ts.len() == 0 {
        None
    } else if ts.last() == "msi"@ {
        Some(InstallerType::Msi)
    } else if ts.last() == "exe"@ {
        Some(InstallerType::Exe)
    } else if ts.last() == "deb"@ {
        Some(InstallerType::Deb)
    } else if ts.last() == "rpm"@ {
        Some(InstallerType::Rpm)
    } else if ts.last() == "pkg"@ {
        Some(InstallerType::Pkg)
    } else {
        None
    }
}

/// The lower-case render name of each installer format.
pub open spec fn installer_name(i: InstallerType) -> Seq<char> {
    match i {
        InstallerType::Msi => "msi"@,
        InstallerType::Exe => "exe"@,
        InstallerType::Deb => "deb"@,
        InstallerType::Rpm => "rpm"@,
        InstallerType::Pkg => "pkg"@,
    }
}

/// The capitalised variant name of each installer format, used when a file
/// kind renders as `"<Variant> installer"`.
pub open spec fn installer_label(i: InstallerType) -> Seq<char> {
    match i {
        InstallerType::Msi => "Msi"@,
        InstallerType::Exe => "Exe"@,
        InstallerType::Deb => "Deb"@,
        InstallerType::Rpm => "Rpm"@,
        InstallerType::Pkg => "Pkg"@,
    }
}

impl InstallerType {
    /// Classify a filename by its last extension token.
    pub fn identify(input: &str) -> (r: Option<InstallerType>)
        ensures
            r == installer_of(input@),
    {
        let extensions = get_extensions(input);
        if extensions.len() == 0 {
            return None;
        }
        let last = &extensions[extensions.len() - 1];
        proof {
            assert(extension_tokens(input@).last() == extensions.deep_view()[extensions@.len()
                - 1]);
        }
        if str_eq(last.as_str(), "msi") {
            Some(InstallerType::Msi)
        } else if str_eq(last.as_str(), "exe") {
            Some(InstallerType::Exe)
        } else if str_eq(last.as_str(), "deb") {
            Some(InstallerType::Deb)
        } else if str_eq(last.as_str(), "rpm") {
            Some(InstallerType::Rpm)
        } else if str_eq(last.as_str(), "pkg") {
            Some(InstallerType::Pkg)
        } else {
            None
        }
    }

    /// The render name of this installer format, e.g. `"msi"`.
    pub fn name(&self) -> (r: String)
        ensures
            r@ == installer_name(*self),
    {
        match self {
            InstallerType::Msi => String::from_str("msi"),
            InstallerType::Exe => String::from_str("exe"),
            InstallerType::Deb => String::from_str("deb"),
            InstallerType::Rpm => String::from_str("rpm"),
            InstallerType::Pkg => String::from_str("pkg"),
        }
    }
}

/// The packaging format of an asset: a bare binary, an archive, an installer
/// package, or unrecognised.
#[derive(Clone, Copy, Debug, PartialEq, Eq, Structural)]
pub enum Filetype {
    Binary,
    Installer(InstallerType),
    Archive(ArchiveType),
    Unknown,
}

/// The file kind of a filename: archives take precedence, then installers;
/// a name with no extension tokens (or whose last token is `exe`) counts as
/// a bare binary; anything else is unknown.
pub open spec fn filetype_of(s: Seq<char>) -> Filetype {
    match archive_of(s) {
        Some(a) => Filetype::Archive(a),
        None => match installer_of(s) {
            Some(i) => Filetype::Installer(i),
            None => {
                let ts = extension_tokens(s);
                if ts.len() == 0 || ts.last() == "exe"@ {
                    Filetype::Binary
                } else {
                    Filetype::Unknown
                }
            },
        },
    }
}

/// How a file kind renders: `"binary"`, the archive name, `"<Variant>
/// installer"`, or `"unknown"`.
pub open spec fn filetype_name(f: Filetype) -> Seq<char> {
    match f {
        Filetype::Binary => "binary"@,
        Filetype::Archive(a) => archive_name(a),
        Filetype::Installer(i) => installer_label(i) + " installer"@,
        Filetype::Unknown => "unknown"@,
    }
}

impl Filetype {
    /// Classify a filename into its packaging format.
    pub fn identify(input: &str) -> (r: Filetype)
        ensures
            r == filetype_of(input@),
    {
        let archive = ArchiveType::identify(input);
        if let Some(a) = archive {
            return Filetype::Archive(a);
        }
        let installer_type = InstallerType::identify(input);
        if let Some(i) = installer_type {
            return Filetype::Installer(i);
        }
        let extensions = get_extensions(input);
        if extensions.len() == 0 {
            return Filetype::Binary;
        }
        let last = &extensions[extensions.len() - 1];
        proof {
            assert(extension_tokens(input@).last() == extensions.deep_view()[extensions@.len()
                - 1]);
        }
        if str_eq(last.as_str(), "exe") {
            Filetype::Binary
        } else {
            Filetype::Unknown
        }
    }

    /// The render name of this file kind.
    pub fn name(&self) -> (r: String)
        ensures
            r@ == filetype_name(*self),
    {
        match self {
            Filetype::Binary => String::from_str("binary"),
            Filetype::Archive(a) => a.name(),
            Filetype::Installer(i) => {
                let label = match i {
                    InstallerType::Msi => String::from_str("Msi"),
                    InstallerType::Exe => String::from_str("Exe"),
                    InstallerType::Deb => String::from_str("Deb"),
                    InstallerType::Rpm => String::from_str("Rpm"),
                    InstallerType::Pkg => String::from_str("Pkg"),
                };
                label.concat(" installer")
            },
            Filetype::Unknown => String::from_str("unknown"),
        }
    }
}

/// The operating systems the classifier recognises.
#[derive(Clone, Copy, Debug, PartialEq, Eq, Structural)]
pub enum TargetOs {
    Windows,
    Linux,
    Mac,
    Freebsd,
    Openbsd,
    Netbsd,
    Unknown,
}

/// The operating system a filename indicates.  The input is ASCII-lowercased
/// before matching.  The BSDs are tried first (their markers have no false
/// positives); the Mac markers must precede the Windows check because
/// `darwin` contains `win`.
pub open spec fn os_of(s: Seq<char>) -> TargetOs {
    let l = lower(s);
    if has_substring(l, "freebsd"@) {
        TargetOs::Freebsd
    } else if has_substring(l, "openbsd"@) {
        TargetOs::Openbsd
    } else if has_substring(l, "netbsd"@) {
        TargetOs::Netbsd
    } else if has_substring(l, "mac"@) || has_substring(l, "macos"@) || has_substring(l, "macosx"@)
        || has_substring(l, "darwin"@) {
        TargetOs::Mac
    } else if has_substring(l, "win"@) || has_substring(l, "windows"@) {
        TargetOs::Windows
    } else if has_substring(l, "linux"@) {
        TargetOs::Linux
    } else {
        TargetOs::Unknown
    }
}

/// The render name of each operating system.
pub open spec fn os_name(os: TargetOs) -> Seq<char> {
    match os {
        TargetOs::Windows => "windows"@,
        TargetOs::Linux => "linux"@,
        TargetOs::Mac => "mac"@,
        TargetOs::Freebsd => "freebsd"@,
        TargetOs::Openbsd => "openbsd"@,
        TargetOs::Netbsd => "netbsd"@,
        TargetOs::Unknown => "unknown"@,
    }
}

impl TargetOs {
    /// Classify a filename into the operating system it targets.
    pub fn identify(input: &str) -> (r: TargetOs)
        ensures
            r == os_of(input@),
    {
        let normed_input = lower_chars(&chars_of(input));
        if contains_chars(&normed_input, &chars_of("freebsd")) {
            return TargetOs::Freebsd;
        }
        if contains_chars(&normed_input, &chars_of("openbsd")) {
            return TargetOs::Openbsd;
        }
        if contains_chars(&normed_input, &chars_of("netbsd")) {
            return TargetOs::Netbsd;
        }
        if contains_chars(&normed_input, &chars_of("mac")) || contains_chars(
            &normed_input,
            &chars_of("macos"),
        ) || contains_chars(&normed_input, &chars_of("macosx")) || contains_chars(
            &normed_input,
            &chars_of("darwin"),
        ) {
            return TargetOs::Mac;
        }
        if contains_chars(&normed_input, &chars_of("win")) || contains_chars(
            &normed_input,
            &chars_of("windows"),
        ) {
            return TargetOs::Windows;
        }
        if contains_chars(&normed_input, &chars_of("linux")) {
            return TargetOs::Linux;
        }
        TargetOs::Unknown
    }

    /// The render name of this operating system, e.g. `"linux"`.
    pub fn name(&self) -> (r: String)
        ensures
            r@ == os_name(*self),
    {
        match self {
            TargetOs::Windows => String::from_str("windows"),
            TargetOs::Linux => String::from_str("linux"),
            TargetOs::Mac => String::from_str("mac"),
            TargetOs::Freebsd => String::from_str("freebsd"),
            TargetOs::Openbsd => String::from_str("openbsd"),
            TargetOs::Netbsd => String::from_str("netbsd"),
            TargetOs::Unknown => String::from_str("unknown"),
        }
    }
}

/// The CPU architectures the classifier recognises.
#[derive(Clone, Copy, Debug, PartialEq, Eq, Structural)]
#[allow(non_camel_case_types)]
pub enum TargetArch {
    Amd64,
    Arm64,
    Aarch64,
    PPCLe,
    PPC,
    Arm32,
    MipsLe,
    Mips,
    Mips64Le,
    Mips64,
    RiscV,
    x86,
    Unknown,
}

/// The CPU architecture a filename indicates.  Matching is substring
/// containment on the raw input (lower-casing is the caller's concern, as
/// with the operating-system classifier).  The order of the rules resolves
/// substring overlap: `arm64` before the `arm` fallback, `mips64le` before
/// `mips64`, `mipsle` and `mips`, and so on.  Two final rules recover the
/// bitness from combined OS tokens such as `win64` or `linux32`.
pub open spec fn arch_of(s: Seq<char>) -> TargetArch {
    if has_substring(s, "amd64"@) || has_substring(s, "x64"@) || has_substring(s, "x86_64"@) {
        TargetArch::Amd64
    } else if has_substring(s, "arm64"@) {
        TargetArch::Arm64
    } else if has_substring(s, "aarch64"@) {
        TargetArch::Aarch64
    } else if has_substring(s, "ppc64le"@) || has_substring(s, "ppcle"@) {
        TargetArch::PPCLe
    } else if has_substring(s, "ppc"@) || has_substring(s, "ppc64"@) {
        TargetArch::PPC
    } else if has_substring(s, "mips64le"@) {
        TargetArch::Mips64Le
    } else if has_substring(s, "mips64"@) {
        TargetArch::Mips64
    } else if has_substring(s, "mipsle"@) {
        TargetArch::MipsLe
    } else if has_substring(s, "mips"@) {
        TargetArch::Mips
    } else if has_substring(s, "x86"@) || has_substring(s, "i386"@) || has_substring(s, "i686"@)
        || has_substring(s, "x86_32"@) || has_substring(s, "386"@) || has_substring(s, "686"@)
        || has_substring(s, "ia32"@) {
        TargetArch::x86
    } else if has_substring(s, "arm"@) {
        TargetArch::Arm32
    } else if has_substring(s, "riscv"@) {
        TargetArch::RiscV
    } else if has_substring(s, "windows64"@) || has_substring(s, "win64"@) || has_substring(
        s,
        "winx64"@,
    ) || has_substring(s, "linux64"@) {
        TargetArch::Amd64
    } else if has_substring(s, "windows32"@) || has_substring(s, "win32"@) || has_substring(
        s,
        "winx86"@,
    ) || has_substring(s, "linux32"@) {
        TargetArch::x86
    } else {
        TargetArch::Unknown
    }
}

/// The render name of each architecture.
pub open spec fn arch_name(a: TargetArch) -> Seq<char> {
    match a {
        TargetArch::Amd64 => "amd64"@,
        TargetArch::Arm64 => "arm64"@,
        TargetArch::Aarch64 => "aarch64"@,
        TargetArch::PPC => "ppc64"@,
        TargetArch::PPCLe => "ppc64le"@,
        TargetArch::Arm32 => "arm"@,
        TargetArch::Mips => "mips"@,
        TargetArch::MipsLe => "mipsle"@,
        TargetArch::Mips64 => "mips64"@,
        TargetArch::Mips64Le => "mips64le"@,
        TargetArch::RiscV => "riscv"@,
        TargetArch::x86 => "x86"@,
        TargetArch::Unknown => "unknown"@,
    }
}

impl TargetArch {
    /// Classify a filename into the CPU architecture it targets.
    pub fn identify(input: &str) -> (r: TargetArch)
        ensures
            r == arch_of(input@),
    {
        let cs = chars_of(input);
        if contains_chars(&cs, &chars_of("amd64")) || contains_chars(&cs, &chars_of("x64"))
            || contains_chars(&cs, &chars_of("x86_64")) {
            return TargetArch::Amd64;
        }
        if contains_chars(&cs, &chars_of("arm64")) {
            return TargetArch::Arm64;
        }
        if contains_chars(&cs, &chars_of("aarch64")) {
            return TargetArch::Aarch64;
        }
        if contains_chars(&cs, &chars_of("ppc64le")) || contains_chars(&cs, &chars_of("ppcle")) {
            return TargetArch::PPCLe;
        }
        if contains_chars(&cs, &chars_of("ppc")) || contains_chars(&cs, &chars_of("ppc64")) {
            return TargetArch::PPC;
        }
        if contains_chars(&cs, &chars_of("mips64le")) {
            return TargetArch::Mips64Le;
        }
        if contains_chars(&cs, &chars_of("mips64")) {
            return TargetArch::Mips64;
        }
        if contains_chars(&cs, &chars_of("mipsle")) {
            return TargetArch::MipsLe;
        }
        if contains_chars(&cs, &chars_of("mips")) {
            return TargetArch::Mips;
        }
        if contains_chars(&cs, &chars_of("x86")) || contains_chars(&cs, &chars_of("i386"))
            || contains_chars(&cs, &chars_of("i686")) || contains_chars(&cs, &chars_of("x86_32"))
            || contains_chars(&cs, &chars_of("386")) || contains_chars(&cs, &chars_of("686"))
            || contains_chars(&cs, &chars_of("ia32")) {
            return TargetArch::x86;
        }
        if contains_chars(&cs, &chars_of("arm")) {
            return TargetArch::Arm32;
        }
        if contains_chars(&cs, &chars_of("riscv")) {
            return TargetArch::RiscV;
        }
        if contains_chars(&cs, &chars_of("windows64")) || contains_chars(&cs, &chars_of("win64"))
            || contains_chars(&cs, &chars_of("winx64")) || contains_chars(
            &cs,
            &chars_of("linux64"),
        ) {
            return TargetArch::Amd64;
        }
        if contains_chars(&cs, &chars_of("windows32")) || contains_chars(&cs, &chars_of("win32"))
            || contains_chars(&cs, &chars_of("winx86")) || contains_chars(
            &cs,
            &chars_of("linux32"),
        ) {
            return TargetArch::x86;
        }
        TargetArch::Unknown
    }

    /// The render name of this architecture, e.g. `"amd64"`.
    pub fn name(&self) -> (r: String)
        ensures
            r@ == arch_name(*self),
    {
        match self {
            TargetArch::Amd64 => String::from_str("amd64"),
            TargetArch::Arm64 => String::from_str("arm64"),
            TargetArch::Aarch64 => String::from_str("aarch64"),
            TargetArch::PPC => String::from_str("ppc64"),
            TargetArch::PPCLe => String::from_str("ppc64le"),
            TargetArch::Arm32 => String::from_str("arm"),
            TargetArch::Mips => String::from_str("mips"),
            TargetArch::MipsLe => String::from_str("mipsle"),
            TargetArch::Mips64 => String::from_str("mips64"),
            TargetArch::Mips64Le => String::from_str("mips64le"),
            TargetArch::RiscV => String::from_str("riscv"),
            TargetArch::x86 => String::from_str("x86"),
            TargetArch::Unknown => String::from_str("unknown"),
        }
    }
}

/// A deployment target: the pair of operating system and CPU architecture.
#[derive(Clone, Copy, Debug, PartialEq, Eq, Structural)]
pub struct TargetDeployment {
    pub os: TargetOs,
    pub arch: TargetArch,
}

/// The deployment target a filename indicates: the OS and architecture
/// classifiers composed independently.
pub open spec fn deployment_of(s: Seq<char>) -> TargetDeployment {
    TargetDeployment { os: os_of(s), arch: arch_of(s) }
}

impl TargetDeployment {
    /// Build a deployment target from its parts.
    pub fn new(os: TargetOs, arch: TargetArch) -> (r: TargetDeployment)
        ensures
            r == (TargetDeployment { os, arch }),
    {
        TargetDeployment { os, arch }
    }

    /// Whether either component could not be determined.  Callers use this to
    /// decide whether to fall back to a default platform.
    pub fn is_unknown(&self) -> (r: bool)
        ensures
            r == (self.os == TargetOs::Unknown || self.arch == TargetArch::Unknown),
    {
        self.os == TargetOs::Unknown || self.arch == TargetArch::Unknown
    }

    /// Classify a filename into the deployment target it indicates.
    pub fn identify(input: &str) -> (r: TargetDeployment)
        ensures
            r == deployment_of(input@),
    {
        TargetDeployment { os: TargetOs::identify(input), arch: TargetArch::identify(input) }
    }

    /// The render name of this target, e.g. `"linux-amd64"`.
    pub fn name(&self) -> (r: String)
        ensures
            r@ == os_name(self.os) + "-"@ + arch_name(self.arch),
    {
        let arch = self.arch.name();
        self.os.name().concat("-").concat(arch.as_str())
    }
}

impl Default for TargetDeployment {
    /// The default target, used when the caller has not stated one.
    fn default() -> (r: TargetDeployment)
        ensures
            r == (TargetDeployment { os: TargetOs::Linux, arch: TargetArch::Amd64 }),
    {
        TargetDeployment { os: TargetOs::Linux, arch: TargetArch::Amd64 }
    }
}

/// Everything classification derives from one filename: the deployment
/// target and the packaging format.
#[derive(Clone, Copy, Debug, PartialEq, Eq, Structural)]
pub struct Target {
    pub deployment: TargetDeployment,
    pub filetype: Filetype,
}

/// The full classification of a filename.
pub open spec fn target_of(s: Seq<char>) -> Target {
    Target { deployment: deployment_of(s), filetype: filetype_of(s) }
}

impl Target {
    /// Classify a filename into its deployment target and packaging format.
    pub fn identify(input: &str) -> (r: Target)
        ensures
            r == target_of(input@),
    {
        Target {
            deployment: TargetDeployment::identify(input),
            filetype: Filetype::identify(input),
        }
    }
}

/// Purity of the operating-system classifier: any two invocations on equal
/// filenames return identical results, regardless of call history or order.
pub proof fn lemma_os_classifier_pure(s1: &str, s2: &str, r1: TargetOs, r2: TargetOs)
    requires
        s1@ == s2@,
        call_ensures(TargetOs::identify, (s1,), r1),
        call_ensures(TargetOs::identify, (s2,), r2),
    ensures
        r1 == r2,
{
}

/// Purity of the architecture classifier: any two invocations on equal
/// filenames return identical results, regardless of call history or order.
pub proof fn lemma_arch_classifier_pure(s1: &str, s2: &str, r1: TargetArch, r2: TargetArch)
    requires
        s1@ == s2@,
        call_ensures(TargetArch::identify, (s1,), r1),
        call_ensures(TargetArch::identify, (s2,), r2),
    ensures
        r1 == r2,
{
}

/// Purity of the file-kind classifier: any two invocations on equal
/// filenames return identical results, regardless of call history or order.
pub proof fn lemma_filetype_classifier_pure(s1: &str, s2: &str, r1: Filetype, r2: Filetype)
    requires
        s1@ == s2@,
        call_ensures(Filetype::identify, (s1,), r1),
        call_ensures(Filetype::identify, (s2,), r2),
    ensures
        r1 == r2,
{
}

/// Totality of the classifiers: every filename is an acceptable input.  None
/// of them can fail — each returns a value of its closed variant set, with
/// `Unknown` standing in for an undetermined input.
pub proof fn lemma_classifiers_total(s: &str)
    ensures
        call_requires(TargetOs::identify, (s,)),
        call_requires(TargetArch::identify, (s,)),
        call_requires(Filetype::identify, (s,)),
        call_requires(Target::identify, (s,)),
{
}

impl From<&str> for TargetOs {
    /// Classification, as a conversion.
    fn from(input: &str) -> (r: TargetOs) {
        TargetOs::identify(input)
    }
}

impl vstd::std_specs::convert::FromSpecImpl<&str> for TargetOs {
    open spec fn obeys_from_spec() -> bool {
        true
    }

    open spec fn from_spec(v: &str) -> TargetOs {
        os_of(v@)
    }
}

impl From<&str> for TargetArch {
    /// Classification, as a conversion.
    fn from(value: &str) -> (r: TargetArch) {
        TargetArch::identify(value)
    }
}

impl vstd::std_specs::convert::FromSpecImpl<&str> for TargetArch {
    open spec fn obeys_from_spec() -> bool {
        true
    }

    open spec fn from_spec(v: &str) -> TargetArch {
        arch_of(v@)
    }
}

} // verus!
