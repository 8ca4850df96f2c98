//! Installing a distribution: which distributions and versions the tool
//! knows, when the root file system has to be downloaded, and how it is
//! unpacked.
use vstd::prelude::*;
use crate::container::strings_view;
use crate::environment::{container_dir, container_dir_spec, rootfs_archive, rootfs_archive_spec};
use crate::text::str_eq;

verus! {

/// Whether `d` is a distribution that can be installed.
pub open spec fn known_distribution(d: Seq<char>) -> bool {
    d == "ubuntu"@ || d == "debian"@ || d == "alpine"@
}

/// Whether `v` is a version of distribution `d` whose root file system the
/// tool downloads.
pub open spec fn listed_version(d: Seq<char>, v: Seq<char>) -> bool {
    if d == "ubuntu"@ {
        ubuntu_listed(v)
    } else if d == "debian"@ {
        debian_listed(v)
    } else if d == "alpine"@ {
        alpine_listed(v)
    } else {
        false
    }
}

/// The ubuntu versions the tool lists.
pub open spec fn ubuntu_listed(v: Seq<char>) -> bool {
    v == "jammy"@ || v == "focal"@ || v == "bionic"@ || v == "xenial"@ || v == "22.10"@ || v
        == "22.04"@ || v == "20.04"@ || v == "18.04"@ || v == "16.04"@
}

/// The debian versions the tool lists.
pub open spec fn debian_listed(v: Seq<char>) -> bool {
    v == "sid"@ || v == "bookworm"@ || v == "bullseye"@ || v == "buster"@
}

/// The alpine versions the tool lists.
pub open spec fn alpine_listed(v: Seq<char>) -> bool {
    v == "edge"@ || v == "3.19"@ || v == "3.18"@ || v == "3.17"@ || v == "3.16"@ || v == "3.15"@
        || v == "3.14"@ || v == "3.13"@ || v == "3.12"@ || v == "3.11"@ || v == "3.9"@ || v
        == "3.8"@ || v == "3.7"@
}

fn ubuntu_version(v: &str) -> (r: bool)
    ensures
        r == ubuntu_listed(v@),
{
    str_eq(v, "jammy") || str_eq(v, "focal") || str_eq(v, "bionic") || str_eq(v, "xenial")
        || str_eq(v, "22.10") || str_eq(v, "22.04") || str_eq(v, "20.04") || str_eq(v, "18.04")
        || str_eq(v, "16.04")
}

fn debian_version(v: &str) -> (r: bool)
    ensures
        r == debian_listed(v@),
{
    str_eq(v, "sid") || str_eq(v, "bookworm") || str_eq(v, "bullseye") || str_eq(v, "buster")
}

fn alpine_version(v: &str) -> (r: bool)
    ensures
        r == alpine_listed(v@),
{
    str_eq(v, "edge") || str_eq(v, "3.19") || str_eq(v, "3.18") || str_eq(v, "3.17") || str_eq(
        v,
        "3.16",
    ) || str_eq(v, "3.15") || str_eq(v, "3.14") || str_eq(v, "3.13") || str_eq(v, "3.12")
        || str_eq(v, "3.11") || str_eq(v, "3.9") || str_eq(v, "3.8") || str_eq(v, "3.7")
}

/// The versions the tool downloads root file systems for: ubuntu jammy,
/// focal, bionic, xenial, 22.10, 22.04, 20.04, 18.04 and 16.04; debian sid,
/// bookworm, bullseye and buster; alpine edge, 3.19 down to 3.11, 3.9, 3.8
/// and 3.7.  Installing any of them with its archive missing downloads it,
/// and only a known distribution has listed versions.
pub proof fn listed_versions_are_downloaded(d: Seq<char>, v: Seq<char>)
    ensures
        (v == "jammy"@ || v == "focal"@ || v == "bionic"@ || v == "xenial"@ || v == "22.10"@ || v
            == "22.04"@ || v == "20.04"@ || v == "18.04"@ || v == "16.04"@) ==> listed_version(
            "ubuntu"@,
            v,
        ),
        (v == "sid"@ || v == "bookworm"@ || v == "bullseye"@ || v == "buster"@) ==> listed_version(
            "debian"@,
            v,
        ),
        (v == "edge"@ || v == "3.19"@ || v == "3.18"@ || v == "3.17"@ || v == "3.16"@ || v
            == "3.15"@ || v == "3.14"@ || v == "3.13"@ || v == "3.12"@ || v == "3.11"@ || v
            == "3.9"@ || v == "3.8"@ || v == "3.7"@) ==> listed_version("alpine"@, v),
        listed_version(d, v) ==> known_distribution(d),
        known_distribution(d) <==> (d == "ubuntu"@ || d == "debian"@ || d == "alpine"@),
{
    reveal_strlit("ubuntu");
    reveal_strlit("debian");
    reveal_strlit("alpine");
    assert("debian"@[0] != "ubuntu"@[0]);
    assert("alpine"@[0] != "ubuntu"@[0]);
    assert("alpine"@[0] != "debian"@[0]);
}

/// Whether `d` is ubuntu, debian or alpine.
pub fn is_known_distribution(d: &str) -> (r: bool)
    ensures
        r == known_distribution(d@),
{
    str_eq(d, "ubuntu") || str_eq(d, "debian") || str_eq(d, "alpine")
}

/// What installing a distribution does.
pub struct InstallPlan {
    /// The root file system archive, `ROOTFS_PATH/<d>-<v>.tar.xz`.
    pub archive: String,
    /// Whether the archive is downloaded first.
    pub download: bool,
    /// Where it is unpacked, `CONTAINER_PATH/<d>-<v>`.
    pub unpack_dir: String,
    /// The arguments of the `tar` run that unpacks it.
    pub unpack_args: Vec<String>,
}

/// What installing distribution `d`, version `v` does, given whether its
/// archive is already present: a download exactly when the version is one
/// the tool lists and the archive is not present yet; then `tar -xf
/// <archive> -C <unpack_dir>`.  `d` must be ubuntu, debian or alpine: the
/// tool stops ("Unknown <d>") on any other distribution, before this call.
pub fn install_plan(d: &str, v: &str, archive_present: bool) -> (p: InstallPlan)
    requires
        known_distribution(d@),
    ensures
        p.archive@ == rootfs_archive_spec(d@, v@),
        p.download == (listed_version(d@, v@) && !archive_present),
        p.unpack_dir@ == container_dir_spec(d@, v@),
        strings_view(p.unpack_args@) == seq![
            "-xf"@,
            rootfs_archive_spec(d@, v@),
            "-C"@,
            container_dir_spec(d@, v@),
        ],
{
    let listed = if str_eq(d, "ubuntu") {
        ubuntu_version(v)
    } else if str_eq(d, "debian") {
        debian_version(v)
    } else {
        alpine_version(v)
    };
    let archive = rootfs_archive(d, v);
    let unpack_dir = container_dir(d, v);
    let mut unpack_args: Vec<String> = Vec::new();
    unpack_args.push(String::from_str("-xf"));
    unpack_args.push(archive.clone());
    unpack_args.push(String::from_str("-C"));
    unpack_args.push(unpack_dir.clone());
    let ghost expected = seq![
        "-xf"@,
        rootfs_archive_spec(d@, v@),
        "-C"@,
        container_dir_spec(d@, v@),
    ];
    assert(strings_view(unpack_args@) =~= expected);
    InstallPlan { archive, download: listed && !archive_present, unpack_dir, unpack_args }
}

} // verus!
