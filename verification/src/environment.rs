//! Where the tool keeps its files, and the paths derived from a
//! distribution name and version.
use vstd::prelude::*;
use crate::text::{ends_with, starts_with};

verus! {

/// Directory that holds one unpacked root file system per installed
/// distribution, named `<distribution>-<version>`.
pub const CONTAINER_PATH: &'static str = "/data/data/com.termux/files/usr/share/at/containers";

/// Directory where downloaded root file system archives are kept.
pub const ROOTFS_PATH: &'static str = "/data/data/com.termux/files/usr/share/at/rootfs";

/// Directory of the `rootfs.json` and `sources.json` indexes.
pub const PROPERTIES_PATH: &'static str = "/data/data/com.termux/files/usr/share/at/json";

/// Directory of the replacement `/proc` files copied into containers.
pub const PROC_PATH: &'static str = "/data/data/com.termux/files/usr/share/at/proc";

/// `<distribution>-<version>`, the name under which a distribution lives.
pub open spec fn release_name(d: Seq<char>, v: Seq<char>) -> Seq<char> {
    d + "-"@ + v
}

/// The directory of an installed distribution.
pub open spec fn container_dir_spec(d: Seq<char>, v: Seq<char>) -> Seq<char> {
    CONTAINER_PATH@ + "/"@ + release_name(d, v)
}

/// The downloaded root file system archive of a distribution.
pub open spec fn rootfs_archive_spec(d: Seq<char>, v: Seq<char>) -> Seq<char> {
    ROOTFS_PATH@ + "/"@ + release_name(d, v) + ".tar.xz"@
}

/// An installed distribution lives in the containers directory under
/// `<d>-<v>`, and its archive in the root file system directory under
/// `<d>-<v>.tar.xz`.
pub proof fn paths_name_the_release(d: Seq<char>, v: Seq<char>)
    ensures
        starts_with(container_dir_spec(d, v), CONTAINER_PATH@ + "/"@),
        ends_with(container_dir_spec(d, v), d + "-"@ + v),
        starts_with(rootfs_archive_spec(d, v), ROOTFS_PATH@ + "/"@),
        ends_with(rootfs_archive_spec(d, v), d + "-"@ + v + ".tar.xz"@),
{
    let c = container_dir_spec(d, v);
    let cp = CONTAINER_PATH@ + "/"@;
    assert(c =~= cp + (d + "-"@ + v));
    assert(c.take(cp.len() as int) =~= cp);
    assert(c.skip(c.len() - (d + "-"@ + v).len()) =~= d + "-"@ + v);
    let r = rootfs_archive_spec(d, v);
    let rp = ROOTFS_PATH@ + "/"@;
    let rt = d + "-"@ + v + ".tar.xz"@;
    assert(r =~= rp + rt);
    assert(r.take(rp.len() as int) =~= rp);
    assert(r.skip(r.len() - rt.len()) =~= rt);
}

/// Concatenation of two strings.
pub fn concat(a: &str, b: &str) -> (r: String)
    ensures
        r@ == a@ + b@,
{
    let mut r = String::from_str(a);
    r.append(b);
    r
}

/// `<distribution>-<version>`.
pub fn release_name_of(d: &str, v: &str) -> (r: String)
    ensures
        r@ == release_name(d@, v@),
{
    let mut r = String::from_str(d);
    r.append("-");
    r.append(v);
    r
}

/// The directory of an installed distribution: `CONTAINER_PATH/<d>-<v>`.
pub fn container_dir(d: &str, v: &str) -> (r: String)
    ensures
        r@ == container_dir_spec(d@, v@),
{
    let mut r = String::from_str(CONTAINER_PATH);
    r.append("/");
    r.append(d);
    r.append("-");
    r.append(v);
    assert(r@ =~= container_dir_spec(d@, v@));
    r
}

/// The root file system archive of a distribution:
/// `ROOTFS_PATH/<d>-<v>.tar.xz`.
pub fn rootfs_archive(d: &str, v: &str) -> (r: String)
    ensures
        r@ == rootfs_archive_spec(d@, v@),
{
    let mut r = String::from_str(ROOTFS_PATH);
    r.append("/");
    r.append(d);
    r.append("-");
    r.append(v);
    r.append(".tar.xz");
    assert(r@ =~= rootfs_archive_spec(d@, v@));
    r
}

/// The index of root file system mirrors: `PROPERTIES_PATH/rootfs.json`.
pub fn rootfs_index_path() -> (r: String)
    ensures
        r@ == PROPERTIES_PATH@ + "/rootfs.json"@,
{
    concat(PROPERTIES_PATH, "/rootfs.json")
}

} // verus!
