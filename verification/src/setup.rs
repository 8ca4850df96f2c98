//! The shared resources the tool fetches before it does anything else.
use vstd::prelude::*;

verus! {

/// The index of root file system mirrors.
pub const ROOTFS_INDEX_FILE: &'static str = "/data/data/com.termux/files/usr/share/at/json/rootfs.json";

/// The index of package sources.
pub const SOURCES_INDEX_FILE: &'static str = "/data/data/com.termux/files/usr/share/at/json/sources.json";

/// The directory of both indexes.
pub const INDEX_DIR: &'static str = "/data/data/com.termux/files/usr/share/at/json";

/// The directory of the replacement `/proc` files.
pub const PROC_DIR: &'static str = "/data/data/com.termux/files/usr/share/at/proc/";

/// The archive the replacement `/proc` files come in, inside `PROC_DIR`.
pub const PROC_ARCHIVE: &'static str = "/data/data/com.termux/files/usr/share/at/proc/proc.tar.gz";

pub const ROOTFS_INDEX_URL: &'static str = "https://gitee.com/Tidal-team/at-resources/raw/master/json/rootfs.json";

pub const SOURCES_INDEX_URL: &'static str = "https://gitee.com/Tidal-team/at-resources/raw/master/json/sources.json";

pub const PROC_ARCHIVE_URL: &'static str = "https://gitee.com/Tidal-team/at-resources/raw/master/proc.tar.gz";

/// A resource that is fetched because it is missing.
#[derive(Debug, PartialEq, Eq, Structural, Clone, Copy)]
pub enum SetupStep {
    /// Download `ROOTFS_INDEX_URL` to `ROOTFS_INDEX_FILE`.
    FetchRootfsIndex,
    /// Download `PROC_ARCHIVE_URL` to `PROC_ARCHIVE`, unpack it into
    /// `PROC_DIR` and remove the archive.
    FetchProcFiles,
    /// Download `SOURCES_INDEX_URL` to `SOURCES_INDEX_FILE`.
    FetchSourcesIndex,
}

/// The steps for the resources that are missing, in the order root file
/// system index, `/proc` files, sources index.
pub open spec fn setup_steps_spec(
    rootfs_index_present: bool,
    proc_present: bool,
    sources_index_present: bool,
) -> Seq<SetupStep> {
    (if rootfs_index_present {
        Seq::empty()
    } else {
        seq![SetupStep::FetchRootfsIndex]
    }) + (if proc_present {
        Seq::empty()
    } else {
        seq![SetupStep::FetchProcFiles]
    }) + (if sources_index_present {
        Seq::empty()
    } else {
        seq![SetupStep::FetchSourcesIndex]
    })
}

/// A resource is fetched exactly when it is missing, and each at most once.
pub proof fn missing_resources_are_fetched(r: bool, p: bool, s: bool)
    ensures
        setup_steps_spec(r, p, s).contains(SetupStep::FetchRootfsIndex) == !r,
        setup_steps_spec(r, p, s).contains(SetupStep::FetchProcFiles) == !p,
        setup_steps_spec(r, p, s).contains(SetupStep::FetchSourcesIndex) == !s,
        setup_steps_spec(r, p, s).len() == (if r {
            0int
        } else {
            1
        }) + (if p {
            0int
        } else {
            1
        }) + (if s {
            0int
        } else {
            1
        }),
{
    let q = setup_steps_spec(r, p, s);
    if !r {
        assert(q[0] == SetupStep::FetchRootfsIndex);
    }
    if !p {
        let i: int = if r { 0 } else { 1 };
        assert(q[i] == SetupStep::FetchProcFiles);
    }
    if !s {
        assert(q[q.len() - 1] == SetupStep::FetchSourcesIndex);
    }
    assert(!r || !q.contains(SetupStep::FetchRootfsIndex));
    assert(!p || !q.contains(SetupStep::FetchProcFiles));
    assert(!s || !q.contains(SetupStep::FetchSourcesIndex));
}

/// What has to be fetched, given which resources are present.
pub fn setup_steps(rootfs_index_present: bool, proc_present: bool, sources_index_present: bool) -> (r:
    Vec<SetupStep>)
    ensures
        r@ == setup_steps_spec(rootfs_index_present, proc_present, sources_index_present),
{
    let mut r: Vec<SetupStep> = Vec::new();
    if !rootfs_index_present {
        r.push(SetupStep::FetchRootfsIndex);
    }
    if !proc_present {
        r.push(SetupStep::FetchProcFiles);
    }
    if !sources_index_present {
        r.push(SetupStep::FetchSourcesIndex);
    }
    assert(r@ =~= setup_steps_spec(rootfs_index_present, proc_present, sources_index_present));
    r
}

} // verus!
