//! Backing up and restoring a distribution: which archiver runs, in which
//! directory, with which arguments.
use vstd::prelude::*;
use crate::container::strings_view;
use crate::environment::{container_dir, container_dir_spec, release_name, release_name_of};
use crate::text::{ends_with, starts_with, str_eq};

verus! {

/// Where backups are written.
pub const BACKUP_DIR: &'static str = "/sdcard/Download/bakup";

/// A backup of an installed distribution.
pub struct Compress {
    /// `zip`, `xz` or `gzip`; anything else means `xz`.
    pub compress_type: String,
    pub distribution: String,
    pub verisons: String,
}

/// A restore of a distribution from an archive.
pub struct Decompression {
    /// `zip`, `xz` or `gzip`; anything else means `xz`.
    pub decompression_type: String,
    /// The archive to restore from.
    pub compress_package: String,
    pub decompression_distribution: String,
    pub decompression_verisons: String,
}

/// The archive formats the tool writes and reads.
#[derive(Debug, PartialEq, Eq, Structural, Clone, Copy)]
pub enum ArchiveFormat {
    Zip,
    Xz,
    Gzip,
}

/// The format named by a type string: `zip` and `gzip` name themselves,
/// every other string (`xz` among them) means xz.
pub open spec fn format_of(t: Seq<char>) -> ArchiveFormat {
    if t == "zip"@ {
        ArchiveFormat::Zip
    } else if t == "gzip"@ {
        ArchiveFormat::Gzip
    } else {
        ArchiveFormat::Xz
    }
}

/// The format named by `t`.
pub fn format_named(t: &str) -> (r: ArchiveFormat)
    ensures
        r == format_of(t@),
{
    if str_eq(t, "zip") {
        ArchiveFormat::Zip
    } else if str_eq(t, "gzip") {
        ArchiveFormat::Gzip
    } else {
        ArchiveFormat::Xz
    }
}

/// A run of an archiver.  The run is made only where `probe -h` succeeds;
/// otherwise the tool stops with "cannot find <missing> command".
pub struct ArchiveCommand {
    /// The program whose presence is checked.
    pub probe: String,
    /// The program named when the check fails.
    pub missing: String,
    /// The program that is run.
    pub program: String,
    /// The directory it is run in.
    pub current_dir: String,
    pub args: Vec<String>,
}

/// The file a backup in format `f` of `<d>-<v>` is written to.
pub open spec fn backup_file_spec(f: ArchiveFormat, d: Seq<char>, v: Seq<char>) -> Seq<char> {
    BACKUP_DIR@ + "/"@ + release_name(d, v) + match f {
        ArchiveFormat::Zip => ".zip"@,
        ArchiveFormat::Xz => ".tar.xz"@,
        ArchiveFormat::Gzip => ".tar.gz"@,
    }
}

/// The program checked for and named by a backup in format `f`.
pub open spec fn backup_tool(f: ArchiveFormat) -> Seq<char> {
    match f {
        ArchiveFormat::Zip => "zip"@,
        ArchiveFormat::Xz => "xz"@,
        ArchiveFormat::Gzip => "gzip"@,
    }
}

/// The program a backup in format `f` runs.
pub open spec fn backup_program(f: ArchiveFormat) -> Seq<char> {
    match f {
        ArchiveFormat::Zip => "zip"@,
        _ => "tar"@,
    }
}

/// The arguments of a backup in format `f` of `<d>-<v>`; it runs in the
/// distribution's directory and archives `.`.
pub open spec fn backup_args(f: ArchiveFormat, d: Seq<char>, v: Seq<char>) -> Seq<Seq<char>> {
    match f {
        ArchiveFormat::Zip => seq!["-q"@, "-r"@, backup_file_spec(f, d, v), "."@],
        ArchiveFormat::Xz => seq!["-Jcvf"@, backup_file_spec(f, d, v), "."@],
        ArchiveFormat::Gzip => seq!["-zcvf"@, backup_file_spec(f, d, v), "."@],
    }
}

/// The program checked for when restoring from format `f`.
pub open spec fn restore_probe(f: ArchiveFormat) -> Seq<char> {
    match f {
        ArchiveFormat::Zip => "zip"@,
        ArchiveFormat::Xz => "xz"@,
        ArchiveFormat::Gzip => "gzip"@,
    }
}

/// The program named when that check fails.
pub open spec fn restore_missing(f: ArchiveFormat) -> Seq<char> {
    match f {
        ArchiveFormat::Zip => "unzip"@,
        ArchiveFormat::Xz => "xz"@,
        ArchiveFormat::Gzip => "gzip"@,
    }
}

/// The program a restore from format `f` runs.
pub open spec fn restore_program(f: ArchiveFormat) -> Seq<char> {
    match f {
        ArchiveFormat::Zip => "unzip"@,
        _ => "tar"@,
    }
}

/// The arguments of a restore from format `f` of the archive `package`; it
/// runs in the distribution's directory.
pub open spec fn restore_args(f: ArchiveFormat, package: Seq<char>) -> Seq<Seq<char>> {
    match f {
        ArchiveFormat::Zip => seq!["-n"@, package],
        ArchiveFormat::Xz => seq!["-PpJxvf"@, package],
        ArchiveFormat::Gzip => seq!["-Ppzxvf"@, package],
    }
}

fn backup_file(f: ArchiveFormat, d: &str, v: &str) -> (r: String)
    ensures
        r@ == backup_file_spec(f, d@, v@),
{
    let mut r = String::from_str(BACKUP_DIR);
    r.append("/");
    let name = release_name_of(d, v);
    r.append(name.as_str());
    match f {
        ArchiveFormat::Zip => r.append(".zip"),
        ArchiveFormat::Xz => r.append(".tar.xz"),
        ArchiveFormat::Gzip => r.append(".tar.gz"),
    }
    assert(r@ =~= backup_file_spec(f, d@, v@));
    r
}

impl Compress {
    /// The archiver run that backs up `<distribution>-<verisons>` into
    /// `BACKUP_DIR` (which is created first where it is missing).
    pub fn compress_type(&self) -> (r: ArchiveCommand)
        ensures
            r.probe@ == backup_tool(format_of(self.compress_type@)),
            r.missing@ == backup_tool(format_of(self.compress_type@)),
            r.program@ == backup_program(format_of(self.compress_type@)),
            r.current_dir@ == container_dir_spec(self.distribution@, self.verisons@),
            strings_view(r.args@) == backup_args(
                format_of(self.compress_type@),
                self.distribution@,
                self.verisons@,
            ),
    {
        let f = format_named(self.compress_type.as_str());
        let d = self.distribution.as_str();
        let v = self.verisons.as_str();
        let file = backup_file(f, d, v);
        let mut args: Vec<String> = Vec::new();
        let (tool, program) = match f {
            ArchiveFormat::Zip => {
                args.push(String::from_str("-q"));
                args.push(String::from_str("-r"));
                ("zip", "zip")
            },
            ArchiveFormat::Xz => {
                args.push(String::from_str("-Jcvf"));
                ("xz", "tar")
            },
            ArchiveFormat::Gzip => {
                args.push(String::from_str("-zcvf"));
                ("gzip", "tar")
            },
        };
        args.push(file);
        args.push(String::from_str("."));
        assert(strings_view(args@) =~= backup_args(f, d@, v@));
        ArchiveCommand {
            probe: String::from_str(tool),
            missing: String::from_str(tool),
            program: String::from_str(program),
            current_dir: container_dir(d, v),
            args,
        }
    }
}

impl Decompression {
    /// The archiver run that restores `compress_package` into the
    /// directory of `<decompression_distribution>-<decompression_verisons>`
    /// (which is created first where it is missing).
    pub fn decompression_type(&self) -> (r: ArchiveCommand)
        ensures
            r.probe@ == restore_probe(format_of(self.decompression_type@)),
            r.missing@ == restore_missing(format_of(self.decompression_type@)),
            r.program@ == restore_program(format_of(self.decompression_type@)),
            r.current_dir@ == container_dir_spec(
                self.decompression_distribution@,
                self.decompression_verisons@,
            ),
            strings_view(r.args@) == restore_args(
                format_of(self.decompression_type@),
                self.compress_package@,
            ),
    {
        let f = format_named(self.decompression_type.as_str());
        let mut args: Vec<String> = Vec::new();
        let (probe, missing, program) = match f {
            ArchiveFormat::Zip => {
                args.push(String::from_str("-n"));
                ("zip", "unzip", "unzip")
            },
            ArchiveFormat::Xz => {
                args.push(String::from_str("-PpJxvf"));
                ("xz", "xz", "tar")
            },
            ArchiveFormat::Gzip => {
                args.push(String::from_str("-Ppzxvf"));
                ("gzip", "gzip", "tar")
            },
        };
        args.push(self.compress_package.clone());
        assert(strings_view(args@) =~= restore_args(f, self.compress_package@));
        ArchiveCommand {
            probe: String::from_str(probe),
            missing: String::from_str(missing),
            program: String::from_str(program),
            current_dir: container_dir(
                self.decompression_distribution.as_str(),
                self.decompression_verisons.as_str(),
            ),
            args,
        }
    }
}

/// The type strings name their formats (`zip`, `gzip`, `xz`), and a backup
/// is written into `BACKUP_DIR` under `<d>-<v>` with the format's file
/// extension.
pub proof fn backups_are_named_by_format(d: Seq<char>, v: Seq<char>)
    ensures
        format_of("zip"@) == ArchiveFormat::Zip,
        format_of("gzip"@) == ArchiveFormat::Gzip,
        format_of("xz"@) == ArchiveFormat::Xz,
        forall|t: Seq<char>| #[trigger] format_of(t) == ArchiveFormat::Zip ==> t == "zip"@,
        forall|t: Seq<char>| #[trigger] format_of(t) == ArchiveFormat::Gzip ==> t == "gzip"@,
        backup_tool(ArchiveFormat::Zip) == "zip"@ && backup_tool(ArchiveFormat::Xz) == "xz"@
            && backup_tool(ArchiveFormat::Gzip) == "gzip"@,
        restore_probe(ArchiveFormat::Zip) == "zip"@ && restore_probe(ArchiveFormat::Xz) == "xz"@
            && restore_probe(ArchiveFormat::Gzip) == "gzip"@,
        restore_missing(ArchiveFormat::Zip) == "unzip"@ && restore_missing(ArchiveFormat::Xz)
            == "xz"@ && restore_missing(ArchiveFormat::Gzip) == "gzip"@,
        starts_with(backup_file_spec(ArchiveFormat::Zip, d, v), BACKUP_DIR@ + "/"@ + d + "-"@ + v),
        ends_with(backup_file_spec(ArchiveFormat::Zip, d, v), ".zip"@),
        ends_with(backup_file_spec(ArchiveFormat::Xz, d, v), ".tar.xz"@),
        ends_with(backup_file_spec(ArchiveFormat::Gzip, d, v), ".tar.gz"@),
{
    reveal_strlit("zip");
    reveal_strlit("gzip");
    reveal_strlit("xz");
    assert("gzip"@[0] != "zip"@[0]);
    assert("xz"@[0] != "zip"@[0]);
    assert("xz"@[0] != "gzip"@[0]);
    let name = BACKUP_DIR@ + "/"@ + (d + "-"@ + v);
    assert(BACKUP_DIR@ + "/"@ + d + "-"@ + v =~= name);
    let z = backup_file_spec(ArchiveFormat::Zip, d, v);
    assert(z =~= name + ".zip"@);
    assert(z.take(name.len() as int) =~= name);
    assert(z.skip(z.len() - ".zip"@.len()) =~= ".zip"@);
    let x = backup_file_spec(ArchiveFormat::Xz, d, v);
    assert(x =~= name + ".tar.xz"@);
    assert(x.skip(x.len() - ".tar.xz"@.len()) =~= ".tar.xz"@);
    let g = backup_file_spec(ArchiveFormat::Gzip, d, v);
    assert(g =~= name + ".tar.gz"@);
    assert(g.skip(g.len() - ".tar.gz"@.len()) =~= ".tar.gz"@);
}

/// A restore undoes a backup: restoring, with the same type string, the
/// archive that a backup of `<d>-<v>` wrote runs in the directory the
/// backup archived, reads that archive, and unpacks it with the program
/// that matches the one that packed it (`unzip` for `zip`, `tar` for
/// `tar`) and the same compression (`J` for xz, `z` for gzip).
pub proof fn restore_undoes_backup(t: Seq<char>, d: Seq<char>, v: Seq<char>)
    ensures
        ({
            let f = format_of(t);
            let file = backup_file_spec(f, d, v);
            &&& restore_args(f, file).last() == file
            &&& backup_args(f, d, v).contains(file)
            &&& f == ArchiveFormat::Zip ==> backup_program(f) == "zip"@ && restore_program(f)
                == "unzip"@
            &&& f != ArchiveFormat::Zip ==> backup_program(f) == "tar"@ && restore_program(f)
                == "tar"@
            &&& f == ArchiveFormat::Xz ==> backup_args(f, d, v)[0] == "-Jcvf"@
                && restore_args(f, file)[0] == "-PpJxvf"@
            &&& f == ArchiveFormat::Gzip ==> backup_args(f, d, v)[0] == "-zcvf"@
                && restore_args(f, file)[0] == "-Ppzxvf"@
        }),
{
    let f = format_of(t);
    let file = backup_file_spec(f, d, v);
    match f {
        ArchiveFormat::Zip => assert(backup_args(f, d, v)[2] == file),
        _ => assert(backup_args(f, d, v)[1] == file),
    }
}

} // verus!
