//! Logging in to an installed distribution: where its login script and
//! configuration live, when the script has to be written again, what the
//! configuration must hold, and the proot command line the script runs.
use vstd::prelude::*;
use crate::environment::{concat, container_dir, container_dir_spec, CONTAINER_PATH};
use crate::json::{json_document, read_setting, setting, setting_of, ConfigError, JsonDocumentView};
use crate::text::{ends_with, occurs_at, occurs_in, starts_with, str_eq};

verus! {

/// The files that belong to logging in to one distribution.
pub struct LoginPaths {
    /// `CONTAINER_PATH/<d>-<v>`.
    pub distribution_dir: String,
    /// The configuration the user edits.
    pub config: String,
    /// The copy of the configuration the login script was written from.
    pub saved_config: String,
    /// The login script.
    pub login_script: String,
}

/// The login files of distribution `d`, version `v`.
pub fn login_paths(d: &str, v: &str) -> (r: LoginPaths)
    ensures
        r.distribution_dir@ == container_dir_spec(d@, v@),
        r.config@ == container_dir_spec(d@, v@) + "/usr/share/at/config.json"@,
        r.saved_config@ == container_dir_spec(d@, v@) + "/usr/share/at/config.json.temp"@,
        r.login_script@ == container_dir_spec(d@, v@) + "/usr/share/at/login"@,
{
    let dir = container_dir(d, v);
    let config = concat(dir.as_str(), "/usr/share/at/config.json");
    let saved_config = concat(dir.as_str(), "/usr/share/at/config.json.temp");
    let login_script = concat(dir.as_str(), "/usr/share/at/login");
    LoginPaths { distribution_dir: dir, config, saved_config, login_script }
}

/// What a login does next.
#[derive(Debug, PartialEq, Eq, Structural, Clone, Copy)]
pub enum LoginDecision {
    /// Run the existing login script.
    Enter,
    /// Write the login script again from the configuration, save a copy of
    /// the configuration, and decide again.
    Reconfigure,
}

/// The login script is run as it stands exactly when it exists and the
/// configuration is unchanged since it was written.
pub open spec fn decide_login(
    script_exists: bool,
    config: Seq<char>,
    saved_config: Seq<char>,
) -> LoginDecision {
    if script_exists && config == saved_config {
        LoginDecision::Enter
    } else {
        LoginDecision::Reconfigure
    }
}

/// Whether to run the login script or write it again, given whether it
/// exists and the texts of the configuration and of its saved copy.
pub fn login_decision(script_exists: bool, config: &str, saved_config: &str) -> (r: LoginDecision)
    ensures
        r == decide_login(script_exists, config@, saved_config@),
{
    if script_exists && str_eq(config, saved_config) {
        LoginDecision::Enter
    } else {
        LoginDecision::Reconfigure
    }
}

/// Writing the login script and saving a copy of the configuration leaves a
/// state in which the next decision is to run the script: a login
/// reconfigures at most once.
pub proof fn reconfiguration_leads_to_entry(config: Seq<char>)
    ensures
        decide_login(true, config, config) == LoginDecision::Enter,
{
}

/// The existing login script is run exactly when it exists and the
/// configuration is what it was when the script was written; any change
/// to the configuration, or a missing script, makes it be written again.
pub proof fn script_reused_only_when_unchanged(
    script_exists: bool,
    config: Seq<char>,
    saved_config: Seq<char>,
)
    ensures
        decide_login(script_exists, config, saved_config) == LoginDecision::Enter <==> (
        script_exists && config == saved_config),
        config != saved_config ==> decide_login(script_exists, config, saved_config)
            == LoginDecision::Reconfigure,
        !script_exists ==> decide_login(script_exists, config, saved_config)
            == LoginDecision::Reconfigure,
{
}

/// The settings of `config.json` that a login uses, each with the quotes
/// around it removed.
pub struct LoginSettings {
    pub user: String,
    pub proot_dir: String,
    pub login_bash: String,
    pub mount_sd: String,
    pub add_option: String,
    pub lang: String,
}

/// The settings read from `doc`, where all six are present.
pub open spec fn settings_match(s: LoginSettings, doc: JsonDocumentView) -> bool {
    &&& setting(doc, "user"@) == Some(s.user@)
    &&& setting(doc, "proot_dir"@) == Some(s.proot_dir@)
    &&& setting(doc, "login_bash"@) == Some(s.login_bash@)
    &&& setting(doc, "mount_sd"@) == Some(s.mount_sd@)
    &&& setting(doc, "add_option"@) == Some(s.add_option@)
    &&& setting(doc, "lang"@) == Some(s.lang@)
}

/// The first of the six keys that `doc` lacks.
pub open spec fn first_missing(doc: JsonDocumentView) -> Option<Seq<char>> {
    if setting(doc, "user"@) is None {
        Some("user"@)
    } else if setting(doc, "proot_dir"@) is None {
        Some("proot_dir"@)
    } else if setting(doc, "login_bash"@) is None {
        Some("login_bash"@)
    } else if setting(doc, "mount_sd"@) is None {
        Some("mount_sd"@)
    } else if setting(doc, "add_option"@) is None {
        Some("add_option"@)
    } else if setting(doc, "lang"@) is None {
        Some("lang"@)
    } else {
        None
    }
}

/// Reads the six login settings from the configuration text `config`,
/// which must be JSON and hold all of `user`, `proot_dir`, `login_bash`,
/// `mount_sd`, `add_option` and `lang`: the tool stops ("Failed to process
/// language configuration") on any other configuration, before this call.
pub fn read_login_settings(config: &str) -> (r: LoginSettings)
    requires
        json_document(config@) is Some,
        first_missing(json_document(config@)->0) is None,
    ensures
        settings_match(r, json_document(config@)->0),
{
    LoginSettings {
        user: setting_of(config, "user"),
        proot_dir: setting_of(config, "proot_dir"),
        login_bash: setting_of(config, "login_bash"),
        mount_sd: setting_of(config, "mount_sd"),
        add_option: setting_of(config, "add_option"),
        lang: setting_of(config, "lang"),
    }
}

/// `read_login_settings` where the configuration is JSON and complete;
/// otherwise `Malformed`, or the first of the six keys that it lacks.
pub fn try_read_login_settings(config: &str) -> (r: Result<LoginSettings, ConfigError>)
    ensures
        json_document(config@) is None ==> r == Err::<LoginSettings, ConfigError>(
            ConfigError::Malformed,
        ),
        json_document(config@) is Some ==> match r {
            Ok(s) => first_missing(json_document(config@)->0) is None && settings_match(
                s,
                json_document(config@)->0,
            ),
            Err(ConfigError::Missing(k)) => first_missing(json_document(config@)->0) == Some(
                k@,
            ),
            Err(ConfigError::Malformed) => false,
        },
{
    read_setting(config, "user")?;
    read_setting(config, "proot_dir")?;
    read_setting(config, "login_bash")?;
    read_setting(config, "mount_sd")?;
    read_setting(config, "add_option")?;
    read_setting(config, "lang")?;
    Ok(read_login_settings(config))
}

/// A complete configuration names no missing key, and the key named
/// missing is one the configuration lacks; the settings read from a
/// configuration are its `user`, `proot_dir`, `login_bash`, `mount_sd`,
/// `add_option` and `lang` values.
pub proof fn settings_come_from_their_keys(doc: JsonDocumentView, s: LoginSettings)
    ensures
        first_missing(doc) is None ==> setting(doc, "user"@) is Some && setting(doc, "proot_dir"@)
            is Some && setting(doc, "login_bash"@) is Some && setting(doc, "mount_sd"@) is Some
            && setting(doc, "add_option"@) is Some && setting(doc, "lang"@) is Some,
        first_missing(doc) matches Some(k) ==> setting(doc, k) is None,
        settings_match(s, doc) ==> Some(s.user@) == setting(doc, "user"@) && Some(s.proot_dir@)
            == setting(doc, "proot_dir"@) && Some(s.login_bash@) == setting(doc, "login_bash"@)
            && Some(s.mount_sd@) == setting(doc, "mount_sd"@) && Some(s.add_option@) == setting(
            doc,
            "add_option"@,
        ) && Some(s.lang@) == setting(doc, "lang"@),
{
}

/// The login command made from a configuration runs its `proot_dir` and
/// ends by starting its `login_bash` with its `lang`.
pub proof fn configuration_drives_login(
    doc: JsonDocumentView,
    s: LoginSettings,
    dir: Seq<char>,
    uid: Seq<char>,
    gid: Seq<char>,
)
    requires
        settings_match(s, doc),
    ensures
        starts_with(login_command_spec(dir, s, uid, gid), setting(doc, "proot_dir"@)->0),
        ends_with(
            login_command_spec(dir, s, uid, gid),
            setting(doc, "lang"@)->0 + " "@
                + "PATH=/usr/local/sbin:/usr/local/bin:/bin:/usr/bin:/sbin:/usr/sbin:/usr/games:/usr/local/games "@
                + setting(doc, "login_bash"@)->0,
        ),
{
    login_command_layout(dir, s, uid, gid);
    let cmd = login_command_spec(dir, s, uid, gid);
    let head = s.proot_dir@ + " --kill-on-exit -L -H -p --link2symlink --rootfs="@ + dir;
    assert(cmd.take(s.proot_dir@.len() as int) =~= cmd.take(head.len() as int).take(
        s.proot_dir@.len() as int,
    ));
    assert(head.take(s.proot_dir@.len() as int) =~= s.proot_dir@);
}

/// The lookup of a user's ids: a `grep` for the user in the password file
/// of the containers directory, printing the fourth field.
pub proof fn passwd_query_shape(user: Seq<char>)
    ensures
        starts_with(passwd_query_spec(user), "grep \""@ + user + "\" "@ + CONTAINER_PATH@),
        ends_with(passwd_query_spec(user), "/etc/passwd | awk -F ':' '{print $4}'"@),
{
    let q = passwd_query_spec(user);
    let head = "grep \""@ + user + "\" "@ + CONTAINER_PATH@;
    let tail = "/etc/passwd | awk -F ':' '{print $4}'"@;
    assert(q =~= head + tail);
    assert(q.take(head.len() as int) =~= head);
    assert(q.skip(q.len() - tail.len()) =~= tail);
}

/// The shell command that looks up the group id of `user` in the password
/// file of the containers directory.
pub open spec fn passwd_query_spec(user: Seq<char>) -> Seq<char> {
    "grep \""@ + user + "\" "@ + CONTAINER_PATH@ + "/etc/passwd | awk -F ':' '{print $4}'"@
}

/// The shell command that looks up the id used for `user`: the fourth field
/// of its line in `CONTAINER_PATH/etc/passwd`.
pub fn passwd_query(user: &str) -> (r: String)
    ensures
        r@ == passwd_query_spec(user@),
{
    let mut r = String::from_str("grep \"");
    r.append(user);
    r.append("\" ");
    r.append(CONTAINER_PATH);
    r.append("/etc/passwd | awk -F ':' '{print $4}'");
    assert(r@ =~= passwd_query_spec(user@));
    r
}

/// The search path set inside the container.
pub open spec fn session_path() -> Seq<char> {
    "PATH=/usr/local/sbin:/usr/local/bin:/bin:/usr/bin:/sbin:/usr/sbin:/usr/games:/usr/local/games "@
}

/// The proot invocation and the mounts every login has.
pub open spec fn login_base(dir: Seq<char>, proot_dir: Seq<char>) -> Seq<char> {
    proot_dir + " --kill-on-exit -L -H -p --link2symlink --rootfs="@ + dir
        + " --mount=/dev --mount=/proc --mount=/system --mount="@ + dir
        + "/tmp:/dev/shm --mount="@ + dir
        + "/proc --mount=/sys --mount=/proc/self/fd/2:/dev/stderr --mount=/proc/self/fd/2:/dec/stdout --mount=/proc/self/fd/0:/dev/stdin --mount=/proc/self/fd:/dev/fd --mount=/dev/urandom:/dev/random"@
}

/// The shared storage is mounted unless `mount_sd` is `false`.
pub open spec fn sd_part(mount_sd: Seq<char>) -> Seq<char> {
    if mount_sd != "false"@ {
        " --mount=/sdcard:/media/sd"@
    } else {
        Seq::empty()
    }
}

/// Extra proot options are added unless `add_option` is `null`.
pub open spec fn option_part(add_option: Seq<char>) -> Seq<char> {
    if add_option != "null"@ {
        " "@ + add_option
    } else {
        Seq::empty()
    }
}

/// The working directory, identity and environment of the session.
pub open spec fn session_part(
    user: Seq<char>,
    uid: Seq<char>,
    gid: Seq<char>,
    lang: Seq<char>,
    login_bash: Seq<char>,
) -> Seq<char> {
    if user != "root"@ {
        " --cwd=/home/"@ + user + " --change-id="@ + uid + ":"@ + gid
            + " /usr/bin/env -i HOME=/home/"@ + user + " USER="@ + user
            + " TERM=xterm-256color TMPDIR=/tmp LANG="@ + lang + " "@ + session_path() + login_bash
    } else {
        " --cwd=/root --root-id /usr/bin/env -i HOME=/root USER=root TERM=xterm-256color TMPDIR=/tmp LANG="@
            + lang + " "@ + session_path() + login_bash
    }
}

/// The command line of the login script for the distribution in `dir`.
pub open spec fn login_command_spec(
    dir: Seq<char>,
    s: LoginSettings,
    uid: Seq<char>,
    gid: Seq<char>,
) -> Seq<char> {
    login_base(dir, s.proot_dir@) + sd_part(s.mount_sd@) + option_part(s.add_option@)
        + session_part(s.user@, uid, gid, s.lang@, s.login_bash@)
}

/// The documented effect of the settings on the login command: the shared
/// storage is mounted whenever `mount_sd` is not `false`, extra proot
/// options are passed whenever `add_option` is not `null`, and a `root`
/// user logs in as root in `/root`.
pub proof fn settings_shape_login(dir: Seq<char>, s: LoginSettings, uid: Seq<char>, gid: Seq<char>)
    ensures
        s.mount_sd@ != "false"@ ==> occurs_in(
            login_command_spec(dir, s, uid, gid),
            " --mount=/sdcard:/media/sd"@,
        ),
        s.add_option@ != "null"@ ==> occurs_in(
            login_command_spec(dir, s, uid, gid),
            " "@ + s.add_option@,
        ),
        s.user@ == "root"@ ==> occurs_in(
            login_command_spec(dir, s, uid, gid),
            " --cwd=/root --root-id /usr/bin/env -i HOME=/root USER=root TERM=xterm-256color TMPDIR=/tmp LANG="@,
        ),
{
    let base = login_base(dir, s.proot_dir@);
    let sd = sd_part(s.mount_sd@);
    let opt = option_part(s.add_option@);
    let session = session_part(s.user@, uid, gid, s.lang@, s.login_bash@);
    let cmd = login_command_spec(dir, s, uid, gid);
    assert(cmd == base + sd + opt + session);
    if s.mount_sd@ != "false"@ {
        assert(cmd.subrange(base.len() as int, (base.len() + sd.len()) as int) =~= sd);
        assert(occurs_at(cmd, sd, base.len() as int));
    }
    if s.add_option@ != "null"@ {
        let at: int = (base.len() + sd.len()) as int;
        assert(cmd.subrange(at, at + opt.len()) =~= opt);
        assert(occurs_at(cmd, opt, at));
    }
    if s.user@ == "root"@ {
        let head = " --cwd=/root --root-id /usr/bin/env -i HOME=/root USER=root TERM=xterm-256color TMPDIR=/tmp LANG="@;
        let at: int = (base.len() + sd.len() + opt.len()) as int;
        assert(cmd.subrange(at, at + head.len()) =~= head);
        assert(occurs_at(cmd, head, at));
    }
}

/// The shape of every login command: it starts by running the configured
/// proot program on the distribution's root file system, and it ends by
/// starting the configured login shell with the configured language and
/// the fixed search path; a user other than `root` logs in in its home
/// directory under the ids looked up for it.
pub proof fn login_command_layout(dir: Seq<char>, s: LoginSettings, uid: Seq<char>, gid: Seq<char>)
    ensures
        starts_with(
            login_command_spec(dir, s, uid, gid),
            s.proot_dir@ + " --kill-on-exit -L -H -p --link2symlink --rootfs="@ + dir,
        ),
        ends_with(
            login_command_spec(dir, s, uid, gid),
            s.lang@ + " "@
                + "PATH=/usr/local/sbin:/usr/local/bin:/bin:/usr/bin:/sbin:/usr/sbin:/usr/games:/usr/local/games "@
                + s.login_bash@,
        ),
        occurs_in(
            login_command_spec(dir, s, uid, gid),
            " --mount=/dev --mount=/proc --mount=/system --mount="@ + dir
                + "/tmp:/dev/shm --mount="@ + dir,
        ),
        s.user@ != "root"@ ==> occurs_in(
            login_command_spec(dir, s, uid, gid),
            " --cwd=/home/"@ + s.user@ + " --change-id="@ + uid + ":"@ + gid
                + " /usr/bin/env -i HOME=/home/"@ + s.user@ + " USER="@ + s.user@,
        ),
{
    let cmd = login_command_spec(dir, s, uid, gid);
    let head = s.proot_dir@ + " --kill-on-exit -L -H -p --link2symlink --rootfs="@ + dir;
    let base = login_base(dir, s.proot_dir@);
    let rest = sd_part(s.mount_sd@) + option_part(s.add_option@) + session_part(
        s.user@,
        uid,
        gid,
        s.lang@,
        s.login_bash@,
    );
    assert(cmd =~= base + rest);
    assert(base.take(head.len() as int) =~= head);
    assert(cmd.take(head.len() as int) =~= head);
    let mounts = " --mount=/dev --mount=/proc --mount=/system --mount="@ + dir
        + "/tmp:/dev/shm --mount="@ + dir;
    assert(base =~= head + mounts
        + "/proc --mount=/sys --mount=/proc/self/fd/2:/dev/stderr --mount=/proc/self/fd/2:/dec/stdout --mount=/proc/self/fd/0:/dev/stdin --mount=/proc/self/fd:/dev/fd --mount=/dev/urandom:/dev/random"@);
    assert(cmd.subrange(head.len() as int, (head.len() + mounts.len()) as int) =~= mounts);
    assert(occurs_at(cmd, mounts, head.len() as int));
    let tail = s.lang@ + " "@
        + "PATH=/usr/local/sbin:/usr/local/bin:/bin:/usr/bin:/sbin:/usr/sbin:/usr/games:/usr/local/games "@
        + s.login_bash@;
    let session = session_part(s.user@, uid, gid, s.lang@, s.login_bash@);
    let lead = if s.user@ != "root"@ {
        " --cwd=/home/"@ + s.user@ + " --change-id="@ + uid + ":"@ + gid
            + " /usr/bin/env -i HOME=/home/"@ + s.user@ + " USER="@ + s.user@
            + " TERM=xterm-256color TMPDIR=/tmp LANG="@
    } else {
        " --cwd=/root --root-id /usr/bin/env -i HOME=/root USER=root TERM=xterm-256color TMPDIR=/tmp LANG="@
    };
    assert(session =~= lead + tail);
    let pre = base + sd_part(s.mount_sd@) + option_part(s.add_option@) + lead;
    assert(cmd =~= pre + tail);
    assert(cmd.skip(cmd.len() - tail.len()) =~= tail);
    if s.user@ != "root"@ {
        let id = " --cwd=/home/"@ + s.user@ + " --change-id="@ + uid + ":"@ + gid
            + " /usr/bin/env -i HOME=/home/"@ + s.user@ + " USER="@ + s.user@;
        let at: int = (base.len() + sd_part(s.mount_sd@).len() + option_part(
            s.add_option@,
        ).len()) as int;
        assert(lead =~= id + " TERM=xterm-256color TMPDIR=/tmp LANG="@);
        assert(cmd.subrange(at, at + id.len()) =~= id);
        assert(occurs_at(cmd, id, at));
    }
}

fn login_base_of(dir: &str, proot_dir: &str) -> (r: String)
    ensures
        r@ == login_base(dir@, proot_dir@),
{
    let mut r = String::from_str(proot_dir);
    r.append(" --kill-on-exit -L -H -p --link2symlink --rootfs=");
    r.append(dir);
    r.append(" --mount=/dev --mount=/proc --mount=/system --mount=");
    r.append(dir);
    r.append("/tmp:/dev/shm --mount=");
    r.append(dir);
    r.append(
        "/proc --mount=/sys --mount=/proc/self/fd/2:/dev/stderr --mount=/proc/self/fd/2:/dec/stdout --mount=/proc/self/fd/0:/dev/stdin --mount=/proc/self/fd:/dev/fd --mount=/dev/urandom:/dev/random",
    );
    assert(r@ =~= login_base(dir@, proot_dir@));
    r
}

fn sd_part_of(mount_sd: &str) -> (r: String)
    ensures
        r@ == sd_part(mount_sd@),
{
    if !str_eq(mount_sd, "false") {
        String::from_str(" --mount=/sdcard:/media/sd")
    } else {
        String::new()
    }
}

fn option_part_of(add_option: &str) -> (r: String)
    ensures
        r@ == option_part(add_option@),
{
    if !str_eq(add_option, "null") {
        concat(" ", add_option)
    } else {
        String::new()
    }
}

fn session_part_of(user: &str, uid: &str, gid: &str, lang: &str, login_bash: &str) -> (r: String)
    ensures
        r@ == session_part(user@, uid@, gid@, lang@, login_bash@),
{
    let mut r;
    if !str_eq(user, "root") {
        r = String::from_str(" --cwd=/home/");
        r.append(user);
        r.append(" --change-id=");
        r.append(uid);
        r.append(":");
        r.append(gid);
        r.append(" /usr/bin/env -i HOME=/home/");
        r.append(user);
        r.append(" USER=");
        r.append(user);
        r.append(" TERM=xterm-256color TMPDIR=/tmp LANG=");
    } else {
        r = String::from_str(
            " --cwd=/root --root-id /usr/bin/env -i HOME=/root USER=root TERM=xterm-256color TMPDIR=/tmp LANG=",
        );
    }
    r.append(lang);
    r.append(" ");
    r.append(
        "PATH=/usr/local/sbin:/usr/local/bin:/bin:/usr/bin:/sbin:/usr/sbin:/usr/games:/usr/local/games ",
    );
    r.append(login_bash);
    assert(r@ =~= session_part(user@, uid@, gid@, lang@, login_bash@));
    r
}

/// The command line that the login script holds: proot on the
/// distribution in `dir` with the settings `s`, where `uid` and `gid` are
/// what the password lookup printed for a user other than `root`.
pub fn login_command(dir: &str, s: &LoginSettings, uid: &str, gid: &str) -> (r: String)
    ensures
        r@ == login_command_spec(dir@, *s, uid@, gid@),
{
    let mut r = login_base_of(dir, s.proot_dir.as_str());
    let sd = sd_part_of(s.mount_sd.as_str());
    r.append(sd.as_str());
    let opt = option_part_of(s.add_option.as_str());
    r.append(opt.as_str());
    let session = session_part_of(
        s.user.as_str(),
        uid,
        gid,
        s.lang.as_str(),
        s.login_bash.as_str(),
    );
    r.append(session.as_str());
    r
}

} // verus!
