use mxatools::cli::{
    any_installed, clean_cache, is_known_option, list_distribution, spilt_string, Action, DirEntry, Main,
};
use mxatools::compression::{ArchiveFormat, Compress, Decompression, format_named};
use mxatools::configuration::Configuration;
use mxatools::container::{
    aftermath_script, arch_name, check_download, default_config_url, dns_known, dns_url,
    download_rootfs, first_run_args, has_package_manager, machine_supported, package_manager,
    setup_paths, work, SCRIPT_CHECK,
    SCRIPT_HEAD, SCRIPT_TAIL, SCRIPT_UPDATE,
};
use mxatools::environment::{container_dir, rootfs_archive, rootfs_index_path, CONTAINER_PATH, ROOTFS_PATH};
use mxatools::install::{install_plan, is_known_distribution};
use mxatools::json::ConfigError;
use mxatools::logger::{log_line, LogFile, Logger};
use mxatools::login::{
    login_command, login_decision, login_paths, passwd_query, read_login_settings,
    try_read_login_settings, LoginDecision, LoginSettings,
};
use mxatools::setup::{setup_steps, SetupStep};

fn options() -> Main {
    Main {
        option: String::new(),
        distribution: String::new(),
        verisons: String::new(),
        compression_type: "xz".to_string(),
        install: String::new(),
        remove: String::new(),
        download: String::new(),
        login: String::new(),
        bakup: String::new(),
        restore: String::new(),
        list: String::new(),
        configuration: String::new(),
        compress_type: "xz".to_string(),
        compress_package: String::new(),
        decompression_type: "xz".to_string(),
        dns: String::new(),
        configuration_key: String::new(),
        configuration_value: String::new(),
        log_file: String::new(),
        log_to_stdout: true,
        log_to_stderr: true,
    }
}

#[test]
fn split_at_first_slash() {
    assert_eq!(spilt_string("debian/bookworm"), ("debian".to_string(), "bookworm".to_string()));
    assert_eq!(spilt_string("a/b/c"), ("a".to_string(), "b/c".to_string()));
    assert_eq!(spilt_string("ubuntu"), ("ubuntu".to_string(), String::new()));
    assert_eq!(spilt_string("alpine/"), ("alpine".to_string(), String::new()));
    assert_eq!(spilt_string("/3.19"), (String::new(), "3.19".to_string()));
    assert_eq!(spilt_string(""), (String::new(), String::new()));
}

#[test]
fn split_then_join_gives_back() {
    for s in ["debian/bookworm", "a/b/c", "/x", "x/"] {
        let (a, b) = spilt_string(s);
        assert_eq!(format!("{}/{}", a, b), s);
        assert!(!a.contains('/'));
    }
}

#[test]
fn run_plan_order() {
    let mut m = options();
    m.install = "debian/sid".to_string();
    m.list = "x".to_string();
    m.bakup = "ubuntu/jammy".to_string();
    m.dns = "google".to_string();
    let plan = m.run();
    assert_eq!(plan.len(), 3);
    match &plan[0] {
        Action::Install { distribution, version, dns } => {
            assert_eq!(distribution, "debian");
            assert_eq!(version, "sid");
            assert_eq!(dns, "google");
        }
        _ => panic!("install first"),
    }
    match &plan[1] {
        Action::Backup(c) => {
            assert_eq!(c.compress_type, "xz");
            assert_eq!(c.distribution, "ubuntu");
            assert_eq!(c.verisons, "jammy");
        }
        _ => panic!("backup second"),
    }
    assert!(matches!(plan[2], Action::List));
}

#[test]
fn download_installs_what_install_names() {
    let mut m = options();
    m.download = "ubuntu/focal".to_string();
    let plan = m.run();
    assert_eq!(plan.len(), 1);
    match &plan[0] {
        Action::Install { distribution, version, .. } => {
            assert_eq!(distribution, "");
            assert_eq!(version, "");
        }
        _ => panic!("download installs"),
    }
}

#[test]
fn empty_options_do_nothing() {
    assert!(options().run().is_empty());
}

#[test]
fn restore_and_configure_carry_options() {
    let mut m = options();
    m.restore = "debian/sid".to_string();
    m.compress_package = "/sdcard/b.zip".to_string();
    m.decompression_type = "zip".to_string();
    m.configuration = "debian/sid".to_string();
    m.configuration_key = "lang".to_string();
    m.configuration_value = "zh_CN.UTF-8".to_string();
    let plan = m.run();
    assert_eq!(plan.len(), 2);
    match &plan[0] {
        Action::Restore(d) => {
            assert_eq!(d.decompression_type, "zip");
            assert_eq!(d.compress_package, "/sdcard/b.zip");
            assert_eq!(d.decompression_distribution, "debian");
            assert_eq!(d.decompression_verisons, "sid");
        }
        _ => panic!("restore first"),
    }
    match &plan[1] {
        Action::Configure(c) => {
            assert_eq!(c.key, "lang");
            assert_eq!(c.value, "zh_CN.UTF-8");
        }
        _ => panic!("configure second"),
    }
}

#[test]
fn listing() {
    let entries = vec![
        DirEntry { name: Some("debian-sid".to_string()), is_dir: true },
        DirEntry { name: Some("notes.txt".to_string()), is_dir: false },
        DirEntry { name: None, is_dir: true },
        DirEntry { name: Some("ubuntu-jammy".to_string()), is_dir: true },
    ];
    assert!(any_installed(&entries));
    assert_eq!(
        list_distribution(&entries),
        vec!["debian-sid".to_string(), "ubuntu-jammy".to_string()]
    );
    let files = vec![DirEntry { name: Some("x".to_string()), is_dir: false }];
    assert!(!any_installed(&files));
    assert!(!any_installed(&vec![]));
}

#[test]
fn logging_setup() {
    let mut l = Logger { log_file: String::new(), log_to_stdout: true, log_to_stderr: true };
    let p = l.logger_parse();
    assert_eq!(p.file, LogFile::HomeDefault);
    assert!(p.console);
    l.log_file = "/tmp/at.log".to_string();
    l.log_to_stderr = false;
    let p = l.logger_parse();
    assert_eq!(p.file, LogFile::Path("/tmp/at.log".to_string()));
    assert!(!p.console);
    let m = options();
    let lc = m.logger_configuration();
    assert!(lc.log_file.is_empty() && lc.log_to_stdout && lc.log_to_stderr);
}

#[test]
fn paths() {
    assert_eq!(container_dir("debian", "sid"), format!("{}/debian-sid", CONTAINER_PATH));
    assert_eq!(rootfs_archive("debian", "sid"), format!("{}/debian-sid.tar.xz", ROOTFS_PATH));
    assert!(rootfs_index_path().ends_with("/rootfs.json"));
}

#[test]
fn install_plans() {
    let p = install_plan("debian", "bookworm", false);
    assert!(p.download);
    assert_eq!(p.archive, format!("{}/debian-bookworm.tar.xz", ROOTFS_PATH));
    assert_eq!(p.unpack_dir, format!("{}/debian-bookworm", CONTAINER_PATH));
    assert_eq!(p.unpack_args, vec!["-xf".to_string(), p.archive.clone(), "-C".to_string(), p.unpack_dir.clone()]);
    assert!(!install_plan("debian", "bookworm", true).download);
    assert!(!install_plan("ubuntu", "noble", false).download);
    assert!(install_plan("ubuntu", "22.04", false).download);
    assert!(install_plan("alpine", "3.9", false).download);
    assert!(!install_plan("alpine", "3.10", false).download);
    assert!(is_known_distribution("alpine"));
    assert!(!is_known_distribution("fedora"));
}

#[test]
fn rootfs_download_command() {
    assert_eq!(arch_name("aarch64"), "arm64");
    assert_eq!(arch_name("arm"), "armhf");
    assert!(machine_supported("arm"));
    assert!(!machine_supported("x86_64"));
    let c = download_rootfs("https://m/debian/sid/", "aarch64", "debian", "sid");
    assert_eq!(
        c,
        format!(
            "aria2c https://m/debian/sid/arm64/default/\"$(curl https://m/debian/sid/arm64/default/ | grep href | tail -n 2 | cut -d '\"' -f 4 | head -n 1)\"rootfs.tar.xz -d {} -o debian-sid.tar.xz",
            ROOTFS_PATH
        )
    );
}

#[test]
fn downloads_and_dns() {
    assert!(check_download(true, 200));
    assert!(!check_download(true, 404));
    assert!(!check_download(false, 200));
    assert_eq!(dns_url("google"), "https://gitee.com/Tidal-team/at-resources/raw/master/dns/google");
    assert!(dns_known("nameserver 8.8.8.8\n"));
    assert!(!dns_known("<p>Repository or file not found</p>"));
    assert!(default_config_url().ends_with("json/config.json"));
}

#[test]
fn first_run_setup() {
    let p = setup_paths("ubuntu", "jammy");
    let dir = format!("{}/ubuntu-jammy", CONTAINER_PATH);
    assert_eq!(p.container, dir);
    assert_eq!(p.resolv, format!("{}/etc/resolv.conf", dir));
    assert_eq!(p.proc_target, format!("{}/proc", CONTAINER_PATH));
    assert!(p.proc_source.ends_with("/proc/*"));
    assert_eq!(p.repo, format!("{}/usr/share/at/", dir));
    assert_eq!(p.config, format!("{}/usr/share/at/config.json", dir));
    assert_eq!(p.script, format!("{}/usr/share/at//aftermath_script.sh", dir));
    let pm = package_manager("ubuntu").unwrap();
    assert_eq!(pm.program, "/bin/apt");
    assert_eq!(pm.update, "apt update&&apt upgrade");
    assert_eq!(package_manager("arch").unwrap().update, "pacman -Syy");
    assert_eq!(package_manager("centos").unwrap().program, "/bin/yum");
    assert!(package_manager("alpine").is_none());
    let script = aftermath_script(&pm);
    assert_eq!(script, format!("{}/bin/apt{}/bin/apt{}apt update&&apt upgrade{}", SCRIPT_HEAD, SCRIPT_CHECK, SCRIPT_UPDATE, SCRIPT_TAIL));
    assert!(script.starts_with("#!/bin/bash\n"));
    assert!(script.contains("if [ ! -f /bin/apt ]; then\n\techo -e \"/bin/apt not find\""));
    assert!(script.contains("printf \"%s\\n\" \"${YELLOW}Updateing${RESET}\"\napt update&&apt upgrade\n"));
    let fr = work("ubuntu", "jammy", "nameserver 8.8.8.8\n");
    assert_eq!(fr.paths.script, p.script);
    assert_eq!(fr.script, script);
    assert_eq!(fr.proot_args, first_run_args(&dir));
    assert!(has_package_manager("debian"));
    assert!(!has_package_manager("alpine"));
    let args = first_run_args(&dir);
    assert_eq!(args.len(), 17);
    assert_eq!(args[0], "-S");
    assert_eq!(args[1], dir);
    assert_eq!(args[16], "/usr/share/at/aftermath_script.sh");
}

#[test]
fn backup_commands() {
    let c = Compress { compress_type: "zip".to_string(), distribution: "debian".to_string(), verisons: "sid".to_string() };
    let a = c.compress_type();
    assert_eq!((a.probe.as_str(), a.missing.as_str(), a.program.as_str()), ("zip", "zip", "zip"));
    assert_eq!(a.current_dir, format!("{}/debian-sid", CONTAINER_PATH));
    assert_eq!(a.args, vec!["-q", "-r", "/sdcard/Download/bakup/debian-sid.zip", "."]);
    let c = Compress { compress_type: "gzip".to_string(), distribution: "d".to_string(), verisons: "v".to_string() };
    let a = c.compress_type();
    assert_eq!(a.program, "tar");
    assert_eq!(a.args, vec!["-zcvf", "/sdcard/Download/bakup/d-v.tar.gz", "."]);
    let c = Compress { compress_type: "zstd".to_string(), distribution: "d".to_string(), verisons: "v".to_string() };
    let a = c.compress_type();
    assert_eq!(a.probe, "xz");
    assert_eq!(a.args, vec!["-Jcvf", "/sdcard/Download/bakup/d-v.tar.xz", "."]);
}

#[test]
fn restore_commands() {
    let d = Decompression {
        decompression_type: "zip".to_string(),
        compress_package: "/sdcard/a.zip".to_string(),
        decompression_distribution: "debian".to_string(),
        decompression_verisons: "sid".to_string(),
    };
    let a = d.decompression_type();
    assert_eq!((a.probe.as_str(), a.missing.as_str(), a.program.as_str()), ("zip", "unzip", "unzip"));
    assert_eq!(a.args, vec!["-n", "/sdcard/a.zip"]);
    assert_eq!(a.current_dir, format!("{}/debian-sid", CONTAINER_PATH));
    let d = Decompression { decompression_type: "gzip".to_string(), ..d };
    assert_eq!(d.decompression_type().args, vec!["-Ppzxvf", "/sdcard/a.zip"]);
    let d = Decompression { decompression_type: "xz".to_string(), ..d };
    let a = d.decompression_type();
    assert_eq!(a.program, "tar");
    assert_eq!(a.args, vec!["-PpJxvf", "/sdcard/a.zip"]);
}

#[test]
fn restore_reads_what_backup_wrote() {
    for (t, unpack) in [("zip", "unzip"), ("xz", "tar"), ("gzip", "tar"), ("lz4", "tar")] {
        let b = Compress { compress_type: t.to_string(), distribution: "debian".to_string(), verisons: "sid".to_string() }
            .compress_type();
        let archive = b.args[b.args.len() - 2].clone();
        let r = Decompression {
            decompression_type: t.to_string(),
            compress_package: archive.clone(),
            decompression_distribution: "debian".to_string(),
            decompression_verisons: "sid".to_string(),
        }
        .decompression_type();
        assert_eq!(r.current_dir, b.current_dir);
        assert_eq!(r.args[r.args.len() - 1], archive);
        assert_eq!(r.program, unpack);
    }
    assert_eq!(format_named("zip"), ArchiveFormat::Zip);
    assert_eq!(format_named("gzip"), ArchiveFormat::Gzip);
    assert_eq!(format_named("7z"), ArchiveFormat::Xz);
}

#[test]
fn configuration_change() {
    let c = Configuration {
        distribution: "debian".to_string(),
        verisons: "sid".to_string(),
        key: "lang".to_string(),
        value: "zh_CN.UTF-8".to_string(),
    };
    assert_eq!(c.config_path(), format!("{}/debian-sid/usr/share/at/config.json", CONTAINER_PATH));
    let text = "{\"user\":\"root\",\"lang\":\"C.UTF-8\"}";
    assert_eq!(c.parse(text), "{\"user\":\"root\",\"lang\":\"zh_CN.UTF-8\"}");
    assert_eq!(c.try_parse(text), Ok("{\"user\":\"root\",\"lang\":\"zh_CN.UTF-8\"}".to_string()));
    assert_eq!(c.change_contenttext("a C.UTF-8 b C.UTF-8", "C.UTF-8"), "a zh_CN.UTF-8 b zh_CN.UTF-8");
    let missing = Configuration { key: "shell".to_string(), ..c };
    assert_eq!(missing.try_parse(text), Err(ConfigError::Missing("shell".to_string())));
    assert_eq!(missing.try_parse("not json"), Err(ConfigError::Malformed));
}

#[test]
fn configuration_same_value_unchanged() {
    let c = Configuration {
        distribution: "d".to_string(),
        verisons: "v".to_string(),
        key: "user".to_string(),
        value: "root".to_string(),
    };
    let text = "{\"user\":\"root\"}";
    assert_eq!(c.parse(text), text);
}

fn settings(user: &str, mount_sd: &str, add_option: &str) -> LoginSettings {
    LoginSettings {
        user: user.to_string(),
        proot_dir: "/usr/bin/proot".to_string(),
        login_bash: "/bin/bash".to_string(),
        mount_sd: mount_sd.to_string(),
        add_option: add_option.to_string(),
        lang: "C.UTF-8".to_string(),
    }
}

const BASE: &str = "/usr/bin/proot --kill-on-exit -L -H -p --link2symlink --rootfs=/c/d-v --mount=/dev --mount=/proc --mount=/system --mount=/c/d-v/tmp:/dev/shm --mount=/c/d-v/proc --mount=/sys --mount=/proc/self/fd/2:/dev/stderr --mount=/proc/self/fd/2:/dec/stdout --mount=/proc/self/fd/0:/dev/stdin --mount=/proc/self/fd:/dev/fd --mount=/dev/urandom:/dev/random";
const PATH: &str = "PATH=/usr/local/sbin:/usr/local/bin:/bin:/usr/bin:/sbin:/usr/sbin:/usr/games:/usr/local/games";

#[test]
fn root_login_command() {
    let c = login_command("/c/d-v", &settings("root", "false", "null"), "", "");
    assert_eq!(
        c,
        format!("{} --cwd=/root --root-id /usr/bin/env -i HOME=/root USER=root TERM=xterm-256color TMPDIR=/tmp LANG=C.UTF-8 {} /bin/bash", BASE, PATH)
    );
}

#[test]
fn user_login_command_with_sdcard_and_options() {
    let c = login_command("/c/d-v", &settings("alice", "true", "--bind=/x"), "1000", "1001");
    assert_eq!(
        c,
        format!("{} --mount=/sdcard:/media/sd --bind=/x --cwd=/home/alice --change-id=1000:1001 /usr/bin/env -i HOME=/home/alice USER=alice TERM=xterm-256color TMPDIR=/tmp LANG=C.UTF-8 {} /bin/bash", BASE, PATH)
    );
}

#[test]
fn sdcard_mounted_unless_false() {
    let with = login_command("/c/d-v", &settings("root", "yes", "null"), "", "");
    assert!(with.contains(" --mount=/sdcard:/media/sd"));
    let without = login_command("/c/d-v", &settings("root", "false", "null"), "", "");
    assert!(!without.contains("/sdcard"));
}

#[test]
fn login_files_and_decision() {
    let p = login_paths("debian", "sid");
    let dir = format!("{}/debian-sid", CONTAINER_PATH);
    assert_eq!(p.distribution_dir, dir);
    assert_eq!(p.config, format!("{}/usr/share/at/config.json", dir));
    assert_eq!(p.saved_config, format!("{}/usr/share/at/config.json.temp", dir));
    assert_eq!(p.login_script, format!("{}/usr/share/at/login", dir));
    assert_eq!(login_decision(true, "{}", "{}"), LoginDecision::Enter);
    assert_eq!(login_decision(false, "{}", "{}"), LoginDecision::Reconfigure);
    assert_eq!(login_decision(true, "{\"a\":1}", "{}"), LoginDecision::Reconfigure);
}

#[test]
fn reconfigured_login_enters() {
    let config = "{\"user\":\"root\"}";
    assert_eq!(login_decision(false, config, ""), LoginDecision::Reconfigure);
    assert_eq!(login_decision(true, config, config), LoginDecision::Enter);
}

#[test]
fn login_settings_from_config() {
    let text = "{\"user\":\"root\",\"proot_dir\":\"/bin/proot\",\"login_bash\":\"/bin/zsh\",\"mount_sd\":\"false\",\"lang\":\"C.UTF-8\",\"add_option\":\"null\"}";
    let s = read_login_settings(text);
    assert_eq!(s.user, "root");
    assert_eq!(s.proot_dir, "/bin/proot");
    assert_eq!(s.login_bash, "/bin/zsh");
    assert_eq!(s.mount_sd, "false");
    assert_eq!(s.add_option, "null");
    assert_eq!(s.lang, "C.UTF-8");
    let partial = "{\"user\":\"root\",\"proot_dir\":\"/bin/proot\"}";
    assert_eq!(try_read_login_settings(text).map(|s| s.lang).ok(), Some("C.UTF-8".to_string()));
    assert_eq!(try_read_login_settings(partial).err(), Some(ConfigError::Missing("login_bash".to_string())));
    assert_eq!(try_read_login_settings("{}").err(), Some(ConfigError::Missing("user".to_string())));
    assert_eq!(try_read_login_settings("]").err(), Some(ConfigError::Malformed));
}

#[test]
fn passwd_lookup() {
    assert_eq!(
        passwd_query("alice"),
        format!("grep \"alice\" {}/etc/passwd | awk -F ':' '{{print $4}}'", CONTAINER_PATH)
    );
}

#[test]
fn setup_resources() {
    assert_eq!(setup_steps(true, true, true), vec![]);
    assert_eq!(
        setup_steps(false, false, false),
        vec![SetupStep::FetchRootfsIndex, SetupStep::FetchProcFiles, SetupStep::FetchSourcesIndex]
    );
    assert_eq!(setup_steps(true, false, true), vec![SetupStep::FetchProcFiles]);
}

#[test]
fn readme_option_form() {
    let mut m = options();
    m.option = "install".to_string();
    m.distribution = "debian".to_string();
    m.verisons = "bookworm".to_string();
    m.dns = "google".to_string();
    let plan = m.run();
    assert_eq!(plan.len(), 1);
    match &plan[0] {
        Action::Install { distribution, version, dns } => {
            assert_eq!((distribution.as_str(), version.as_str(), dns.as_str()), ("debian", "bookworm", "google"));
        }
        _ => panic!("install"),
    }
    m.option = "restore".to_string();
    m.compression_type = "gzip".to_string();
    m.compress_package = "/sdcard/b.tar.gz".to_string();
    match &m.run()[0] {
        Action::Restore(d) => {
            assert_eq!(d.decompression_type, "gzip");
            assert_eq!(d.compress_package, "/sdcard/b.tar.gz");
            assert_eq!(d.decompression_distribution, "debian");
        }
        _ => panic!("restore"),
    }
    m.option = "clean".to_string();
    assert!(matches!(m.run()[0], Action::Clean));
    m.option = "list-installed".to_string();
    m.install = "ubuntu/jammy".to_string();
    let plan = m.run();
    assert!(matches!(plan[0], Action::List));
    assert!(matches!(plan[1], Action::Install { .. }));
    assert!(is_known_option("bakup") && is_known_option("") && !is_known_option("purge"));
}

#[test]
fn cache_cleaning() {
    let entries = vec![
        DirEntry { name: Some("debian-sid.tar.xz".to_string()), is_dir: false },
        DirEntry { name: Some("tmp".to_string()), is_dir: true },
        DirEntry { name: None, is_dir: false },
    ];
    assert_eq!(clean_cache(&entries), vec![format!("{}/debian-sid.tar.xz", ROOTFS_PATH)]);
    assert!(clean_cache(&vec![]).is_empty());
}

#[test]
fn log_lines() {
    assert_eq!(log_line("2024-01-02 03:04", "INFO", "get dns"), "[2024-01-02 03:04 INFO] get dns");
}

#[test]
fn login_reads_the_configuration_that_is_edited() {
    let c = Configuration {
        distribution: "debian".to_string(),
        verisons: "sid".to_string(),
        key: "lang".to_string(),
        value: "zh_CN.UTF-8".to_string(),
    };
    assert_eq!(login_paths("debian", "sid").config, c.config_path());
    let text = "{\"user\":\"root\",\"proot_dir\":\"/bin/proot\",\"login_bash\":\"/bin/bash\",\"mount_sd\":\"false\",\"lang\":\"C.UTF-8\",\"add_option\":\"null\"}";
    let edited = c.parse(text);
    let s = read_login_settings(&edited);
    let cmd = login_command(&login_paths("debian", "sid").distribution_dir, &s, "", "");
    assert!(cmd.contains("LANG=zh_CN.UTF-8"));
}

#[test]
fn set_then_set_back_restores() {
    let set = Configuration {
        distribution: "d".to_string(),
        verisons: "v".to_string(),
        key: "lang".to_string(),
        value: "zh_CN.UTF-8".to_string(),
    };
    let text = "{\"lang\":\"C.UTF-8\",\"user\":\"root\"}";
    let edited = set.parse(text);
    let back = Configuration { value: "C.UTF-8".to_string(), ..set };
    assert_eq!(back.parse(&edited), text);
}
