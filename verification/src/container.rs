//! Setting up a freshly unpacked distribution: fetching its root file
//! system, its name servers, the replacement `/proc` files, its
//! configuration, and the first-run script that updates it.
use vstd::prelude::*;
use crate::environment::{
    concat, container_dir, container_dir_spec, release_name, CONTAINER_PATH, PROC_PATH,
    ROOTFS_PATH,
};
use crate::text::{contains_str, ends_with, occurs_at, occurs_in, starts_with, str_eq};

verus! {

/// The name under which root file system mirrors publish images for a
/// machine, where the tool supports that machine.
pub open spec fn arch_name_spec(machine: Seq<char>) -> Option<Seq<char>> {
    if machine == "aarch64"@ {
        Some("arm64"@)
    } else if machine == "arm"@ {
        Some("armhf"@)
    } else {
        None
    }
}

/// The image architectures: `arm64` for an `aarch64` machine, `armhf` for
/// an `arm` machine.
pub proof fn machine_architectures()
    ensures
        arch_name_spec("aarch64"@) == Some("arm64"@),
        arch_name_spec("arm"@) == Some("armhf"@),
        forall|m: Seq<char>| #[trigger] arch_name_spec(m) is Some ==> m == "aarch64"@ || m == "arm"@,
{
    reveal_strlit("aarch64");
    reveal_strlit("arm");
    assert("aarch64"@.len() != "arm"@.len());
}

/// The fetch command reads the image directory of the architecture under
/// the mirror address, saves into `ROOTFS_PATH`, and names the file
/// `<d>-<v>.tar.xz`.
pub proof fn fetch_command_shape(url: Seq<char>, arch: Seq<char>, d: Seq<char>, v: Seq<char>)
    ensures
        occurs_in(rootfs_fetch_command(url, arch, d, v), url + arch + "/default/"@),
        ends_with(rootfs_fetch_command(url, arch, d, v), ROOTFS_PATH@ + " -o "@ + d + "-"@ + v + ".tar.xz"@),
{
    let c = rootfs_fetch_command(url, arch, d, v);
    let dir = url + arch + "/default/"@;
    let pre = "aria2c "@;
    assert(c =~= pre + dir + ("\"$(curl "@ + dir
        + " | grep href | tail -n 2 | cut -d '\"' -f 4 | head -n 1)\"rootfs.tar.xz -d "@
        + ROOTFS_PATH@ + " -o "@ + d + "-"@ + v + ".tar.xz"@));
    assert(c.subrange(pre.len() as int, (pre.len() + dir.len()) as int) =~= dir);
    assert(occurs_at(c, dir, pre.len() as int));
    let body = "aria2c "@ + dir + "\"$(curl "@ + dir
        + " | grep href | tail -n 2 | cut -d '\"' -f 4 | head -n 1)\"rootfs.tar.xz -d "@;
    let tail = ROOTFS_PATH@ + " -o "@ + d + "-"@ + v + ".tar.xz"@;
    assert(c =~= body + tail);
    assert(c.skip(c.len() - tail.len()) =~= tail);
}

/// Whether the tool supports the machine `machine`: `aarch64` or `arm`.
pub fn machine_supported(machine: &str) -> (r: bool)
    ensures
        r == arch_name_spec(machine@) is Some,
{
    str_eq(machine, "aarch64") || str_eq(machine, "arm")
}

/// The image architecture for the machine `machine` (as
/// `std::env::consts::ARCH` names it): `arm64` for `aarch64`, `armhf` for
/// `arm`.  The tool stops on any other machine, before this call.
pub fn arch_name(machine: &str) -> (r: String)
    requires
        arch_name_spec(machine@) is Some,
    ensures
        arch_name_spec(machine@) == Some(r@),
{
    if str_eq(machine, "aarch64") {
        String::from_str("arm64")
    } else {
        String::from_str("armhf")
    }
}

/// The shell command that fetches the newest root file system image under
/// `url` for architecture `arch` into `ROOTFS_PATH/<d>-<v>.tar.xz`.
pub open spec fn rootfs_fetch_command(
    url: Seq<char>,
    arch: Seq<char>,
    d: Seq<char>,
    v: Seq<char>,
) -> Seq<char> {
    let dir = url + arch + "/default/"@;
    "aria2c "@ + dir + "\"$(curl "@ + dir
        + " | grep href | tail -n 2 | cut -d '\"' -f 4 | head -n 1)\"rootfs.tar.xz -d "@
        + ROOTFS_PATH@ + " -o "@ + release_name(d, v) + ".tar.xz"@
}

/// The shell command that downloads the root file system of distribution
/// `d`, version `v` from the mirror address `url`, for the machine
/// `machine`, which must be one the tool supports.
pub fn download_rootfs(url: &str, machine: &str, d: &str, v: &str) -> (r: String)
    requires
        arch_name_spec(machine@) is Some,
    ensures
        r@ == rootfs_fetch_command(url@, arch_name_spec(machine@)->0, d@, v@),
{
    let arch = arch_name(machine);
    let mut dir = String::from_str(url);
    dir.append(arch.as_str());
    dir.append("/default/");
    let mut r = String::from_str("aria2c ");
    r.append(dir.as_str());
    r.append("\"$(curl ");
    r.append(dir.as_str());
    r.append(" | grep href | tail -n 2 | cut -d '\"' -f 4 | head -n 1)\"rootfs.tar.xz -d ");
    r.append(ROOTFS_PATH);
    r.append(" -o ");
    r.append(d);
    r.append("-");
    r.append(v);
    r.append(".tar.xz");
    assert(r@ =~= rootfs_fetch_command(url@, arch@, d@, v@));
    r
}

/// Whether a download ended well: the transfer completed and the server
/// answered with status 200.
pub fn check_download(transfer_completed: bool, response_code: u32) -> (r: bool)
    ensures
        r == (transfer_completed && response_code == 200),
{
    transfer_completed && response_code == 200
}

/// Where the name server list for `dns` is published.
pub fn dns_url(dns: &str) -> (r: String)
    ensures
        r@ == "https://gitee.com/Tidal-team/at-resources/raw/master/dns/"@ + dns@,
{
    concat("https://gitee.com/Tidal-team/at-resources/raw/master/dns/", dns)
}

/// Whether the reply to a name server request is a list of name servers,
/// that is, not the publisher's answer for a missing file.
pub fn dns_known(reply: &str) -> (r: bool)
    ensures
        r == !occurs_in(reply@, "Repository or file not found"@),
{
    !contains_str(reply, "Repository or file not found")
}

/// Where the default container configuration is published.
pub fn default_config_url() -> (r: &'static str)
    ensures
        r@ == "https://gitee.com/Tidal-team/at-resources/raw/master/json/config.json"@,
{
    "https://gitee.com/Tidal-team/at-resources/raw/master/json/config.json"
}

/// The files that setting up distribution `d`, version `v` touches.
pub struct SetupPaths {
    /// `CONTAINER_PATH/<d>-<v>`.
    pub container: String,
    /// The container's `etc/resolv.conf`.
    pub resolv: String,
    /// What is copied into the containers' `proc` directory: `PROC_PATH/*`.
    pub proc_source: String,
    /// `CONTAINER_PATH/proc`.
    pub proc_target: String,
    /// The container's `usr/share/at/`.
    pub repo: String,
    /// The container's configuration, `usr/share/at/config.json`.
    pub config: String,
    /// The first-run script inside `repo`.
    pub script: String,
}

/// The files that setting up distribution `d`, version `v` touches.
pub fn setup_paths(d: &str, v: &str) -> (r: SetupPaths)
    ensures
        r.container@ == container_dir_spec(d@, v@),
        r.resolv@ == container_dir_spec(d@, v@) + "/etc/resolv.conf"@,
        r.proc_source@ == PROC_PATH@ + "/*"@,
        r.proc_target@ == CONTAINER_PATH@ + "/proc"@,
        r.repo@ == container_dir_spec(d@, v@) + "/usr/share/at/"@,
        r.config@ == container_dir_spec(d@, v@) + "/usr/share/at/config.json"@,
        r.script@ == container_dir_spec(d@, v@) + "/usr/share/at/"@ + "/aftermath_script.sh"@,
{
    let container = container_dir(d, v);
    let resolv = concat(container.as_str(), "/etc/resolv.conf");
    let proc_source = concat(PROC_PATH, "/*");
    let proc_target = concat(CONTAINER_PATH, "/proc");
    let repo = concat(container.as_str(), "/usr/share/at/");
    let config = concat(container.as_str(), "/usr/share/at/config.json");
    let script = concat(repo.as_str(), "/aftermath_script.sh");
    SetupPaths { container, resolv, proc_source, proc_target, repo, config, script }
}

/// A package manager: the program whose presence the first-run script
/// checks, and the command that updates the system.
pub struct PackageManager {
    pub program: String,
    pub update: String,
}

/// The package manager of a distribution family, where the tool knows it.
pub open spec fn package_manager_spec(d: Seq<char>) -> Option<(Seq<char>, Seq<char>)> {
    if d == "arch"@ {
        Some(("/bin/pacman"@, "pacman -Syy"@))
    } else if d == "fedora"@ || d == "centos"@ {
        Some(("/bin/yum"@, "yum update&&yum upgrade"@))
    } else if d == "debian"@ || d == "ubuntu"@ {
        Some(("/bin/apt"@, "apt update&&apt upgrade"@))
    } else {
        None
    }
}

/// Which package manager each distribution family uses: apt for debian
/// and ubuntu alike, yum for fedora and centos, pacman for arch, and none
/// for any other distribution.
pub proof fn package_managers_by_family(d: Seq<char>)
    ensures
        (d == "debian"@ || d == "ubuntu"@) ==> package_manager_spec(d) == Some(
            ("/bin/apt"@, "apt update&&apt upgrade"@),
        ),
        (d == "fedora"@ || d == "centos"@) ==> package_manager_spec(d) == Some(
            ("/bin/yum"@, "yum update&&yum upgrade"@),
        ),
        d == "arch"@ ==> package_manager_spec(d) == Some(("/bin/pacman"@, "pacman -Syy"@)),
        package_manager_spec(d) is Some ==> (d == "debian"@ || d == "ubuntu"@ || d == "fedora"@
            || d == "centos"@ || d == "arch"@),
{
    reveal_strlit("arch");
    reveal_strlit("fedora");
    reveal_strlit("centos");
    reveal_strlit("debian");
    reveal_strlit("ubuntu");
    assert("debian"@[0] != "arch"@[0]);
    assert("ubuntu"@[0] != "arch"@[0]);
    assert("fedora"@[0] != "arch"@[0]);
    assert("centos"@[0] != "arch"@[0]);
    assert("debian"@[0] != "fedora"@[0]);
    assert("debian"@[0] != "centos"@[0]);
    assert("ubuntu"@[0] != "fedora"@[0]);
    assert("ubuntu"@[0] != "centos"@[0]);
}

/// The first-run script checks for the package manager's program and runs
/// its update command.
pub proof fn script_uses_package_manager(program: Seq<char>, update: Seq<char>)
    ensures
        starts_with(aftermath_script_spec(program, update), SCRIPT_HEAD@ + program),
        occurs_in(aftermath_script_spec(program, update), SCRIPT_UPDATE@ + update),
{
    let sc = aftermath_script_spec(program, update);
    let head = SCRIPT_HEAD@ + program;
    let pre = SCRIPT_HEAD@ + program + SCRIPT_CHECK@ + program;
    let mid = SCRIPT_UPDATE@ + update;
    assert(sc =~= head + (SCRIPT_CHECK@ + program + SCRIPT_UPDATE@ + update + SCRIPT_TAIL@));
    assert(sc.take(head.len() as int) =~= head);
    assert(sc =~= pre + mid + SCRIPT_TAIL@);
    assert(sc.subrange(pre.len() as int, (pre.len() + mid.len()) as int) =~= mid);
    assert(occurs_at(sc, mid, pre.len() as int));
}

/// The first-run `proot` run is rooted at the container and runs the
/// first-run script as root with the tool's fixed environment.
pub proof fn first_run_runs_the_script(container: Seq<char>)
    ensures
        first_run_args_spec(container).len() == 17,
        first_run_args_spec(container)[0] == "-S"@,
        first_run_args_spec(container)[1] == container,
        first_run_args_spec(container)[10] == "HOME=/root"@,
        first_run_args_spec(container)[11] == "USER=root"@,
        first_run_args_spec(container)[16] == "/usr/share/at/aftermath_script.sh"@,
{
}

/// The package manager of distribution `d`: pacman for `arch`, yum for
/// `fedora` and `centos`, apt for `debian` and `ubuntu`, none otherwise.
pub fn package_manager(d: &str) -> (r: Option<PackageManager>)
    ensures
        match r {
            Some(p) => package_manager_spec(d@) == Some((p.program@, p.update@)),
            None => package_manager_spec(d@) is None,
        },
{
    if str_eq(d, "arch") {
        Some(PackageManager {
            program: String::from_str("/bin/pacman"),
            update: String::from_str("pacman -Syy"),
        })
    } else if str_eq(d, "fedora") || str_eq(d, "centos") {
        Some(PackageManager {
            program: String::from_str("/bin/yum"),
            update: String::from_str("yum update&&yum upgrade"),
        })
    } else if str_eq(d, "debian") || str_eq(d, "ubuntu") {
        Some(PackageManager {
            program: String::from_str("/bin/apt"),
            update: String::from_str("apt update&&apt upgrade"),
        })
    } else {
        None
    }
}

/// The first-run script up to the package manager check.
pub const SCRIPT_HEAD: &'static str = r#"#!/bin/bash
RED=$(printf '\033[31m')
GREEN=$(printf '\033[32m')
YELLOW=$(printf '\033[33m')
BLUE=$(printf '\033[34m')
PURPLE=$(printf '\033[35m')
CYAN=$(printf '\033[36m')
RESET=$(printf '\033[m')
BOLD=$(printf '\033[1m')
if [ ! -f "#;

/// Between the program checked for and its name in the message.
pub const SCRIPT_CHECK: &'static str = r#" ]; then
	echo -e ""#;

/// Between the check and the update command.
pub const SCRIPT_UPDATE: &'static str = r#" not find"
	exit
fi
printf "%s\n" "${YELLOW}Updateing${RESET}"
"#;

/// The rest of the first-run script: host names, Android groups, and the
/// packages every container needs.
pub const SCRIPT_TAIL: &'static str = r#"
if ! grep -q "localhost" /etc/hosts 2>/dev/null; then
	cat >>/etc/hosts <<-EOF
		127.0.0.1       localhost
		::1     localhost ip6-localhost ip6-loopback
		ff02::1 ip6-allnodes
		ff02::2 ip6-allrouters
		EOF
	fi
	if [[ -s "/tmp/hostname" ]]; then
		NEW_HOST_NAME=$(head -n 1 /tmp/hostname)
		cp -f /tmp/hostname /etc
		if ! grep -q "$NEW_HOST_NAME" /etc/hosts 2>/dev/null; then
			printf "%s\n" \
			"127.0.0.1 $NEW_HOST_NAME" \
			"::1 $NEW_HOST_NAME" \
			>>/etc/hosts
		fi
	fi
	if [[ $(command -v hostname) ]]; then
		if ! grep -q "$(hostname)" /etc/hosts 2>/dev/null; then
			printf "%s\n" \
			"127.0.0.1 $(hostname) $(hostname -f)" \
			"::1 $(hostname) $(hostname -f)" \
			>>/etc/hosts
		fi
	fi
	[[ ! -e /etc/hostname ]] || cat /etc/hostname
	[[ ! -e /etc/hosts ]] || cat /etc/hosts
	if [[  $(command -v groupadd) ]];then
		groupadd aid_system -g 1000 || groupadd aid_system -g 1074
		groupadd aid_radio -g 1001
		groupadd aid_bluetooth -g 1002
		groupadd aid_graphics -g 1003
		groupadd aid_input -g 1004
		groupadd aid_audio -g 1005
		groupadd aid_camera -g 1006
		groupadd aid_log -g 1007
		groupadd aid_compass -g 1008
		groupadd aid_mount -g 1009
		groupadd aid_wifi -g 1010
		groupadd aid_adb -g 1011
		groupadd aid_install -g 1012
		groupadd aid_media -g 1013
		groupadd aid_dhcp -g 1014
		groupadd aid_sdcard_rw -g 1015
		groupadd aid_vpn -g 1016
		groupadd aid_keystore -g 1017
		groupadd aid_usb -g 1018
		groupadd aid_drm -g 1019
		groupadd aid_mdnsr -g 1020
		groupadd aid_gps -g 1021
		groupadd aid_media_rw -g 1023
		groupadd aid_mtp -g 1024
		groupadd aid_drmrpc -g 1026
		groupadd aid_nfc -g 1027
		groupadd aid_sdcard_r -g 1028
		groupadd aid_clat -g 1029
		groupadd aid_loop_radio -g 1030
		groupadd aid_media_drm -g 1031
		groupadd aid_package_info -g 1032
		groupadd aid_sdcard_pics -g 1033
		groupadd aid_sdcard_av -g 1034
		groupadd aid_sdcard_all -g 1035
		groupadd aid_logd -g 1036
		groupadd aid_shared_relro -g 1037
		groupadd aid_dbus -g 1038
		groupadd aid_tlsdate -g 1039
		groupadd aid_media_ex -g 1040
		groupadd aid_audioserver -g 1041
		groupadd aid_metrics_coll -g 1042
		groupadd aid_metricsd -g 1043
		groupadd aid_webserv -g 1044
		groupadd aid_debuggerd -g 1045
		groupadd aid_media_codec -g 1046
		groupadd aid_cameraserver -g 1047
		groupadd aid_firewall -g 1048
		groupadd aid_trunks -g 1049
		groupadd aid_nvram -g 1050
		groupadd aid_dns -g 1051
		groupadd aid_dns_tether -g 1052
		groupadd aid_webview_zygote -g 1053
		groupadd aid_vehicle_network -g 1054
		groupadd aid_media_audio -g 1055
		groupadd aid_media_video -g 1056
		groupadd aid_media_image -g 1057
		groupadd aid_tombstoned -g 1058
		groupadd aid_media_obb -g 1059
		groupadd aid_ese -g 1060
		groupadd aid_ota_update -g 1061
		groupadd aid_automotive_evs -g 1062
		groupadd aid_lowpan -g 1063
		groupadd aid_hsm -g 1064
		groupadd aid_reserved_disk -g 1065
		groupadd aid_statsd -g 1066
		groupadd aid_incidentd -g 1067
		groupadd aid_secure_element -g 1068
		groupadd aid_lmkd -g 1069
		groupadd aid_llkd -g 1070
		groupadd aid_iorapd -g 1071
		groupadd aid_gpu_service -g 1072
		groupadd aid_network_stack -g 1073
		groupadd aid_shell -g 2000
		groupadd aid_cache -g 2001
		groupadd aid_diag -g 2002
		groupadd aid_oem_reserved_start -g 2900
		groupadd aid_oem_reserved_end -g 2999
		groupadd aid_net_bt_admin -g 3001
		groupadd aid_net_bt -g 3002
		groupadd aid_inet -g 3003
		groupadd aid_net_raw -g 3004
		groupadd aid_net_admin -g 3005
		groupadd aid_net_bw_stats -g 3006
		groupadd aid_net_bw_acct -g 3007
		groupadd aid_readproc -g 3009
		groupadd aid_wakelock -g 3010
		groupadd aid_uhid -g 3011
		groupadd aid_everybody -g 9997
		groupadd aid_misc -g 9998
		groupadd aid_nobody -g 9999
		groupadd aid_app_start -g 10000
		groupadd aid_app_end -g 19999
		groupadd aid_cache_gid_start -g 20000
		groupadd aid_cache_gid_end -g 29999
		groupadd aid_ext_gid_start -g 30000
		groupadd aid_ext_gid_end -g 39999
		groupadd aid_ext_cache_gid_start -g 40000
		groupadd aid_ext_cache_gid_end -g 49999
		groupadd aid_shared_gid_start -g 50000
		groupadd aid_shared_gid_end -g 59999
		groupadd aid_overflowuid -g 65534 2>/dev/null || groupadd aid_overflowuid -g 65535
		#添加65534 group将导致opensuse的system-user-nobody配置失败。
		groupadd aid_isolated_start -g 99000
		groupadd aid_isolated_end -g 99999
		groupadd aid_user_offset -g 100000
		#usermod -a -G aid_bt,aid_bt_net,aid_inet,aid_net_raw,aid_admin root
		usermod -a -G aid_system,aid_radio,aid_bluetooth,aid_graphics,aid_input,aid_audio,aid_camera,aid_log,aid_compass,aid_mount,aid_wifi,aid_adb,aid_install,aid_media,aid_dhcp,aid_sdcard_rw,aid_vpn,aid_keystore,aid_usb,aid_drm,aid_mdnsr,aid_gps,aid_media_rw,aid_mtp,aid_drmrpc,aid_nfc,aid_sdcard_r,aid_clat,aid_loop_radio,aid_media_drm,aid_package_info,aid_sdcard_pics,aid_sdcard_av,aid_sdcard_all,aid_logd,aid_shared_relro,aid_dbus,aid_tlsdate,aid_media_ex,aid_audioserver,aid_metrics_coll,aid_metricsd,aid_webserv,aid_debuggerd,aid_media_codec,aid_cameraserver,aid_firewall,aid_trunks,aid_nvram,aid_dns,aid_dns_tether,aid_webview_zygote,aid_vehicle_network,aid_media_audio,aid_media_video,aid_media_image,aid_tombstoned,aid_media_obb,aid_ese,aid_ota_update,aid_automotive_evs,aid_lowpan,aid_hsm,aid_reserved_disk,aid_statsd,aid_incidentd,aid_secure_element,aid_lmkd,aid_llkd,aid_iorapd,aid_gpu_service,aid_network_stack,aid_shell,aid_cache,aid_diag,aid_oem_reserved_start,aid_oem_reserved_end,aid_net_bt_admin,aid_net_bt,aid_inet,aid_net_raw,aid_net_admin,aid_net_bw_stats,aid_net_bw_acct,aid_readproc,aid_wakelock,aid_uhid,aid_everybody,aid_misc,aid_nobody,aid_app_start,aid_app_end,aid_cache_gid_start,aid_cache_gid_end,aid_ext_gid_start,aid_ext_gid_end,aid_ext_cache_gid_start,aid_ext_cache_gid_end,aid_shared_gid_start,aid_shared_gid_end,aid_isolated_start,aid_isolated_end,aid_user_offset root
		usermod -g aid_inet _apt 2>/dev/null
		usermod -a -G aid_inet,aid_net_raw portage 2>/dev/null
	fi
	printf "%s\n" "${YELLOW}Installing necessary software package${RESET}"
	if [[ $(command -v apt) ]]; then
		if [[ ! $(command -v eatmydata) ]]; then
			printf "%s\n" "${GREEN}apt ${YELLOW}install -y ${BLUE}eatmydata${RESET}"
			apt update 2>/dev/null || apt update 2>/dev/null
			apt install -y eatmydata || apt install -y -f eatmydata
		else
			printf "%s\n" "${GREEN}eatmydata apt ${BLUE}update${RESET}"
			eatmydata apt update || apt update
		fi
		if [ ! $(command -v locale-gen) ]; then
			printf "%s\n" "${GREEN}eatmydata apt ${YELLOW}install -y ${BLUE}locales${RESET}"
			eatmydata apt install -y locales 2>/dev/null || apt install -y locales 2>/dev/null
		fi
	fi
	if [[ $(command -v apt) ]]; then
		if [[ ! $(command -v eatmydata) ]]; then
			printf "%s\n" "${GREEN}apt ${YELLOW}install -y ${BLUE}eatmydata${RESET}"
			apt update 2>/dev/null || apt update 2>/dev/null
			apt install -y eatmydata || apt install -y -f eatmydata
		else
			printf "%s\n" "${GREEN}eatmydata apt ${BLUE}update${RESET}"
			eatmydata apt update || apt update
		fi
		if [[ -n $(command -v perl) ]]; then
			printf "%s\n" "${GREEN}eatmydata apt ${YELLOW}reinstall -y ${BLUE}perl-base${RESET}"
			eatmydata apt-get install --reinstall -y perl-base 2>/dev/null || apt-get install --reinstall -y perl-base 2>/dev/null
		fi
		if [ ! $(command -v locale-gen) ]; then
			printf "%s\n" "${GREEN}eatmydata apt ${YELLOW}install -y ${BLUE}locales${RESET}"
			eatmydata apt install -y locales 2>/dev/null || apt install -y locales 2>/dev/null
		fi
	fi
	printf "%s\n" "${GREEN}apt ${YELLOW}reinstall -y ${BLUE}perl-base${RESET}"
	apt-get install --reinstall -y perl-base 2>/dev/null
	for i in perlbug unzip pigz; do
		if [[ -L /usr/bin/$i ]]; then
			case $i in
			perlbug) DEP="perl" ;;
			*) DEP=$i ;;
			esac
			printf "%s\n" "${GREEN}apt ${YELLOW}reinstall -y ${BLUE}${DEP}$RESET"
			apt-get install --reinstall -y $DEP 2>/dev/null
		fi
	done
	for i in 6 7 8 9 10; do
		if [[ -L "/usr/bin/python3.${i}m" ]]; then
			printf "%s\n" "${GREEN}apt ${YELLOW}reinstall -y ${BLUE}python3.$i-minimal${RESET}"
			apt-get install --reinstall -y python3.$i-minimal 2>/dev/null
			dpkg --configure -a
			break
		fi
	done
"#;

/// The first-run script for a system whose package manager is `program`
/// and whose update command is `update`.
pub open spec fn aftermath_script_spec(program: Seq<char>, update: Seq<char>) -> Seq<char> {
    SCRIPT_HEAD@ + program + SCRIPT_CHECK@ + program + SCRIPT_UPDATE@ + update + SCRIPT_TAIL@
}

/// The first-run script that checks for the package manager, updates the
/// system, registers the host names and Android groups, and installs the
/// packages every container needs.
pub fn aftermath_script(p: &PackageManager) -> (r: String)
    ensures
        r@ == aftermath_script_spec(p.program@, p.update@),
{
    let mut r = String::from_str(SCRIPT_HEAD);
    r.append(p.program.as_str());
    r.append(SCRIPT_CHECK);
    r.append(p.program.as_str());
    r.append(SCRIPT_UPDATE);
    r.append(p.update.as_str());
    r.append(SCRIPT_TAIL);
    assert(r@ =~= aftermath_script_spec(p.program@, p.update@));
    r
}

/// The arguments of the `proot` run that executes the first-run script as
/// root inside `container`.
pub open spec fn first_run_args_spec(container: Seq<char>) -> Seq<Seq<char>> {
    seq![
        "-S"@,
        container,
        "-b"@,
        "/proc"@,
        "-b"@,
        "/dev"@,
        "-b"@,
        "/sys"@,
        "/usr/bin/env"@,
        "-i"@,
        "HOME=/root"@,
        "USER=root"@,
        "TERM=xterm-256color"@,
        "TMPDIR=/tmp"@,
        "LANG=C.UTF-8"@,
        "PATH=/usr/local/sbin:/usr/local/bin:/bin:/usr/bin:/sbin:/usr/sbin:/usr/games:/usr/local/games"@,
        "/usr/share/at/aftermath_script.sh"@
    ]
}

/// The views of a list of strings.
pub open spec fn strings_view(v: Seq<String>) -> Seq<Seq<char>> {
    v.map_values(|s: String| s@)
}

/// The arguments of the `proot` run that executes the first-run script.
pub fn first_run_args(container: &str) -> (r: Vec<String>)
    ensures
        strings_view(r@) == first_run_args_spec(container@),
{
    let mut r: Vec<String> = Vec::new();
    r.push(String::from_str("-S"));
    r.push(String::from_str(container));
    r.push(String::from_str("-b"));
    r.push(String::from_str("/proc"));
    r.push(String::from_str("-b"));
    r.push(String::from_str("/dev"));
    r.push(String::from_str("-b"));
    r.push(String::from_str("/sys"));
    r.push(String::from_str("/usr/bin/env"));
    r.push(String::from_str("-i"));
    r.push(String::from_str("HOME=/root"));
    r.push(String::from_str("USER=root"));
    r.push(String::from_str("TERM=xterm-256color"));
    r.push(String::from_str("TMPDIR=/tmp"));
    r.push(String::from_str("LANG=C.UTF-8"));
    r.push(
        String::from_str(
            "PATH=/usr/local/sbin:/usr/local/bin:/bin:/usr/bin:/sbin:/usr/sbin:/usr/games:/usr/local/games",
        ),
    );
    r.push(String::from_str("/usr/share/at/aftermath_script.sh"));
    assert(strings_view(r@) =~= first_run_args_spec(container@));
    r
}

/// Whether the package manager of distribution `d` is known.
pub fn has_package_manager(d: &str) -> (r: bool)
    ensures
        r == package_manager_spec(d@) is Some,
{
    package_manager(d).is_some()
}

/// What setting up a freshly unpacked distribution uses.
pub struct FirstRun {
    pub paths: SetupPaths,
    /// The first-run script.
    pub script: String,
    /// The arguments of the `proot` run that executes the script.
    pub proot_args: Vec<String>,
}

/// What setting up distribution `d`, version `v` uses, once the name
/// server list `dns_reply` has been fetched from `dns_url(dns)`: its files,
/// the first-run script for its package manager, and the `proot` arguments
/// that run the script.  The reply must be a name server list and the
/// package manager of `d` must be known: the tool stops on the
/// publisher's not-found answer ("Unknown dns") and, with status 400, on a
/// distribution whose package manager it does not know.
pub fn work(d: &str, v: &str, dns_reply: &str) -> (r: FirstRun)
    requires
        !occurs_in(dns_reply@, "Repository or file not found"@),
        package_manager_spec(d@) is Some,
    ensures
        r.paths.container@ == container_dir_spec(d@, v@),
        r.paths.resolv@ == container_dir_spec(d@, v@) + "/etc/resolv.conf"@,
        r.paths.proc_source@ == PROC_PATH@ + "/*"@,
        r.paths.proc_target@ == CONTAINER_PATH@ + "/proc"@,
        r.paths.repo@ == container_dir_spec(d@, v@) + "/usr/share/at/"@,
        r.paths.config@ == container_dir_spec(d@, v@) + "/usr/share/at/config.json"@,
        r.paths.script@ == container_dir_spec(d@, v@) + "/usr/share/at/"@ + "/aftermath_script.sh"@,
        r.script@ == aftermath_script_spec(
            (package_manager_spec(d@)->0).0,
            (package_manager_spec(d@)->0).1,
        ),
        strings_view(r.proot_args@) == first_run_args_spec(container_dir_spec(d@, v@)),
{
    let paths = setup_paths(d, v);
    let script = match package_manager(d) {
        Some(p) => aftermath_script(&p),
        None => {
            proof {
                assert(false);
            }
            String::new()
        },
    };
    let proot_args = first_run_args(paths.container.as_str());
    FirstRun { paths, script, proot_args }
}

} // verus!
