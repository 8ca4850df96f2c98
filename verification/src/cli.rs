//! The command line: which operations a set of options asks for, in which
//! order, and on which distribution.
use vstd::prelude::*;
use crate::compression::{Compress, Decompression};
use crate::configuration::Configuration;
use crate::environment::ROOTFS_PATH;
use crate::logger::Logger;
use crate::text::str_eq;

verus! {

/// `s` cut at its first `/`: the part before it, and the rest after it
/// (empty where `s` has no `/`).
pub open spec fn split_spec(s: Seq<char>) -> (Seq<char>, Seq<char>)
    decreases s.len(),
{
    if s.len() == 0 {
        (Seq::empty(), Seq::empty())
    } else if s[0] == '/' {
        (Seq::empty(), s.drop_first())
    } else {
        let (a, b) = split_spec(s.drop_first());
        (seq![s[0]] + a, b)
    }
}

proof fn lemma_split_at(s: Seq<char>, i: int)
    requires
        0 <= i <= s.len(),
        forall|k: int| 0 <= k < i ==> s[k] != '/',
        i < s.len() ==> s[i] == '/',
    ensures
        split_spec(s) == (s.take(i), if i < s.len() {
            s.skip(i + 1)
        } else {
            Seq::<char>::empty()
        }),
    decreases i,
{
    if i > 0 {
        lemma_split_at(s.drop_first(), i - 1);
        assert(s.take(i) =~= seq![s[0]] + s.drop_first().take(i - 1));
        if i < s.len() {
            assert(s.skip(i + 1) =~= s.drop_first().skip(i));
        }
    } else if s.len() > 0 {
        assert(s.skip(1) =~= s.drop_first());
    }
    assert(s.take(0) =~= Seq::<char>::empty());
}

/// Splits `distribution/version` at its first `/`: the distribution, and
/// everything after the `/` as the version (empty where there is no `/`).
pub fn spilt_string(s: &str) -> (r: (String, String))
    ensures
        (r.0@, r.1@) == split_spec(s@),
{
    let n = s.unicode_len();
    let mut i: usize = 0;
    while i < n && s.get_char(i) != '/'
        invariant
            n == s@.len(),
            i <= n,
            forall|k: int| 0 <= k < i ==> s@[k] != '/',
        decreases n - i,
    {
        i = i + 1;
    }
    proof {
        lemma_split_at(s@, i as int);
    }
    let mut first = String::new();
    first.append(s.substring_char(0, i));
    let mut rest = String::new();
    if i < n {
        rest.append(s.substring_char(i + 1, n));
    }
    assert(first@ =~= s@.take(i as int));
    assert(i < n ==> rest@ =~= s@.skip(i + 1));
    (first, rest)
}

/// Splitting loses nothing: where `s` holds a `/`, the two parts joined by
/// `/` give `s` back, and otherwise the first part is `s` and the second
/// is empty.  The first part never holds a `/`.
pub proof fn split_rejoins(s: Seq<char>)
    ensures
        s.contains('/') ==> split_spec(s).0 + seq!['/'] + split_spec(s).1 == s,
        !s.contains('/') ==> split_spec(s).0 == s && split_spec(s).1.len() == 0,
        !split_spec(s).0.contains('/'),
    decreases s.len(),
{
    if s.len() > 0 {
        split_rejoins(s.drop_first());
        if s[0] == '/' {
            assert(s.contains('/'));
            assert(seq!['/'] + s.drop_first() =~= s);
            assert(split_spec(s).0 =~= Seq::<char>::empty());
        } else {
            let (a, b) = split_spec(s.drop_first());
            assert(s =~= seq![s[0]] + s.drop_first());
            if s.contains('/') {
                let k = choose|k: int| 0 <= k < s.len() && s[k] == '/';
                assert(s.drop_first()[k - 1] == '/');
                assert(seq![s[0]] + a + seq!['/'] + b =~= seq![s[0]] + (a + seq!['/'] + b));
            } else {
                assert forall|k: int| 0 <= k < s.drop_first().len() implies s.drop_first()[k]
                    != '/' by {
                    assert(s[k + 1] == s.drop_first()[k]);
                }
            }
            assert forall|k: int| 0 <= k < (seq![s[0]] + a).len() implies (seq![s[0]] + a)[k]
                != '/' by {
                if k > 0 {
                    assert((seq![s[0]] + a)[k] == a[k - 1]);
                }
            }
        }
    }
}

/// The options of the command line.  An operation is asked for either as
/// `--option <operation> --distribution <d> --verisons <v>`, or with the
/// operation's own option and `<d>/<v>`.
pub struct Main {
    /// `install`, `bakup`, `login`, `restore`, `remove`, `clean`,
    /// `list-installed`, or empty.
    pub option: String,
    /// The distribution `option` applies to.
    pub distribution: String,
    /// The version `option` applies to.
    pub verisons: String,
    /// The archive format of a restore asked for with `option`.
    pub compression_type: String,
    /// `distribution/version` to install.
    pub install: String,
    /// `distribution/version` to remove.
    pub remove: String,
    /// Any non-empty value installs what `install` names.
    pub download: String,
    /// `distribution/version` to log in to.
    pub login: String,
    /// `distribution/version` to back up.
    pub bakup: String,
    /// `distribution/version` to restore.
    pub restore: String,
    /// Any non-empty value lists the installed distributions.
    pub list: String,
    /// `distribution/version` whose configuration to change.
    pub configuration: String,
    pub compress_type: String,
    pub compress_package: String,
    pub decompression_type: String,
    pub dns: String,
    pub configuration_key: String,
    pub configuration_value: String,
    pub log_file: String,
    pub log_to_stdout: bool,
    pub log_to_stderr: bool,
}

/// One operation of a run.
pub enum Action {
    Install { distribution: String, version: String, dns: String },
    Remove { distribution: String, version: String },
    Login { distribution: String, version: String },
    Restore(Decompression),
    Backup(Compress),
    List,
    Configure(Configuration),
    /// Remove the downloaded root file system archives.
    Clean,
}

/// An operation, with every string by its characters.
pub enum ActionView {
    Install { distribution: Seq<char>, version: Seq<char>, dns: Seq<char> },
    Remove { distribution: Seq<char>, version: Seq<char> },
    Login { distribution: Seq<char>, version: Seq<char> },
    Restore { kind: Seq<char>, package: Seq<char>, distribution: Seq<char>, version: Seq<char> },
    Backup { kind: Seq<char>, distribution: Seq<char>, version: Seq<char> },
    List,
    Configure { distribution: Seq<char>, version: Seq<char>, key: Seq<char>, value: Seq<char> },
    Clean,
}

impl View for Action {
    type V = ActionView;

    open spec fn view(&self) -> ActionView {
        match self {
            Action::Install { distribution, version, dns } => ActionView::Install {
                distribution: distribution@,
                version: version@,
                dns: dns@,
            },
            Action::Remove { distribution, version } => ActionView::Remove {
                distribution: distribution@,
                version: version@,
            },
            Action::Login { distribution, version } => ActionView::Login {
                distribution: distribution@,
                version: version@,
            },
            Action::Restore(d) => ActionView::Restore {
                kind: d.decompression_type@,
                package: d.compress_package@,
                distribution: d.decompression_distribution@,
                version: d.decompression_verisons@,
            },
            Action::Backup(c) => ActionView::Backup {
                kind: c.compress_type@,
                distribution: c.distribution@,
                version: c.verisons@,
            },
            Action::List => ActionView::List,
            Action::Configure(c) => ActionView::Configure {
                distribution: c.distribution@,
                version: c.verisons@,
                key: c.key@,
                value: c.value@,
            },
            Action::Clean => ActionView::Clean,
        }
    }
}

/// The views of a list of operations.
pub open spec fn actions_view(a: Seq<Action>) -> Seq<ActionView> {
    a.map_values(|x: Action| x@)
}

/// `Some(x)` where `option` is set, nothing otherwise.
pub open spec fn when_set(option: Seq<char>, x: ActionView) -> Seq<ActionView> {
    if option.len() != 0 {
        seq![x]
    } else {
        Seq::empty()
    }
}

/// The operation `--option` names.
pub open spec fn option_plan(m: Main) -> Seq<ActionView> {
    let o = m.option@;
    let d = m.distribution@;
    let v = m.verisons@;
    if o == "install"@ {
        seq![ActionView::Install { distribution: d, version: v, dns: m.dns@ }]
    } else if o == "bakup"@ {
        seq![ActionView::Backup { kind: m.compress_type@, distribution: d, version: v }]
    } else if o == "login"@ {
        seq![ActionView::Login { distribution: d, version: v }]
    } else if o == "restore"@ {
        seq![
            ActionView::Restore {
                kind: m.compression_type@,
                package: m.compress_package@,
                distribution: d,
                version: v,
            },
        ]
    } else if o == "remove"@ {
        seq![ActionView::Remove { distribution: d, version: v }]
    } else if o == "clean"@ {
        seq![ActionView::Clean]
    } else if o == "list-installed"@ {
        seq![ActionView::List]
    } else {
        Seq::empty()
    }
}

/// Whether `o` is an operation `--option` can name, or empty.
pub open spec fn option_known(o: Seq<char>) -> bool {
    o.len() == 0 || o == "install"@ || o == "bakup"@ || o == "login"@ || o == "restore"@ || o
        == "remove"@ || o == "clean"@ || o == "list-installed"@
}

/// Whether `o` is an operation `--option` can name, or empty.
pub fn is_known_option(o: &str) -> (r: bool)
    ensures
        r == option_known(o@),
{
    o.unicode_len() == 0 || str_eq(o, "install") || str_eq(o, "bakup") || str_eq(o, "login")
        || str_eq(o, "restore") || str_eq(o, "remove") || str_eq(o, "clean") || str_eq(
        o,
        "list-installed",
    )
}

/// The operations a set of options asks for, in the order they run: the
/// one `--option` names, then install, remove, download (which installs
/// what `install` names), login, restore, backup, list, configuration.
pub open spec fn run_plan(m: Main) -> Seq<ActionView> {
    option_plan(m) + flag_plan(m)
}

/// The operations asked for with the operations' own options.
pub open spec fn flag_plan(m: Main) -> Seq<ActionView> {
    let w = flag_parts(m);
    w[0] + w[1] + w[2] + w[3] + w[4] + w[5] + w[6] + w[7]
}

proof fn lemma_grow(p: Seq<ActionView>, w: Seq<ActionView>, x: ActionView)
    ensures
        p.contains(x) ==> (p + w).contains(x),
        w.contains(x) ==> (p + w).contains(x),
{
    if p.contains(x) {
        let i = choose|i: int| 0 <= i < p.len() && p[i] == x;
        assert((p + w)[i] == x);
    }
    if w.contains(x) {
        let i = choose|i: int| 0 <= i < w.len() && w[i] == x;
        assert((p + w)[p.len() + i] == x);
    }
}

proof fn lemma_in_flag_plan(m: Main, k: int, x: ActionView)
    requires
        0 <= k < 8,
        flag_parts(m)[k].contains(x),
    ensures
        run_plan(m).contains(x),
{
    let w = flag_parts(m);
    let p1 = w[0];
    let p2 = p1 + w[1];
    let p3 = p2 + w[2];
    let p4 = p3 + w[3];
    let p5 = p4 + w[4];
    let p6 = p5 + w[5];
    let p7 = p6 + w[6];
    let p8 = p7 + w[7];
    assert(flag_plan(m) == p8);
    if k == 0 {
        assert(p1.contains(x));
    }
    lemma_grow(p1, w[1], x);
    lemma_grow(p2, w[2], x);
    lemma_grow(p3, w[3], x);
    lemma_grow(p4, w[4], x);
    lemma_grow(p5, w[5], x);
    lemma_grow(p6, w[6], x);
    lemma_grow(p7, w[7], x);
    lemma_grow(option_plan(m), p8, x);
}

/// The eight parts of `flag_plan`, one per operation option, in order.
pub open spec fn flag_parts(m: Main) -> Seq<Seq<ActionView>> {
    let install = split_spec(m.install@);
    let remove = split_spec(m.remove@);
    let login = split_spec(m.login@);
    let restore = split_spec(m.restore@);
    let bakup = split_spec(m.bakup@);
    let conf = split_spec(m.configuration@);
    seq![
        when_set(
            m.install@,
            ActionView::Install { distribution: install.0, version: install.1, dns: m.dns@ },
        ),
        when_set(m.remove@, ActionView::Remove { distribution: remove.0, version: remove.1 }),
        when_set(
            m.download@,
            ActionView::Install { distribution: install.0, version: install.1, dns: m.dns@ },
        ),
        when_set(m.login@, ActionView::Login { distribution: login.0, version: login.1 }),
        when_set(
            m.restore@,
            ActionView::Restore {
                kind: m.decompression_type@,
                package: m.compress_package@,
                distribution: restore.0,
                version: restore.1,
            },
        ),
        when_set(
            m.bakup@,
            ActionView::Backup { kind: m.compress_type@, distribution: bakup.0, version: bakup.1 },
        ),
        when_set(m.list@, ActionView::List),
        when_set(
            m.configuration@,
            ActionView::Configure {
                distribution: conf.0,
                version: conf.1,
                key: m.configuration_key@,
                value: m.configuration_value@,
            },
        ),
    ]
}

/// Every operation option that is set puts its operation into the plan,
/// on the distribution and version it names (cut at the first `/`), with
/// the options that operation uses; `download` installs what `install`
/// names.  Without `--option`, the plan holds one operation per option
/// that is set and nothing else.
pub proof fn flags_become_operations(m: Main)
    ensures
        m.install@.len() > 0 ==> run_plan(m).contains(
            ActionView::Install {
                distribution: split_spec(m.install@).0,
                version: split_spec(m.install@).1,
                dns: m.dns@,
            },
        ),
        m.remove@.len() > 0 ==> run_plan(m).contains(
            ActionView::Remove {
                distribution: split_spec(m.remove@).0,
                version: split_spec(m.remove@).1,
            },
        ),
        m.download@.len() > 0 ==> run_plan(m).contains(
            ActionView::Install {
                distribution: split_spec(m.install@).0,
                version: split_spec(m.install@).1,
                dns: m.dns@,
            },
        ),
        m.login@.len() > 0 ==> run_plan(m).contains(
            ActionView::Login {
                distribution: split_spec(m.login@).0,
                version: split_spec(m.login@).1,
            },
        ),
        m.restore@.len() > 0 ==> run_plan(m).contains(
            ActionView::Restore {
                kind: m.decompression_type@,
                package: m.compress_package@,
                distribution: split_spec(m.restore@).0,
                version: split_spec(m.restore@).1,
            },
        ),
        m.bakup@.len() > 0 ==> run_plan(m).contains(
            ActionView::Backup {
                kind: m.compress_type@,
                distribution: split_spec(m.bakup@).0,
                version: split_spec(m.bakup@).1,
            },
        ),
        m.list@.len() > 0 ==> run_plan(m).contains(ActionView::List),
        m.configuration@.len() > 0 ==> run_plan(m).contains(
            ActionView::Configure {
                distribution: split_spec(m.configuration@).0,
                version: split_spec(m.configuration@).1,
                key: m.configuration_key@,
                value: m.configuration_value@,
            },
        ),
        m.option@.len() == 0 ==> run_plan(m).len() == (if m.install@.len() > 0 {
            1int
        } else {
            0
        }) + (if m.remove@.len() > 0 {
            1int
        } else {
            0
        }) + (if m.download@.len() > 0 {
            1int
        } else {
            0
        }) + (if m.login@.len() > 0 {
            1int
        } else {
            0
        }) + (if m.restore@.len() > 0 {
            1int
        } else {
            0
        }) + (if m.bakup@.len() > 0 {
            1int
        } else {
            0
        }) + (if m.list@.len() > 0 {
            1int
        } else {
            0
        }) + (if m.configuration@.len() > 0 {
            1int
        } else {
            0
        }),
{
    lemma_part_in_plan(m, 0);
    lemma_part_in_plan(m, 1);
    lemma_part_in_plan(m, 2);
    lemma_part_in_plan(m, 3);
    lemma_part_in_plan(m, 4);
    lemma_part_in_plan(m, 5);
    lemma_part_in_plan(m, 6);
    lemma_part_in_plan(m, 7);
    lemma_no_option(m);
}

/// `--option` asks for one operation on `--distribution` and `--verisons`,
/// which runs before those asked for with the operations' own options.
pub proof fn option_becomes_operation(m: Main)
    ensures
        m.option@ == "install"@ ==> run_plan(m)[0] == (ActionView::Install {
            distribution: m.distribution@,
            version: m.verisons@,
            dns: m.dns@,
        }),
        m.option@ == "bakup"@ ==> run_plan(m)[0] == (ActionView::Backup {
            kind: m.compress_type@,
            distribution: m.distribution@,
            version: m.verisons@,
        }),
        m.option@ == "login"@ ==> run_plan(m)[0] == (ActionView::Login {
            distribution: m.distribution@,
            version: m.verisons@,
        }),
        m.option@ == "restore"@ ==> run_plan(m)[0] == (ActionView::Restore {
            kind: m.compression_type@,
            package: m.compress_package@,
            distribution: m.distribution@,
            version: m.verisons@,
        }),
        m.option@ == "remove"@ ==> run_plan(m)[0] == (ActionView::Remove {
            distribution: m.distribution@,
            version: m.verisons@,
        }),
        m.option@ == "clean"@ ==> run_plan(m)[0] == ActionView::Clean,
        m.option@ == "list-installed"@ ==> run_plan(m)[0] == ActionView::List,
{
    reveal_strlit("install");
    reveal_strlit("bakup");
    reveal_strlit("login");
    reveal_strlit("restore");
    reveal_strlit("remove");
    reveal_strlit("clean");
    reveal_strlit("list-installed");
    assert("bakup"@[0] != "install"@[0]);
    assert("login"@[0] != "install"@[0]);
    assert("login"@[0] != "bakup"@[0]);
    assert("restore"@[0] != "install"@[0]);
    assert("restore"@[0] != "bakup"@[0]);
    assert("restore"@[0] != "login"@[0]);
    assert("remove"@[0] != "install"@[0]);
    assert("remove"@[0] != "bakup"@[0]);
    assert("remove"@[0] != "login"@[0]);
    assert("remove"@[2] != "restore"@[2]);
    assert("clean"@[0] != "install"@[0]);
    assert("clean"@[0] != "bakup"@[0]);
    assert("clean"@[0] != "login"@[0]);
    assert("clean"@[0] != "restore"@[0]);
    assert("clean"@[0] != "remove"@[0]);
    assert("list-installed"@[0] != "install"@[0]);
    assert("list-installed"@[0] != "bakup"@[0]);
    assert("list-installed"@[1] != "login"@[1]);
    assert("list-installed"@[0] != "restore"@[0]);
    assert("list-installed"@[0] != "remove"@[0]);
    assert("list-installed"@[0] != "clean"@[0]);
}

/// An operation is seen with the distribution, version and options it was
/// made with, each in its own place.
pub proof fn operations_keep_their_targets(
    d: String,
    v: String,
    x: String,
    c: Compress,
    r: Decompression,
    k: Configuration,
)
    ensures
        (Action::Install { distribution: d, version: v, dns: x })@ == (ActionView::Install {
            distribution: d@,
            version: v@,
            dns: x@,
        }),
        (Action::Remove { distribution: d, version: v })@ == (ActionView::Remove {
            distribution: d@,
            version: v@,
        }),
        (Action::Login { distribution: d, version: v })@ == (ActionView::Login {
            distribution: d@,
            version: v@,
        }),
        Action::Backup(c)@ == (ActionView::Backup {
            kind: c.compress_type@,
            distribution: c.distribution@,
            version: c.verisons@,
        }),
        Action::Restore(r)@ == (ActionView::Restore {
            kind: r.decompression_type@,
            package: r.compress_package@,
            distribution: r.decompression_distribution@,
            version: r.decompression_verisons@,
        }),
        Action::Configure(k)@ == (ActionView::Configure {
            distribution: k.distribution@,
            version: k.verisons@,
            key: k.key@,
            value: k.value@,
        }),
{
}

/// The operations `--option` can name: install, bakup, login, restore,
/// remove, clean and list-installed (or none).
pub proof fn known_options(o: Seq<char>)
    ensures
        option_known(o) <==> (o.len() == 0 || o == "install"@ || o == "bakup"@ || o == "login"@
            || o == "restore"@ || o == "remove"@ || o == "clean"@ || o == "list-installed"@),
{
}

proof fn lemma_part_in_plan(m: Main, k: int)
    requires
        0 <= k < 8,
    ensures
        flag_parts(m)[k].len() > 0 ==> run_plan(m).contains(flag_parts(m)[k][0]),
{
    let w = flag_parts(m);
    if w[k].len() > 0 {
        assert(w[k].contains(w[k][0]));
        lemma_in_flag_plan(m, k, w[k][0]);
    }
}

proof fn lemma_no_option(m: Main)
    ensures
        m.option@.len() == 0 ==> run_plan(m).len() == flag_plan(m).len(),
{
    if m.option@.len() == 0 {
        reveal_strlit("install");
        reveal_strlit("bakup");
        reveal_strlit("login");
        reveal_strlit("restore");
        reveal_strlit("remove");
        reveal_strlit("clean");
        reveal_strlit("list-installed");
        assert(option_plan(m).len() == 0);
    }
}

fn is_set(s: &String) -> (r: bool)
    ensures
        r == (s@.len() != 0),
{
    s.as_str().unicode_len() != 0
}

impl Main {
    /// The logging options.
    pub fn logger_configuration(&self) -> (r: Logger)
        ensures
            r.log_file@ == self.log_file@,
            r.log_to_stdout == self.log_to_stdout,
            r.log_to_stderr == self.log_to_stderr,
    {
        Logger {
            log_file: self.log_file.clone(),
            log_to_stdout: self.log_to_stdout,
            log_to_stderr: self.log_to_stderr,
        }
    }

    /// The backup of distribution `d`, version `v` in the chosen format.
    pub fn bakup_distribution(&self, d: &str, v: &str) -> (r: Compress)
        ensures
            r.compress_type@ == self.compress_type@,
            r.distribution@ == d@,
            r.verisons@ == v@,
    {
        Compress {
            compress_type: self.compress_type.clone(),
            distribution: String::from_str(d),
            verisons: String::from_str(v),
        }
    }

    /// The restore of distribution `d`, version `v` from the chosen archive.
    pub fn restore_distribution(&self, d: &str, v: &str) -> (r: Decompression)
        ensures
            r.decompression_type@ == self.decompression_type@,
            r.compress_package@ == self.compress_package@,
            r.decompression_distribution@ == d@,
            r.decompression_verisons@ == v@,
    {
        Decompression {
            decompression_type: self.decompression_type.clone(),
            compress_package: self.compress_package.clone(),
            decompression_distribution: String::from_str(d),
            decompression_verisons: String::from_str(v),
        }
    }

    /// The configuration change of distribution `d`, version `v`.
    pub fn configuration_distribution(&self, d: &str, v: &str) -> (r: Configuration)
        ensures
            r.distribution@ == d@,
            r.verisons@ == v@,
            r.key@ == self.configuration_key@,
            r.value@ == self.configuration_value@,
    {
        Configuration {
            distribution: String::from_str(d),
            verisons: String::from_str(v),
            key: self.configuration_key.clone(),
            value: self.configuration_value.clone(),
        }
    }

    /// The operations the options ask for, in the order they run (logging
    /// is set up before all of them, from `logger_configuration`).
    pub fn run(&self) -> (r: Vec<Action>)
        requires
            option_known(self.option@),
        ensures
            actions_view(r@) == run_plan(*self),
    {
        let mut r = self.option_action();
        let mut flags = self.flag_actions();
        let ghost first = r@;
        let ghost second = flags@;
        r.append(&mut flags);
        assert(actions_view(r@) =~= actions_view(first) + actions_view(second));
        r
    }

    /// The operations asked for with the operations' own options.
    fn flag_actions(&self) -> (r: Vec<Action>)
        ensures
            actions_view(r@) == flag_plan(*self),
    {
        let mut r: Vec<Action> = Vec::new();
        let (d, v) = spilt_string(self.install.as_str());
        push_when(
            &mut r,
            is_set(&self.install),
            Action::Install { distribution: d, version: v, dns: self.dns.clone() },
        );
        let (d, v) = spilt_string(self.remove.as_str());
        push_when(&mut r, is_set(&self.remove), Action::Remove { distribution: d, version: v });
        let (d, v) = spilt_string(self.install.as_str());
        push_when(
            &mut r,
            is_set(&self.download),
            Action::Install { distribution: d, version: v, dns: self.dns.clone() },
        );
        let (d, v) = spilt_string(self.login.as_str());
        push_when(&mut r, is_set(&self.login), Action::Login { distribution: d, version: v });
        let (d, v) = spilt_string(self.restore.as_str());
        push_when(
            &mut r,
            is_set(&self.restore),
            Action::Restore(self.restore_distribution(d.as_str(), v.as_str())),
        );
        let (d, v) = spilt_string(self.bakup.as_str());
        push_when(
            &mut r,
            is_set(&self.bakup),
            Action::Backup(self.bakup_distribution(d.as_str(), v.as_str())),
        );
        push_when(&mut r, is_set(&self.list), Action::List);
        let (d, v) = spilt_string(self.configuration.as_str());
        push_when(
            &mut r,
            is_set(&self.configuration),
            Action::Configure(self.configuration_distribution(d.as_str(), v.as_str())),
        );
        assert(actions_view(Seq::<Action>::empty()) =~= Seq::<ActionView>::empty());
        r
    }

    /// The operation `--option` names, if any.
    fn option_action(&self) -> (r: Vec<Action>)
        ensures
            actions_view(r@) == option_plan(*self),
    {
        let o = self.option.as_str();
        let d = self.distribution.as_str();
        let v = self.verisons.as_str();
        let mut r: Vec<Action> = Vec::new();
        if str_eq(o, "install") {
            r.push(
                Action::Install {
                    distribution: String::from_str(d),
                    version: String::from_str(v),
                    dns: self.dns.clone(),
                },
            );
        } else if str_eq(o, "bakup") {
            r.push(Action::Backup(self.bakup_distribution(d, v)));
        } else if str_eq(o, "login") {
            r.push(
                Action::Login { distribution: String::from_str(d), version: String::from_str(v) },
            );
        } else if str_eq(o, "restore") {
            r.push(
                Action::Restore(
                    Decompression {
                        decompression_type: self.compression_type.clone(),
                        compress_package: self.compress_package.clone(),
                        decompression_distribution: String::from_str(d),
                        decompression_verisons: String::from_str(v),
                    },
                ),
            );
        } else if str_eq(o, "remove") {
            r.push(
                Action::Remove { distribution: String::from_str(d), version: String::from_str(v) },
            );
        } else if str_eq(o, "clean") {
            r.push(Action::Clean);
        } else if str_eq(o, "list-installed") {
            r.push(Action::List);
        }
        assert(actions_view(r@) =~= option_plan(*self));
        r
    }
}

/// Appends `a` to `r` where `set` holds.
fn push_when(r: &mut Vec<Action>, set: bool, a: Action)
    ensures
        actions_view(final(r)@) == actions_view(old(r)@) + if set {
            seq![a@]
        } else {
            Seq::<ActionView>::empty()
        },
{
    let ghost before = r@;
    if set {
        r.push(a);
        assert(actions_view(r@) =~= actions_view(before) + seq![a@]);
    } else {
        assert(actions_view(r@) =~= actions_view(before) + Seq::<ActionView>::empty());
    }
}

/// A directory entry of the containers directory: its name, where it is
/// valid UTF-8, and whether it is a directory.
pub struct DirEntry {
    pub name: Option<String>,
    pub is_dir: bool,
}

/// The names of the directories among `entries`, in order.
pub open spec fn directory_names(entries: Seq<DirEntry>) -> Seq<Seq<char>>
    decreases entries.len(),
{
    if entries.len() == 0 {
        Seq::empty()
    } else {
        let e = entries.last();
        directory_names(entries.drop_last()) + if e.is_dir && e.name is Some {
            seq![e.name->0@]
        } else {
            Seq::<Seq<char>>::empty()
        }
    }
}

/// Whether any directory is among `entries`.
pub fn any_installed(entries: &Vec<DirEntry>) -> (r: bool)
    ensures
        r == (directory_names(entries@).len() > 0),
{
    let names = directory_names_of(entries);
    names.len() > 0
}

fn directory_names_of(entries: &Vec<DirEntry>) -> (names: Vec<String>)
    ensures
        names@.map_values(|s: String| s@) == directory_names(entries@),
{
    let mut names: Vec<String> = Vec::new();
    let mut i: usize = 0;
    while i < entries.len()
        invariant
            i <= entries.len(),
            names@.map_values(|s: String| s@) == directory_names(entries@.take(i as int)),
        decreases entries.len() - i,
    {
        let ghost before = names@.map_values(|s: String| s@);
        assert(entries@.take(i + 1).drop_last() =~= entries@.take(i as int));
        assert(entries@.take(i + 1).last() == entries@[i as int]);
        if entries[i].is_dir {
            match &entries[i].name {
                Some(n) => {
                    names.push(n.clone());
                    assert(names@.map_values(|s: String| s@) =~= before + seq![n@]);
                },
                None => {},
            }
        }
        i = i + 1;
    }
    assert(entries@.take(entries.len() as int) =~= entries@);
    names
}

/// The installed distributions: the names of the directories among the
/// entries of the containers directory, in order.  There must be at least
/// one: the tool stops ("Not installed Linux distribution") otherwise.
pub fn list_distribution(entries: &Vec<DirEntry>) -> (names: Vec<String>)
    requires
        directory_names(entries@).len() > 0,
    ensures
        names@.map_values(|s: String| s@) == directory_names(entries@),
{
    directory_names_of(entries)
}

/// The paths of the files among `entries` of the root file system cache.
pub open spec fn cached_files(entries: Seq<DirEntry>) -> Seq<Seq<char>>
    decreases entries.len(),
{
    if entries.len() == 0 {
        Seq::empty()
    } else {
        let e = entries.last();
        cached_files(entries.drop_last()) + if !e.is_dir && e.name is Some {
            seq![ROOTFS_PATH@ + "/"@ + e.name->0@]
        } else {
            Seq::<Seq<char>>::empty()
        }
    }
}

/// What cleaning the cache removes: every file among the `entries` of
/// `ROOTFS_PATH`, by its path.
pub fn clean_cache(entries: &Vec<DirEntry>) -> (paths: Vec<String>)
    ensures
        paths@.map_values(|s: String| s@) == cached_files(entries@),
{
    let mut paths: Vec<String> = Vec::new();
    let mut i: usize = 0;
    while i < entries.len()
        invariant
            i <= entries.len(),
            paths@.map_values(|s: String| s@) == cached_files(entries@.take(i as int)),
        decreases entries.len() - i,
    {
        let ghost before = paths@.map_values(|s: String| s@);
        assert(entries@.take(i + 1).drop_last() =~= entries@.take(i as int));
        assert(entries@.take(i + 1).last() == entries@[i as int]);
        if !entries[i].is_dir {
            match &entries[i].name {
                Some(n) => {
                    let mut p = String::from_str(ROOTFS_PATH);
                    p.append("/");
                    p.append(n.as_str());
                    paths.push(p);
                    assert(paths@.map_values(|s: String| s@) =~= before + seq![
                        ROOTFS_PATH@ + "/"@ + n@,
                    ]);
                },
                None => {},
            }
        }
        i = i + 1;
    }
    assert(entries@.take(entries.len() as int) =~= entries@);
    paths
}

/// The installed distributions listed are exactly the named directories
/// among the entries: every named directory is listed, and every name
/// listed is that of a directory.
pub proof fn listing_is_the_directories(entries: Seq<DirEntry>)
    ensures
        forall|i: int|
            0 <= i < entries.len() && entries[i].is_dir && entries[i].name is Some
                ==> #[trigger] directory_names(entries).contains(entries[i].name->0@),
        forall|n: Seq<char>|
            #[trigger] directory_names(entries).contains(n) ==> exists|i: int|
                0 <= i < entries.len() && entries[i].is_dir && entries[i].name is Some
                    && entries[i].name->0@ == n,
    decreases entries.len(),
{
    if entries.len() > 0 {
        let init = entries.drop_last();
        listing_is_the_directories(init);
        let e = entries.last();
        let extra = if e.is_dir && e.name is Some {
            seq![e.name->0@]
        } else {
            Seq::<Seq<char>>::empty()
        };
        let all = directory_names(entries);
        assert(all == directory_names(init) + extra);
        assert forall|i: int|
            0 <= i < entries.len() && entries[i].is_dir && entries[i].name is Some implies #[trigger] all.contains(
            entries[i].name->0@,
        ) by {
            if i < init.len() {
                assert(init[i] == entries[i]);
                assert(directory_names(init).contains(entries[i].name->0@));
                let k = choose|k: int|
                    0 <= k < directory_names(init).len() && directory_names(init)[k]
                        == entries[i].name->0@;
                assert(all[k] == entries[i].name->0@);
            } else {
                assert(all[all.len() - 1] == e.name->0@);
            }
        }
        assert forall|n: Seq<char>| #[trigger] all.contains(n) implies exists|i: int|
            0 <= i < entries.len() && entries[i].is_dir && entries[i].name is Some
                && entries[i].name->0@ == n by {
            let k = choose|k: int| 0 <= k < all.len() && all[k] == n;
            if k < directory_names(init).len() {
                assert(directory_names(init)[k] == n);
                assert(directory_names(init).contains(n));
                let i = choose|i: int|
                    0 <= i < init.len() && init[i].is_dir && init[i].name is Some
                        && init[i].name->0@ == n;
                assert(entries[i] == init[i]);
            } else {
                assert(entries[entries.len() - 1] == e);
            }
        }
    }
}

/// Cleaning removes exactly the named files among the entries of the root
/// file system directory, each by its path there.
pub proof fn cleaning_removes_the_files(entries: Seq<DirEntry>)
    ensures
        forall|i: int|
            0 <= i < entries.len() && !entries[i].is_dir && entries[i].name is Some
                ==> #[trigger] cached_files(entries).contains(
                ROOTFS_PATH@ + "/"@ + entries[i].name->0@,
            ),
        forall|p: Seq<char>|
            #[trigger] cached_files(entries).contains(p) ==> exists|i: int|
                0 <= i < entries.len() && !entries[i].is_dir && entries[i].name is Some && p
                    == ROOTFS_PATH@ + "/"@ + entries[i].name->0@,
    decreases entries.len(),
{
    if entries.len() > 0 {
        let init = entries.drop_last();
        cleaning_removes_the_files(init);
        let e = entries.last();
        let extra = if !e.is_dir && e.name is Some {
            seq![ROOTFS_PATH@ + "/"@ + e.name->0@]
        } else {
            Seq::<Seq<char>>::empty()
        };
        let all = cached_files(entries);
        assert(all == cached_files(init) + extra);
        assert forall|i: int|
            0 <= i < entries.len() && !entries[i].is_dir && entries[i].name is Some implies #[trigger] all.contains(
            ROOTFS_PATH@ + "/"@ + entries[i].name->0@,
        ) by {
            let p = ROOTFS_PATH@ + "/"@ + entries[i].name->0@;
            if i < init.len() {
                assert(init[i] == entries[i]);
                assert(cached_files(init).contains(ROOTFS_PATH@ + "/"@ + init[i].name->0@));
                assert(cached_files(init).contains(p));
                let k = choose|k: int| 0 <= k < cached_files(init).len() && cached_files(init)[k] == p;
                assert(all[k] == p);
            } else {
                assert(all[all.len() - 1] == p);
            }
        }
        assert forall|p: Seq<char>| #[trigger] all.contains(p) implies exists|i: int|
            0 <= i < entries.len() && !entries[i].is_dir && entries[i].name is Some && p
                == ROOTFS_PATH@ + "/"@ + entries[i].name->0@ by {
            let k = choose|k: int| 0 <= k < all.len() && all[k] == p;
            if k < cached_files(init).len() {
                assert(cached_files(init)[k] == p);
                assert(cached_files(init).contains(p));
                let i = choose|i: int|
                    0 <= i < init.len() && !init[i].is_dir && init[i].name is Some && p
                        == ROOTFS_PATH@ + "/"@ + init[i].name->0@;
                assert(entries[i] == init[i]);
            } else {
                assert(entries[entries.len() - 1] == e);
            }
        }
    }
}

} // verus!
