use vstd::prelude::*;

use crate::metadata::PublicKey;

verus! {

/// The pattern that an `authorized_keys` path must match; its first group is
/// the user name.
pub const KEYPATH_PATTERN: &'static str = "^/home/([a-zA-Z][a-zA-Z0-9]*)/.ssh/authorized_keys$";

/// The capture group of `KEYPATH_PATTERN` that holds the user name.
pub const USERNAME_GROUP: usize = 1;

/// Device that holds the provisioning media.
pub const CDROM_PATH: &'static str = "/dev/sr0";

/// The program and arguments of a command to run.
pub struct CommandSpec {
    pub program: String,
    pub args: Vec<String>,
}

pub struct CommandView {
    pub program: Seq<char>,
    pub args: Seq<Seq<char>>,
}

impl View for CommandSpec {
    type V = CommandView;

    open spec fn view(&self) -> CommandView {
        CommandView { program: self.program@, args: self.args.deep_view() }
    }
}

pub open spec fn commands_view(cmds: Seq<CommandSpec>) -> Seq<CommandView> {
    cmds.map_values(|c: CommandSpec| c@)
}

/// The text of capture group `group` when the regular expression `pattern`
/// (as `regex::Regex` reads it) is matched against `haystack`; `None` where
/// the pattern is refused, there is no match, or the group takes no part.
pub uninterp spec fn regex_capture_spec(pattern: Seq<char>, haystack: Seq<char>, group: nat) -> Option<
    Seq<char>,
>;

/// An ASCII letter: the class `[a-zA-Z]`.
pub open spec fn is_ascii_letter(c: char) -> bool {
    ('a' <= c && c <= 'z') || ('A' <= c && c <= 'Z')
}

/// An ASCII letter or digit: the class `[a-zA-Z0-9]`.
pub open spec fn is_ascii_letter_or_digit(c: char) -> bool {
    is_ascii_letter(c) || ('0' <= c && c <= '9')
}

/// A user name as `KEYPATH_PATTERN` accepts it: `[a-zA-Z][a-zA-Z0-9]*`.
pub open spec fn is_username(u: Seq<char>) -> bool {
    &&& u.len() >= 1
    &&& is_ascii_letter(u[0])
    &&& forall|i: int| 1 <= i < u.len() ==> is_ascii_letter_or_digit(#[trigger] u[i])
}

/// The path `/home/<u>/<c>ssh/authorized_keys`: the pattern's `.` stands for
/// the character `c`.
pub open spec fn keypath_of(u: Seq<char>, c: char) -> Seq<char> {
    "/home/"@ + u + seq!['/', c] + "ssh/authorized_keys"@
}

/// `path` matches `KEYPATH_PATTERN` with `u` as its user name group: it is
/// `/home/` then `u`, then `/`, one character other than a newline, and
/// `ssh/authorized_keys`, and nothing else.
pub open spec fn keypath_matches(path: Seq<char>, u: Seq<char>) -> bool {
    &&& is_username(u)
    &&& exists|c: char| c != '\n' && path == #[trigger] keypath_of(u, c)
}

/// Whether `path` matches `KEYPATH_PATTERN` at all.
pub open spec fn is_keypath(path: Seq<char>) -> bool {
    exists|u: Seq<char>| #[trigger] keypath_matches(path, u)
}

/// Matches `haystack` against `pattern` with the `regex` crate:
/// `Regex::new(pattern)`, then `Regex::captures(haystack)`, then
/// `Captures::get(group)` and `Match::as_str`.
/// Trusted: the result is the named result of those calls on these
/// arguments; `None` stands for each of the crate's "no result" answers.
/// For the one pattern the library uses, `KEYPATH_PATTERN` with its user name
/// group, it also states what the crate's syntax documentation gives: `^` and
/// `$` anchor at the ends of the haystack, `[a-zA-Z]` and `[a-zA-Z0-9]` are
/// the ASCII classes, and `.` is any character but a newline; the group is
/// then `Some(u)` exactly when the haystack is
/// `/home/<u>/<c>ssh/authorized_keys` with such a `u` and `c`.
#[verifier::external_body]
fn regex_capture(pattern: &str, haystack: &str, group: usize) -> (r: Option<String>)
    ensures
        r is Some <==> regex_capture_spec(pattern@, haystack@, group as nat) is Some,
        r matches Some(s) ==> s@ == regex_capture_spec(pattern@, haystack@, group as nat)->0,
        (pattern@ == KEYPATH_PATTERN@ && group == USERNAME_GROUP) ==> (r is Some <==> is_keypath(
            haystack@,
        )),
        (pattern@ == KEYPATH_PATTERN@ && group == USERNAME_GROUP) ==> (r matches Some(u)
            ==> keypath_matches(haystack@, u@)),
{
    let re = match regex::Regex::new(pattern) {
        Ok(re) => re,
        Err(_) => return None,
    };
    match re.captures(haystack) {
        Some(caps) => match caps.get(group) {
            Some(m) => Some(m.as_str().to_string()),
            None => None,
        },
        None => None,
    }
}

proof fn lemma_keypath_parts(u: Seq<char>, c: char)
    ensures
        keypath_of(u, c).len() == u.len() + 27,
        forall|i: int| 0 <= i < u.len() ==> #[trigger] keypath_of(u, c)[6 + i] == u[i],
        keypath_of(u, c)[6 + u.len() as int] == '/',
        keypath_of(u, c)[7 + u.len() as int] == c,
{
    reveal_strlit("/home/");
    reveal_strlit("ssh/authorized_keys");
    assert forall|i: int| 0 <= i < u.len() implies #[trigger] keypath_of(u, c)[6 + i] == u[i] by {
        assert(("/home/"@ + u)[6 + i] == u[i]);
    }
}

/// A path names at most one user: where it matches with `u1` and with `u2`,
/// the two are the same.
pub proof fn law_keypath_names_one_user(path: Seq<char>, u1: Seq<char>, u2: Seq<char>)
    requires
        keypath_matches(path, u1),
        keypath_matches(path, u2),
    ensures
        u1 == u2,
{
    let c1 = choose|c: char| c != '\n' && path == #[trigger] keypath_of(u1, c);
    let c2 = choose|c: char| c != '\n' && path == #[trigger] keypath_of(u2, c);
    lemma_keypath_parts(u1, c1);
    lemma_keypath_parts(u2, c2);
    assert(u1.len() == u2.len()) by {
        if u1.len() < u2.len() {
            assert(path[6 + u1.len() as int] == u2[u1.len() as int]);
            assert(is_ascii_letter_or_digit(u2[u1.len() as int]) || u1.len() == 0);
        } else if u2.len() < u1.len() {
            assert(path[6 + u2.len() as int] == u1[u2.len() as int]);
            assert(is_ascii_letter_or_digit(u1[u2.len() as int]) || u2.len() == 0);
        }
    }
    assert(u1 =~= u2) by {
        assert forall|i: int| 0 <= i < u1.len() implies u1[i] == u2[i] by {
            assert(path[6 + i] == u1[i]);
            assert(path[6 + i] == u2[i]);
        }
    }
}

/// Every user name gives an `authorized_keys` path that names exactly that
/// user, and a path whose `.` is a real dot is that user's
/// `/home/<u>/.ssh/authorized_keys`.
pub proof fn law_keypath_round_trip(u: Seq<char>, path: Seq<char>)
    requires
        is_username(u),
    ensures
        keypath_matches(authorized_keys_file(u), u),
        forall|v: Seq<char>| #[trigger] keypath_matches(authorized_keys_file(u), v) ==> v == u,
        keypath_matches(path, u) && path[7 + u.len() as int] == '.' ==> path == authorized_keys_file(u),
{
    reveal_strlit("/home/");
    reveal_strlit("/.ssh");
    reveal_strlit("/authorized_keys");
    reveal_strlit("ssh/authorized_keys");
    assert(authorized_keys_file(u) =~= keypath_of(u, '.'));
    assert forall|v: Seq<char>| #[trigger] keypath_matches(authorized_keys_file(u), v) implies v == u by {
        law_keypath_names_one_user(authorized_keys_file(u), v, u);
    }
    if keypath_matches(path, u) && path[7 + u.len() as int] == '.' {
        let c = choose|c: char| c != '\n' && path == #[trigger] keypath_of(u, c);
        lemma_keypath_parts(u, c);
        assert(c == '.');
    }
}

/// Extracts the user name from an `authorized_keys` path of the shape
/// `/home/<user>/.ssh/authorized_keys`.
pub fn get_username_from_keypath(keypath: &str) -> (r: Result<String, ()>)
    requires
        is_keypath(keypath@),
    ensures
        r matches Ok(u) && keypath_matches(keypath@, u@),
{
    match regex_capture(KEYPATH_PATTERN, keypath, USERNAME_GROUP) {
        Some(username) => Ok(username),
        None => Err(()),
    }
}

/// Like `get_username_from_keypath`, for any path: `None` where the path does
/// not have the expected shape.
pub fn try_get_username_from_keypath(keypath: &str) -> (r: Option<String>)
    ensures
        r is Some <==> is_keypath(keypath@),
        r matches Some(u) ==> keypath_matches(keypath@, u@),
{
    regex_capture(KEYPATH_PATTERN, keypath, USERNAME_GROUP)
}

pub(crate) fn command1(program: &str, a: &str) -> (r: CommandSpec)
    ensures
        r@ == (CommandView { program: program@, args: seq![a@] }),
{
    let mut args: Vec<String> = Vec::new();
    args.push(String::from_str(a));
    let r = CommandSpec { program: String::from_str(program), args };
    assert(r@.args =~= seq![a@]);
    r
}

fn command2(program: &str, a: &str, b: &str) -> (r: CommandSpec)
    ensures
        r@ == (CommandView { program: program@, args: seq![a@, b@] }),
{
    let mut args: Vec<String> = Vec::new();
    args.push(String::from_str(a));
    args.push(String::from_str(b));
    let r = CommandSpec { program: String::from_str(program), args };
    assert(r@.args =~= seq![a@, b@]);
    r
}

fn command3(program: &str, a: &str, b: &str, c: &str) -> (r: CommandSpec)
    ensures
        r@ == (CommandView { program: program@, args: seq![a@, b@, c@] }),
{
    let mut args: Vec<String> = Vec::new();
    args.push(String::from_str(a));
    args.push(String::from_str(b));
    args.push(String::from_str(c));
    let r = CommandSpec { program: String::from_str(program), args };
    assert(r@.args =~= seq![a@, b@, c@]);
    r
}

/// The home directory of `username`.
pub open spec fn home_dir(username: Seq<char>) -> Seq<char> {
    "/home/"@ + username
}

/// The SSH directory of `username`.
pub open spec fn ssh_dir(username: Seq<char>) -> Seq<char> {
    home_dir(username) + "/.ssh"@
}

/// The `authorized_keys` file of `username`.
pub open spec fn authorized_keys_file(username: Seq<char>) -> Seq<char> {
    ssh_dir(username) + "/authorized_keys"@
}

/// The commands that create `username` with a home directory and add it to
/// the `wheel` group.
pub open spec fn create_wheel_user_spec(username: Seq<char>) -> Seq<CommandView> {
    seq![
        CommandView { program: "useradd"@, args: seq!["-m"@, username] },
        CommandView { program: "gpasswd"@, args: seq!["--add"@, username, "wheel"@] },
    ]
}

/// The commands that give `username` its home directory and make its SSH
/// directory private and its `authorized_keys` readable.
pub open spec fn fixup_permissions_spec(username: Seq<char>) -> Seq<CommandView> {
    seq![
        CommandView { program: "chown"@, args: seq!["-R"@, username, home_dir(username)] },
        CommandView { program: "chmod"@, args: seq!["0700"@, ssh_dir(username)] },
        CommandView { program: "chmod"@, args: seq!["0644"@, authorized_keys_file(username)] },
    ]
}

/// The commands, in order, that create the wheel user `username`.
pub fn create_wheel_user(username: &str) -> (r: Vec<CommandSpec>)
    ensures
        commands_view(r@) == create_wheel_user_spec(username@),
{
    let mut cmds: Vec<CommandSpec> = Vec::new();
    cmds.push(command2("useradd", "-m", username));
    cmds.push(command3("gpasswd", "--add", username, "wheel"));
    assert(commands_view(cmds@) =~= create_wheel_user_spec(username@));
    cmds
}

/// The commands, in order, that fix the ownership and permissions of the home
/// directory of `username`.
pub fn fixup_user_homedir_permissions(username: &str) -> (r: Vec<CommandSpec>)
    ensures
        commands_view(r@) == fixup_permissions_spec(username@),
{
    let mut home = String::from_str("/home/");
    home.append(username);
    let mut ssh = home.clone();
    ssh.append("/.ssh");
    let mut keys = ssh.clone();
    keys.append("/authorized_keys");
    let mut cmds: Vec<CommandSpec> = Vec::new();
    cmds.push(command3("chown", "-R", username, home.as_str()));
    cmds.push(command2("chmod", "0700", ssh.as_str()));
    cmds.push(command2("chmod", "0644", keys.as_str()));
    assert(commands_view(cmds@) =~= fixup_permissions_spec(username@));
    cmds
}

/// The command that extracts `ovf-env.xml` from the provisioning media into
/// the current directory.
pub fn read_ovf_env() -> (r: CommandSpec)
    ensures
        r@ == (CommandView { program: "7z"@, args: seq!["x"@, CDROM_PATH@, "ovf-env.xml"@] }),
{
    command3("7z", "x", CDROM_PATH, "ovf-env.xml")
}

/// What installing one SSH key takes: the user it belongs to, the commands
/// that create that user, the file that receives the key and its contents,
/// and the commands that fix the home directory afterwards.
pub struct UserSetupPlan {
    pub username: String,
    pub create_user: Vec<CommandSpec>,
    pub key_path: String,
    pub key_data: String,
    pub fix_permissions: Vec<CommandSpec>,
}

/// Plans the installation of key `k`: `None` where its path does not name a
/// user.
pub fn create_users_with_keys(k: &PublicKey) -> (r: Option<UserSetupPlan>)
    ensures
        r is Some <==> is_keypath(k.path@),
        r matches Some(p) ==> {
            &&& keypath_matches(k.path@, p.username@)
            &&& commands_view(p.create_user@) == create_wheel_user_spec(p.username@)
            &&& p.key_path@ == k.path@
            &&& p.key_data@ == k.key_data@
            &&& commands_view(p.fix_permissions@) == fixup_permissions_spec(p.username@)
        },
{
    match try_get_username_from_keypath(k.path.as_str()) {
        Some(username) => {
            let create_user = create_wheel_user(username.as_str());
            let fix_permissions = fixup_user_homedir_permissions(username.as_str());
            Some(
                UserSetupPlan {
                    username,
                    create_user,
                    key_path: k.path.clone(),
                    key_data: k.key_data.clone(),
                    fix_permissions,
                },
            )
        },
        None => None,
    }
}

impl CommandSpec {
    /// A copy of the command, field for field.
    pub fn duplicate(&self) -> (r: CommandSpec)
        ensures
            r@ == self@,
    {
        let mut args: Vec<String> = Vec::new();
        let n = self.args.len();
        for i in 0..n
            invariant
                n == self.args.len(),
                args.len() == i,
                forall|j: int| 0 <= j < i ==> #[trigger] args@[j]@ == self.args@[j]@,
        {
            args.push(self.args[i].clone());
        }
        let r = CommandSpec { program: self.program.clone(), args };
        assert(r@.args =~= self@.args);
        r
    }
}

/// How the last command of a sequence went.
pub enum CommandOutcome {
    /// Nothing has run yet.
    Begin,
    /// The command ran and exited, successfully or not.
    Exited(bool),
    /// The command could not be started.
    NotStarted(std::io::Error),
}

/// What to do next in a sequence of commands.
pub enum CommandStep {
    /// Start this command.
    Run(CommandSpec),
    /// Every command ran and succeeded.
    Done,
    /// A command could not be started: report this error.
    Fail(std::io::Error),
    /// A command failed: end the process.
    ExitProcess,
}

pub enum CommandOutcomeView {
    Begin,
    Exited(bool),
    NotStarted(std::io::Error),
}

pub enum CommandStepView {
    Run(CommandView),
    Done,
    Fail(std::io::Error),
    ExitProcess,
}

impl View for CommandOutcome {
    type V = CommandOutcomeView;

    open spec fn view(&self) -> CommandOutcomeView {
        match self {
            CommandOutcome::Begin => CommandOutcomeView::Begin,
            CommandOutcome::Exited(ok) => CommandOutcomeView::Exited(*ok),
            CommandOutcome::NotStarted(e) => CommandOutcomeView::NotStarted(*e),
        }
    }
}

impl View for CommandStep {
    type V = CommandStepView;

    open spec fn view(&self) -> CommandStepView {
        match self {
            CommandStep::Run(c) => CommandStepView::Run(c@),
            CommandStep::Done => CommandStepView::Done,
            CommandStep::Fail(e) => CommandStepView::Fail(*e),
            CommandStep::ExitProcess => CommandStepView::ExitProcess,
        }
    }
}

/// Runs commands one after another, each only once the one before it
/// succeeded.
pub struct CommandSequence {
    commands: Vec<CommandSpec>,
    started: usize,
    finished: bool,
}

pub struct CommandSequenceView {
    pub commands: Seq<CommandView>,
    pub started: nat,
    pub finished: bool,
}

impl CommandSequence {
    #[verifier::type_invariant]
    spec fn started_in_range(self) -> bool {
        self.started <= self.commands.len()
    }
}

impl View for CommandSequence {
    type V = CommandSequenceView;

    closed spec fn view(&self) -> CommandSequenceView {
        CommandSequenceView {
            commands: commands_view(self.commands@),
            started: self.started as nat,
            finished: self.finished,
        }
    }
}

/// Which outcomes a sequence takes: `Begin` before its first command, the
/// outcome of the last command after that, nothing once it is finished.
pub open spec fn sequence_accepts(s: CommandSequenceView, o: CommandOutcomeView) -> bool {
    !s.finished && ((s.started == 0) <==> (o is Begin))
}

/// The next state and step of a sequence, given how its last command went.
pub open spec fn sequence_step_spec(s: CommandSequenceView, o: CommandOutcomeView) -> (
    CommandSequenceView,
    CommandStepView,
) {
    match o {
        CommandOutcomeView::NotStarted(e) => (
            CommandSequenceView { finished: true, ..s },
            CommandStepView::Fail(e),
        ),
        CommandOutcomeView::Exited(false) => (
            CommandSequenceView { finished: true, ..s },
            CommandStepView::ExitProcess,
        ),
        _ => if s.started < s.commands.len() {
            (
                CommandSequenceView { started: s.started + 1, ..s },
                CommandStepView::Run(s.commands[s.started as int]),
            )
        } else {
            (CommandSequenceView { finished: true, ..s }, CommandStepView::Done)
        },
    }
}

impl CommandSequence {
    /// A sequence of these commands, none started.
    pub fn new(commands: Vec<CommandSpec>) -> (r: CommandSequence)
        ensures
            r@ == (CommandSequenceView {
                commands: commands_view(commands@),
                started: 0,
                finished: false,
            }),
            r@.started <= r@.commands.len(),
    {
        CommandSequence { commands, started: 0, finished: false }
    }

    /// Whether the sequence takes this outcome.
    pub fn accepts(&self, outcome: &CommandOutcome) -> (r: bool)
        ensures
            r == sequence_accepts(self@, outcome@),
    {
        !self.finished && ((self.started == 0) == matches!(outcome, CommandOutcome::Begin))
    }

    /// Takes how the last command went and decides the next step.
    pub fn step(&mut self, outcome: CommandOutcome) -> (r: CommandStep)
        requires
            sequence_accepts(old(self)@, outcome@),
        ensures
            (final(self)@, r@) == sequence_step_spec(old(self)@, outcome@),
            final(self)@.started <= final(self)@.commands.len(),
    {
        proof {
            use_type_invariant(&*self);
        }
        match outcome {
            CommandOutcome::NotStarted(e) => {
                self.finished = true;
                CommandStep::Fail(e)
            },
            CommandOutcome::Exited(false) => {
                self.finished = true;
                CommandStep::ExitProcess
            },
            _ => {
                if self.started < self.commands.len() {
                    let c = self.commands[self.started].duplicate();
                    self.started = self.started + 1;
                    CommandStep::Run(c)
                } else {
                    self.finished = true;
                    CommandStep::Done
                }
            },
        }
    }
}

/// A sequence starts its commands in order, each only after every earlier one
/// exited successfully; it stops at the first command that cannot start, with
/// that error, or that fails, by ending the process; and it is done only once
/// every command ran.
pub proof fn law_commands_run_in_order(s: CommandSequenceView, o: CommandOutcomeView)
    requires
        s.started <= s.commands.len(),
        sequence_accepts(s, o),
    ensures
        ({
            let (next, step) = sequence_step_spec(s, o);
            &&& step matches CommandStepView::Run(c) ==> {
                &&& o is Begin || o == CommandOutcomeView::Exited(true)
                &&& c == s.commands[s.started as int]
                &&& next.started == s.started + 1
                &&& !next.finished
            }
            &&& step is Done ==> (o is Begin || o == CommandOutcomeView::Exited(true)) && s.started
                == s.commands.len() && next.finished
            &&& (o matches CommandOutcomeView::NotStarted(e) ==> step == CommandStepView::Fail(e))
            &&& o == CommandOutcomeView::Exited(false) ==> step is ExitProcess
            &&& next.commands == s.commands
        }),
{
}

/// Creating a wheel user takes two commands, whatever the name: `useradd -m`
/// and then `gpasswd --add ... wheel`, each naming exactly that user.
pub proof fn law_wheel_user_commands_name_the_user(username: Seq<char>)
    ensures
        create_wheel_user_spec(username).len() == 2,
        create_wheel_user_spec(username)[0] == (CommandView {
            program: "useradd"@,
            args: seq!["-m"@, username],
        }),
        create_wheel_user_spec(username)[1] == (CommandView {
            program: "gpasswd"@,
            args: seq!["--add"@, username, "wheel"@],
        }),
{
}

/// Fixing a home directory takes three commands, whatever the name: the user
/// gets `/home/<user>` recursively, `/home/<user>/.ssh` becomes private, and
/// `/home/<user>/.ssh/authorized_keys` readable.
pub proof fn law_permission_commands_name_the_user(username: Seq<char>)
    ensures
        fixup_permissions_spec(username).len() == 3,
        fixup_permissions_spec(username)[0] == (CommandView {
            program: "chown"@,
            args: seq!["-R"@, username, "/home/"@ + username],
        }),
        fixup_permissions_spec(username)[1] == (CommandView {
            program: "chmod"@,
            args: seq!["0700"@, "/home/"@ + username + "/.ssh"@],
        }),
        fixup_permissions_spec(username)[2] == (CommandView {
            program: "chmod"@,
            args: seq!["0644"@, "/home/"@ + username + "/.ssh"@ + "/authorized_keys"@],
        }),
{
}

/// For a key whose path is `/home/<u>/.ssh/authorized_keys`, the user that is
/// created and added to `wheel` is `u` itself, and the file whose permissions
/// are fixed is the very file the key is written to.
pub proof fn law_user_setup_serves_the_key_owner(path: Seq<char>, u: Seq<char>)
    requires
        is_username(u),
        path == "/home/"@ + u + "/.ssh/authorized_keys"@,
    ensures
        keypath_matches(path, u),
        forall|v: Seq<char>| #[trigger] keypath_matches(path, v) ==> v == u,
        create_wheel_user_spec(u)[0].args == seq!["-m"@, u],
        create_wheel_user_spec(u)[1].args == seq!["--add"@, u, "wheel"@],
        fixup_permissions_spec(u)[2].args[1] == path,
{
    reveal_strlit("/.ssh/authorized_keys");
    reveal_strlit("/.ssh");
    reveal_strlit("/authorized_keys");
    assert(path =~= authorized_keys_file(u));
    law_keypath_round_trip(u, path);
}

} // verus!
