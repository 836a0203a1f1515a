//! Launch configurations: the command that starts the backend, and the
//! command that forcefully ends it together with its children.

use vstd::prelude::*;
use vstd::string::*;
use crate::platform::Platform;

verus! {

/// The texts of a list of strings.
pub open spec fn texts(items: Seq<String>) -> Seq<Seq<char>> {
    items.map_values(|s: String| s@)
}

/// What a launch configuration says, as plain text.
pub struct LaunchModel {
    pub platform: Platform,
    pub executable: Seq<char>,
    pub args: Seq<Seq<char>>,
    pub working_dir: Seq<char>,
    pub script_path: Seq<char>,
}

/// The configuration that runs the startup script at `script_path` from
/// `working_dir`: the platform's shell is the executable, and the script is
/// its argument, after `/C` where the shell is the command shell.
pub open spec fn launch_model(platform: Platform, working_dir: Seq<char>, script_path: Seq<char>)
    -> LaunchModel {
    LaunchModel {
        platform,
        executable: platform.shell(),
        args: match platform {
            Platform::Posix => seq![script_path],
            Platform::Windows => seq!["/C"@, script_path],
        },
        working_dir,
        script_path,
    }
}

/// How one backend process is started on one platform.
#[derive(Clone, Debug, PartialEq, Eq)]
pub struct LaunchConfig {
    pub platform: Platform,
    pub executable: String,
    pub args: Vec<String>,
    pub working_dir: String,
    pub script_path: String,
}

impl View for LaunchConfig {
    type V = LaunchModel;

    open spec fn view(&self) -> LaunchModel {
        LaunchModel {
            platform: self.platform,
            executable: self.executable@,
            args: texts(self.args@),
            working_dir: self.working_dir@,
            script_path: self.script_path@,
        }
    }
}

/// `std::path::Path::join`, on text: the path `base` with `segment` adjoined.
/// How the two are put together is the host platform's affair, so nothing is
/// claimed of the result.
#[verifier::external_body]
fn join_path(base: &str, segment: &str) -> (joined: String) {
    std::path::Path::new(base).join(segment).to_string_lossy().into_owned()
}

impl LaunchConfig {
    /// A configuration is well formed when its executable and arguments are
    /// those that run its script on its platform.
    pub open spec fn wf(&self) -> bool {
        self@ == launch_model(self.platform, self.working_dir@, self.script_path@)
    }

    /// The configuration that runs the script at `script_path` from
    /// `working_dir` on `platform`.
    pub fn for_script(platform: Platform, working_dir: String, script_path: String) -> (cfg:
        LaunchConfig)
        ensures
            cfg@ == launch_model(platform, working_dir@, script_path@),
            cfg.wf(),
    {
        let mut args: Vec<String> = Vec::new();
        match platform {
            Platform::Posix => {},
            Platform::Windows => {
                args.push("/C".to_owned());
            },
        }
        args.push(script_path.clone());
        let cfg = LaunchConfig {
            platform,
            executable: platform.interpreter().to_owned(),
            args,
            working_dir,
            script_path,
        };
        assert(cfg@.args =~= launch_model(platform, working_dir@, script_path@).args);
        cfg
    }

    /// The configuration for the startup script of `platform` that lies under
    /// `resource_root`, in the directory that `server_dir` leads to.
    ///
    /// The working directory is `resource_root` with the directories of
    /// `server_dir` adjoined in turn, and the script path is the working
    /// directory with the platform's script name adjoined.
    pub fn locate(platform: Platform, resource_root: &str, server_dir: &Vec<String>) -> (cfg:
        LaunchConfig)
        ensures
            cfg.wf(),
            cfg.platform == platform,
            server_dir@.len() == 0 ==> cfg.working_dir@ == resource_root@,
    {
        let mut dir: String = resource_root.to_owned();
        let mut i: usize = 0;
        while i < server_dir.len()
            invariant
                i <= server_dir@.len(),
                server_dir@.len() == 0 ==> dir@ == resource_root@,
            decreases server_dir@.len() - i,
        {
            dir = join_path(dir.as_str(), server_dir[i].as_str());
            i += 1;
        }
        let script: String = join_path(dir.as_str(), platform.startup_script());
        LaunchConfig::for_script(platform, dir, script)
    }
}

/// The decimal digit for `d`.
pub open spec fn digit(d: int) -> char {
    if d == 0 {
        '0'
    } else if d == 1 {
        '1'
    } else if d == 2 {
        '2'
    } else if d == 3 {
        '3'
    } else if d == 4 {
        '4'
    } else if d == 5 {
        '5'
    } else if d == 6 {
        '6'
    } else if d == 7 {
        '7'
    } else if d == 8 {
        '8'
    } else {
        '9'
    }
}

/// The decimal numeral of `n`, without leading zeros.
pub open spec fn decimal(n: nat) -> Seq<char>
    decreases n,
{
    if n < 10 {
        seq![digit(n as int)]
    } else {
        decimal(n / 10).push(digit((n % 10) as int))
    }
}

fn digit_text(d: u32) -> (text: &'static str)
    requires
        d < 10,
    ensures
        text@ == seq![digit(d as int)],
{
    proof {
        reveal_strlit("0");
        reveal_strlit("1");
        reveal_strlit("2");
        reveal_strlit("3");
        reveal_strlit("4");
        reveal_strlit("5");
        reveal_strlit("6");
        reveal_strlit("7");
        reveal_strlit("8");
        reveal_strlit("9");
    }
    let text: &'static str = if d == 0 {
        "0"
    } else if d == 1 {
        "1"
    } else if d == 2 {
        "2"
    } else if d == 3 {
        "3"
    } else if d == 4 {
        "4"
    } else if d == 5 {
        "5"
    } else if d == 6 {
        "6"
    } else if d == 7 {
        "7"
    } else if d == 8 {
        "8"
    } else {
        "9"
    };
    assert(text@ =~= seq![digit(d as int)]);
    text
}

/// The decimal numeral of a process identifier.
pub fn decimal_text(n: u32) -> (text: String)
    ensures
        text@ == decimal(n as nat),
    decreases n,
{
    if n < 10 {
        digit_text(n).to_owned()
    } else {
        let mut text: String = decimal_text(n / 10);
        text.append(digit_text(n % 10));
        assert(text@ =~= decimal(n as nat));
        text
    }
}

/// A program with its arguments.
#[derive(Clone, Debug, PartialEq, Eq)]
pub struct CommandLine {
    pub program: String,
    pub args: Vec<String>,
}

/// The arguments that make `taskkill` end process `pid` forcefully, together
/// with every process it started.
pub open spec fn tree_kill_args(pid: u32) -> Seq<Seq<char>> {
    seq!["/PID"@, decimal(pid as nat), "/F"@, "/T"@]
}

/// The command that forcefully ends process `pid` and its children where the
/// command shell is the platform's shell.
pub fn tree_kill_command(pid: u32) -> (cmd: CommandLine)
    ensures
        cmd.program@ == "taskkill"@,
        texts(cmd.args@) == tree_kill_args(pid),
{
    let mut args: Vec<String> = Vec::new();
    args.push("/PID".to_owned());
    args.push(decimal_text(pid));
    args.push("/F".to_owned());
    args.push("/T".to_owned());
    assert(texts(args@) =~= tree_kill_args(pid));
    CommandLine { program: "taskkill".to_owned(), args }
}

} // verus!
