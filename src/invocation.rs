use vstd::prelude::*;

use crate::error::LaunchError;
use crate::locate::CoreStatus;
use crate::platform::Platform;

verus! {

/// A process to start: the program, its arguments passed one by one (never
/// through a shell string), and environment variables to set.
#[derive(Clone, Debug)]
pub struct Invocation {
    pub program: String,
    pub args: Vec<String>,
    pub env: Vec<(String, String)>,
}

/// The character sequences of a sequence of strings.
pub open spec fn texts(v: Seq<String>) -> Seq<Seq<char>> {
    v.map_values(|s: String| s@)
}

/// The character sequences of a sequence of name/value pairs.
pub open spec fn pair_texts(v: Seq<(String, String)>) -> Seq<(Seq<char>, Seq<char>)> {
    v.map_values(|p: (String, String)| (p.0@, p.1@))
}

/// The arguments that run the managed tool: UTF-8 encoding flags, then the
/// artifact as a jar, then the caller's arguments verbatim.
pub open spec fn jar_args_of(core_path: Seq<char>, args: Seq<Seq<char>>) -> Seq<Seq<char>> {
    seq!["-Dfile.encoding=UTF-8"@, "-Dconsole.encoding=UTF-8"@, "-jar"@, core_path] + args
}

/// The environment overrides that force the UTF-8 code page on Windows.
pub open spec fn encoding_env_of(platform: Platform) -> Seq<(Seq<char>, Seq<char>)> {
    if platform == Platform::Windows {
        seq![("CHCP"@, "65001"@)]
    } else {
        seq![]
    }
}

/// Words joined by single spaces.
pub open spec fn joined(words: Seq<Seq<char>>) -> Seq<char>
    decreases words.len(),
{
    if words.len() == 0 {
        seq![]
    } else if words.len() == 1 {
        words[0]
    } else {
        joined(words.drop_last()) + " "@ + words.last()
    }
}

/// Lines, each followed by a newline, as written to a child's standard input.
pub open spec fn lines_payload(lines: Seq<Seq<char>>) -> Seq<char>
    decreases lines.len(),
{
    if lines.len() == 0 {
        seq![]
    } else {
        lines_payload(lines.drop_last()) + lines.last() + "\n"@
    }
}

impl Invocation {
    pub open spec fn program_text(&self) -> Seq<char> {
        self.program@
    }

    pub open spec fn arg_texts(&self) -> Seq<Seq<char>> {
        texts(self.args@)
    }

    pub open spec fn env_texts(&self) -> Seq<(Seq<char>, Seq<char>)> {
        pair_texts(self.env@)
    }
}

/// The environment overrides that force the UTF-8 code page on Windows.
pub fn encoding_env(platform: Platform) -> (r: Vec<(String, String)>)
    ensures
        pair_texts(r@) == encoding_env_of(platform),
{
    let mut env: Vec<(String, String)> = Vec::new();
    if platform == Platform::Windows {
        env.push((String::from_str("CHCP"), String::from_str("65001")));
    }
    assert(pair_texts(env@) =~= encoding_env_of(platform));
    env
}

/// The arguments that run the managed tool at `core_path` with `args`.
pub fn jar_args(core_path: &String, args: &Vec<String>) -> (r: Vec<String>)
    ensures
        texts(r@) == jar_args_of(core_path@, texts(args@)),
{
    let mut out: Vec<String> = Vec::new();
    out.push(String::from_str("-Dfile.encoding=UTF-8"));
    out.push(String::from_str("-Dconsole.encoding=UTF-8"));
    out.push(String::from_str("-jar"));
    out.push(core_path.clone());
    let ghost head = seq!["-Dfile.encoding=UTF-8"@, "-Dconsole.encoding=UTF-8"@, "-jar"@, core_path@];
    assert(texts(out@) =~= head);
    let mut i: usize = 0;
    while i < args.len()
        invariant
            i <= args@.len(),
            texts(out@) =~= head + texts(args@).take(i as int),
        decreases args@.len() - i,
    {
        let ghost before = out@;
        out.push(args[i].clone());
        assert(texts(out@) =~= texts(before).push(args@[i as int]@));
        assert(texts(args@).take(i as int + 1) =~= texts(args@).take(i as int).push(args@[i as int]@));
        i = i + 1;
    }
    assert(texts(args@).take(args@.len() as int) =~= texts(args@));
    out
}

/// Words joined by single spaces.
pub fn join_words(words: &Vec<String>) -> (r: String)
    ensures
        r@ == joined(texts(words@)),
{
    let mut out = String::new();
    let mut i: usize = 0;
    while i < words.len()
        invariant
            i <= words@.len(),
            out@ == joined(texts(words@).take(i as int)),
        decreases words@.len() - i,
    {
        let ghost before = texts(words@).take(i as int);
        let ghost after = texts(words@).take(i as int + 1);
        assert(after.drop_last() =~= before);
        if i > 0 {
            out.append(" ");
        } else {
            assert(out@ == Seq::<char>::empty());
            assert(after[0] == words@[0]@);
        }
        out.append(words[i].as_str());
        i = i + 1;
    }
    assert(texts(words@).take(words@.len() as int) =~= texts(words@));
    out
}

/// The text written to a child's standard input for `lines`: each line
/// followed by a newline.
pub fn stdin_payload(lines: &Vec<String>) -> (r: String)
    ensures
        r@ == lines_payload(texts(lines@)),
{
    let mut out = String::new();
    let mut i: usize = 0;
    while i < lines.len()
        invariant
            i <= lines@.len(),
            out@ == lines_payload(texts(lines@).take(i as int)),
        decreases lines@.len() - i,
    {
        let ghost after = texts(lines@).take(i as int + 1);
        assert(after.drop_last() =~= texts(lines@).take(i as int));
        out.append(lines[i].as_str());
        out.append("\n");
        i = i + 1;
    }
    assert(texts(lines@).take(lines@.len() as int) =~= texts(lines@));
    out
}

/// The path of the managed tool artifact, or why it cannot be run.
fn runnable_core_path(core: &CoreStatus) -> (r: Result<String, LaunchError>)
    ensures
        !core.exists ==> r == Err::<String, LaunchError>(LaunchError::CoreMissing),
        core.exists && core.path is None ==> r == Err::<String, LaunchError>(
            LaunchError::CorePathUnknown,
        ),
        core.exists && core.path is Some ==> r == Ok::<String, LaunchError>(core.path->0),
{
    if !core.exists {
        return Err(LaunchError::CoreMissing);
    }
    match &core.path {
        Some(p) => Ok(p.clone()),
        None => Err(LaunchError::CorePathUnknown),
    }
}

/// Runs the managed tool directly, with its output captured.
pub fn tool_invocation(core: &CoreStatus, args: &Vec<String>, platform: Platform) -> (r: Result<
    Invocation,
    LaunchError,
>)
    ensures
        !core.exists ==> r == Err::<Invocation, LaunchError>(LaunchError::CoreMissing),
        core.exists && core.path is None ==> r == Err::<Invocation, LaunchError>(
            LaunchError::CorePathUnknown,
        ),
        core.exists && core.path is Some <==> r is Ok,
        r is Ok ==> {
            &&& r->Ok_0.program_text() == "java"@
            &&& r->Ok_0.arg_texts() == jar_args_of(core.path->0@, texts(args@))
            &&& r->Ok_0.env_texts() == encoding_env_of(platform)
        },
{
    let path = runnable_core_path(core)?;
    Ok(
        Invocation {
            program: String::from_str("java"),
            args: jar_args(&path, args),
            env: encoding_env(platform),
        },
    )
}

/// The command line that a detached terminal runs for the managed tool: the
/// runtime with the jar arguments, kept open by `pause` if it fails.
pub open spec fn terminal_command_of(core_path: Seq<char>, args: Seq<Seq<char>>) -> Seq<char> {
    "java "@ + joined(jar_args_of(core_path, args)) + " || pause"@
}

/// Runs the managed tool in a new terminal window that the caller waits on.
/// Only Windows has such a terminal.
pub fn terminal_invocation(core: &CoreStatus, args: &Vec<String>, platform: Platform) -> (r:
    Result<Invocation, LaunchError>)
    ensures
        !core.exists ==> r == Err::<Invocation, LaunchError>(LaunchError::CoreMissing),
        core.exists && core.path is None ==> r == Err::<Invocation, LaunchError>(
            LaunchError::CorePathUnknown,
        ),
        core.exists && core.path is Some && platform != Platform::Windows ==> r == Err::<
            Invocation,
            LaunchError,
        >(LaunchError::UnsupportedPlatform),
        core.exists && core.path is Some && platform == Platform::Windows <==> r is Ok,
        r is Ok ==> {
            &&& r->Ok_0.program_text() == "cmd.exe"@
            &&& r->Ok_0.arg_texts() == seq![
                "/c"@,
                "start"@,
                "/wait"@,
                "cmd.exe"@,
                "/c"@,
                terminal_command_of(core.path->0@, texts(args@)),
            ]
            &&& r->Ok_0.env_texts() == encoding_env_of(Platform::Windows)
        },
{
    let path = runnable_core_path(core)?;
    if platform != Platform::Windows {
        return Err(LaunchError::UnsupportedPlatform);
    }
    let words = jar_args(&path, args);
    let mut line = String::from_str("java ");
    let joined_words = join_words(&words);
    line.append(joined_words.as_str());
    line.append(" || pause");
    let mut argv: Vec<String> = Vec::new();
    argv.push(String::from_str("/c"));
    argv.push(String::from_str("start"));
    argv.push(String::from_str("/wait"));
    argv.push(String::from_str("cmd.exe"));
    argv.push(String::from_str("/c"));
    argv.push(line);
    let r = Invocation { program: String::from_str("cmd.exe"), args: argv, env: encoding_env(platform) };
    assert(r.arg_texts() =~= seq![
        "/c"@,
        "start"@,
        "/wait"@,
        "cmd.exe"@,
        "/c"@,
        terminal_command_of(path@, texts(args@)),
    ]);
    Ok(r)
}

/// Runs a command text through the platform shell: `cmd.exe /c` with the
/// UTF-8 code page on Windows, `sh -c` elsewhere.
pub fn shell_invocation(command: &String, platform: Platform) -> (r: Invocation)
    ensures
        platform == Platform::Windows ==> r.program_text() == "cmd.exe"@ && r.arg_texts() == seq![
            "/c"@,
            command@,
        ],
        platform != Platform::Windows ==> r.program_text() == "sh"@ && r.arg_texts() == seq![
            "-c"@,
            command@,
        ],
        r.env_texts() == encoding_env_of(platform),
{
    let mut argv: Vec<String> = Vec::new();
    let program = if platform == Platform::Windows {
        argv.push(String::from_str("/c"));
        String::from_str("cmd.exe")
    } else {
        argv.push(String::from_str("-c"));
        String::from_str("sh")
    };
    argv.push(command.clone());
    let r = Invocation { program, args: argv, env: encoding_env(platform) };
    if platform == Platform::Windows {
        assert(r.arg_texts() =~= seq!["/c"@, command@]);
    } else {
        assert(r.arg_texts() =~= seq!["-c"@, command@]);
    }
    r
}

/// Asks the runtime for its version.
pub fn java_version_invocation() -> (r: Invocation)
    ensures
        r.program_text() == "java"@,
        r.arg_texts() == seq!["-version"@],
        r.env_texts() == Seq::<(Seq<char>, Seq<char>)>::empty(),
{
    let mut argv: Vec<String> = Vec::new();
    argv.push(String::from_str("-version"));
    let r = Invocation { program: String::from_str("java"), args: argv, env: Vec::new() };
    assert(r.arg_texts() =~= seq!["-version"@]);
    assert(r.env_texts() =~= Seq::<(Seq<char>, Seq<char>)>::empty());
    r
}

} // verus!
