use vstd::prelude::*;

use crate::platform::Platform;
use crate::text::{decode_output, decoded_text};

verus! {

/// The outcome of one process execution.
#[derive(Clone, Debug)]
pub struct CommandResult {
    pub success: bool,
    pub output: String,
    pub error: Option<String>,
}

/// The mathematical value of a `CommandResult`.
pub struct OutcomeView {
    pub success: bool,
    pub output: Seq<char>,
    pub error: Option<Seq<char>>,
}

impl View for CommandResult {
    type V = OutcomeView;

    open spec fn view(&self) -> OutcomeView {
        OutcomeView {
            success: self.success,
            output: self.output@,
            error: match self.error {
                Some(e) => Some(e@),
                None => None,
            },
        }
    }
}

impl CommandResult {
    /// An error text is present exactly when the execution failed.
    pub open spec fn wf(&self) -> bool {
        self.error is Some <==> !self.success
    }
}

/// The text reported when a process wrote nothing to either stream.
pub open spec fn completion_text() -> Seq<char> {
    "命令执行完成"@
}

/// The text reported when a detached terminal session ended successfully.
pub open spec fn session_done_text() -> Seq<char> {
    "登录过程已完成。"@
}

/// The reported output: standard output when it is non-empty, else standard
/// error when that is non-empty, else the completion text.
pub open spec fn selected_output(out: Seq<char>, err: Seq<char>) -> Seq<char> {
    if out.len() > 0 {
        out
    } else if err.len() > 0 {
        err
    } else {
        completion_text()
    }
}

/// The result of a process that wrote `out` and `err` and ended with the given
/// success status.
pub open spec fn outcome_of(out: Seq<char>, err: Seq<char>, success: bool) -> OutcomeView {
    OutcomeView {
        success,
        output: selected_output(out, err),
        error: if success { None } else { Some(err) },
    }
}

/// Reduces the decoded streams of a finished process into its result.
pub fn reduce_output(stdout: String, stderr: String, success: bool) -> (r: CommandResult)
    ensures
        r@ == outcome_of(stdout@, stderr@, success),
        r.wf(),
{
    let output = if stdout.unicode_len() > 0 {
        stdout
    } else if stderr.unicode_len() > 0 {
        stderr.clone()
    } else {
        String::from_str("命令执行完成")
    };
    let error = if success { None } else { Some(stderr) };
    CommandResult { success, output, error }
}

/// Decodes the captured stdout and stderr bytes of a finished process and
/// reduces them into its result.
pub fn command_result(stdout: &Vec<u8>, stderr: &Vec<u8>, success: bool, platform: Platform) -> (r:
    CommandResult)
    ensures
        r@ == outcome_of(decoded_text(stdout@, platform), decoded_text(stderr@, platform), success),
        r.wf(),
{
    let out = decode_output(stdout, platform);
    let err = decode_output(stderr, platform);
    reduce_output(out, err, success)
}

/// The character of a decimal digit.
pub open spec fn digit_char(d: nat) -> char {
    if d == 0 {
        '0'
    } else if d == 1 {
        '1'
    } else if d == 2 {
        '2'
    } else if d == 3 {
        '3'
    } else if d == 4 {
        '4'
    } else if d == 5 {
        '5'
    } else if d == 6 {
        '6'
    } else if d == 7 {
        '7'
    } else if d == 8 {
        '8'
    } else {
        '9'
    }
}

/// The decimal text of a natural number, without leading zeros.
pub open spec fn nat_text(n: nat) -> Seq<char>
    decreases n,
{
    if n < 10 {
        seq![digit_char(n)]
    } else {
        nat_text(n / 10).push(digit_char(n % 10))
    }
}

/// The decimal text of an integer, with a leading `-` when negative.
pub open spec fn int_text(n: int) -> Seq<char> {
    if n < 0 {
        seq!['-'] + nat_text((-n) as nat)
    } else {
        nat_text(n as nat)
    }
}

/// How an exit code is shown: `Some(<code>)`, or `None` when the process
/// had no exit code.
pub open spec fn exit_code_text(code: Option<i32>) -> Seq<char> {
    match code {
        Some(k) => "Some("@ + int_text(k as int) + ")"@,
        None => "None"@,
    }
}

/// The error text of a detached terminal session that ended unsuccessfully.
pub open spec fn session_failed_text(code: Option<i32>) -> Seq<char> {
    "登录过程失败，退出码: "@ + exit_code_text(code)
}

fn append_digit(out: &mut String, d: u64)
    requires
        d < 10,
    ensures
        final(out)@ == old(out)@.push(digit_char(d as nat)),
{
    proof {
        reveal_strlit("0");
        reveal_strlit("1");
        reveal_strlit("2");
        reveal_strlit("3");
        reveal_strlit("4");
        reveal_strlit("5");
        reveal_strlit("6");
        reveal_strlit("7");
        reveal_strlit("8");
        reveal_strlit("9");
    }
    let t = if d == 0 {
        "0"
    } else if d == 1 {
        "1"
    } else if d == 2 {
        "2"
    } else if d == 3 {
        "3"
    } else if d == 4 {
        "4"
    } else if d == 5 {
        "5"
    } else if d == 6 {
        "6"
    } else if d == 7 {
        "7"
    } else if d == 8 {
        "8"
    } else {
        "9"
    };
    assert(t@ =~= seq![digit_char(d as nat)]);
    out.append(t);
    assert(out@ =~= old(out)@.push(digit_char(d as nat)));
}

fn append_nat(out: &mut String, n: u64)
    ensures
        final(out)@ == old(out)@ + nat_text(n as nat),
    decreases n,
{
    if n >= 10 {
        append_nat(out, n / 10);
    }
    append_digit(out, n % 10);
    assert(out@ =~= old(out)@ + nat_text(n as nat));
}

/// Appends the decimal text of `k`.
fn append_int(out: &mut String, k: i32)
    ensures
        final(out)@ == old(out)@ + int_text(k as int),
{
    if k < 0 {
        out.append("-");
        proof {
            reveal_strlit("-");
        }
        let m: u64 = (0i64 - k as i64) as u64;
        append_nat(out, m);
        assert(out@ =~= old(out)@ + int_text(k as int));
    } else {
        append_nat(out, k as u64);
    }
}

/// The result of a detached terminal session, decided by the terminal's own
/// exit status alone: nothing is captured from it. An unsuccessful exit is a
/// failed result whose error text names the exit code.
pub fn terminal_result(exit_success: bool, exit_code: Option<i32>) -> (r: CommandResult)
    ensures
        exit_success ==> r@ == (OutcomeView {
            success: true,
            output: session_done_text(),
            error: None,
        }),
        !exit_success ==> r@ == outcome_of(
            Seq::<char>::empty(),
            session_failed_text(exit_code),
            false,
        ),
        r.success == exit_success,
        r.wf(),
{
    if exit_success {
        return CommandResult {
            success: true,
            output: String::from_str("登录过程已完成。"),
            error: None,
        };
    }
    let mut text = String::from_str("登录过程失败，退出码: ");
    match exit_code {
        Some(k) => {
            text.append("Some(");
            append_int(&mut text, k);
            text.append(")");
        },
        None => {
            text.append("None");
        },
    }
    assert(text@ =~= session_failed_text(exit_code));
    reduce_output(String::new(), text, false)
}

/// Every result reduced from process streams carries an error text exactly
/// when the execution failed.
pub proof fn lemma_error_iff_failure(out: Seq<char>, err: Seq<char>, success: bool)
    ensures
        outcome_of(out, err, success).error is Some <==> !outcome_of(out, err, success).success,
{
}

/// When a process wrote nothing to either stream, its reported output is the
/// completion text, whatever the platform and the exit status.
pub proof fn lemma_empty_streams_report_completion(
    stdout: Seq<u8>,
    stderr: Seq<u8>,
    success: bool,
    platform: Platform,
)
    requires
        stdout.len() == 0,
        stderr.len() == 0,
    ensures
        outcome_of(decoded_text(stdout, platform), decoded_text(stderr, platform), success).output
            == completion_text(),
{
    assert(vstd::utf8::valid_utf8(stdout));
    assert(vstd::utf8::valid_utf8(stderr));
    assert(vstd::utf8::decode_utf8(stdout).len() == 0);
    assert(vstd::utf8::decode_utf8(stderr).len() == 0);
}

} // verus!
