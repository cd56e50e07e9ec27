//! Process-execution and download core of a desktop launcher: decoding of
//! process output, reduction of captured streams into a command result,
//! construction of invocations, runtime version detection, locating the
//! managed tool artifact, feeding piped standard input, and progress
//! bookkeeping for chunked downloads.

mod download;
mod error;
mod invocation;
mod locate;
mod outcome;
mod platform;
mod session;
mod text;
mod version;

pub use download::{
    begin_download, lemma_progress_monotone_and_complete, total_len, DownloadSession,
    ProgressEvent,
};
pub use error::LaunchError;
pub use invocation::{
    encoding_env, encoding_env_of, jar_args, jar_args_of, java_version_invocation, join_words,
    joined, lines_payload, pair_texts, shell_invocation, stdin_payload, terminal_command_of,
    terminal_invocation, texts, tool_invocation, Invocation,
};
pub use locate::{
    core_dir_segments, core_dir_segments_of, core_file_name, core_file_name_of, core_status,
    setup_marker_segments, setup_marker_segments_of, CoreStatus,
};
pub use outcome::{
    command_result, completion_text, digit_char, exit_code_text, int_text, nat_text, lemma_empty_streams_report_completion,
    lemma_error_iff_failure, outcome_of, reduce_output, selected_output, session_done_text, session_failed_text,
    terminal_result, CommandResult, OutcomeView,
};
pub use platform::Platform;
pub use session::{lemma_closed_input_received_all_lines, PipedSession, PipedStep};
pub use text::{decode_output, decoded_text, gbk_text, lossy_text, GBK_MAX_INPUT};
pub use version::{
    all_digits, decimal_u32, digits_value, first_component, first_index_from, first_line,
    is_digit, java_check_from_stderr, java_check_of, java_major_version, major_of,
    parse_decimal_u32, parse_java_version, quoted_token, second_component, unsigned_digits,
    JavaCheckResult, LEGACY_DEFAULT_MAJOR, MIN_JAVA_MAJOR,
};
