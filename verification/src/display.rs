//! What a deployment shows: progress lines, detailed logs, and the report
//! of errors at the end.
use vstd::prelude::*;

use crate::text::{
    chars_of, contains_seq, copy_str, find_seq, lemma_views_push, occurs_at, string_of, trim,
    trim_str, views,
};
use crate::types::{ConfigurationStatus, Verbosity};
use vstd::string::StringSliceAdditionalSpecFns;

verus! {

/// An error of one configuration, kept for the final report.
pub struct ErrorInfo {
    pub config_name: String,
    pub error: String,
    pub error_lines: Vec<String>,
}

/// How a progress bar ends, if it does.
#[derive(Debug, Clone, Copy, PartialEq, Eq, Structural)]
pub enum ProgressEnding {
    /// It keeps running.
    Running,
    /// It finishes successfully.
    Finished,
    /// It is abandoned after a failure.
    Abandoned,
}

/// A change of a progress bar: a new prefix, if any, its message, and
/// whether it ends.
pub struct ProgressUpdate {
    pub prefix: Option<String>,
    pub message: String,
    pub ending: ProgressEnding,
}

/// The message a progress bar shows for a status.
pub open spec fn progress_message(status: ConfigurationStatus) -> Seq<char> {
    match status {
        ConfigurationStatus::Started(_) => "Starting..."@,
        ConfigurationStatus::Evaluating => "Evaluating configuration..."@,
        ConfigurationStatus::Evaluated { .. } => "Configuration evaluated"@,
        ConfigurationStatus::Building => "Building derivation..."@,
        ConfigurationStatus::Built { .. } => "Derivation built"@,
        ConfigurationStatus::CopyingClosure => "Copying closure to target..."@,
        ConfigurationStatus::Activating => "Activating configuration..."@,
        ConfigurationStatus::Activated => "✓ Deployed successfully"@,
        ConfigurationStatus::Error { .. } => "✗ Failed"@,
    }
}

/// How a progress bar changes for a status: a start sets the prefix to
/// `[name]`; activation finishes the bar, an error abandons it.
pub fn progress_update(status: &ConfigurationStatus) -> (res: ProgressUpdate)
    ensures
        res.message@ == progress_message(*status),
        match *status {
            ConfigurationStatus::Started(name) => res.prefix matches Some(p) && p@ == "["@ + name@
                + "]"@,
            _ => res.prefix is None,
        },
        res.ending == match *status {
            ConfigurationStatus::Activated => ProgressEnding::Finished,
            ConfigurationStatus::Error { .. } => ProgressEnding::Abandoned,
            _ => ProgressEnding::Running,
        },
{
    match status {
        ConfigurationStatus::Started(name) => {
            let mut p = copy_str("[");
            p.append(name.as_str());
            p.append("]");
            ProgressUpdate {
                prefix: Some(p),
                message: copy_str("Starting..."),
                ending: ProgressEnding::Running,
            }
        },
        ConfigurationStatus::Evaluating => ProgressUpdate {
            prefix: None,
            message: copy_str("Evaluating configuration..."),
            ending: ProgressEnding::Running,
        },
        ConfigurationStatus::Evaluated { .. } => ProgressUpdate {
            prefix: None,
            message: copy_str("Configuration evaluated"),
            ending: ProgressEnding::Running,
        },
        ConfigurationStatus::Building => ProgressUpdate {
            prefix: None,
            message: copy_str("Building derivation..."),
            ending: ProgressEnding::Running,
        },
        ConfigurationStatus::Built { .. } => ProgressUpdate {
            prefix: None,
            message: copy_str("Derivation built"),
            ending: ProgressEnding::Running,
        },
        ConfigurationStatus::CopyingClosure => ProgressUpdate {
            prefix: None,
            message: copy_str("Copying closure to target..."),
            ending: ProgressEnding::Running,
        },
        ConfigurationStatus::Activating => ProgressUpdate {
            prefix: None,
            message: copy_str("Activating configuration..."),
            ending: ProgressEnding::Running,
        },
        ConfigurationStatus::Activated => ProgressUpdate {
            prefix: None,
            message: copy_str("✓ Deployed successfully"),
            ending: ProgressEnding::Finished,
        },
        ConfigurationStatus::Error { .. } => ProgressUpdate {
            prefix: None,
            message: copy_str("✗ Failed"),
            ending: ProgressEnding::Abandoned,
        },
    }
}

/// The level of a detailed log line.
#[derive(Debug, Clone, Copy, PartialEq, Eq, Structural)]
pub enum LogLevel {
    /// `INFO`, on standard output.
    Info,
    /// `ERROR`, on standard error.
    Error,
}

/// One detailed log line of a configuration, shown as
/// `[name] LEVEL: text`.
pub struct LogLine {
    pub level: LogLevel,
    pub text: String,
}

/// The level and text of a log line.
pub open spec fn log_view(l: LogLine) -> (LogLevel, Seq<char>) {
    (l.level, l.text@)
}

/// The detailed log lines for a status: one line of information for each
/// step; for an error, the error, then, when there are details, a heading
/// and each detail line.
pub open spec fn detailed_lines_of(status: ConfigurationStatus) -> Seq<(LogLevel, Seq<char>)> {
    match status {
        ConfigurationStatus::Started(_) => seq![(LogLevel::Info, "Starting deployment"@)],
        ConfigurationStatus::Evaluating => seq![
            (LogLevel::Info, "→ Evaluating configuration..."@),
        ],
        ConfigurationStatus::Evaluated { drv_path } => seq![
            (LogLevel::Info, "→ Configuration evaluated: "@ + drv_path@),
        ],
        ConfigurationStatus::Building => seq![(LogLevel::Info, "→ Building configuration..."@)],
        ConfigurationStatus::Built { result } => seq![
            (LogLevel::Info, "→ Configuration built: "@ + result@),
        ],
        ConfigurationStatus::CopyingClosure => seq![
            (LogLevel::Info, "→ Copying closure to target..."@),
        ],
        ConfigurationStatus::Activating => seq![
            (LogLevel::Info, "→ Activating configuration..."@),
        ],
        ConfigurationStatus::Activated => seq![
            (LogLevel::Info, "✓ Configuration deployed successfully"@),
        ],
        ConfigurationStatus::Error { error, error_lines } => if error_lines@.len() == 0 {
            seq![(LogLevel::Error, error@)]
        } else {
            seq![(LogLevel::Error, error@), (LogLevel::Error, "Error details:"@)]
                + error_lines@.map_values(|l: String| (LogLevel::Error, "│ "@ + l@))
        },
    }
}

/// One line of information.
fn info_line(text: &str) -> (res: Vec<LogLine>)
    ensures
        res@.map_values(|l: LogLine| log_view(l)) == seq![(LogLevel::Info, text@)],
{
    let mut v: Vec<LogLine> = Vec::new();
    v.push(LogLine { level: LogLevel::Info, text: copy_str(text) });
    assert(v@.map_values(|l: LogLine| log_view(l)) =~= seq![(LogLevel::Info, text@)]);
    v
}

/// One line of information: `prefix` followed by `detail`.
fn info_line_with(prefix: &str, detail: &String) -> (res: Vec<LogLine>)
    ensures
        res@.map_values(|l: LogLine| log_view(l)) == seq![(LogLevel::Info, prefix@ + detail@)],
{
    let mut t = copy_str(prefix);
    t.append(detail.as_str());
    let mut v: Vec<LogLine> = Vec::new();
    v.push(LogLine { level: LogLevel::Info, text: t });
    assert(v@.map_values(|l: LogLine| log_view(l)) =~= seq![
        (LogLevel::Info, prefix@ + detail@),
    ]);
    v
}

/// The detailed log lines for a status.
pub fn detailed_lines(status: &ConfigurationStatus) -> (res: Vec<LogLine>)
    ensures
        res@.map_values(|l: LogLine| log_view(l)) == detailed_lines_of(*status),
{
    match status {
        ConfigurationStatus::Started(_) => info_line("Starting deployment"),
        ConfigurationStatus::Evaluating => info_line("→ Evaluating configuration..."),
        ConfigurationStatus::Evaluated { drv_path } => info_line_with(
            "→ Configuration evaluated: ",
            drv_path,
        ),
        ConfigurationStatus::Building => info_line("→ Building configuration..."),
        ConfigurationStatus::Built { result } => info_line_with("→ Configuration built: ", result),
        ConfigurationStatus::CopyingClosure => info_line("→ Copying closure to target..."),
        ConfigurationStatus::Activating => info_line("→ Activating configuration..."),
        ConfigurationStatus::Activated => info_line("✓ Configuration deployed successfully"),
        ConfigurationStatus::Error { error, error_lines } => {
            let mut v: Vec<LogLine> = Vec::new();
            v.push(LogLine { level: LogLevel::Error, text: error.clone() });
            if error_lines.len() == 0 {
                assert(v@.map_values(|l: LogLine| log_view(l)) =~= detailed_lines_of(*status));
                return v;
            }
            v.push(LogLine { level: LogLevel::Error, text: copy_str("Error details:") });
            let ghost head = seq![(LogLevel::Error, error@), (LogLevel::Error, "Error details:"@)];
            let mut i: usize = 0;
            while i < error_lines.len()
                invariant
                    i <= error_lines@.len(),
                    v@.len() == 2 + i,
                    log_view(v@[0]) == head[0],
                    log_view(v@[1]) == head[1],
                    forall|k: int|
                        0 <= k < i ==> log_view(#[trigger] v@[2 + k]) == (
                            LogLevel::Error,
                            "│ "@ + error_lines@[k]@,
                        ),
                decreases error_lines@.len() - i,
            {
                let mut t = copy_str("│ ");
                t.append(error_lines[i].as_str());
                v.push(LogLine { level: LogLevel::Error, text: t });
                i = i + 1;
            }
            assert(v@.map_values(|l: LogLine| log_view(l)) =~= detailed_lines_of(*status)) by {
                assert forall|k: int| 2 <= k < v@.len() implies #[trigger] v@[k] == v@[2 + (k - 2)] by {}
            }
            v
        },
    }
}

/// The error a status reports, kept for the final report.
pub fn error_info(config_name: &str, status: &ConfigurationStatus) -> (res: Option<ErrorInfo>)
    ensures
        match *status {
            ConfigurationStatus::Error { error, error_lines } => res matches Some(info)
                && info.config_name@ == config_name@ && info.error == error && info.error_lines@
                == error_lines@,
            _ => res is None,
        },
{
    match status {
        ConfigurationStatus::Error { error, error_lines } => {
            let lines = error_lines.clone();
            assert(lines@ =~= error_lines@);
            Some(ErrorInfo { config_name: copy_str(config_name), error: error.clone(), error_lines: lines })
        },
        _ => None,
    }
}

/// A kept error, by configuration name, error and error lines.
pub open spec fn error_info_view(i: ErrorInfo) -> (Seq<char>, Seq<char>, Seq<Seq<char>>) {
    (i.config_name@, i.error@, views(i.error_lines@))
}

/// The kept errors, each by its view.
pub open spec fn error_infos_view(infos: Seq<ErrorInfo>) -> Seq<(Seq<char>, Seq<char>, Seq<Seq<char>>)> {
    infos.map_values(|i: ErrorInfo| error_info_view(i))
}

/// The errors kept for the final report from the statuses sent for
/// `config_name`, in the order they were sent: in progress mode, one for
/// each error status, with its error and error lines, and nothing for the
/// other statuses; in detailed mode none (errors are logged as they come).
pub open spec fn buffered_errors_of(
    verbosity: Verbosity,
    config_name: Seq<char>,
    statuses: Seq<ConfigurationStatus>,
) -> Seq<(Seq<char>, Seq<char>, Seq<Seq<char>>)>
    decreases statuses.len(),
{
    if statuses.len() == 0 {
        Seq::empty()
    } else {
        let rest = buffered_errors_of(verbosity, config_name, statuses.drop_last());
        match (verbosity, statuses.last()) {
            (Verbosity::Progress, ConfigurationStatus::Error { error, error_lines }) => rest.push(
                (config_name, error@, views(error_lines@)),
            ),
            _ => rest,
        }
    }
}

/// Keeps for the final report the error that `status` of `config_name`
/// reports, in progress mode; keeps nothing otherwise.
pub fn buffer_error(
    buffer: &mut Vec<ErrorInfo>,
    verbosity: Verbosity,
    config_name: &str,
    status: &ConfigurationStatus,
)
    ensures
        error_infos_view(final(buffer)@) == error_infos_view(old(buffer)@) + buffered_errors_of(
            verbosity,
            config_name@,
            seq![*status],
        ),
{
    proof {
        reveal_with_fuel(buffered_errors_of, 2);
        assert(seq![*status].drop_last() =~= Seq::<ConfigurationStatus>::empty());
    }
    match verbosity {
        Verbosity::Progress => match error_info(config_name, status) {
            Some(info) => {
                let ghost before = buffer@;
                buffer.push(info);
                assert(error_infos_view(buffer@) =~= error_infos_view(before).push(
                    error_info_view(info),
                ));
            },
            None => {
                assert(error_infos_view(buffer@) =~= error_infos_view(buffer@) + Seq::empty());
            },
        },
        Verbosity::Detailed => {
            assert(error_infos_view(buffer@) =~= error_infos_view(buffer@) + Seq::empty());
        },
    }
}

/// The errors reported at the end follow the order the statuses were sent
/// in: those kept from statuses `a` and then `b` are those kept from `a`
/// followed by those kept from `b`. So keeping each sent status in turn,
/// starting from none, keeps exactly `buffered_errors_of` all of them.
pub proof fn lemma_buffered_errors_follow_send_order(
    verbosity: Verbosity,
    config_name: Seq<char>,
    a: Seq<ConfigurationStatus>,
    b: Seq<ConfigurationStatus>,
)
    ensures
        buffered_errors_of(verbosity, config_name, a + b) == buffered_errors_of(
            verbosity,
            config_name,
            a,
        ) + buffered_errors_of(verbosity, config_name, b),
    decreases b.len(),
{
    if b.len() == 0 {
        assert(a + b =~= a);
        assert(buffered_errors_of(verbosity, config_name, a) + Seq::empty() =~= buffered_errors_of(
            verbosity,
            config_name,
            a,
        ));
    } else {
        lemma_buffered_errors_follow_send_order(verbosity, config_name, a, b.drop_last());
        assert((a + b).drop_last() =~= a + b.drop_last());
        assert((a + b).last() == b.last());
        let x = buffered_errors_of(verbosity, config_name, a);
        let y = buffered_errors_of(verbosity, config_name, b.drop_last());
        match (verbosity, b.last()) {
            (Verbosity::Progress, ConfigurationStatus::Error { error, error_lines }) => {
                let e = (config_name, error@, views(error_lines@));
                assert((x + y).push(e) =~= x + y.push(e));
            },
            _ => {},
        }
    }
}

/// In detailed mode no error is kept for the end: every status, errors
/// included, is logged as it comes.
pub proof fn lemma_detailed_mode_keeps_nothing(
    config_name: Seq<char>,
    statuses: Seq<ConfigurationStatus>,
)
    ensures
        buffered_errors_of(Verbosity::Detailed, config_name, statuses).len() == 0,
    decreases statuses.len(),
{
    if statuses.len() > 0 {
        lemma_detailed_mode_keeps_nothing(config_name, statuses.drop_last());
    }
}

/// A status, by its kind and contents.
pub open spec fn status_view(s: ConfigurationStatus) -> (nat, Seq<char>, Seq<Seq<char>>) {
    match s {
        ConfigurationStatus::Started(n) => (0, n@, Seq::empty()),
        ConfigurationStatus::Evaluating => (1, Seq::empty(), Seq::empty()),
        ConfigurationStatus::Evaluated { drv_path } => (2, drv_path@, Seq::empty()),
        ConfigurationStatus::Building => (3, Seq::empty(), Seq::empty()),
        ConfigurationStatus::Built { result } => (4, result@, Seq::empty()),
        ConfigurationStatus::CopyingClosure => (5, Seq::empty(), Seq::empty()),
        ConfigurationStatus::Activating => (6, Seq::empty(), Seq::empty()),
        ConfigurationStatus::Activated => (7, Seq::empty(), Seq::empty()),
        ConfigurationStatus::Error { error, error_lines } => (8, error@, views(error_lines@)),
    }
}

/// Whether two lists of strings read the same.
fn same_strings(a: &Vec<String>, b: &Vec<String>) -> (res: bool)
    ensures
        res == (views(a@) == views(b@)),
{
    if a.len() != b.len() {
        assert(views(a@).len() != views(b@).len());
        return false;
    }
    let mut i: usize = 0;
    while i < a.len()
        invariant
            a@.len() == b@.len(),
            i <= a@.len(),
            forall|k: int| 0 <= k < i ==> #[trigger] a@[k]@ == b@[k]@,
        decreases a@.len() - i,
    {
        if !a[i].eq(&b[i]) {
            assert(views(a@)[i as int] != views(b@)[i as int]);
            return false;
        }
        i = i + 1;
    }
    assert(views(a@) =~= views(b@));
    true
}

/// Whether two statuses are the same.
fn same_status(a: &ConfigurationStatus, b: &ConfigurationStatus) -> (res: bool)
    ensures
        res == (status_view(*a) == status_view(*b)),
{
    match (a, b) {
        (ConfigurationStatus::Started(x), ConfigurationStatus::Started(y)) => x.eq(y),
        (ConfigurationStatus::Evaluating, ConfigurationStatus::Evaluating) => true,
        (ConfigurationStatus::Evaluated { drv_path: x }, ConfigurationStatus::Evaluated { drv_path: y }) => x.eq(y),
        (ConfigurationStatus::Building, ConfigurationStatus::Building) => true,
        (ConfigurationStatus::Built { result: x }, ConfigurationStatus::Built { result: y }) => x.eq(y),
        (ConfigurationStatus::CopyingClosure, ConfigurationStatus::CopyingClosure) => true,
        (ConfigurationStatus::Activating, ConfigurationStatus::Activating) => true,
        (ConfigurationStatus::Activated, ConfigurationStatus::Activated) => true,
        (
            ConfigurationStatus::Error { error: e1, error_lines: l1 },
            ConfigurationStatus::Error { error: e2, error_lines: l2 },
        ) => e1.eq(e2) && same_strings(l1, l2),
        _ => false,
    }
}

/// Whether a progress bar must show `status`: when it differs from the last
/// status it showed, or when it showed none yet.
pub open spec fn must_show(last: Option<ConfigurationStatus>, status: ConfigurationStatus) -> bool {
    match last {
        Some(l) => status_view(l) != status_view(status),
        None => true,
    }
}

/// Whether a progress bar must show `status`.
pub fn status_changed(last: &Option<ConfigurationStatus>, status: &ConfigurationStatus) -> (res: bool)
    ensures
        res == must_show(*last, *status),
{
    match last {
        Some(l) => !same_status(l, status),
        None => true,
    }
}

/// A status that a progress bar just showed is not shown again, and a
/// different one is.
pub proof fn lemma_repeated_status_not_shown(last: ConfigurationStatus, status: ConfigurationStatus)
    ensures
        !must_show(Some(status), status),
        status_view(last) != status_view(status) ==> must_show(Some(last), status),
{
}

#[verifier::opaque]
/// A line of error detail without a leading host tag: when it starts with
/// `[`, what follows the first `] `; otherwise the line itself.
pub open spec fn without_host_tag(line: Seq<char>) -> Seq<char> {
    if line.len() > 0 && line[0] == '[' && contains_seq(line, "] "@) {
        let pos = choose|i: int|
            occurs_at(line, "] "@, i) && forall|j: int| 0 <= j < i ==> !occurs_at(line, "] "@, j);
        line.skip(pos + 2)
    } else {
        line
    }
}

/// What follows the first occurrence of `marker` in `text`.
#[verifier::opaque]
pub open spec fn after_first(text: Seq<char>, marker: Seq<char>) -> Seq<char> {
    let pos = choose|i: int|
        occurs_at(text, marker, i) && forall|j: int| 0 <= j < i ==> !occurs_at(text, marker, j);
    text.skip(pos + marker.len())
}

/// The most useful lines of an error: its detail lines without host tags
/// when there are any; else, for a failed `nix-build` or a failed command,
/// what the error says after saying so; else the error itself.
pub open spec fn useful_error_of(main_error: Seq<char>, error_lines: Seq<Seq<char>>) -> Seq<
    Seq<char>,
> {
    if error_lines.len() > 0 {
        error_lines.map_values(|l: Seq<char>| without_host_tag(l))
    } else if contains_seq(main_error, "nix-build failed:"@) {
        seq![trim(after_first(main_error, "nix-build failed:"@))]
    } else if contains_seq(main_error, "Command execution failed:"@) {
        seq!["Command failed: "@ + trim(after_first(main_error, "Command execution failed:"@))]
    } else {
        seq![main_error]
    }
}

/// The first occurrence found is the one the specification names.
proof fn lemma_first_occurrence(text: Seq<char>, marker: Seq<char>, pos: int)
    requires
        occurs_at(text, marker, pos),
        forall|j: int| 0 <= j < pos ==> !#[trigger] occurs_at(text, marker, j),
    ensures
        (choose|i: int|
            occurs_at(text, marker, i) && forall|j: int| 0 <= j < i ==> !occurs_at(text, marker, j))
            == pos,
{
    let c = choose|i: int|
        occurs_at(text, marker, i) && forall|j: int| 0 <= j < i ==> !occurs_at(text, marker, j);
    assert(occurs_at(text, marker, c) && forall|j: int| 0 <= j < c ==> !occurs_at(text, marker, j));
    if c < pos {
        assert(!occurs_at(text, marker, c));
    }
    if pos < c {
        assert(!occurs_at(text, marker, pos));
    }
}

/// A line of error detail without a leading host tag.
fn strip_host_tag(line: &String) -> (res: String)
    ensures
        res@ == without_host_tag(line@),
{
    let chars = chars_of(line.as_str());
    let n = chars.len();
    let marker = chars_of("] ");
    proof {
        reveal_strlit("] ");
        reveal(without_host_tag);
    }
    match find_seq(&chars, &marker) {
        Some(pos) => {
            assert(marker@.len() == 2);
            assert(occurs_at(chars@, marker@, pos as int));
            if chars[0] == '[' {
                proof {
                    lemma_first_occurrence(line@, "] "@, pos as int);
                }
                assert(chars@.subrange(pos as int + 2, chars@.len() as int) =~= line@.skip(pos + 2));
                string_of(&chars, pos + 2, n)
            } else {
                line.clone()
            }
        },
        None => {
            line.clone()
        },
    }
}

/// What follows the first occurrence of `marker`, trimmed, if it occurs.
fn trimmed_after(text: &str, marker: &str) -> (res: Option<String>)
    ensures
        contains_seq(text@, marker@) ==> (res matches Some(s) && s@ == trim(after_first(text@, marker@))),
        !contains_seq(text@, marker@) ==> res is None,
{
    let chars = chars_of(text);
    let n = chars.len();
    let m = chars_of(marker);
    proof {
        reveal(after_first);
    }
    match find_seq(&chars, &m) {
        Some(pos) => {
            assert(occurs_at(chars@, m@, pos as int));
            proof {
                lemma_first_occurrence(text@, marker@, pos as int);
            }
            let rest = string_of(&chars, pos + m.len(), n);
            assert(rest@ =~= after_first(text@, marker@));
            Some(trim_str(rest.as_str()))
        },
        None => None,
    }
}

/// Detail lines without their host tags.
fn strip_host_tags(error_lines: &Vec<String>) -> (res: Vec<String>)
    ensures
        views(res@) == views(error_lines@).map_values(|l: Seq<char>| without_host_tag(l)),
{
    let mut res: Vec<String> = Vec::new();
    let mut i: usize = 0;
    while i < error_lines.len()
        invariant
            i <= error_lines@.len(),
            res@.len() == i,
            forall|k: int|
                0 <= k < i ==> (#[trigger] res@[k])@ == without_host_tag(error_lines@[k]@),
        decreases error_lines@.len() - i,
    {
        let s = strip_host_tag(&error_lines[i]);
        res.push(s);
        i = i + 1;
    }
    assert(views(res@) =~= views(error_lines@).map_values(|l: Seq<char>| without_host_tag(l)));
    res
}

/// The most useful lines of an error.
pub fn extract_useful_error(main_error: &str, error_lines: &Vec<String>) -> (res: Vec<String>)
    ensures
        views(res@) == useful_error_of(main_error@, views(error_lines@)),
{
    if error_lines.len() > 0 {
        let res = strip_host_tags(error_lines);
        return res;
    }
    let mut res: Vec<String> = Vec::new();
    match trimmed_after(main_error, "nix-build failed:") {
        Some(s) => {
            res.push(s);
            assert(views(res@) =~= useful_error_of(main_error@, views(error_lines@)));
            return res;
        },
        None => {},
    }
    match trimmed_after(main_error, "Command execution failed:") {
        Some(s) => {
            let mut t = copy_str("Command failed: ");
            t.append(s.as_str());
            res.push(t);
            assert(views(res@) =~= useful_error_of(main_error@, views(error_lines@)));
            return res;
        },
        None => {},
    }
    res.push(copy_str(main_error));
    assert(views(res@) =~= useful_error_of(main_error@, views(error_lines@)));
    res
}

/// The lines reported for one failed configuration: its most useful error
/// lines that are not blank.
pub open spec fn report_lines_of(info: ErrorInfo) -> Seq<Seq<char>> {
    useful_error_of(info.error@, views(info.error_lines@)).filter(|l: Seq<char>| trim(l).len() > 0)
}

/// The lines reported for one failed configuration.
pub fn report_lines(info: &ErrorInfo) -> (res: Vec<String>)
    ensures
        views(res@) == report_lines_of(*info),
{
    let useful = extract_useful_error(info.error.as_str(), &info.error_lines);
    let ghost all = views(useful@);
    let mut res: Vec<String> = Vec::new();
    let mut i: usize = 0;
    while i < useful.len()
        invariant
            i <= useful@.len(),
            all == views(useful@),
            views(res@) == all.take(i as int).filter(|l: Seq<char>| trim(l).len() > 0),
        decreases useful@.len() - i,
    {
        let t = trim_str(useful[i].as_str());
        proof {
            reveal(Seq::filter);
            assert(all.take(i + 1).drop_last() =~= all.take(i as int));
        }
        if !t.as_str().is_empty() {
            let l = useful[i].clone();
            proof {
                lemma_views_push(res@, l);
            }
            res.push(l);
        }
        i = i + 1;
    }
    assert(all.take(useful@.len() as int) =~= all);
    res
}

/// A path shortened to at most `max_len` bytes: the path itself when it
/// fits, else `...` and its last `max_len - 3` bytes.
pub fn truncate_path(path: &str, max_len: usize) -> (res: String)
    requires
        path.len() > max_len ==> max_len >= 3 && vstd::utf8::is_char_boundary(
            path.spec_bytes(),
            path.len() - (max_len - 3),
        ),
    ensures
        path.len() <= max_len ==> res@ == path@,
        path.len() > max_len ==> res@.take(3) == "..."@ && vstd::utf8::encode_utf8(res@.skip(3))
            == path.spec_bytes().subrange(
            path.len() - (max_len - 3),
            path.spec_bytes().len() as int,
        ),
{
    let n = path.len();
    if n <= max_len {
        copy_str(path)
    } else {
        let (_, tail) = path.split_at(n - (max_len - 3));
        let mut s = copy_str("...");
        s.append(tail);
        proof {
            reveal_strlit("...");
            assert(s@.take(3) =~= "..."@);
            assert(s@.skip(3) =~= tail@);
        }
        s
    }
}

} // verus!
