//! The dashboard's state: the bounded log stream, the errors grouped by
//! message, the request and error counters, and the keyboard and mouse
//! navigation between its three tabs.

use vstd::prelude::*;
use crate::text::{
    chars_of, decimal, first_chars, has_sub, has_text, owned, push_chars, push_decimal, push_text, string_from_chars,
};
use crate::clock::{is_time_of_day_text, time_of_day};

verus! {

/// How many log lines the dashboard keeps.
pub const MAX_LOGS: usize = 1000;

/// How many one-second request counts the traffic history keeps.
pub const HISTORY_LEN: usize = 60;

/// How many characters of an error line make its group key.
pub const ERROR_KEY_LEN: usize = 500;

/// How many tabs the dashboard has (logs, analytics, errors).
pub const TAB_COUNT: usize = 3;

/// The level a streamed log line is shown with.
#[derive(Clone, Copy, Debug, PartialEq, Eq, Structural)]
pub enum LineLevel {
    Info,
    Warn,
    Error,
    Debug,
}

/// One streamed log line.
#[derive(Clone, Debug)]
pub struct LogLine {
    pub service: String,
    pub message: String,
    pub level: LineLevel,
    pub timestamp: String,
}

/// All occurrences of one error message.
#[derive(Clone, Debug)]
pub struct GroupedError {
    pub message: String,
    pub count: u32,
    pub service: String,
    pub last_seen: String,
}

/// A key of the keyboard, as the dashboard distinguishes them.
#[derive(Clone, Copy, Debug, PartialEq, Eq, Structural)]
pub enum Key {
    Char(char),
    Tab,
    Up,
    Down,
    Enter,
    Esc,
    Other,
}

/// What the caller is to do after a key.
#[derive(Clone, Debug)]
pub enum KeyOutcome {
    /// Nothing more.
    Continue,
    /// Leave the dashboard.
    Quit,
    /// Put this text on the clipboard.
    Copy(String),
    /// Open the web interface.
    OpenUi,
}

/// The dashboard's state.
pub struct Dashboard {
    pub logs: std::collections::VecDeque<LogLine>,
    pub max_logs: usize,
    pub grouped_errors: Vec<GroupedError>,
    pub total_requests: u64,
    pub errors_count: u64,
    pub last_error: Option<String>,
    pub tick_requests: u64,
    pub history: std::collections::VecDeque<u64>,
    pub selected_tab: usize,
    pub log_selected: Option<usize>,
    pub error_selected: Option<usize>,
    pub show_details: bool,
    pub should_quit: bool,
}

// ---------------------------------------------------------------------------
// Views
// ---------------------------------------------------------------------------

/// A log line as values.
pub struct LogLineView {
    pub service: Seq<char>,
    pub message: Seq<char>,
    pub level: LineLevel,
    pub timestamp: Seq<char>,
}

/// An error group as values.
pub struct GroupView {
    pub message: Seq<char>,
    pub count: nat,
    pub service: Seq<char>,
    pub last_seen: Seq<char>,
}

/// The dashboard as values.
#[verifier::ext_equal]
pub struct DashboardView {
    pub logs: Seq<LogLineView>,
    pub max_logs: nat,
    pub groups: Seq<GroupView>,
    pub total_requests: nat,
    pub errors_count: nat,
    pub last_error: Option<Seq<char>>,
    pub tick_requests: nat,
    pub history: Seq<u64>,
    pub selected_tab: nat,
    pub log_selected: Option<nat>,
    pub error_selected: Option<nat>,
    pub show_details: bool,
    pub should_quit: bool,
}

impl View for LogLine {
    type V = LogLineView;

    open spec fn view(&self) -> LogLineView {
        LogLineView {
            service: self.service@,
            message: self.message@,
            level: self.level,
            timestamp: self.timestamp@,
        }
    }
}

impl View for GroupedError {
    type V = GroupView;

    open spec fn view(&self) -> GroupView {
        GroupView {
            message: self.message@,
            count: self.count as nat,
            service: self.service@,
            last_seen: self.last_seen@,
        }
    }
}

/// An optional index as a natural number.
pub open spec fn opt_nat(o: Option<usize>) -> Option<nat> {
    match o {
        Some(i) => Some(i as nat),
        None => None,
    }
}

impl View for Dashboard {
    type V = DashboardView;

    open spec fn view(&self) -> DashboardView {
        DashboardView {
            logs: self.logs@.map_values(|l: LogLine| l@),
            max_logs: self.max_logs as nat,
            groups: self.grouped_errors@.map_values(|g: GroupedError| g@),
            total_requests: self.total_requests as nat,
            errors_count: self.errors_count as nat,
            last_error: match self.last_error {
                Some(s) => Some(s@),
                None => None,
            },
            tick_requests: self.tick_requests as nat,
            history: self.history@,
            selected_tab: self.selected_tab as nat,
            log_selected: opt_nat(self.log_selected),
            error_selected: opt_nat(self.error_selected),
            show_details: self.show_details,
            should_quit: self.should_quit,
        }
    }
}

// ---------------------------------------------------------------------------
// Classification of lines
// ---------------------------------------------------------------------------

/// A dashboard line reports an error: it names an error, a failure, a
/// JavaScript exception, an uncaught error, or looks like a stack frame.
pub open spec fn is_error_line(l: Seq<char>) -> bool {
    has_text(l, "ERROR"@) || has_text(l, "Error:"@) || has_text(l, "fail"@) || has_text(l, "TypeError"@)
        || has_text(l, "ReferenceError"@) || (has_text(l, "at "@) && has_text(l, ":"@)) || has_text(
        l,
        "uncaught"@,
    )
}

/// The level the dashboard shows a line with.
pub open spec fn line_level(l: Seq<char>) -> LineLevel {
    if is_error_line(l) {
        LineLevel::Error
    } else if has_text(l, "WARN"@) || has_text(l, "Warning"@) {
        LineLevel::Warn
    } else if has_text(l, "DEBUG"@) {
        LineLevel::Debug
    } else {
        LineLevel::Info
    }
}

/// A dashboard line records a request.
pub open spec fn is_request_line(l: Seq<char>) -> bool {
    has_text(l, "GET "@) || has_text(l, "POST "@) || has_text(l, "HTTP"@) || has_text(l, "PATCH"@) || has_text(
        l,
        "DELETE"@,
    )
}

/// Newlines turned into spaces.
pub open spec fn flatten_newlines(l: Seq<char>) -> Seq<char> {
    l.map_values(|c: char| if c == '\n' { ' ' } else { c })
}

/// The key under which the dashboard groups an error line.
pub open spec fn error_key(l: Seq<char>) -> Seq<char> {
    first_chars(flatten_newlines(l), ERROR_KEY_LEN as nat)
}

/// A window line reports an error.
pub open spec fn is_window_error_line(l: Seq<char>) -> bool {
    has_text(l, "ERROR"@) || has_text(l, "Error:"@) || has_text(l, "fail"@)
}

/// The level the window shows a line with.
pub open spec fn window_line_level(l: Seq<char>) -> LineLevel {
    if is_window_error_line(l) {
        LineLevel::Error
    } else if has_text(l, "WARN"@) {
        LineLevel::Warn
    } else if has_text(l, "DEBUG"@) {
        LineLevel::Debug
    } else {
        LineLevel::Info
    }
}

/// A window line records a request.
pub open spec fn is_window_request_line(l: Seq<char>) -> bool {
    has_text(l, "GET "@) || has_text(l, "POST "@) || has_text(l, "HTTP"@)
}

/// The key under which the window groups an error line.
pub open spec fn window_error_key(l: Seq<char>) -> Seq<char> {
    first_chars(l, ERROR_KEY_LEN as nat)
}

/// The level of a line a service wrote on its error stream.
pub open spec fn stderr_level(l: Seq<char>) -> LineLevel {
    if has_text(l, "ERROR"@) || has_text(l, "Error"@) {
        LineLevel::Error
    } else if has_text(l, "WARN"@) {
        LineLevel::Warn
    } else {
        LineLevel::Debug
    }
}

// ---------------------------------------------------------------------------
// State transitions as values
// ---------------------------------------------------------------------------

/// The sum of the counts of the groups.
pub open spec fn sum_counts(gs: Seq<GroupView>) -> nat
    decreases gs.len(),
{
    if gs.len() == 0 {
        0
    } else {
        sum_counts(gs.drop_last()) + gs.last().count
    }
}

/// No two groups share a message.
pub open spec fn keys_distinct(gs: Seq<GroupView>) -> bool {
    forall|i: int, j: int| 0 <= i < gs.len() && 0 <= j < gs.len() && i != j ==> gs[i].message != gs[j].message
}

/// A group with this message exists.
pub open spec fn has_group(gs: Seq<GroupView>, key: Seq<char>) -> bool {
    exists|i: int| 0 <= i < gs.len() && #[trigger] gs[i].message == key
}

/// The groups after one more occurrence of `key`, seen at `now` in `service`:
/// the existing group counts it and records the time, or a new group starts.
pub open spec fn record_error(gs: Seq<GroupView>, key: Seq<char>, service: Seq<char>, now: Seq<char>) -> Seq<GroupView> {
    if has_group(gs, key) {
        let i = choose|i: int| 0 <= i < gs.len() && #[trigger] gs[i].message == key;
        gs.update(i, GroupView { count: gs[i].count + 1, last_seen: now, ..gs[i] })
    } else {
        gs.push(GroupView { message: key, count: 1, service, last_seen: now })
    }
}

/// The log stream after one more line, the oldest line dropped when full.
pub open spec fn push_bounded(logs: Seq<LogLineView>, line: LogLineView, max: nat) -> Seq<LogLineView> {
    if logs.len() >= max {
        logs.drop_first().push(line)
    } else {
        logs.push(line)
    }
}

/// The well-formed dashboards: the stream within its bound, one group per
/// message, the error counter equal to the sum of the group counts, the
/// history of its fixed length and a tab that exists.
pub open spec fn dashboard_wf(v: DashboardView) -> bool {
    &&& 0 < v.max_logs
    &&& v.logs.len() <= v.max_logs
    &&& keys_distinct(v.groups)
    &&& v.errors_count == sum_counts(v.groups)
    &&& v.history.len() == HISTORY_LEN
    &&& v.selected_tab < TAB_COUNT
}

/// The counters can take one more line without overflowing.
pub open spec fn can_take_line(v: DashboardView, is_error: bool, key: Seq<char>, is_request: bool) -> bool {
    &&& is_error ==> v.errors_count < u64::MAX
    &&& is_error ==> forall|i: int| 0 <= i < v.groups.len() && #[trigger] v.groups[i].message == key ==> v.groups[i].count < u32::MAX
    &&& is_request ==> v.total_requests < u64::MAX && v.tick_requests < u64::MAX
}

/// The dashboard after one line from `service`: an error is counted, grouped
/// and remembered as the last alert; a request is counted; the line joins the
/// stream at the level it is classified at.
pub open spec fn after_log(v: DashboardView, service: Seq<char>, line: Seq<char>, now: Seq<char>) -> DashboardView {
    let err = is_error_line(line);
    let req = is_request_line(line);
    let key = error_key(line);
    DashboardView {
        logs: push_bounded(
            v.logs,
            LogLineView { service, message: line, level: line_level(line), timestamp: now },
            v.max_logs,
        ),
        groups: if err { record_error(v.groups, key, service, now) } else { v.groups },
        errors_count: if err { v.errors_count + 1 } else { v.errors_count },
        last_error: if err { Some(service + ": "@ + key) } else { v.last_error },
        total_requests: if req { v.total_requests + 1 } else { v.total_requests },
        tick_requests: if req { v.tick_requests + 1 } else { v.tick_requests },
        ..v
    }
}

/// The dashboard after one line under the window's rules: as for the
/// dashboard, with the window's classification and without the alert.
pub open spec fn after_window_log(v: DashboardView, service: Seq<char>, line: Seq<char>, now: Seq<char>) -> DashboardView {
    let err = is_window_error_line(line);
    let req = is_window_request_line(line);
    let key = window_error_key(line);
    DashboardView {
        logs: push_bounded(
            v.logs,
            LogLineView { service, message: line, level: window_line_level(line), timestamp: now },
            v.max_logs,
        ),
        groups: if err { record_error(v.groups, key, service, now) } else { v.groups },
        errors_count: if err { v.errors_count + 1 } else { v.errors_count },
        total_requests: if req { v.total_requests + 1 } else { v.total_requests },
        tick_requests: if req { v.tick_requests + 1 } else { v.tick_requests },
        ..v
    }
}

/// The selection after moving down a list of `len` items.
pub open spec fn select_down(sel: Option<nat>, len: nat) -> Option<nat> {
    match sel {
        Some(i) => if i + 1 < len { Some(i + 1) } else { Some(i) },
        None => Some(0),
    }
}

/// The selection after moving up a list.
pub open spec fn select_up(sel: Option<nat>) -> Option<nat> {
    match sel {
        Some(i) => if i > 0 { Some((i - 1) as nat) } else { Some(0) },
        None => Some(0),
    }
}

/// Copying the selected log line would step before the start of the stream.
pub open spec fn copy_underflows(v: DashboardView) -> bool {
    v.selected_tab == 0 && v.log_selected is Some && v.log_selected.unwrap() >= v.logs.len()
}

/// The text a copy takes, if any: the selected line of the stream, counted
/// from the newest, or the message of the selected error group.
pub open spec fn copy_text(v: DashboardView) -> Option<Seq<char>> {
    if v.selected_tab == 0 {
        match v.log_selected {
            Some(i) => Some(v.logs[v.logs.len() - 1 - i].message),
            None => None,
        }
    } else if v.selected_tab == 2 {
        match v.error_selected {
            Some(i) => if i < v.groups.len() {
                Some(v.groups[i as int].message)
            } else {
                None
            },
            None => None,
        }
    } else {
        None
    }
}

/// The dashboard after a key.
pub open spec fn after_key(v: DashboardView, key: Key) -> DashboardView {
    match key {
        Key::Tab => DashboardView { selected_tab: (v.selected_tab + 1) % (TAB_COUNT as nat), ..v },
        Key::Char(c) => if c == '1' {
            DashboardView { selected_tab: 0, ..v }
        } else if c == '2' {
            DashboardView { selected_tab: 1, ..v }
        } else if c == '3' {
            DashboardView { selected_tab: 2, ..v }
        } else if c == 'c' {
            DashboardView { logs: Seq::empty(), groups: Seq::empty(), errors_count: 0, total_requests: 0, ..v }
        } else {
            v
        },
        Key::Down => if v.selected_tab == 0 {
            DashboardView { log_selected: select_down(v.log_selected, v.logs.len()), ..v }
        } else if v.selected_tab == 2 {
            DashboardView { error_selected: select_down(v.error_selected, v.groups.len()), ..v }
        } else {
            v
        },
        Key::Up => if v.selected_tab == 0 {
            DashboardView { log_selected: select_up(v.log_selected), ..v }
        } else if v.selected_tab == 2 {
            DashboardView { error_selected: select_up(v.error_selected), ..v }
        } else {
            v
        },
        Key::Enter => if v.selected_tab == 2 {
            DashboardView { show_details: !v.show_details, ..v }
        } else {
            v
        },
        Key::Esc => DashboardView { show_details: false, ..v },
        Key::Other => v,
    }
}

/// What the caller is to do after a key, as a value.
pub enum OutcomeView {
    Continue,
    Quit,
    Copy(Seq<char>),
    OpenUi,
}

/// What the caller is to do after a key.
pub open spec fn key_outcome(v: DashboardView, key: Key) -> OutcomeView {
    match key {
        Key::Char(c) => if c == 'q' {
            OutcomeView::Quit
        } else if c == 'o' {
            OutcomeView::OpenUi
        } else if c == 'y' {
            match copy_text(v) {
                Some(t) => OutcomeView::Copy(t),
                None => OutcomeView::Continue,
            }
        } else {
            OutcomeView::Continue
        },
        _ => OutcomeView::Continue,
    }
}

/// An outcome as a value.
pub open spec fn outcome_view(o: KeyOutcome) -> OutcomeView {
    match o {
        KeyOutcome::Continue => OutcomeView::Continue,
        KeyOutcome::Quit => OutcomeView::Quit,
        KeyOutcome::Copy(s) => OutcomeView::Copy(s@),
        KeyOutcome::OpenUi => OutcomeView::OpenUi,
    }
}

/// The alert bar's text: the last alert, or a note that there was none.
pub open spec fn alert_text(v: DashboardView) -> Seq<char> {
    " LAST ALERT: "@ + match v.last_error {
        Some(e) => e,
        None => "No errors detected"@,
    }
}

/// The details of an error group: its service, count, last time seen and
/// full message.
pub open spec fn details_text(g: GroupView) -> Seq<char> {
    "SERVICE: "@ + g.service + "\nCOUNT: "@ + decimal(g.count) + "\nLAST SEEN: "@ + g.last_seen
        + "\n\nFULL MESSAGE:\n"@ + g.message
}

/// The details on show: those of the selected error group, while details
/// are asked for and the selection names a group.
pub open spec fn shown_details(v: DashboardView) -> Option<Seq<char>> {
    if v.show_details && v.error_selected is Some && v.error_selected.unwrap() < v.groups.len() {
        Some(details_text(v.groups[v.error_selected.unwrap() as int]))
    } else {
        None
    }
}

/// The tab under a click at column `x` of a header `width` columns wide.
pub open spec fn tab_at_column(x: nat, width: nat) -> nat {
    let w = width / 3;
    if x < w {
        0
    } else if x < w * 2 {
        1
    } else {
        2
    }
}

/// The dashboard after a left click at column `x`, row `y`: a click on the
/// header (rows 0 to 2) selects the tab under it.
pub open spec fn after_click(v: DashboardView, x: nat, y: nat, width: nat) -> DashboardView {
    if y <= 2 {
        DashboardView { selected_tab: tab_at_column(x, width), ..v }
    } else {
        v
    }
}

/// The dashboard after a one-second tick: the tick's request count enters
/// the history, whose oldest entry leaves, and the tick count restarts.
pub open spec fn after_tick(v: DashboardView) -> DashboardView {
    DashboardView {
        history: v.history.drop_first().push(v.tick_requests as u64),
        tick_requests: 0,
        ..v
    }
}

/// The dashboard with one more error occurrence counted and grouped.
pub open spec fn with_error(v: DashboardView, key: Seq<char>, service: Seq<char>, now: Seq<char>) -> DashboardView {
    DashboardView { groups: record_error(v.groups, key, service, now), errors_count: v.errors_count + 1, ..v }
}

/// The dashboard with one more line in its stream.
pub open spec fn with_line(v: DashboardView, line: LogLineView) -> DashboardView {
    DashboardView { logs: push_bounded(v.logs, line, v.max_logs), ..v }
}

/// The dashboard with one more request counted.
pub open spec fn with_request(v: DashboardView) -> DashboardView {
    DashboardView { total_requests: v.total_requests + 1, tick_requests: v.tick_requests + 1, ..v }
}

// ---------------------------------------------------------------------------
// Lemmas
// ---------------------------------------------------------------------------

/// The sum of the counts after one count changes.
proof fn lemma_sum_update(gs: Seq<GroupView>, i: int, g: GroupView)
    requires
        0 <= i < gs.len(),
    ensures
        sum_counts(gs.update(i, g)) + gs[i].count == sum_counts(gs) + g.count,
    decreases gs.len(),
{
    if i == gs.len() - 1 {
        assert(gs.update(i, g).drop_last() =~= gs.drop_last());
    } else {
        lemma_sum_update(gs.drop_last(), i, g);
        assert(gs.update(i, g).drop_last() =~= gs.drop_last().update(i, g));
    }
}

/// Recording an error keeps one group per message and adds one to the sum
/// of the counts.
proof fn lemma_record_error(gs: Seq<GroupView>, key: Seq<char>, service: Seq<char>, now: Seq<char>)
    requires
        keys_distinct(gs),
    ensures
        keys_distinct(record_error(gs, key, service, now)),
        sum_counts(record_error(gs, key, service, now)) == sum_counts(gs) + 1,
        has_group(record_error(gs, key, service, now), key),
{
    let r = record_error(gs, key, service, now);
    if has_group(gs, key) {
        let i = choose|i: int| 0 <= i < gs.len() && #[trigger] gs[i].message == key;
        lemma_sum_update(gs, i, GroupView { count: gs[i].count + 1, last_seen: now, ..gs[i] });
        assert(r[i].message == key);
    } else {
        assert(r.drop_last() =~= gs);
        assert(r[gs.len() as int].message == key);
    }
}

// ---------------------------------------------------------------------------
// Laws
// ---------------------------------------------------------------------------

/// Every line keeps the dashboard well formed: the stream stays within its
/// bound and the error counter stays equal to the sum of the group counts.
pub proof fn law_log_keeps_wf(v: DashboardView, service: Seq<char>, line: Seq<char>, now: Seq<char>)
    requires
        dashboard_wf(v),
    ensures
        dashboard_wf(after_log(v, service, line, now)),
        dashboard_wf(after_window_log(v, service, line, now)),
{
    lemma_record_error(v.groups, error_key(line), service, now);
    lemma_record_error(v.groups, window_error_key(line), service, now);
}

/// Groups that keep their place: the new groups hold every old group at its
/// index, with its message and service.
pub open spec fn groups_kept(old_groups: Seq<GroupView>, new_groups: Seq<GroupView>) -> bool {
    &&& old_groups.len() <= new_groups.len()
    &&& forall|i: int|
        0 <= i < old_groups.len() ==> (#[trigger] new_groups[i]).message == old_groups[i].message
            && new_groups[i].service == old_groups[i].service
}

/// Recording an error keeps every existing group at its index, with its
/// message and service.
proof fn lemma_record_error_keeps_groups(gs: Seq<GroupView>, key: Seq<char>, service: Seq<char>, now: Seq<char>)
    ensures
        groups_kept(gs, record_error(gs, key, service, now)),
{
}

/// Every line keeps each existing error group at its index, with its message
/// and service; a new message only adds a group at the end.
pub proof fn law_log_keeps_groups(v: DashboardView, service: Seq<char>, line: Seq<char>, now: Seq<char>)
    ensures
        groups_kept(v.groups, after_log(v, service, line, now).groups),
        groups_kept(v.groups, after_window_log(v, service, line, now).groups),
{
    lemma_record_error_keeps_groups(v.groups, error_key(line), service, now);
    lemma_record_error_keeps_groups(v.groups, window_error_key(line), service, now);
}

/// A window line is shown at the error level, counted and grouped exactly
/// when it holds "ERROR", "Error:" or "fail".
pub proof fn law_window_errors(v: DashboardView, service: Seq<char>, line: Seq<char>, now: Seq<char>)
    requires
        dashboard_wf(v),
    ensures
        (window_line_level(line) == LineLevel::Error) <==> (has_text(line, "ERROR"@) || has_text(line, "Error:"@)
            || has_text(line, "fail"@)),
        has_text(line, "fail"@) ==> {
            let w = after_window_log(v, service, line, now);
            &&& w.errors_count == v.errors_count + 1
            &&& w.logs.last().level == LineLevel::Error
            &&& has_group(w.groups, window_error_key(line))
        },
        !(has_text(line, "ERROR"@) || has_text(line, "Error:"@) || has_text(line, "fail"@)) ==> {
            let w = after_window_log(v, service, line, now);
            &&& w.errors_count == v.errors_count
            &&& w.groups == v.groups
        },
{
    lemma_record_error(v.groups, window_error_key(line), service, now);
}

/// A dashboard line is shown at the error level and counted exactly when it
/// holds one of the error markers.
pub proof fn law_dashboard_errors(v: DashboardView, service: Seq<char>, line: Seq<char>, now: Seq<char>)
    requires
        dashboard_wf(v),
    ensures
        ({
            let marked = has_text(line, "ERROR"@) || has_text(line, "Error:"@) || has_text(line, "fail"@) || has_text(
                line,
                "TypeError"@,
            ) || has_text(line, "ReferenceError"@) || (has_text(line, "at "@) && has_text(line, ":"@)) || has_text(
                line,
                "uncaught"@,
            );
            let w = after_log(v, service, line, now);
            &&& (line_level(line) == LineLevel::Error) <==> marked
            &&& w.errors_count == (if marked { v.errors_count + 1 } else { v.errors_count + 0 })
            &&& marked ==> has_group(w.groups, error_key(line))
            &&& !marked ==> w.groups == v.groups
        }),
{
    lemma_record_error(v.groups, error_key(line), service, now);
}

/// Every error line becomes the last alert, "service: key", whether or not
/// its message was seen before; other lines leave the alert as it was.
pub proof fn law_last_alert_is_latest_error(v: DashboardView, service: Seq<char>, line: Seq<char>, now: Seq<char>)
    ensures
        line_level(line) == LineLevel::Error ==> after_log(v, service, line, now).last_error == Some(
            service + ": "@ + error_key(line),
        ),
        line_level(line) != LineLevel::Error ==> after_log(v, service, line, now).last_error == v.last_error,
        has_group(v.groups, error_key(line)) && line_level(line) == LineLevel::Error ==> after_log(
            v,
            service,
            line,
            now,
        ).last_error == Some(service + ": "@ + error_key(line)),
{
}

/// The copy key on the errors tab takes the message of the selected group,
/// the one whose details are shown; on the log tab it takes the selected
/// line, counted from the newest.
pub proof fn law_copy_takes_selection(v: DashboardView)
    ensures
        v.selected_tab == 2 && v.error_selected is Some && v.error_selected.unwrap() < v.groups.len() ==> {
            let i = v.error_selected.unwrap() as int;
            &&& key_outcome(v, Key::Char('y')) == OutcomeView::Copy(v.groups[i].message)
            &&& shown_details((DashboardView { show_details: true, ..v })) == Some(details_text(v.groups[i]))
        },
        v.selected_tab == 2 && (v.error_selected is None || v.error_selected.unwrap() >= v.groups.len()) ==> key_outcome(
            v,
            Key::Char('y'),
        ) == OutcomeView::Continue,
        v.selected_tab == 0 && v.log_selected is Some && v.log_selected.unwrap() < v.logs.len() ==> key_outcome(
            v,
            Key::Char('y'),
        ) == OutcomeView::Copy(v.logs[v.logs.len() - 1 - v.log_selected.unwrap()].message),
        v.selected_tab == 1 ==> key_outcome(v, Key::Char('y')) == OutcomeView::Continue,
{
}

/// Lines without an error marker are shown, on the dashboard, as warnings
/// when they hold "WARN" or "Warning", else as debug lines when they hold
/// "DEBUG", else as information; in the window only "WARN" marks a warning.
/// A line on a service's error stream is an error when it holds "ERROR" or
/// "Error", else a warning when it holds "WARN", else a debug line.
pub proof fn law_other_levels(l: Seq<char>)
    ensures
        !is_error_line(l) ==> {
            &&& (line_level(l) == LineLevel::Warn) <==> (has_text(l, "WARN"@) || has_text(l, "Warning"@))
            &&& (line_level(l) == LineLevel::Debug) <==> (!has_text(l, "WARN"@) && !has_text(l, "Warning"@)
                && has_text(l, "DEBUG"@))
            &&& (line_level(l) == LineLevel::Info) <==> (!has_text(l, "WARN"@) && !has_text(l, "Warning"@)
                && !has_text(l, "DEBUG"@))
        },
        !is_window_error_line(l) ==> {
            &&& (window_line_level(l) == LineLevel::Warn) <==> has_text(l, "WARN"@)
            &&& (window_line_level(l) == LineLevel::Debug) <==> (!has_text(l, "WARN"@) && has_text(l, "DEBUG"@))
            &&& (window_line_level(l) == LineLevel::Info) <==> (!has_text(l, "WARN"@) && !has_text(l, "DEBUG"@))
        },
        (stderr_level(l) == LineLevel::Error) <==> (has_text(l, "ERROR"@) || has_text(l, "Error"@)),
        (stderr_level(l) == LineLevel::Warn) <==> (!has_text(l, "ERROR"@) && !has_text(l, "Error"@) && has_text(
            l,
            "WARN"@,
        )),
        (stderr_level(l) == LineLevel::Debug) <==> (!has_text(l, "ERROR"@) && !has_text(l, "Error"@) && !has_text(
            l,
            "WARN"@,
        )),
{
}

/// A line counts one request, in the total and in the current tick, exactly
/// when it holds a request marker: "GET ", "POST ", "HTTP", "PATCH" or
/// "DELETE" on the dashboard, "GET ", "POST " or "HTTP" in the window.
pub proof fn law_requests_counted(v: DashboardView, service: Seq<char>, line: Seq<char>, now: Seq<char>)
    ensures
        ({
            let req = has_text(line, "GET "@) || has_text(line, "POST "@) || has_text(line, "HTTP"@) || has_text(
                line,
                "PATCH"@,
            ) || has_text(line, "DELETE"@);
            let w = after_log(v, service, line, now);
            &&& w.total_requests == v.total_requests + (if req { 1int } else { 0int })
            &&& w.tick_requests == v.tick_requests + (if req { 1int } else { 0int })
        }),
        ({
            let req = has_text(line, "GET "@) || has_text(line, "POST "@) || has_text(line, "HTTP"@);
            let w = after_window_log(v, service, line, now);
            &&& w.total_requests == v.total_requests + (if req { 1int } else { 0int })
            &&& w.tick_requests == v.tick_requests + (if req { 1int } else { 0int })
        }),
{
}

/// An error's group key is its line with newlines turned into spaces, cut
/// to its first 500 characters on the dashboard; in the window it is the
/// line itself, cut the same way.
pub proof fn law_error_keys(l: Seq<char>)
    ensures
        error_key(l).len() == (if l.len() <= ERROR_KEY_LEN { l.len() } else { ERROR_KEY_LEN as nat }),
        forall|i: int|
            0 <= i < error_key(l).len() ==> #[trigger] error_key(l)[i] == (if l[i] == '\n' { ' ' } else { l[i] }),
        window_error_key(l).len() == (if l.len() <= ERROR_KEY_LEN { l.len() } else { ERROR_KEY_LEN as nat }),
        forall|i: int| 0 <= i < window_error_key(l).len() ==> #[trigger] window_error_key(l)[i] == l[i],
{
}

/// A line joins the stream as its newest entry, with its service, text, time
/// and level; a full stream loses its oldest entry.
pub proof fn law_line_joins_stream(v: DashboardView, service: Seq<char>, line: Seq<char>, now: Seq<char>)
    requires
        dashboard_wf(v),
    ensures
        ({
            let w = after_log(v, service, line, now);
            &&& w.logs.last() == (LogLineView { service, message: line, level: line_level(line), timestamp: now })
            &&& w.logs.len() == (if v.logs.len() < v.max_logs { v.logs.len() + 1 } else { v.logs.len() + 0 })
            &&& w.logs.drop_last() == (if v.logs.len() < v.max_logs { v.logs } else { v.logs.drop_first() })
        }),
{
    let w = after_log(v, service, line, now);
    if v.logs.len() < v.max_logs {
        assert(w.logs.drop_last() =~= v.logs);
    } else {
        assert(w.logs.drop_last() =~= v.logs.drop_first());
    }
}

/// The tabs: the digit keys pick a tab, and Tab moves to the next one,
/// coming back after three presses.
pub proof fn law_tabs(v: DashboardView)
    requires
        dashboard_wf(v),
    ensures
        after_key(v, Key::Char('1')).selected_tab == 0,
        after_key(v, Key::Char('2')).selected_tab == 1,
        after_key(v, Key::Char('3')).selected_tab == 2,
        after_key(v, Key::Tab).selected_tab == (if v.selected_tab < 2 { v.selected_tab + 1 } else { 0 }),
        after_key(after_key(after_key(v, Key::Tab), Key::Tab), Key::Tab).selected_tab == v.selected_tab,
{
}

/// Moving the selection down steps one item further while there is one,
/// and stays on the last item; moving up steps back, and stays on the
/// first. Without a selection, either move selects the first item.
pub proof fn law_selection_moves(sel: nat, len: nat)
    ensures
        sel + 1 < len ==> select_down(Some(sel), len) == Some(sel + 1),
        sel + 1 >= len ==> select_down(Some(sel), len) == Some(sel),
        sel > 0 ==> select_up(Some(sel)) == Some((sel - 1) as nat),
        select_up(Some(0)) == Some(0nat),
        select_down(None, len) == Some(0nat) && select_up(None) == Some(0nat),
{
}

/// A tick puts its request count at the end of the history, drops the
/// oldest entry and starts the next tick at zero.
pub proof fn law_tick(v: DashboardView)
    requires
        dashboard_wf(v),
        v.tick_requests <= u64::MAX,
    ensures
        after_tick(v).history.len() == v.history.len(),
        after_tick(v).history.last() == v.tick_requests,
        forall|i: int| 0 <= i < v.history.len() - 1 ==> #[trigger] after_tick(v).history[i] == v.history[i + 1],
        after_tick(v).tick_requests == 0,
        after_tick(v).total_requests == v.total_requests,
{
}

/// The newest line is last in the stream and the lines before it are the
/// previous stream, less its oldest line when the stream was full.
pub proof fn law_stream_keeps_order(logs: Seq<LogLineView>, line: LogLineView, max: nat)
    requires
        logs.len() <= max,
        0 < max,
    ensures
        push_bounded(logs, line, max).len() <= max,
        push_bounded(logs, line, max).last() == line,
        logs.len() < max ==> push_bounded(logs, line, max).drop_last() == logs,
        logs.len() == max ==> push_bounded(logs, line, max).drop_last() == logs.drop_first(),
{
    assert(logs.push(line).drop_last() =~= logs);
    assert(logs.drop_first().push(line).drop_last() =~= logs.drop_first());
}

/// A message seen again is counted in its group: no second group is made.
pub proof fn law_repeat_error_joins_group(gs: Seq<GroupView>, key: Seq<char>, service: Seq<char>, t1: Seq<char>, t2: Seq<char>)
    requires
        keys_distinct(gs),
    ensures
        record_error(record_error(gs, key, service, t1), key, service, t2).len() == record_error(gs, key, service, t1).len(),
{
    lemma_record_error(gs, key, service, t1);
}

/// Moving up after moving down returns to the same line, when there was a
/// line to move down to.
pub proof fn law_up_undoes_down(sel: nat, len: nat)
    requires
        sel + 1 < len,
    ensures
        select_up(select_down(Some(sel), len)) == Some(sel),
{
}

/// Opening the details twice on the errors tab closes them again.
pub proof fn law_details_toggle(v: DashboardView)
    requires
        v.selected_tab == 2,
    ensures
        after_key(after_key(v, Key::Enter), Key::Enter) == v,
{
    assert(after_key(after_key(v, Key::Enter), Key::Enter) =~= v);
}

/// Every key keeps the dashboard well formed; clearing empties the stream
/// and the groups and restarts both counters.
pub proof fn law_keys_keep_wf(v: DashboardView, key: Key)
    requires
        dashboard_wf(v),
    ensures
        dashboard_wf(after_key(v, key)),
        key == Key::Char('c') ==> after_key(v, key).logs.len() == 0 && after_key(v, key).groups.len() == 0
            && after_key(v, key).errors_count == 0 && after_key(v, key).total_requests == 0,
{
}

// ---------------------------------------------------------------------------
// Executable code
// ---------------------------------------------------------------------------

/// Whether the characters hold any of the needles.
fn has_any(cs: &Vec<char>, a: &str, b: &str) -> (r: bool)
    ensures
        r == (has_text(cs@, a@) || has_text(cs@, b@)),
{
    has_sub(cs, a) || has_sub(cs, b)
}

/// Whether a dashboard line reports an error.
pub fn line_is_error(cs: &Vec<char>) -> (r: bool)
    ensures
        r == is_error_line(cs@),
{
    has_sub(cs, "ERROR") || has_sub(cs, "Error:") || has_sub(cs, "fail") || has_sub(cs, "TypeError")
        || has_sub(cs, "ReferenceError") || (has_sub(cs, "at ") && has_sub(cs, ":")) || has_sub(
        cs,
        "uncaught",
    )
}

/// The level of a dashboard line.
pub fn classify_line(cs: &Vec<char>) -> (r: LineLevel)
    ensures
        r == line_level(cs@),
{
    if line_is_error(cs) {
        LineLevel::Error
    } else if has_any(cs, "WARN", "Warning") {
        LineLevel::Warn
    } else if has_sub(cs, "DEBUG") {
        LineLevel::Debug
    } else {
        LineLevel::Info
    }
}

/// Whether a dashboard line records a request.
pub fn line_is_request(cs: &Vec<char>) -> (r: bool)
    ensures
        r == is_request_line(cs@),
{
    has_sub(cs, "GET ") || has_sub(cs, "POST ") || has_sub(cs, "HTTP") || has_sub(cs, "PATCH") || has_sub(
        cs,
        "DELETE",
    )
}

/// Whether a window line reports an error.
pub fn window_line_is_error(cs: &Vec<char>) -> (r: bool)
    ensures
        r == is_window_error_line(cs@),
{
    has_sub(cs, "ERROR") || has_sub(cs, "Error:") || has_sub(cs, "fail")
}

/// The level of a window line.
pub fn classify_window_line(cs: &Vec<char>) -> (r: LineLevel)
    ensures
        r == window_line_level(cs@),
{
    if window_line_is_error(cs) {
        LineLevel::Error
    } else if has_sub(cs, "WARN") {
        LineLevel::Warn
    } else if has_sub(cs, "DEBUG") {
        LineLevel::Debug
    } else {
        LineLevel::Info
    }
}

/// Whether a window line records a request.
pub fn window_line_is_request(cs: &Vec<char>) -> (r: bool)
    ensures
        r == is_window_request_line(cs@),
{
    has_sub(cs, "GET ") || has_sub(cs, "POST ") || has_sub(cs, "HTTP")
}

/// The level of a line a service wrote on its error stream.
pub fn classify_stderr_line(line: &str) -> (r: LineLevel)
    ensures
        r == stderr_level(line@),
{
    let cs = chars_of(line);
    if has_any(&cs, "ERROR", "Error") {
        LineLevel::Error
    } else if has_sub(&cs, "WARN") {
        LineLevel::Warn
    } else {
        LineLevel::Debug
    }
}

/// The group key of a dashboard error line: its first characters, newlines
/// turned into spaces.
pub fn error_key_of(cs: &Vec<char>) -> (r: String)
    ensures
        r@ == error_key(cs@),
{
    let n = if cs.len() <= ERROR_KEY_LEN {
        cs.len()
    } else {
        ERROR_KEY_LEN
    };
    let mut out: Vec<char> = Vec::new();
    let mut i: usize = 0;
    while i < n
        invariant
            n <= cs.len(),
            n == if cs.len() <= ERROR_KEY_LEN { cs.len() } else { ERROR_KEY_LEN },
            i <= n,
            out@ == flatten_newlines(cs@).subrange(0, i as int),
        decreases n - i,
    {
        let c = cs[i];
        if c == '\n' {
            out.push(' ');
        } else {
            out.push(c);
        }
        i = i + 1;
        assert(out@ =~= flatten_newlines(cs@).subrange(0, i as int));
    }
    assert(out@ =~= error_key(cs@));
    string_from_chars(out.as_slice())
}

/// The group key of a window error line: its first characters.
pub fn window_error_key_of(cs: &Vec<char>) -> (r: String)
    ensures
        r@ == window_error_key(cs@),
{
    let n = if cs.len() <= ERROR_KEY_LEN {
        cs.len()
    } else {
        ERROR_KEY_LEN
    };
    let mut out: Vec<char> = Vec::new();
    let mut i: usize = 0;
    while i < n
        invariant
            n <= cs.len(),
            i <= n,
            out@ == cs@.subrange(0, i as int),
        decreases n - i,
    {
        out.push(cs[i]);
        i = i + 1;
    }
    assert(out@ =~= window_error_key(cs@));
    string_from_chars(out.as_slice())
}

impl Dashboard {
    /// A fresh dashboard: no lines, no groups, counters at zero, an empty
    /// history of its fixed length, the first tab and the first line selected.
    pub fn new() -> (d: Dashboard)
        ensures
            dashboard_wf(d@),
            d@.logs.len() == 0,
            d@.max_logs == MAX_LOGS,
            d@.groups.len() == 0,
            d@.total_requests == 0,
            d@.errors_count == 0,
            d@.last_error is None,
            d@.tick_requests == 0,
            d@.history == Seq::new(HISTORY_LEN as nat, |i: int| 0u64),
            d@.selected_tab == 0,
            d@.log_selected == Some(0nat),
            d@.error_selected == Some(0nat),
            !d@.show_details,
            !d@.should_quit,
    {
        let mut history: std::collections::VecDeque<u64> = std::collections::VecDeque::new();
        let mut i: usize = 0;
        while i < HISTORY_LEN
            invariant
                i <= HISTORY_LEN,
                history@ == Seq::new(i as nat, |k: int| 0u64),
            decreases HISTORY_LEN - i,
        {
            history.push_back(0);
            i = i + 1;
            assert(history@ =~= Seq::new(i as nat, |k: int| 0u64));
        }
        let d = Dashboard {
            logs: std::collections::VecDeque::new(),
            max_logs: MAX_LOGS,
            grouped_errors: Vec::new(),
            total_requests: 0,
            errors_count: 0,
            last_error: None,
            tick_requests: 0,
            history,
            selected_tab: 0,
            log_selected: Some(0),
            error_selected: Some(0),
            show_details: false,
            should_quit: false,
        };
        assert(d@.logs =~= Seq::<LogLineView>::empty());
        assert(d@.groups =~= Seq::<GroupView>::empty());
        d
    }

    /// The position of the group with this message, if any.
    fn find_group(&self, key: &String) -> (r: Option<usize>)
        ensures
            match r {
                Some(i) => i < self.grouped_errors.len() && self@.groups[i as int].message == key@,
                None => !has_group(self@.groups, key@),
            },
    {
        let mut i: usize = 0;
        while i < self.grouped_errors.len()
            invariant
                i <= self.grouped_errors.len(),
                forall|k: int| 0 <= k < i ==> self@.groups[k].message != key@,
            decreases self.grouped_errors.len() - i,
        {
            if self.grouped_errors[i].message == *key {
                return Some(i);
            }
            i = i + 1;
        }
        None
    }

    /// Counts one more occurrence of an error under `key`.
    fn count_error(&mut self, key: String, service: &str, now: &str)
        requires
            dashboard_wf(old(self)@),
            old(self).errors_count < u64::MAX,
            forall|i: int| 0 <= i < old(self)@.groups.len() && #[trigger] old(self)@.groups[i].message == key@
                ==> old(self)@.groups[i].count < u32::MAX,
        ensures
            final(self)@ == with_error(old(self)@, key@, service@, now@),
    {
        let ghost v = self@;
        proof {
            lemma_record_error(v.groups, key@, service@, now@);
        }
        self.errors_count = self.errors_count + 1;
        match self.find_group(&key) {
            Some(i) => {
                let ghost j = choose|j: int| 0 <= j < v.groups.len() && #[trigger] v.groups[j].message == key@;
                assert(j == i) by {
                    if j != i {
                        assert(v.groups[j].message != v.groups[i as int].message);
                    }
                }
                let c = self.grouped_errors[i].count;
                self.grouped_errors[i].count = c + 1;
                self.grouped_errors[i].last_seen = owned(now);
                assert(self@.groups =~= record_error(v.groups, key@, service@, now@));
            },
            None => {
                self.grouped_errors.push(
                    GroupedError { message: key, count: 1, service: owned(service), last_seen: owned(now) },
                );
                assert(self@.groups =~= record_error(v.groups, key@, service@, now@));
            },
        }
        assert(self@ =~= with_error(v, key@, service@, now@));
    }

    /// Adds a line to the stream, dropping the oldest when the stream is full.
    fn push_line(&mut self, line: LogLine)
        requires
            dashboard_wf(old(self)@),
        ensures
            final(self)@ == with_line(old(self)@, line@),
    {
        let ghost v = self@;
        if self.logs.len() >= self.max_logs {
            let _ = self.logs.pop_front();
            assert(self@.logs =~= v.logs.drop_first());
        }
        self.logs.push_back(line);
        assert(self@ =~= with_line(v, line@));
    }

    /// Counts one request.
    fn count_request(&mut self)
        requires
            old(self).total_requests < u64::MAX,
            old(self).tick_requests < u64::MAX,
        ensures
            final(self)@ == with_request(old(self)@),
    {
        let ghost v = self@;
        self.total_requests = self.total_requests + 1;
        self.tick_requests = self.tick_requests + 1;
        assert(self@ =~= with_request(v));
    }

    /// Whether the counters can take this dashboard line without overflowing.
    pub fn can_add_log(&self, line: &str) -> (r: bool)
        ensures
            r == can_take_line(self@, is_error_line(line@), error_key(line@), is_request_line(line@)),
    {
        let cs = chars_of(line);
        let key = error_key_of(&cs);
        self.counters_can_take(line_is_error(&cs), &key, line_is_request(&cs))
    }

    /// Whether the counters can take this window line without overflowing.
    pub fn can_process_log(&self, line: &str) -> (r: bool)
        ensures
            r == can_take_line(self@, is_window_error_line(line@), window_error_key(line@), is_window_request_line(line@)),
    {
        let cs = chars_of(line);
        let key = window_error_key_of(&cs);
        self.counters_can_take(window_line_is_error(&cs), &key, window_line_is_request(&cs))
    }

    /// Whether the counters can take a line of the given kind.
    fn counters_can_take(&self, is_error: bool, key: &String, is_request: bool) -> (r: bool)
        ensures
            r == can_take_line(self@, is_error, key@, is_request),
    {
        if is_request && (self.total_requests == u64::MAX || self.tick_requests == u64::MAX) {
            return false;
        }
        if is_error {
            if self.errors_count == u64::MAX {
                return false;
            }
            let mut i: usize = 0;
            while i < self.grouped_errors.len()
                invariant
                    is_error,
                    self.errors_count < u64::MAX,
                    is_request ==> self.total_requests < u64::MAX && self.tick_requests < u64::MAX,
                    i <= self.grouped_errors.len(),
                    forall|k: int| 0 <= k < i && #[trigger] self@.groups[k].message == key@ ==> self@.groups[k].count < u32::MAX,
                decreases self.grouped_errors.len() - i,
            {
                if self.grouped_errors[i].message == *key && self.grouped_errors[i].count == u32::MAX {
                    assert(self@.groups[i as int].message == key@);
                    return false;
                }
                i = i + 1;
            }
        }
        true
    }

    /// Takes one line from `service`, seen at `now`, under the dashboard's
    /// rules.
    pub fn add_log_at(&mut self, service: &str, line: &str, now: &str)
        requires
            dashboard_wf(old(self)@),
            can_take_line(old(self)@, is_error_line(line@), error_key(line@), is_request_line(line@)),
        ensures
            dashboard_wf(final(self)@),
            final(self)@ == after_log(old(self)@, service@, line@, now@),
    {
        let ghost v = self@;
        proof {
            law_log_keeps_wf(v, service@, line@, now@);
        }
        let cs = chars_of(line);
        let is_error = line_is_error(&cs);
        let level = classify_line(&cs);
        if is_error {
            let key = error_key_of(&cs);
            let mut alert = owned(service);
            push_text(&mut alert, ": ");
            push_text(&mut alert, key.as_str());
            self.count_error(key, service, now);
            self.last_error = Some(alert);
        }
        if line_is_request(&cs) {
            self.count_request();
        }
        let entry = LogLine { service: owned(service), message: owned(line), level, timestamp: owned(now) };
        self.push_line(entry);
        assert(self@ =~= after_log(v, service@, line@, now@));
    }

    /// Takes one line from `service` under the dashboard's rules, seen now.
    pub fn add_log(&mut self, service: &str, line: &str)
        requires
            dashboard_wf(old(self)@),
            can_take_line(old(self)@, is_error_line(line@), error_key(line@), is_request_line(line@)),
        ensures
            dashboard_wf(final(self)@),
            exists|now: Seq<char>| is_time_of_day_text(now) && final(self)@ == after_log(old(self)@, service@, line@, now),
    {
        let now = time_of_day();
        self.add_log_at(service, line, now.as_str());
    }

    /// Takes one line from `service`, seen at `now`, under the window's rules.
    pub fn process_log_at(&mut self, service: &str, line: &str, now: &str)
        requires
            dashboard_wf(old(self)@),
            can_take_line(old(self)@, is_window_error_line(line@), window_error_key(line@), is_window_request_line(line@)),
        ensures
            dashboard_wf(final(self)@),
            final(self)@ == after_window_log(old(self)@, service@, line@, now@),
    {
        let ghost v = self@;
        proof {
            law_log_keeps_wf(v, service@, line@, now@);
        }
        let cs = chars_of(line);
        let level = classify_window_line(&cs);
        if window_line_is_error(&cs) {
            let key = window_error_key_of(&cs);
            self.count_error(key, service, now);
        }
        if window_line_is_request(&cs) {
            self.count_request();
        }
        let entry = LogLine { service: owned(service), message: owned(line), level, timestamp: owned(now) };
        self.push_line(entry);
        assert(self@ =~= after_window_log(v, service@, line@, now@));
    }

    /// Takes one line from `service` under the window's rules, seen now.
    pub fn process_log(&mut self, service: &str, line: &str)
        requires
            dashboard_wf(old(self)@),
            can_take_line(old(self)@, is_window_error_line(line@), window_error_key(line@), is_window_request_line(line@)),
        ensures
            dashboard_wf(final(self)@),
            exists|now: Seq<char>| is_time_of_day_text(now) && final(self)@ == after_window_log(old(self)@, service@, line@, now),
    {
        let now = time_of_day();
        self.process_log_at(service, line, now.as_str());
    }

    /// The alert bar's text.
    pub fn alert_line(&self) -> (r: String)
        ensures
            r@ == alert_text(self@),
    {
        let mut r = owned(" LAST ALERT: ");
        match &self.last_error {
            Some(e) => push_text(&mut r, e.as_str()),
            None => push_text(&mut r, "No errors detected"),
        }
        r
    }

    /// The details on show, if any.
    pub fn selected_details(&self) -> (r: Option<String>)
        ensures
            match r {
                Some(t) => shown_details(self@) == Some(t@),
                None => shown_details(self@) is None,
            },
    {
        if !self.show_details {
            return None;
        }
        match self.error_selected {
            Some(i) => {
                if i < self.grouped_errors.len() {
                    Some(group_details(&self.grouped_errors[i]))
                } else {
                    None
                }
            },
            None => None,
        }
    }

    /// Whether copying now would step before the start of the stream.
    pub fn copy_would_underflow(&self) -> (r: bool)
        ensures
            r == copy_underflows(self@),
    {
        match self.log_selected {
            Some(i) => self.selected_tab == 0 && i >= self.logs.len(),
            None => false,
        }
    }

    /// The text a copy takes, if any.
    fn selected_text(&self) -> (r: Option<String>)
        requires
            !copy_underflows(self@),
        ensures
            match r {
                Some(s) => copy_text(self@) == Some(s@),
                None => copy_text(self@) is None,
            },
    {
        if self.selected_tab == 0 {
            match self.log_selected {
                Some(i) => {
                    let j = self.logs.len() - 1 - i;
                    Some(self.logs[j].message.clone())
                },
                None => None,
            }
        } else if self.selected_tab == 2 {
            match self.error_selected {
                Some(i) => if i < self.grouped_errors.len() {
                    Some(self.grouped_errors[i].message.clone())
                } else {
                    None
                },
                None => None,
            }
        } else {
            None
        }
    }

    /// Reacts to a key and says what the caller is to do.
    pub fn handle_key(&mut self, key: Key) -> (r: KeyOutcome)
        requires
            dashboard_wf(old(self)@),
            key == Key::Char('y') ==> !copy_underflows(old(self)@),
        ensures
            dashboard_wf(final(self)@),
            final(self)@ == after_key(old(self)@, key),
            outcome_view(r) == key_outcome(old(self)@, key),
    {
        let ghost v = self@;
        proof {
            law_keys_keep_wf(v, key);
        }
        match key {
            Key::Tab => {
                self.selected_tab = (self.selected_tab + 1) % TAB_COUNT;
            },
            Key::Char(c) => {
                if c == 'q' {
                    return KeyOutcome::Quit;
                } else if c == '1' {
                    self.selected_tab = 0;
                } else if c == '2' {
                    self.selected_tab = 1;
                } else if c == '3' {
                    self.selected_tab = 2;
                } else if c == 'y' {
                    return match self.selected_text() {
                        Some(t) => KeyOutcome::Copy(t),
                        None => KeyOutcome::Continue,
                    };
                } else if c == 'o' {
                    return KeyOutcome::OpenUi;
                } else if c == 'c' {
                    self.logs.clear();
                    self.grouped_errors.clear();
                    self.errors_count = 0;
                    self.total_requests = 0;
                    assert(self@.logs =~= Seq::<LogLineView>::empty());
                    assert(self@.groups =~= Seq::<GroupView>::empty());
                }
            },
            Key::Down => {
                if self.selected_tab == 0 {
                    self.log_selected = Some(select_down_index(self.log_selected, self.logs.len()));
                } else if self.selected_tab == 2 {
                    self.error_selected = Some(select_down_index(self.error_selected, self.grouped_errors.len()));
                }
            },
            Key::Up => {
                if self.selected_tab == 0 {
                    self.log_selected = Some(select_up_index(self.log_selected));
                } else if self.selected_tab == 2 {
                    self.error_selected = Some(select_up_index(self.error_selected));
                }
            },
            Key::Enter => {
                if self.selected_tab == 2 {
                    self.show_details = !self.show_details;
                }
            },
            Key::Esc => {
                self.show_details = false;
            },
            Key::Other => {},
        }
        assert(self@ =~= after_key(v, key));
        KeyOutcome::Continue
    }

    /// Reacts to a left click at column `x`, row `y`, on a screen `width`
    /// columns wide.
    pub fn handle_click(&mut self, x: u16, y: u16, width: u16)
        requires
            dashboard_wf(old(self)@),
        ensures
            dashboard_wf(final(self)@),
            final(self)@ == after_click(old(self)@, x as nat, y as nat, width as nat),
    {
        let ghost v = self@;
        if y <= 2 {
            self.selected_tab = tab_at(x, width);
        }
        assert(self@ =~= after_click(v, x as nat, y as nat, width as nat));
    }

    /// Closes a one-second tick and returns the number of requests it saw.
    pub fn close_tick(&mut self) -> (r: u64)
        requires
            dashboard_wf(old(self)@),
        ensures
            dashboard_wf(final(self)@),
            final(self)@ == after_tick(old(self)@),
            r == old(self).tick_requests,
    {
        let ghost v = self@;
        let r = self.tick_requests;
        let _ = self.history.pop_front();
        self.history.push_back(r);
        self.tick_requests = 0;
        assert(self@ =~= after_tick(v));
        r
    }
}

/// The selection after moving down a list of `len` items.
pub fn select_down_index(sel: Option<usize>, len: usize) -> (r: usize)
    ensures
        select_down(opt_nat(sel), len as nat) == Some(r as nat),
{
    match sel {
        Some(i) => if len > 0 && i < len - 1 {
            i + 1
        } else {
            i
        },
        None => 0,
    }
}

/// The selection after moving up a list.
pub fn select_up_index(sel: Option<usize>) -> (r: usize)
    ensures
        select_up(opt_nat(sel)) == Some(r as nat),
{
    match sel {
        Some(i) => if i > 0 {
            i - 1
        } else {
            0
        },
        None => 0,
    }
}

/// The tab under a click at column `x` of a header `width` columns wide.
pub fn tab_at(x: u16, width: u16) -> (r: usize)
    ensures
        r as nat == tab_at_column(x as nat, width as nat),
        r < TAB_COUNT,
{
    let w = width / 3;
    if x < w {
        0
    } else if x < w * 2 {
        1
    } else {
        2
    }
}

/// The details of one error group.
pub fn group_details(g: &GroupedError) -> (r: String)
    ensures
        r@ == details_text(g@),
{
    let mut r = owned("SERVICE: ");
    push_text(&mut r, g.service.as_str());
    push_text(&mut r, "\nCOUNT: ");
    push_decimal(&mut r, g.count as u64);
    push_text(&mut r, "\nLAST SEEN: ");
    push_text(&mut r, g.last_seen.as_str());
    push_text(&mut r, "\n\nFULL MESSAGE:\n");
    push_text(&mut r, g.message.as_str());
    r
}

} // verus!
