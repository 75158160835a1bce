//! What the update dashboard shows: the update button, the status card, and
//! the progress log lines built from the run's event stream.
use vstd::prelude::*;

use crate::json::{get, get_str, get_u64, json_get, parse_json, parsed_json, same_text, JsonValue};
use crate::text::{decimal, decimal_string};
use vstd::string::StringSliceAdditionalSpecFns;

verus! {

/// The status the dashboard polls from the server.
pub struct Status {
    pub current_version: String,
    pub latest_version: String,
    pub update_available: bool,
    pub service_active: bool,
    pub service_enabled: bool,
    pub can_update: bool,
    pub cooldown_remaining: u64,
    pub last_checked: String,
    pub error: Option<String>,
}

/// A borrowed optional status, as a value.
pub open spec fn opt_status(s: Option<&Status>) -> Option<Status> {
    match s {
        Some(x) => Some(*x),
        None => None,
    }
}

/// The caption of the update button.
pub open spec fn label_of(updating: bool, status: Option<Status>) -> Seq<char> {
    if updating {
        "Updating..."@
    } else {
        match status {
            None => "Checking..."@,
            Some(s) => if !s.update_available {
                "Up to Date"@
            } else if !s.can_update && s.cooldown_remaining > 0 {
                "Cooldown: "@ + decimal(s.cooldown_remaining as nat) + "s"@
            } else {
                "Update Now"@
            },
        }
    }
}

/// An update can be started from the dashboard.
pub open spec fn offered(status: Option<Status>) -> bool {
    status matches Some(s) && s.update_available && s.can_update
}

/// The CSS class of the update button.
pub open spec fn class_of(updating: bool, status: Option<Status>) -> Seq<char> {
    if updating {
        "update-btn in-progress"@
    } else if offered(status) {
        "update-btn available"@
    } else {
        "update-btn disabled"@
    }
}

/// The caption of the update button.
pub fn button_label(updating: bool, status: Option<&Status>) -> (r: String)
    ensures
        r@ == label_of(updating, opt_status(status)),
{
    if updating {
        return String::from_str("Updating...");
    }
    match status {
        None => String::from_str("Checking..."),
        Some(s) => {
            if !s.update_available {
                String::from_str("Up to Date")
            } else if !s.can_update && s.cooldown_remaining > 0 {
                let mut m = String::from_str("Cooldown: ");
                let n = decimal_string(s.cooldown_remaining);
                m.append(n.as_str());
                m.append("s");
                m
            } else {
                String::from_str("Update Now")
            }
        },
    }
}

/// The CSS class of the update button.
pub fn button_class(updating: bool, status: Option<&Status>) -> (r: &'static str)
    ensures
        r@ == class_of(updating, opt_status(status)),
{
    if updating {
        "update-btn in-progress"
    } else {
        match status {
            Some(s) => if s.update_available && s.can_update {
                "update-btn available"
            } else {
                "update-btn disabled"
            },
            None => "update-btn disabled",
        }
    }
}

/// Whether the update button is disabled.
pub fn button_disabled(updating: bool, status: Option<&Status>) -> (b: bool)
    ensures
        b == (updating || !offered(opt_status(status))),
{
    if updating {
        return true;
    }
    match status {
        Some(s) => !(s.update_available && s.can_update),
        None => true,
    }
}

/// The button can be pressed exactly when it is drawn as available.
pub proof fn law_enabled_iff_available(updating: bool, status: Option<Status>)
    ensures
        !(updating || !offered(status)) <==> class_of(updating, status) == "update-btn available"@,
{
    reveal_strlit("update-btn available");
    reveal_strlit("update-btn in-progress");
    reveal_strlit("update-btn disabled");
    if updating {
        assert("update-btn in-progress"@[11] != "update-btn available"@[11]);
    } else if !offered(status) {
        assert("update-btn disabled"@[11] != "update-btn available"@[11]);
    }
}

/// The CSS class of a progress log line of the given event kind.
pub open spec fn line_class_of(kind: Seq<char>) -> Seq<char> {
    if kind == "error"@ {
        "line error"@
    } else if kind == "complete"@ {
        "line success"@
    } else if kind == "safety_pre"@ {
        "line safety-pre"@
    } else if kind == "safety_post"@ {
        "line safety-post"@
    } else if kind == "safety_rollback"@ {
        "line safety-rollback"@
    } else {
        "line"@
    }
}

/// The CSS class of a progress log line of the given event kind.
pub fn log_line_class(kind: &str) -> (r: &'static str)
    ensures
        r@ == line_class_of(kind@),
{
    if same_text(kind, "error") {
        "line error"
    } else if same_text(kind, "complete") {
        "line success"
    } else if same_text(kind, "safety_pre") {
        "line safety-pre"
    } else if same_text(kind, "safety_post") {
        "line safety-post"
    } else if same_text(kind, "safety_rollback") {
        "line safety-rollback"
    } else {
        "line"
    }
}

/// The classes and captions of the status card.
pub struct CardText {
    pub latest_class: &'static str,
    pub service_class: &'static str,
    pub service_text: &'static str,
    pub update_class: &'static str,
    pub update_text: &'static str,
}

/// `c` holds the classes and captions of the status card for a status with
/// these flags.
pub open spec fn captions(update_available: bool, service_active: bool, c: CardText) -> bool {
    &&& c.latest_class@ == (if update_available {
        "version-number latest"@
    } else {
        "version-number up-to-date"@
    })
    &&& c.service_class@ == (if service_active {
        "status-badge badge-running"@
    } else {
        "status-badge badge-stopped"@
    })
    &&& c.service_text@ == (if service_active {
        "Running"@
    } else {
        "Stopped"@
    })
    &&& c.update_class@ == (if update_available {
        "status-badge badge-update"@
    } else {
        "status-badge badge-current"@
    })
    &&& c.update_text@ == (if update_available {
        "Update Available"@
    } else {
        "Up to Date"@
    })
}

/// The classes and captions of the status card for a status with these
/// flags.
pub fn card_text(update_available: bool, service_active: bool) -> (c: CardText)
    ensures
        captions(update_available, service_active, c),
{
    CardText {
        latest_class: if update_available {
            "version-number latest"
        } else {
            "version-number up-to-date"
        },
        service_class: if service_active {
            "status-badge badge-running"
        } else {
            "status-badge badge-stopped"
        },
        service_text: if service_active {
            "Running"
        } else {
            "Stopped"
        },
        update_class: if update_available {
            "status-badge badge-update"
        } else {
            "status-badge badge-current"
        },
        update_text: if update_available {
            "Update Available"
        } else {
            "Up to Date"
        },
    }
}

/// What the status card shows: a loading line until a status has arrived,
/// then the two versions, the captions, the time of the last check, and an
/// error banner when the status carries an error.
pub enum StatusCardView {
    Loading(&'static str),
    Shown {
        text: CardText,
        current_version: String,
        latest_version: String,
        last_checked: String,
        error_banner: Option<String>,
    },
}

/// The card `v` is what the status card shows for `status`.
pub open spec fn card_shows(status: Option<Status>, v: StatusCardView) -> bool {
    match (status, v) {
        (None, StatusCardView::Loading(line)) => line@ == "Loading status..."@,
        (
            Some(s),
            StatusCardView::Shown {
                text,
                current_version,
                latest_version,
                last_checked,
                error_banner,
            },
        ) => {
            &&& captions(s.update_available, s.service_active, text)
            &&& current_version@ == s.current_version@
            &&& latest_version@ == s.latest_version@
            &&& last_checked@ == s.last_checked@
            &&& match (s.error, error_banner) {
                (None, None) => true,
                (Some(e), Some(b)) => b@ == e@,
                _ => false,
            }
        },
        _ => false,
    }
}

/// The status card for the status polled so far: "Loading status..." until
/// one has arrived; then the installed and latest versions, "Running" exactly
/// when the service is active (else "Stopped"), "Update Available" exactly
/// when an update is available (else "Up to Date"), the time of the last
/// check, and an error banner holding the status's error exactly when it
/// has one.
pub fn status_card(status: Option<&Status>) -> (v: StatusCardView)
    ensures
        card_shows(opt_status(status), v),
{
    match status {
        None => StatusCardView::Loading("Loading status..."),
        Some(s) => StatusCardView::Shown {
            text: card_text(s.update_available, s.service_active),
            current_version: s.current_version.clone(),
            latest_version: s.latest_version.clone(),
            last_checked: s.last_checked.clone(),
            error_banner: match &s.error {
                Some(e) => Some(e.clone()),
                None => None,
            },
        },
    }
}

// ---------------------------------------------------------------------------
// Event stream
// ---------------------------------------------------------------------------
/// The `type` of an event, or empty.
pub open spec fn kind_of(v: JsonValue) -> Seq<char> {
    match get_str(v, "type"@) {
        Some(k) => k,
        None => Seq::empty(),
    }
}

/// `counts.<key>` of an event as a number, 0 when absent.
pub open spec fn count_field(counts: JsonValue, key: Seq<char>) -> u64 {
    match get_u64(counts, key) {
        Some(n) => n,
        None => 0,
    }
}

/// The `counts` member of an event, `null` when absent.
pub open spec fn counts_member(v: JsonValue) -> JsonValue {
    match get(v, "counts"@) {
        Some(c) => c,
        None => JsonValue::Null,
    }
}

/// The log line of a snapshot event.
pub open spec fn snapshot_line(label: Seq<char>, c: JsonValue) -> Seq<char> {
    label + ": "@ + decimal(count_field(c, "connections"@) as nat) + " connections, "@ + decimal(
        count_field(c, "pages_with_content"@) as nat,
    ) + " pages, "@ + decimal(count_field(c, "buttons"@) as nat) + " buttons, "@ + decimal(
        count_field(c, "triggers"@) as nat,
    ) + " triggers"@
}

/// The log text of an event: its `message`, else the counts of a snapshot
/// event, else "(no message)".
pub open spec fn message_of(v: JsonValue) -> Seq<char> {
    match get_str(v, "message"@) {
        Some(m) => m,
        None => if kind_of(v) == "safety_pre"@ {
            snapshot_line("Pre-upgrade snapshot"@, counts_member(v))
        } else if kind_of(v) == "safety_post"@ {
            snapshot_line("Post-upgrade snapshot"@, counts_member(v))
        } else {
            "(no message)"@
        },
    }
}

/// The `(kind, text)` log line of the event in `data`, or nothing when
/// `data` is not JSON.
pub open spec fn event_line(data: Seq<u8>) -> Option<(Seq<char>, Seq<char>)> {
    match parsed_json(data) {
        Ok(v) => Some((kind_of(v), message_of(v))),
        Err(_) => None,
    }
}

fn counts_line(label: &str, c: &JsonValue) -> (r: String)
    ensures
        r@ == snapshot_line(label@, *c),
{
    let connections = number_or_zero(c, "connections");
    let pages = number_or_zero(c, "pages_with_content");
    let buttons = number_or_zero(c, "buttons");
    let triggers = number_or_zero(c, "triggers");
    let mut out = String::from_str(label);
    out.append(": ");
    let t = decimal_string(connections);
    out.append(t.as_str());
    out.append(" connections, ");
    let t = decimal_string(pages);
    out.append(t.as_str());
    out.append(" pages, ");
    let t = decimal_string(buttons);
    out.append(t.as_str());
    out.append(" buttons, ");
    let t = decimal_string(triggers);
    out.append(t.as_str());
    out.append(" triggers");
    out
}

fn number_or_zero(c: &JsonValue, key: &str) -> (n: u64)
    ensures
        n == count_field(*c, key@),
{
    match json_get(c, key) {
        Some(JsonValue::Number(Some(n))) => *n,
        _ => 0,
    }
}

fn text_member(v: &JsonValue, key: &str) -> (r: Option<String>)
    ensures
        match r {
            Some(s) => get_str(*v, key@) == Some(s@),
            None => get_str(*v, key@) is None,
        },
{
    match json_get(v, key) {
        Some(JsonValue::Str(s)) => Some(s.clone()),
        _ => None,
    }
}

/// The `(kind, text)` log line of one parsed event of the update stream.
pub fn event_line_of(v: &JsonValue) -> (r: (String, String))
    ensures
        r.0@ == kind_of(*v),
        r.1@ == message_of(*v),
{
    let kind = match text_member(v, "type") {
        Some(k) => k,
        None => String::new(),
    };
    let message = match text_member(v, "message") {
        Some(m) => m,
        None => {
            let pre = same_text(kind.as_str(), "safety_pre");
            let post = same_text(kind.as_str(), "safety_post");
            if pre || post {
                let null = JsonValue::Null;
                let counts = match json_get(v, "counts") {
                    Some(c) => c,
                    None => &null,
                };
                if pre {
                    counts_line("Pre-upgrade snapshot", counts)
                } else {
                    counts_line("Post-upgrade snapshot", counts)
                }
            } else {
                String::from_str("(no message)")
            }
        },
    };
    (kind, message)
}

/// The `(kind, text)` log line of one event of the update stream, or
/// nothing when `data` is not JSON.
pub fn describe_event(data: &str) -> (r: Option<(String, String)>)
    ensures
        match r {
            Some((k, m)) => event_line(data.spec_bytes()) == Some((k@, m@)),
            None => event_line(data.spec_bytes()) is None,
        },
{
    match parse_json(data.as_bytes()) {
        Ok(v) => Some(event_line_of(&v)),
        Err(_) => None,
    }
}

/// An event of this kind ends the stream.
pub open spec fn terminal_kind(kind: Seq<char>) -> bool {
    kind == "complete"@ || kind == "error"@ || kind == "safety_rollback"@
}

/// Whether an event of this kind ends the stream.
pub fn is_terminal(kind: &str) -> (b: bool)
    ensures
        b == terminal_kind(kind@),
{
    same_text(kind, "complete") || same_text(kind, "error") || same_text(kind, "safety_rollback")
}

/// Once a status has arrived and no update is going, the button reads
/// "Up to Date" exactly when no update is available, whatever the cooldown
/// and `can_update` say: an up-to-date install is never shown a cooldown.
pub proof fn law_up_to_date_caption(status: Status)
    ensures
        !status.update_available ==> label_of(false, Some(status)) == "Up to Date"@,
        label_of(false, Some(status)) == "Up to Date"@ <==> !status.update_available,
{
    reveal_strlit("Up to Date");
    reveal_strlit("Cooldown: ");
    reveal_strlit("Update Now");
    if status.update_available {
        let l = label_of(false, Some(status));
        if !status.can_update && status.cooldown_remaining > 0 {
            let head = "Cooldown: "@;
            let rest = decimal(status.cooldown_remaining as nat) + "s"@;
            assert(l == head + decimal(status.cooldown_remaining as nat) + "s"@);
            assert(head + decimal(status.cooldown_remaining as nat) + "s"@ =~= head + rest);
            assert((head + rest)[2] == head[2]);
        }
        assert(l[2] != "Up to Date"@[2]);
    }
}

} // verus!
