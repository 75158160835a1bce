//! Deciding what an update run did, and the events it reports.
use std::cmp::Ordering;
use vstd::prelude::*;

use crate::safety::Counts;
use crate::text::{chars_of, is_white_space, occurs, occurs_in, white_space};
use crate::version::{compare, formatted, is_update_available, law_compare_total, parse, version_eq, version_lt, version_parts};

verus! {

/// One event of an update run, as the dashboard receives it.
#[derive(Clone, Debug)]
pub enum UpdateEvent {
    Progress { message: String },
    Complete { message: String, diff: Option<Counts> },
    Error { message: String },
    SafetyPre { counts: Counts },
    SafetyPost { counts: Counts },
    SafetyRollback { message: String, lost: Counts },
}

/// An [`UpdateEvent`] with its texts as character sequences.
pub enum EventModel {
    Progress(Seq<char>),
    Complete(Seq<char>, Option<Counts>),
    Error(Seq<char>),
    SafetyPre(Counts),
    SafetyPost(Counts),
    SafetyRollback(Seq<char>, Counts),
}

impl View for UpdateEvent {
    type V = EventModel;

    open spec fn view(&self) -> EventModel {
        match self {
            UpdateEvent::Progress { message } => EventModel::Progress(message@),
            UpdateEvent::Complete { message, diff } => EventModel::Complete(message@, *diff),
            UpdateEvent::Error { message } => EventModel::Error(message@),
            UpdateEvent::SafetyPre { counts } => EventModel::SafetyPre(*counts),
            UpdateEvent::SafetyPost { counts } => EventModel::SafetyPost(*counts),
            UpdateEvent::SafetyRollback { message, lost } => EventModel::SafetyRollback(
                message@,
                *lost,
            ),
        }
    }
}

// ---------------------------------------------------------------------------
// Skip markers
// ---------------------------------------------------------------------------
/// `line` is one of the companion-pi "installed nothing" markers: it holds
/// "Skipping update", or "build was found!", or both "is already installed"
/// and "build".
pub open spec fn skip_marker(line: Seq<char>) -> bool {
    ||| occurs_in("Skipping update"@, line)
    ||| occurs_in("build was found!"@, line)
    ||| (occurs_in("is already installed"@, line) && occurs_in("build"@, line))
}

/// True when `line` is one of the companion-pi "installed nothing" markers.
///
/// `update.sh` prints "Skipping update" whenever the version picker wrote no
/// selection file, and the picker prints "No matching <branch> build was found!"
/// when its version whitelist rejects every published build, or "The latest
/// build of <branch> (<version>) is already installed". All three exit 0, so the
/// exit status alone cannot tell success from a silent no-op.
///
/// The "already installed" phrase is only accepted together with "build", so
/// ordinary apt/npm chatter inside update.sh ("libfontconfig1 is already
/// installed") does not match.
pub fn is_skip_marker(line: &str) -> (b: bool)
    ensures
        b == skip_marker(line@),
{
    let text = chars_of(line);
    let skipping = chars_of("Skipping update");
    let no_build = chars_of("build was found!");
    let installed = chars_of("is already installed");
    let build = chars_of("build");
    occurs(&skipping, &text) || occurs(&no_build, &text) || (occurs(&installed, &text) && occurs(
        &build,
        &text,
    ))
}

// ---------------------------------------------------------------------------
// Outcome of a run
// ---------------------------------------------------------------------------
/// `format!("{:?}", s)`: the `Debug` text of a string, a function of the
/// string alone.
pub uninterp spec fn debug_text(s: Seq<char>) -> Seq<char>;

/// The `Debug` rendering of `s` (`format!("{s:?}")`), which quotes and
/// escapes it; its result is named, not described.
#[verifier::external_body]
fn debug_quoted(s: &str) -> (res: String)
    ensures
        res@ == debug_text(s@),
{
    format!("{s:?}")
}

/// `a` followed by `b`.
pub fn join(a: &str, b: &str) -> (res: String)
    ensures
        res@ == a@ + b@,
{
    let mut out = String::from_str(a);
    out.append(b);
    out
}

/// What actually happened to `/opt/companion` during a run.
#[derive(Debug, Clone, PartialEq, Eq)]
pub enum Outcome {
    /// The installed version went up: the upgrade landed. Carries a note when
    /// the new version is still behind the latest advertised build.
    Applied { still_behind: Option<String> },
    /// Nothing changed, and nothing needed to: we already run the newest build.
    AlreadyLatest,
    /// The run cannot be called a success. The reason is in the message.
    Failed(String),
}

/// An [`Outcome`] with its texts as character sequences.
pub enum OutcomeModel {
    Applied(Option<Seq<char>>),
    AlreadyLatest,
    Failed(Seq<char>),
}

impl View for Outcome {
    type V = OutcomeModel;

    open spec fn view(&self) -> OutcomeModel {
        match self {
            Outcome::Applied { still_behind } => OutcomeModel::Applied(
                match still_behind {
                    Some(s) => Some(s@),
                    None => None,
                },
            ),
            Outcome::AlreadyLatest => OutcomeModel::AlreadyLatest,
            Outcome::Failed(m) => OutcomeModel::Failed(m@),
        }
    }
}

/// The characters of an optional string.
pub open spec fn opt_chars(x: Option<&str>) -> Option<Seq<char>> {
    match x {
        Some(s) => Some(s@),
        None => None,
    }
}

pub open spec fn unreadable_message(post: Seq<char>) -> Seq<char> {
    "Cannot verify the update: the installed version reads as "@ + debug_text(post)
        + ", which is not a version number. Check /opt/companion/package.json."@
}

pub open spec fn backwards_message(pre: Seq<char>, post: Seq<char>) -> Seq<char> {
    "Update went BACKWARDS: "@ + formatted(post) + " was installed over "@ + formatted(pre)
        + ". The installer picked an older build."@
}

pub open spec fn unknown_latest_message(post: Seq<char>) -> Seq<char> {
    "Cannot confirm the update: still running "@ + formatted(post)
        + " and the list of available builds could not be fetched, so there is no proof anything was installed. Check the network and try again."@
}

pub open spec fn skip_reason(skipped: bool) -> Seq<char> {
    if skipped {
        "the companion-pi installer reported it had no matching build to install (its version whitelist may not cover this release yet)"@
    } else {
        "the update script exited successfully but /opt/companion is unchanged"@
    }
}

pub open spec fn not_applied_message(post: Seq<char>, latest: Seq<char>, skipped: bool) -> Seq<
    char,
> {
    "Update did NOT apply: still running "@ + formatted(post) + " while "@ + formatted(latest)
        + " is available — "@ + skip_reason(skipped) + "."@
}

/// What a run with installed versions `pre` before and `post` after, the
/// newest advertised build `latest` (if it could be fetched), and `skipped`
/// telling whether the script printed a skip marker, amounts to. Only an
/// increase of the installed version is a success; a version that does not
/// read as one, a downgrade, or an unchanged version that is provably (or
/// possibly) behind are failures.
pub open spec fn outcome_of(
    pre: Seq<char>,
    post: Seq<char>,
    latest: Option<Seq<char>>,
    skipped: bool,
) -> OutcomeModel {
    if version_parts(post).len() == 0 {
        OutcomeModel::Failed(unreadable_message(post))
    } else if version_lt(pre, post) {
        OutcomeModel::Applied(
            match latest {
                Some(l) => if version_lt(post, l) {
                    Some(formatted(l))
                } else {
                    None
                },
                None => None,
            },
        )
    } else if version_lt(post, pre) {
        OutcomeModel::Failed(backwards_message(pre, post))
    } else {
        match latest {
            None => OutcomeModel::Failed(unknown_latest_message(post)),
            Some(l) => if version_lt(post, l) {
                OutcomeModel::Failed(not_applied_message(post, l, skipped))
            } else {
                OutcomeModel::AlreadyLatest
            },
        }
    }
}

/// Decide whether an update run actually installed anything.
///
/// `pre`/`post` are the versions read from `/opt/companion/package.json` around
/// the run; `latest` is the newest stable build Bitfocus advertises, or `None`
/// when that lookup failed; `skipped` is true when any [`is_skip_marker`] line
/// appeared in the script output.
///
/// Only an INCREASE in the installed version counts as success. Everything the
/// function cannot positively verify is a failure: a run whose result is
/// unknown must never be presented to the operator as "up to date".
pub fn classify_outcome(pre: &str, post: &str, latest: Option<&str>, skipped: bool) -> (o:
    Outcome)
    ensures
        o@ == outcome_of(pre@, post@, opt_chars(latest), skipped),
{
    if parse(post).len() == 0 {
        let mut m = String::from_str("Cannot verify the update: the installed version reads as ");
        let d = debug_quoted(post);
        m.append(d.as_str());
        m.append(", which is not a version number. Check /opt/companion/package.json.");
        return Outcome::Failed(m);
    }
    proof {
        law_compare_total(pre@, post@);
    }
    match compare(pre, post) {
        Ordering::Less => {
            let still_behind = match latest {
                Some(l) => if is_update_available(post, l) {
                    Some(crate::version::format(l))
                } else {
                    None
                },
                None => None,
            };
            Outcome::Applied { still_behind }
        },
        Ordering::Greater => {
            let mut m = String::from_str("Update went BACKWARDS: ");
            let fpost = crate::version::format(post);
            let fpre = crate::version::format(pre);
            m.append(fpost.as_str());
            m.append(" was installed over ");
            m.append(fpre.as_str());
            m.append(". The installer picked an older build.");
            Outcome::Failed(m)
        },
        Ordering::Equal => match latest {
            None => {
                let mut m = String::from_str("Cannot confirm the update: still running ");
                let fpost = crate::version::format(post);
                m.append(fpost.as_str());
                m.append(
                    " and the list of available builds could not be fetched, so there is no proof anything was installed. Check the network and try again.",
                );
                Outcome::Failed(m)
            },
            Some(l) => {
                if is_update_available(post, l) {
                    let reason = if skipped {
                        "the companion-pi installer reported it had no matching build to install (its version whitelist may not cover this release yet)"
                    } else {
                        "the update script exited successfully but /opt/companion is unchanged"
                    };
                    let mut m = String::from_str("Update did NOT apply: still running ");
                    let fpost = crate::version::format(post);
                    let fl = crate::version::format(l);
                    m.append(fpost.as_str());
                    m.append(" while ");
                    m.append(fl.as_str());
                    m.append(" is available — ");
                    m.append(reason);
                    m.append(".");
                    Outcome::Failed(m)
                } else {
                    Outcome::AlreadyLatest
                }
            },
        },
    }
}

/// Only an increase of the installed version, or an unchanged version that
/// is provably the newest build, counts as success; an unknown latest build
/// never turns an unchanged version into "up to date"; and a skip marker only
/// changes the wording of a failure, never whether the run failed.
pub proof fn law_success_needs_proof(
    pre: Seq<char>,
    post: Seq<char>,
    latest: Option<Seq<char>>,
    skipped: bool,
)
    ensures
        outcome_of(pre, post, latest, skipped) is Applied ==> version_lt(pre, post)
            && version_parts(post).len() > 0,
        outcome_of(pre, post, latest, skipped) is AlreadyLatest ==> version_eq(pre, post) && (
        latest matches Some(l) && !version_lt(post, l)),
        latest is None && version_eq(pre, post) ==> outcome_of(pre, post, latest, skipped) is Failed,
        version_lt(post, pre) ==> outcome_of(pre, post, latest, skipped) is Failed,
        (outcome_of(pre, post, latest, true) is Failed) == (outcome_of(
            pre,
            post,
            latest,
            false,
        ) is Failed),
{
    law_compare_total(pre, post);
}

// ---------------------------------------------------------------------------
// Output of the companion-pi checkout update
// ---------------------------------------------------------------------------
/// `s.split_inclusive('\n')`: the pieces of `s`, each ending in its `\n`
/// except perhaps the last; none for an empty `s`.
pub open spec fn split_inclusive_nl(s: Seq<char>) -> Seq<Seq<char>>
    decreases s.len(),
{
    if s.len() == 0 {
        Seq::empty()
    } else {
        let init = split_inclusive_nl(s.drop_last());
        if init.len() > 0 && init.last().last() != '\n' {
            init.update(init.len() - 1, init.last().push(s.last()))
        } else {
            init.push(seq![s.last()])
        }
    }
}

/// A piece without its `\n` and a `\r` just before it, as `str::lines`
/// yields it.
pub open spec fn line_body(p: Seq<char>) -> Seq<char> {
    if p.len() > 0 && p.last() == '\n' {
        let q = p.drop_last();
        if q.len() > 0 && q.last() == '\r' {
            q.drop_last()
        } else {
            q
        }
    } else {
        p
    }
}

/// Every character of `p` is whitespace (`p.trim().is_empty()`).
pub open spec fn is_blank(p: Seq<char>) -> bool {
    forall|i: int| 0 <= i < p.len() ==> #[trigger] is_white_space(p[i])
}

/// The lines of `pieces` that are not blank, in order.
pub open spec fn kept_lines(pieces: Seq<Seq<char>>) -> Seq<Seq<char>>
    decreases pieces.len(),
{
    if pieces.len() == 0 {
        Seq::empty()
    } else {
        let init = kept_lines(pieces.drop_last());
        if is_blank(line_body(pieces.last())) {
            init
        } else {
            init.push(line_body(pieces.last()))
        }
    }
}

/// The lines of `text` (`str::lines`) that are not blank.
pub open spec fn nonblank_lines(text: Seq<char>) -> Seq<Seq<char>> {
    kept_lines(split_inclusive_nl(text))
}

/// The texts of a list of strings.
pub open spec fn texts(v: Seq<String>) -> Seq<Seq<char>> {
    v.map_values(|s: String| s@)
}

fn blank_range(v: &Vec<char>, lo: usize, hi: usize) -> (b: bool)
    requires
        lo <= hi <= v.len(),
    ensures
        b == is_blank(v@.subrange(lo as int, hi as int)),
{
    let mut i = lo;
    while i < hi
        invariant
            lo <= i <= hi <= v.len(),
            forall|k: int| lo <= k < i ==> is_white_space(v@[k]),
        decreases hi - i,
    {
        if !white_space(v[i]) {
            assert(v@.subrange(lo as int, hi as int)[i - lo] == v@[i as int]);
            return false;
        }
        i = i + 1;
    }
    assert forall|k: int| 0 <= k < hi - lo implies #[trigger] is_white_space(
        v@.subrange(lo as int, hi as int)[k],
    ) by {
        assert(v@.subrange(lo as int, hi as int)[k] == v@[lo + k]);
    }
    true
}

/// Appends the line `v[lo..hi]` of `text` to `out` unless it is blank.
fn keep_line(text: &str, v: &Vec<char>, lo: usize, hi: usize, out: &mut Vec<String>)
    requires
        v@ == text@,
        lo <= hi <= v.len(),
    ensures
        texts(final(out)@) == if is_blank(v@.subrange(lo as int, hi as int)) {
            texts(old(out)@)
        } else {
            texts(old(out)@).push(v@.subrange(lo as int, hi as int))
        },
{
    if !blank_range(v, lo, hi) {
        let line = String::from_str(text.substring_char(lo, hi));
        out.push(line);
        assert(texts(final(out)@) =~= texts(old(out)@).push(v@.subrange(lo as int, hi as int)));
    }
}

/// The lines of `text` (as `str::lines` splits it) that are not blank.
pub fn nonblank_lines_of(text: &str) -> (r: Vec<String>)
    ensures
        texts(r@) == nonblank_lines(text@),
{
    let v = chars_of(text);
    let n = v.len();
    let mut out: Vec<String> = Vec::new();
    let mut st: usize = 0;
    let mut i: usize = 0;
    assert(v@.take(0) =~= Seq::<char>::empty());
    assert(texts(out@) =~= Seq::<Seq<char>>::empty());
    while i < n
        invariant
            n == v.len(),
            v@ == text@,
            st <= i <= n,
            st < i ==> split_inclusive_nl(v@.take(i as int)).len() > 0 && split_inclusive_nl(
                v@.take(i as int),
            ).last() == v@.subrange(st as int, i as int) && v@[i - 1] != '\n' && texts(out@)
                == kept_lines(split_inclusive_nl(v@.take(i as int)).drop_last()),
            st == i ==> (split_inclusive_nl(v@.take(i as int)).len() == 0 || split_inclusive_nl(
                v@.take(i as int),
            ).last().last() == '\n') && texts(out@) == kept_lines(
                split_inclusive_nl(v@.take(i as int)),
            ),
        decreases n - i,
    {
        let c = v[i];
        let ghost pieces = split_inclusive_nl(v@.take(i as int));
        let ghost next = split_inclusive_nl(v@.take(i + 1));
        proof {
            assert(v@.take(i + 1).drop_last() =~= v@.take(i as int));
            assert(v@.take(i + 1).last() == c);
        }
        if st < i {
            proof {
                assert(pieces.last().last() == v@[i - 1]);
                assert(next == pieces.update(pieces.len() - 1, pieces.last().push(c)));
                assert(pieces.last().push(c) =~= v@.subrange(st as int, i + 1));
                assert(next.drop_last() =~= pieces.drop_last());
            }
            if c == '\n' {
                let end = if i > st && v[i - 1] == '\r' {
                    i - 1
                } else {
                    i
                };
                proof {
                    let piece = v@.subrange(st as int, i + 1);
                    assert(piece.drop_last() =~= v@.subrange(st as int, i as int));
                    if end < i {
                        assert(piece.drop_last().drop_last() =~= v@.subrange(st as int, end as int));
                    }
                    assert(line_body(piece) == v@.subrange(st as int, end as int));
                    assert(next.last() == piece);
                }
                keep_line(text, &v, st, end, &mut out);
                st = i + 1;
            }
        } else {
            proof {
                assert(next == pieces.push(seq![c]));
                assert(next.drop_last() =~= pieces);
                assert(seq![c] =~= v@.subrange(i as int, i + 1));
            }
            if c == '\n' {
                proof {
                    assert(line_body(seq![c]) =~= Seq::<char>::empty());
                    assert(is_blank(Seq::<char>::empty()));
                }
                st = i + 1;
            }
        }
        i = i + 1;
    }
    assert(v@.take(n as int) =~= v@);
    if st < n {
        proof {
            let pieces = split_inclusive_nl(v@);
            assert(line_body(pieces.last()) == pieces.last());
        }
        keep_line(text, &v, st, n, &mut out);
    }
    out
}

/// The warning sent when `git pull` of the companion-pi checkout failed with
/// exit status `status`.
pub open spec fn installer_warning(status: Seq<char>) -> Seq<char> {
    "WARNING: could not update the companion-pi installer ("@ + status
        + "). Continuing with the installed copy."@
}

/// The progress messages of a `git pull` of the companion-pi checkout: the
/// non-blank lines of its standard output, then of its standard error, then,
/// when it failed, a warning naming its exit status.
pub fn installer_messages(stdout: &str, stderr: &str, succeeded: bool, status: &str) -> (r: Vec<
    String,
>)
    ensures
        texts(r@) == nonblank_lines(stdout@) + nonblank_lines(stderr@) + if succeeded {
            Seq::<Seq<char>>::empty()
        } else {
            seq![installer_warning(status@)]
        },
{
    let mut out = nonblank_lines_of(stdout);
    let mut err = nonblank_lines_of(stderr);
    let ghost a = out@;
    let ghost b = err@;
    out.append(&mut err);
    assert(texts(out@) =~= texts(a) + texts(b));
    if !succeeded {
        let warning = join3(
            "WARNING: could not update the companion-pi installer (",
            status,
            "). Continuing with the installed copy.",
        );
        let ghost before = out@;
        out.push(warning);
        assert(texts(out@) =~= texts(before).push(installer_warning(status@)));
    } else {
        assert(texts(out@) + Seq::<Seq<char>>::empty() =~= texts(out@));
    }
    out
}

/// `a + b + c`.
pub fn join3(a: &str, b: &str, c: &str) -> (res: String)
    ensures
        res@ == a@ + b@ + c@,
{
    let mut out = String::from_str(a);
    out.append(b);
    out.append(c);
    out
}

/// What a finished run of the update script reports: when it exited
/// successfully, whether it announced that it installed nothing; otherwise
/// a failure naming the script and its exit status.
pub open spec fn script_result_of(
    script: Seq<char>,
    succeeded: bool,
    status: Seq<char>,
    skipped: bool,
) -> Result<bool, Seq<char>> {
    if succeeded {
        Ok(skipped)
    } else {
        Err(script + " exited with "@ + status)
    }
}

/// What a finished run of the update script reports, given whether it exited
/// successfully, its exit status as text, and whether a skip marker was seen.
pub fn script_result(script: &str, succeeded: bool, status: &str, skipped: bool) -> (r: Result<
    bool,
    String,
>)
    ensures
        match r {
            Ok(b) => script_result_of(script@, succeeded, status@, skipped) == Ok::<bool, Seq<char>>(b),
            Err(m) => script_result_of(script@, succeeded, status@, skipped) == Err::<bool, Seq<char>>(m@),
        },
{
    if succeeded {
        Ok(skipped)
    } else {
        Err(join3(script, " exited with ", status))
    }
}

/// An applied outcome says the installed build is still behind exactly when
/// the latest build is known and strictly newer than what is now installed,
/// and then names that build; a run that reached or passed the latest build
/// is never reported as behind.
pub proof fn law_still_behind_only_when_older(
    pre: Seq<char>,
    post: Seq<char>,
    latest: Option<Seq<char>>,
    skipped: bool,
)
    ensures
        outcome_of(pre, post, latest, skipped) is Applied <==> (version_parts(post).len() > 0
            && version_lt(pre, post)),
        outcome_of(pre, post, latest, skipped) matches OutcomeModel::Applied(behind) ==> (
        behind is Some <==> (latest is Some && version_lt(post, latest->0))),
        outcome_of(pre, post, latest, skipped) matches OutcomeModel::Applied(behind) ==> (
        behind is Some ==> behind == Some(formatted(latest->0))),
        latest matches Some(l) ==> (!version_lt(post, l) ==> !(outcome_of(
            pre,
            post,
            latest,
            skipped,
        ) matches OutcomeModel::Applied(Some(_)))),
{
}

} // verus!
