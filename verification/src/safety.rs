//! Pre/post upgrade safety: count the critical entities of a Companion
//! export, compare two counts, and tell when anything was lost.
//!
//! This module is intentionally count-only: full diffs are noisy and
//! version-fragile, while counts catch a migration that silently drops
//! buttons.
use vstd::prelude::*;

use crate::json::{
    get, json_get, json_object_size, object_size, opt_val, parse_json, parsed_json, JsonValue,
};

verus! {

/// Counts of entities in a `.companionconfig` export.
#[derive(Clone, Copy, Debug, PartialEq, Eq, Structural)]
pub struct Counts {
    pub connections: usize,
    pub pages_with_content: usize,
    pub buttons: usize,
    pub triggers: usize,
}

/// All four counts are zero.
pub open spec fn is_zero(c: Counts) -> bool {
    c.connections == 0 && c.pages_with_content == 0 && c.buttons == 0 && c.triggers == 0
}

/// `a - b`, or 0 when `b` is larger.
pub open spec fn clamped_sub(a: usize, b: usize) -> usize {
    if a > b {
        (a - b) as usize
    } else {
        0
    }
}

/// Some field of `post` is below the same field of `pre`.
pub open spec fn decreased(pre: Counts, post: Counts) -> bool {
    ||| post.connections < pre.connections
    ||| post.pages_with_content < pre.pages_with_content
    ||| post.buttons < pre.buttons
    ||| post.triggers < pre.triggers
}

/// How many of each entity `pre` has that `post` does not.
pub open spec fn loss(pre: Counts, post: Counts) -> Counts {
    Counts {
        connections: clamped_sub(pre.connections, post.connections),
        pages_with_content: clamped_sub(pre.pages_with_content, post.pages_with_content),
        buttons: clamped_sub(pre.buttons, post.buttons),
        triggers: clamped_sub(pre.triggers, post.triggers),
    }
}

impl Default for Counts {
    fn default() -> (c: Counts)
        ensures
            is_zero(c),
    {
        Counts { connections: 0, pages_with_content: 0, buttons: 0, triggers: 0 }
    }
}

impl Counts {
    /// `true` if any field in `post` is strictly less than the same field in `self`.
    pub fn any_decreased(&self, post: &Counts) -> (b: bool)
        ensures
            b == decreased(*self, *post),
    {
        post.connections < self.connections || post.pages_with_content < self.pages_with_content
            || post.buttons < self.buttons || post.triggers < self.triggers
    }

    /// Per-field difference: `self - post` (i.e., how many were lost).
    /// Negative deltas (gains) are clamped to 0.
    pub fn lost(&self, post: &Counts) -> (c: Counts)
        ensures
            c == loss(*self, *post),
    {
        Counts {
            connections: self.connections.saturating_sub(post.connections),
            pages_with_content: self.pages_with_content.saturating_sub(post.pages_with_content),
            buttons: self.buttons.saturating_sub(post.buttons),
            triggers: self.triggers.saturating_sub(post.triggers),
        }
    }
}

/// The safety gate fires exactly when something was lost: a count decreased
/// if and only if the per-field loss is not all zeros.
pub proof fn law_decrease_iff_loss(pre: Counts, post: Counts)
    ensures
        decreased(pre, post) <==> !is_zero(loss(pre, post)),
{
}

/// Comparing a snapshot with itself finds nothing decreased and nothing lost.
pub proof fn law_nothing_lost_unchanged(c: Counts)
    ensures
        !decreased(c, c),
        is_zero(loss(c, c)),
{
}

/// What was lost and what was gained never overlap: in each field at most
/// one of `loss(pre, post)` and `loss(post, pre)` is non-zero.
pub proof fn law_loss_and_gain_disjoint(pre: Counts, post: Counts)
    ensures
        loss(pre, post).connections == 0 || loss(post, pre).connections == 0,
        loss(pre, post).pages_with_content == 0 || loss(post, pre).pages_with_content == 0,
        loss(pre, post).buttons == 0 || loss(post, pre).buttons == 0,
        loss(pre, post).triggers == 0 || loss(post, pre).triggers == 0,
{
}

// ---------------------------------------------------------------------------
// Counting an export
// ---------------------------------------------------------------------------
/// The page entries of an export: the elements of `pages` when it is an
/// array, its member values when it is an object, none otherwise.
pub open spec fn pages_of(v: JsonValue) -> Seq<JsonValue> {
    match get(v, "pages"@) {
        Some(JsonValue::Array(a)) => a@,
        Some(JsonValue::Object(m)) => m@.map_values(|e: (String, JsonValue)| e.1),
        _ => Seq::empty(),
    }
}

/// Number of columns in one row of a page's `controls`.
pub open spec fn row_width(row: JsonValue) -> nat {
    match row {
        JsonValue::Object(cols) => cols@.len(),
        _ => 0,
    }
}

/// Total columns over the rows of `controls`.
pub open spec fn rows_width(rows: Seq<(String, JsonValue)>) -> nat
    decreases rows.len(),
{
    if rows.len() == 0 {
        0
    } else {
        rows_width(rows.drop_last()) + row_width(rows.last().1)
    }
}

/// Buttons on one page: the columns of its `controls` object.
pub open spec fn page_buttons(page: JsonValue) -> nat {
    match get(page, "controls"@) {
        Some(JsonValue::Object(rows)) => rows_width(rows@),
        _ => 0,
    }
}

/// Pages that hold at least one button.
pub open spec fn content_pages(pages: Seq<JsonValue>) -> nat
    decreases pages.len(),
{
    if pages.len() == 0 {
        0
    } else {
        content_pages(pages.drop_last()) + if page_buttons(pages.last()) > 0 {
            1nat
        } else {
            0nat
        }
    }
}

/// Buttons over all pages.
pub open spec fn button_total(pages: Seq<JsonValue>) -> nat
    decreases pages.len(),
{
    if pages.len() == 0 {
        0
    } else {
        button_total(pages.drop_last()) + page_buttons(pages.last())
    }
}

/// The button total of export `v` fits in a `usize`.
pub open spec fn countable(v: JsonValue) -> bool {
    button_total(pages_of(v)) <= usize::MAX
}

/// The counts of export `v`.
pub open spec fn counts_of(v: JsonValue) -> Counts {
    Counts {
        connections: object_size(get(v, "instances"@)) as usize,
        pages_with_content: content_pages(pages_of(v)) as usize,
        buttons: button_total(pages_of(v)) as usize,
        triggers: object_size(get(v, "triggers"@)) as usize,
    }
}

proof fn lemma_content_pages_bounded(pages: Seq<JsonValue>)
    ensures
        content_pages(pages) <= pages.len(),
    decreases pages.len(),
{
    if pages.len() > 0 {
        lemma_content_pages_bounded(pages.drop_last());
    }
}

/// Buttons on one page, or nothing when the total does not fit in a `usize`.
fn page_button_count(page: &JsonValue) -> (r: Option<usize>)
    ensures
        r == (if page_buttons(*page) <= usize::MAX {
            Some(page_buttons(*page) as usize)
        } else {
            None::<usize>
        }),
{
    let controls = json_get(page, "controls");
    match controls {
        Some(JsonValue::Object(rows)) => {
            let mut total: usize = 0;
            let mut i: usize = 0;
            assert(rows@.take(0) =~= Seq::<(String, JsonValue)>::empty());
            while i < rows.len()
                invariant
                    i <= rows.len(),
                    page_buttons(*page) == rows_width(rows@),
                    total == rows_width(rows@.take(i as int)),
                decreases rows.len() - i,
            {
                assert(rows@.take(i + 1).drop_last() =~= rows@.take(i as int));
                let width: usize = match &rows[i].1 {
                    JsonValue::Object(cols) => cols.len(),
                    _ => 0,
                };
                assert(rows_width(rows@.take(i + 1)) == total + width);
                if width > usize::MAX - total {
                    proof {
                        lemma_rows_width_monotone(rows@, i as int + 1);
                    }
                    return None;
                }
                total = total + width;
                i = i + 1;
            }
            assert(rows@.take(rows.len() as int) =~= rows@);
            Some(total)
        },
        _ => Some(0),
    }
}

proof fn lemma_rows_width_monotone(rows: Seq<(String, JsonValue)>, k: int)
    requires
        0 <= k <= rows.len(),
    ensures
        rows_width(rows.take(k)) <= rows_width(rows),
    decreases rows.len() - k,
{
    if k < rows.len() {
        lemma_rows_width_monotone(rows, k + 1);
        assert(rows.take(k + 1).drop_last() =~= rows.take(k));
    } else {
        assert(rows.take(k) =~= rows);
    }
}

proof fn lemma_button_total_monotone(pages: Seq<JsonValue>, k: int)
    requires
        0 <= k <= pages.len(),
    ensures
        button_total(pages.take(k)) <= button_total(pages),
    decreases pages.len() - k,
{
    if k < pages.len() {
        lemma_button_total_monotone(pages, k + 1);
        assert(pages.take(k + 1).drop_last() =~= pages.take(k));
    } else {
        assert(pages.take(k) =~= pages);
    }
}

/// Tally of `(pages_with_content, buttons)` over page entries, extended by
/// one page.
fn add_page(
    acc: (usize, usize),
    page: &JsonValue,
    Ghost(seen): Ghost<Seq<JsonValue>>,
) -> (r: Option<(usize, usize)>)
    requires
        acc.0 as nat == content_pages(seen),
        acc.1 as nat == button_total(seen),
        content_pages(seen) <= seen.len(),
        seen.len() < usize::MAX,
    ensures
        button_total(seen.push(*page)) <= usize::MAX ==> r == Some(
            (
                content_pages(seen.push(*page)) as usize,
                button_total(seen.push(*page)) as usize,
            ),
        ),
        button_total(seen.push(*page)) > usize::MAX ==> r is None,
{
    assert(seen.push(*page).drop_last() =~= seen);
    match page_button_count(page) {
        None => None,
        Some(n) => {
            if n > usize::MAX - acc.1 {
                None
            } else if n > 0 {
                Some((acc.0 + 1, acc.1 + n))
            } else {
                Some((acc.0, acc.1))
            }
        },
    }
}

/// `(pages_with_content, buttons)` of an export, or nothing when the button
/// total does not fit in a `usize`.
pub fn count_pages(v: &JsonValue) -> (r: Option<(usize, usize)>)
    ensures
        r == (if countable(*v) {
            Some((content_pages(pages_of(*v)) as usize, button_total(pages_of(*v)) as usize))
        } else {
            None::<(usize, usize)>
        }),
{
    let pages = json_get(v, "pages");
    let mut acc: (usize, usize) = (0, 0);
    match pages {
        Some(JsonValue::Array(a)) => {
            let mut i: usize = 0;
            while i < a.len()
                invariant
                    i <= a.len(),
                    pages_of(*v) == a@,
                    acc.0 as nat == content_pages(a@.take(i as int)),
                    acc.1 as nat == button_total(a@.take(i as int)),
                decreases a.len() - i,
            {
                proof {
                    lemma_content_pages_bounded(a@.take(i as int));
                    lemma_content_pages_bounded(a@.take(i + 1));
                    assert(a@.take(i as int).push(a@[i as int]) =~= a@.take(i + 1));
                }
                match add_page(acc, &a[i], Ghost(a@.take(i as int))) {
                    None => {
                        proof {
                            lemma_button_total_monotone(a@, i + 1);
                        }
                        return None;
                    },
                    Some(next) => {
                        acc = next;
                    },
                }
                i = i + 1;
            }
            assert(a@.take(a.len() as int) =~= a@);
            Some(acc)
        },
        Some(JsonValue::Object(m)) => {
            let ghost entries = m@.map_values(|e: (String, JsonValue)| e.1);
            let mut i: usize = 0;
            while i < m.len()
                invariant
                    i <= m.len(),
                    entries == m@.map_values(|e: (String, JsonValue)| e.1),
                    pages_of(*v) == entries,
                    acc.0 as nat == content_pages(entries.take(i as int)),
                    acc.1 as nat == button_total(entries.take(i as int)),
                decreases m.len() - i,
            {
                proof {
                    lemma_content_pages_bounded(entries.take(i as int));
                    lemma_content_pages_bounded(entries.take(i + 1));
                    assert(entries.take(i as int).push(m@[i as int].1) =~= entries.take(i + 1));
                }
                match add_page(acc, &m[i].1, Ghost(entries.take(i as int))) {
                    None => {
                        proof {
                            lemma_button_total_monotone(entries, i + 1);
                        }
                        return None;
                    },
                    Some(next) => {
                        acc = next;
                    },
                }
                i = i + 1;
            }
            assert(entries.take(m.len() as int) =~= entries);
            Some(acc)
        },
        _ => {
            assert(pages_of(*v) =~= Seq::<JsonValue>::empty());
            Some((0, 0))
        },
    }
}

/// The counts of an export, or nothing when its button total does not fit
/// in a `usize`.
pub fn counts_of_value(v: &JsonValue) -> (r: Option<Counts>)
    ensures
        r == (if countable(*v) {
            Some(counts_of(*v))
        } else {
            None::<Counts>
        }),
{
    let connections = json_object_size(json_get(v, "instances"));
    let triggers = json_object_size(json_get(v, "triggers"));
    match count_pages(v) {
        None => None,
        Some((pages_with_content, buttons)) => Some(
            Counts { connections, pages_with_content, buttons, triggers },
        ),
    }
}

/// `x` is absent or an object.
pub open spec fn absent_or_object(x: Option<JsonValue>) -> bool {
    match x {
        None => true,
        Some(JsonValue::Object(_)) => true,
        _ => false,
    }
}

/// `x` is absent, an array or an object.
pub open spec fn absent_or_collection(x: Option<JsonValue>) -> bool {
    match x {
        None => true,
        Some(JsonValue::Array(_)) => true,
        Some(JsonValue::Object(_)) => true,
        _ => false,
    }
}

/// Why `v` is not an export in the format that is counted, or nothing when
/// it is: the top level is an object, `instances` and `triggers` are objects
/// where present, and `pages` is an array or an object where present. A
/// missing section is no fault: it counts as empty.
pub open spec fn shape_error(v: JsonValue) -> Option<Seq<char>> {
    if !(v is Object) {
        Some("companionconfig is not a JSON object"@)
    } else if !absent_or_object(get(v, "instances"@)) {
        Some("companionconfig instances section is not an object"@)
    } else if !absent_or_collection(get(v, "pages"@)) {
        Some("companionconfig pages section is neither an array nor an object"@)
    } else if !absent_or_object(get(v, "triggers"@)) {
        Some("companionconfig triggers section is not an object"@)
    } else {
        None
    }
}

fn absent_or_object_exec(x: Option<&JsonValue>) -> (r: bool)
    ensures
        r == absent_or_object(opt_val(x)),
{
    match x {
        None => true,
        Some(JsonValue::Object(_)) => true,
        _ => false,
    }
}

/// The reason `v` is not an export in the format that is counted, or
/// nothing when it is.
pub fn export_shape_error(v: &JsonValue) -> (r: Option<String>)
    ensures
        r is None <==> shape_error(*v) is None,
        r matches Some(m) ==> shape_error(*v) == Some(m@),
{
    let is_object = match v {
        JsonValue::Object(_) => true,
        _ => false,
    };
    if !is_object {
        return Some(String::from_str("companionconfig is not a JSON object"));
    }
    if !absent_or_object_exec(json_get(v, "instances")) {
        return Some(String::from_str("companionconfig instances section is not an object"));
    }
    let pages_ok = match json_get(v, "pages") {
        None => true,
        Some(JsonValue::Array(_)) => true,
        Some(JsonValue::Object(_)) => true,
        _ => false,
    };
    if !pages_ok {
        return Some(
            String::from_str("companionconfig pages section is neither an array nor an object"),
        );
    }
    if !absent_or_object_exec(json_get(v, "triggers")) {
        return Some(String::from_str("companionconfig triggers section is not an object"));
    }
    None
}

/// The counts of the export in `bytes`, when they parse, are in the format
/// that is counted, and can be counted.
pub open spec fn export_counts(bytes: Seq<u8>) -> Option<Counts> {
    match parsed_json(bytes) {
        Ok(v) => if shape_error(v) is None && countable(v) {
            Some(counts_of(v))
        } else {
            None
        },
        Err(_) => None,
    }
}

/// The message [`count_from_json`] fails with on `bytes`, or nothing when it
/// counts them.
pub open spec fn count_error_of(bytes: Seq<u8>) -> Option<Seq<char>> {
    match parsed_json(bytes) {
        Err(e) => Some("parse companionconfig: "@ + e),
        Ok(v) => match shape_error(v) {
            Some(e) => Some(e),
            None => if countable(v) {
                None
            } else {
                Some("companionconfig holds more buttons than a usize can count"@)
            },
        },
    }
}

/// Parse a Companion `.companionconfig` JSON byte stream and compute `Counts`.
///
/// Schema (Companion v4.3, observed in real exports):
///   { "instances": { ... },                 // map of connection id -> spec
///     "pages":     [ ... ] | { ... },       // list or map of page entries
///     "triggers":  { ... } }                // map of trigger id -> spec
///
/// Each page entry contains a `controls` map (row -> col -> bank id). A page
/// "has content" if `controls` has at least one row with at least one column.
///
/// An export in another format is refused with an error naming what is out
/// of place, rather than counted as empty; a section that is missing counts
/// as empty.
pub fn count_from_json(json: &[u8]) -> (res: Result<Counts, String>)
    ensures
        res is Ok <==> export_counts(json@) is Some,
        res matches Ok(c) ==> export_counts(json@) == Some(c),
        res matches Ok(c) ==> parsed_json(json@) matches Ok(v) && c == counts_of(v),
        res matches Err(m) ==> count_error_of(json@) == Some(m@),
        export_counts(json@) is None <==> count_error_of(json@) is Some,
{
    match parse_json(json) {
        Err(e) => {
            let mut msg = String::from_str("parse companionconfig: ");
            msg.append(e.as_str());
            Err(msg)
        },
        Ok(v) => match export_shape_error(&v) {
            Some(m) => Err(m),
            None => match counts_of_value(&v) {
                Some(c) => Ok(c),
                None => Err(
                    String::from_str("companionconfig holds more buttons than a usize can count"),
                ),
            },
        },
    }
}

/// Every count that went down is data lost: a drop in any one field, the
/// triggers as much as the buttons, makes the comparison report a decrease,
/// and the loss in that field is exactly the drop; a field that held or grew
/// loses nothing, and when every field held or grew nothing decreased.
pub proof fn law_every_drop_is_lost(pre: Counts, post: Counts)
    ensures
        post.connections < pre.connections ==> decreased(pre, post) && loss(pre, post).connections
            == pre.connections - post.connections,
        post.pages_with_content < pre.pages_with_content ==> decreased(pre, post) && loss(
            pre,
            post,
        ).pages_with_content == pre.pages_with_content - post.pages_with_content,
        post.buttons < pre.buttons ==> decreased(pre, post) && loss(pre, post).buttons
            == pre.buttons - post.buttons,
        post.triggers < pre.triggers ==> decreased(pre, post) && loss(pre, post).triggers
            == pre.triggers - post.triggers,
        post.connections >= pre.connections ==> loss(pre, post).connections == 0,
        post.pages_with_content >= pre.pages_with_content ==> loss(pre, post).pages_with_content
            == 0,
        post.buttons >= pre.buttons ==> loss(pre, post).buttons == 0,
        post.triggers >= pre.triggers ==> loss(pre, post).triggers == 0,
        (post.connections >= pre.connections && post.pages_with_content >= pre.pages_with_content
            && post.buttons >= pre.buttons && post.triggers >= pre.triggers) ==> !decreased(
            pre,
            post,
        ),
{
}

} // verus!
