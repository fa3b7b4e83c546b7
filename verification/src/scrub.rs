//! The row scrubber: drops every result row that holds a disallowed column
//! name or a disallowed string value, whole-row and fail-closed.

use vstd::prelude::*;

use crate::discovery::FilterConfig;
use crate::text::{spec_strip_spaces, strip_spaces};

verus! {

/// One value of a dynamically shaped result row. A numeric value is carried
/// in its textual form, a nested array or object as its serialized text;
/// only `Text` values are value-filtered.
#[derive(Debug, PartialEq, Clone)]
pub enum FieldValue {
    Null,
    Bool(bool),
    Number(String),
    Text(String),
    Composite(String),
}

/// One result row of an ad-hoc query: an open mapping from column names to
/// scalar values, of arbitrary shape per query.
#[derive(Debug, PartialEq, Clone)]
pub struct DynamicRow {
    pub fields: Vec<(String, FieldValue)>,
}

/// Whether one (column, value) pair makes the scrubber drop its whole row:
/// the column name is excluded, or the value is a string whose space-stripped
/// form is excluded. Non-string values are never value-filtered.
pub open spec fn spec_field_triggers(fc: FilterConfig, field: (String, FieldValue)) -> bool {
    ||| fc.spec_should_exclude_column(field.0@)
    ||| match field.1 {
        FieldValue::Text(s) => fc.spec_should_exclude_value(spec_strip_spaces(s@)),
        _ => false,
    }
}

/// Whether the scrubber drops the row: a single disallowed field
/// contaminates the whole row.
pub open spec fn spec_row_dropped(fc: FilterConfig, row: DynamicRow) -> bool {
    exists|i: int| 0 <= i < row.fields@.len() && spec_field_triggers(fc, #[trigger] row.fields@[i])
}

/// The rows that survive scrubbing, unchanged and in their relative order.
pub open spec fn spec_scrubbed(fc: FilterConfig, rows: Seq<DynamicRow>) -> Seq<DynamicRow>
    decreases rows.len(),
{
    if rows.len() == 0 {
        Seq::empty()
    } else {
        let rest = spec_scrubbed(fc, rows.drop_last());
        if spec_row_dropped(fc, rows.last()) {
            rest
        } else {
            rest.push(rows.last())
        }
    }
}

/// What the scrubber returns: the rows untouched when no policy is
/// configured, the scrubbed rows otherwise.
pub open spec fn spec_filter_job_results(fc: FilterConfig, rows: Seq<DynamicRow>) -> Seq<
    DynamicRow,
> {
    if fc.spec_filters() is None {
        rows
    } else {
        spec_scrubbed(fc, rows)
    }
}

impl FilterConfig {
    /// Whether the row holds a disallowed column name or string value.
    fn row_disallowed(&self, row: &DynamicRow) -> (r: bool)
        ensures
            r == spec_row_dropped(*self, *row),
    {
        let mut i: usize = 0;
        while i < row.fields.len()
            invariant
                i <= row.fields@.len(),
                forall|j: int| 0 <= j < i ==> !spec_field_triggers(*self, #[trigger] row.fields@[j]),
            decreases row.fields@.len() - i,
        {
            let field = &row.fields[i];
            if self.should_exclude_column(field.0.as_str()) {
                proof {
                    assert(spec_field_triggers(*self, row.fields@[i as int]));
                }
                return true;
            }
            if let FieldValue::Text(s) = &field.1 {
                let stripped = strip_spaces(s.as_str());
                if self.should_exclude_value(stripped.as_str()) {
                    proof {
                        assert(spec_field_triggers(*self, row.fields@[i as int]));
                    }
                    return true;
                }
            }
            i += 1;
        }
        false
    }

    /// Scrubs freshly executed result rows: every row with an excluded
    /// column name, or with a string value whose space-stripped form is
    /// excluded, is dropped whole; the surviving rows pass unchanged, in
    /// order. A no-op pass-through when no policy is configured.
    pub fn filter_job_results(&self, rows: Vec<DynamicRow>) -> (r: Vec<DynamicRow>)
        ensures
            r@ == spec_filter_job_results(*self, rows@),
    {
        if !self.has_filters() {
            return rows;
        }
        let ghost orig = rows@;
        let mut rows = rows;
        let mut out: Vec<DynamicRow> = Vec::new();
        let ghost mut k: int = 0;
        while rows.len() > 0
            invariant
                0 <= k <= orig.len(),
                rows@ == orig.skip(k),
                out@ == spec_scrubbed(*self, orig.take(k)),
            decreases rows@.len(),
        {
            let row = rows.remove(0);
            proof {
                assert(row == orig[k]);
                assert(orig.take(k + 1).drop_last() =~= orig.take(k));
                assert(orig.take(k + 1).last() == orig[k]);
            }
            if !self.row_disallowed(&row) {
                out.push(row);
            }
            proof {
                k = k + 1;
                assert(rows@ =~= orig.skip(k));
            }
        }
        proof {
            assert(orig.take(orig.len() as int) =~= orig);
        }
        out
    }
}

/// Every row of the scrubbed output is one the policy keeps.
proof fn lemma_scrubbed_elements_clean(fc: FilterConfig, rows: Seq<DynamicRow>)
    ensures
        forall|k: int|
            0 <= k < spec_scrubbed(fc, rows).len() ==> !spec_row_dropped(
                fc,
                #[trigger] spec_scrubbed(fc, rows)[k],
            ),
    decreases rows.len(),
{
    if rows.len() > 0 {
        lemma_scrubbed_elements_clean(fc, rows.drop_last());
        let rest = spec_scrubbed(fc, rows.drop_last());
        if !spec_row_dropped(fc, rows.last()) {
            assert(spec_scrubbed(fc, rows) == rest.push(rows.last()));
            assert forall|k: int| 0 <= k < spec_scrubbed(fc, rows).len() implies !spec_row_dropped(
                fc,
                #[trigger] spec_scrubbed(fc, rows)[k],
            ) by {
                if k < rest.len() {
                    assert(spec_scrubbed(fc, rows)[k] == rest[k]);
                } else {
                    assert(spec_scrubbed(fc, rows)[k] == rows.last());
                }
            }
        }
    }
}

/// A dropped row value never appears in the scrubbed output.
proof fn lemma_scrubbed_omits_dropped(fc: FilterConfig, rows: Seq<DynamicRow>, row: DynamicRow)
    requires
        spec_row_dropped(fc, row),
    ensures
        !spec_scrubbed(fc, rows).contains(row),
{
    lemma_scrubbed_elements_clean(fc, rows);
    if spec_scrubbed(fc, rows).contains(row) {
        let k = choose|k: int|
            0 <= k < spec_scrubbed(fc, rows).len() && spec_scrubbed(fc, rows)[k] == row;
        assert(!spec_row_dropped(fc, spec_scrubbed(fc, rows)[k]));
    }
}

/// A kept row appears in the scrubbed output.
proof fn lemma_scrubbed_contains_kept(fc: FilterConfig, rows: Seq<DynamicRow>, i: int)
    requires
        0 <= i < rows.len(),
        !spec_row_dropped(fc, rows[i]),
    ensures
        spec_scrubbed(fc, rows).contains(rows[i]),
    decreases rows.len(),
{
    let scrubbed = spec_scrubbed(fc, rows);
    if i == rows.len() - 1 {
        assert(scrubbed[scrubbed.len() - 1] == rows[i]);
    } else {
        lemma_scrubbed_contains_kept(fc, rows.drop_last(), i);
        let rest = spec_scrubbed(fc, rows.drop_last());
        let k = choose|k: int| 0 <= k < rest.len() && rest[k] == rows.drop_last()[i];
        assert(scrubbed[k] == rows[i]);
    }
}

/// Scrubbing a sequence the policy entirely keeps changes nothing.
proof fn lemma_scrubbed_of_clean(fc: FilterConfig, rows: Seq<DynamicRow>)
    requires
        forall|k: int| 0 <= k < rows.len() ==> !spec_row_dropped(fc, #[trigger] rows[k]),
    ensures
        spec_scrubbed(fc, rows) == rows,
    decreases rows.len(),
{
    if rows.len() > 0 {
        lemma_scrubbed_of_clean(fc, rows.drop_last());
    }
    assert(spec_scrubbed(fc, rows) =~= rows);
}

/// Law: a row with a field whose column name the policy excludes is absent
/// from the scrubber's output.
pub proof fn lemma_excluded_column_drops_row(
    fc: FilterConfig,
    rows: Seq<DynamicRow>,
    i: int,
    j: int,
)
    requires
        0 <= i < rows.len(),
        0 <= j < rows[i].fields@.len(),
        fc.spec_should_exclude_column(rows[i].fields@[j].0@),
    ensures
        !spec_filter_job_results(fc, rows).contains(rows[i]),
{
    assert(spec_field_triggers(fc, rows[i].fields@[j]));
    assert(spec_row_dropped(fc, rows[i]));
    lemma_scrubbed_omits_dropped(fc, rows, rows[i]);
}

/// Law: a row none of whose fields is disallowed survives scrubbing
/// unchanged.
pub proof fn lemma_clean_row_kept(fc: FilterConfig, rows: Seq<DynamicRow>, i: int)
    requires
        0 <= i < rows.len(),
        !spec_row_dropped(fc, rows[i]),
    ensures
        spec_filter_job_results(fc, rows).contains(rows[i]),
{
    if fc.spec_filters() is None {
        assert(spec_filter_job_results(fc, rows)[i] == rows[i]);
    } else {
        lemma_scrubbed_contains_kept(fc, rows, i);
    }
}

/// Law: the scrubber is idempotent: run on its own output it drops no
/// further row.
pub proof fn lemma_scrub_idempotent(fc: FilterConfig, rows: Seq<DynamicRow>)
    ensures
        spec_filter_job_results(fc, spec_filter_job_results(fc, rows)) == spec_filter_job_results(
            fc,
            rows,
        ),
{
    if fc.spec_filters() is Some {
        lemma_scrubbed_elements_clean(fc, rows);
        lemma_scrubbed_of_clean(fc, spec_scrubbed(fc, rows));
    }
}

} // verus!
