//! The shape diff: judges each observed value against the alternatives that
//! the specification admits at its position, and records disagreements.

use crate::shapes::{
    accepts, accepts_kind, ChoiceOutput, DiffRecord, JsonTrail, JsonTrailPathComponent, JsonValue,
    ShapeDiffResult, ShapeTrail, ShapeTrailModel,
};
use crate::visitors::{InteractionVisitor, VisitorResults};
use vstd::prelude::*;

verus! {

/// Whether some alternative in `choices` admits `json`.
pub open spec fn some_choice_accepts(json: JsonValue, choices: Seq<ChoiceOutput>) -> bool {
    exists|i: int| 0 <= i < choices.len() && accepts(json, #[trigger] choices[i].core_shape_kind)
}

/// The records that visiting `json` produces: one `Unspecified` record when
/// nothing is admitted here, none when some alternative admits the value, and
/// otherwise one `Unmatched` record per alternative, in order, each with that
/// alternative's own trail.
pub open spec fn diff_records(
    json: JsonValue,
    json_trail: Seq<JsonTrailPathComponent>,
    trail_origin: ShapeTrailModel,
    choices: Seq<ChoiceOutput>,
) -> Seq<DiffRecord> {
    if choices.len() == 0 {
        seq![DiffRecord::Unspecified { json_trail, shape_trail: trail_origin }]
    } else if some_choice_accepts(json, choices) {
        Seq::empty()
    } else {
        choices.map_values(|c: ChoiceOutput| DiffRecord::Unmatched { json_trail, shape_trail: c.trail() })
    }
}

/// A node with no alternatives yields exactly one `Unspecified` record, for
/// the node's trail and the trail origin, and no `Unmatched` record.
pub proof fn lemma_no_choices_unspecified(
    json: JsonValue,
    json_trail: Seq<JsonTrailPathComponent>,
    trail_origin: ShapeTrailModel,
    choices: Seq<ChoiceOutput>,
)
    requires
        choices.len() == 0,
    ensures
        diff_records(json, json_trail, trail_origin, choices).len() == 1,
        diff_records(json, json_trail, trail_origin, choices)[0] == (DiffRecord::Unspecified {
            json_trail,
            shape_trail: trail_origin,
        }),
{
}

/// A node that some alternative admits yields no record, whatever the other
/// alternatives are.
pub proof fn lemma_match_no_records(
    json: JsonValue,
    json_trail: Seq<JsonTrailPathComponent>,
    trail_origin: ShapeTrailModel,
    choices: Seq<ChoiceOutput>,
    i: int,
)
    requires
        0 <= i < choices.len(),
        accepts(json, choices[i].core_shape_kind),
    ensures
        diff_records(json, json_trail, trail_origin, choices).len() == 0,
{
}

/// A node with alternatives none of which admits it yields one `Unmatched`
/// record per alternative, in order, each with the node's trail and that
/// alternative's own trail.
pub proof fn lemma_no_match_one_record_per_choice(
    json: JsonValue,
    json_trail: Seq<JsonTrailPathComponent>,
    trail_origin: ShapeTrailModel,
    choices: Seq<ChoiceOutput>,
)
    requires
        choices.len() > 0,
        forall|i: int| 0 <= i < choices.len() ==> !accepts(json, #[trigger] choices[i].core_shape_kind),
    ensures
        diff_records(json, json_trail, trail_origin, choices).len() == choices.len(),
        forall|i: int|
            0 <= i < choices.len() ==> #[trigger] diff_records(json, json_trail, trail_origin, choices)[i]
                == (DiffRecord::Unmatched { json_trail, shape_trail: choices[i].trail() }),
{
}

/// Visiting the same node with the same inputs appends the same records,
/// whatever the buffer held before.
pub proof fn lemma_visit_repeatable(
    json: JsonValue,
    json_trail: Seq<JsonTrailPathComponent>,
    trail_origin: ShapeTrailModel,
    choices: Seq<ChoiceOutput>,
    before1: Seq<DiffRecord>,
    after1: Seq<DiffRecord>,
    before2: Seq<DiffRecord>,
    after2: Seq<DiffRecord>,
)
    requires
        after1 == before1 + diff_records(json, json_trail, trail_origin, choices),
        after2 == before2 + diff_records(json, json_trail, trail_origin, choices),
    ensures
        after1.subrange(before1.len() as int, after1.len() as int) == after2.subrange(
            before2.len() as int,
            after2.len() as int,
        ),
{
    assert(after1.subrange(before1.len() as int, after1.len() as int) =~= diff_records(
        json,
        json_trail,
        trail_origin,
        choices,
    ));
    assert(after2.subrange(before2.len() as int, after2.len() as int) =~= diff_records(
        json,
        json_trail,
        trail_origin,
        choices,
    ));
}

/// The models of a sequence of diff results.
pub open spec fn records_of(results: Seq<ShapeDiffResult>) -> Seq<DiffRecord> {
    results.map_values(|r: ShapeDiffResult| r@)
}

/// Whether some alternative in `choices` admits `json`.
fn any_choice_accepts(json: &JsonValue, choices: &Vec<ChoiceOutput>) -> (r: bool)
    ensures
        r == some_choice_accepts(*json, choices@),
{
    let mut i: usize = 0;
    while i < choices.len()
        invariant
            i <= choices@.len(),
            forall|j: int| 0 <= j < i ==> !accepts(*json, #[trigger] choices@[j].core_shape_kind),
        decreases choices@.len() - i,
    {
        if accepts_kind(json, choices[i].core_shape_kind) {
            return true;
        }
        i = i + 1;
    }
    false
}

/// Runs the matching algorithm on one node and appends its records.
fn record_diffs(
    results: &mut VisitorResults<ShapeDiffResult>,
    json: &JsonValue,
    json_trail: JsonTrail,
    trail_origin: ShapeTrail,
    trail_choices: &Vec<ChoiceOutput>,
)
    ensures
        records_of(final(results)@) == records_of(old(results)@) + diff_records(
            *json,
            json_trail@,
            trail_origin@,
            trail_choices@,
        ),
{
    let ghost start = results@;
    let ghost expected = diff_records(*json, json_trail@, trail_origin@, trail_choices@);
    if trail_choices.len() == 0 {
        let ghost jt = json_trail@;
        let ghost so = trail_origin@;
        results.push(ShapeDiffResult::UnspecifiedShape { json_trail, shape_trail: trail_origin });
        assert(records_of(results@) =~= records_of(start) + seq![DiffRecord::Unspecified { json_trail: jt, shape_trail: so }]);
        return;
    }
    if any_choice_accepts(json, trail_choices) {
        assert(records_of(results@) =~= records_of(start) + expected);
        return;
    }
    let mut i: usize = 0;
    while i < trail_choices.len()
        invariant
            i <= trail_choices@.len(),
            trail_choices@.len() > 0,
            !some_choice_accepts(*json, trail_choices@),
            expected == diff_records(*json, json_trail@, trail_origin@, trail_choices@),
            records_of(results@) =~= records_of(start) + expected.subrange(0, i as int),
        decreases trail_choices@.len() - i,
    {
        let choice = &trail_choices[i];
        let record = ShapeDiffResult::UnmatchedShape {
            json_trail: json_trail.duplicate(),
            shape_trail: choice.shape_trail(),
        };
        let ghost before = results@;
        assert(record@ == expected[i as int]);
        results.push(record);
        assert(records_of(results@) =~= records_of(before).push(record@));
        assert(expected.subrange(0, i + 1) =~= expected.subrange(0, i as int).push(expected[i as int]));
        i = i + 1;
    }
    assert(expected.subrange(0, trail_choices@.len() as int) =~= expected);
}

/// Records the disagreements of scalar JSON values.
pub struct DiffPrimitiveVisitor {
    results: VisitorResults<ShapeDiffResult>,
}

impl View for DiffPrimitiveVisitor {
    type V = Seq<DiffRecord>;

    closed spec fn view(&self) -> Seq<DiffRecord> {
        records_of(self.results@)
    }
}

impl DiffPrimitiveVisitor {
    /// A visitor with an empty buffer.
    pub fn new() -> (r: Self)
        ensures
            r@ == Seq::<DiffRecord>::empty(),
            r.buffer() == Some(Seq::<ShapeDiffResult>::empty()),
    {
        let r = Self { results: VisitorResults::new() };
        assert(r@ =~= Seq::<DiffRecord>::empty());
        r
    }

    /// Judges the scalar `json` at `json_trail` against `trail_choices`, the
    /// alternatives admitted at `trail_origin`, and appends the records.
    pub fn visit(
        &mut self,
        json: JsonValue,
        json_trail: JsonTrail,
        trail_origin: ShapeTrail,
        trail_choices: Vec<ChoiceOutput>,
    )
        requires
            json.is_primitive(),
        ensures
            final(self)@ == old(self)@ + diff_records(json, json_trail@, trail_origin@, trail_choices@),
    {
        record_diffs(&mut self.results, &json, json_trail, trail_origin, &trail_choices);
    }
}

impl InteractionVisitor<ShapeDiffResult> for DiffPrimitiveVisitor {
    closed spec fn buffer(&self) -> Option<Seq<ShapeDiffResult>> {
        Some(self.results@)
    }

    fn push(&mut self, result: ShapeDiffResult)
        ensures
            final(self)@ == old(self)@.push(result@),
    {
        self.results.push(result);
        assert(records_of(self.results@) =~= records_of(old(self).results@).push(result@));
    }

    fn take_results(&mut self) -> (r: Option<Vec<ShapeDiffResult>>)
        ensures
            r is Some,
            records_of(r->0@) == old(self)@,
            final(self)@ == Seq::<DiffRecord>::empty(),
    {
        let r = self.results.take_results();
        assert(records_of(self.results@) =~= Seq::<DiffRecord>::empty());
        r
    }
}

/// Records the disagreements of JSON arrays.
pub struct DiffArrayVisitor {
    results: VisitorResults<ShapeDiffResult>,
}

impl View for DiffArrayVisitor {
    type V = Seq<DiffRecord>;

    closed spec fn view(&self) -> Seq<DiffRecord> {
        records_of(self.results@)
    }
}

impl DiffArrayVisitor {
    /// A visitor with an empty buffer.
    pub fn new() -> (r: Self)
        ensures
            r@ == Seq::<DiffRecord>::empty(),
            r.buffer() == Some(Seq::<ShapeDiffResult>::empty()),
    {
        let r = Self { results: VisitorResults::new() };
        assert(r@ =~= Seq::<DiffRecord>::empty());
        r
    }

    /// Judges the array `json` at `json_trail` against `trail_choices`, the
    /// alternatives admitted at `trail_origin`, and appends the records.
    /// Returns the alternatives for visiting the array's items, which are
    /// not derived here: the result is always empty.
    pub fn visit(
        &mut self,
        json: JsonValue,
        json_trail: JsonTrail,
        trail_origin: ShapeTrail,
        trail_choices: Vec<ChoiceOutput>,
    ) -> (r: Vec<ChoiceOutput>)
        requires
            json is Array,
        ensures
            final(self)@ == old(self)@ + diff_records(json, json_trail@, trail_origin@, trail_choices@),
            r@.len() == 0,
    {
        record_diffs(&mut self.results, &json, json_trail, trail_origin, &trail_choices);
        Vec::new()
    }
}

impl InteractionVisitor<ShapeDiffResult> for DiffArrayVisitor {
    closed spec fn buffer(&self) -> Option<Seq<ShapeDiffResult>> {
        Some(self.results@)
    }

    fn push(&mut self, result: ShapeDiffResult)
        ensures
            final(self)@ == old(self)@.push(result@),
    {
        self.results.push(result);
        assert(records_of(self.results@) =~= records_of(old(self).results@).push(result@));
    }

    fn take_results(&mut self) -> (r: Option<Vec<ShapeDiffResult>>)
        ensures
            r is Some,
            records_of(r->0@) == old(self)@,
            final(self)@ == Seq::<DiffRecord>::empty(),
    {
        let r = self.results.take_results();
        assert(records_of(self.results@) =~= Seq::<DiffRecord>::empty());
        r
    }
}

/// The diff analysis: one visitor per JSON node category.
pub struct DiffVisitors {
    array: DiffArrayVisitor,
    primitive: DiffPrimitiveVisitor,
}

impl DiffVisitors {
    /// Visitors with empty buffers.
    pub fn new() -> (r: Self)
        ensures
            r.array_visitor()@ == Seq::<DiffRecord>::empty(),
            r.primitive_visitor()@ == Seq::<DiffRecord>::empty(),
    {
        DiffVisitors { array: DiffArrayVisitor::new(), primitive: DiffPrimitiveVisitor::new() }
    }

    /// The array visitor.
    pub closed spec fn array_visitor(&self) -> DiffArrayVisitor {
        self.array
    }

    /// The primitive visitor.
    pub closed spec fn primitive_visitor(&self) -> DiffPrimitiveVisitor {
        self.primitive
    }

    /// Access to the array visitor.
    pub fn array(&mut self) -> (r: &mut DiffArrayVisitor)
        ensures
            *r == old(self).array_visitor(),
            final(self).array_visitor() == *final(r),
            final(self).primitive_visitor() == old(self).primitive_visitor(),
    {
        &mut self.array
    }

    /// Access to the primitive visitor.
    pub fn primitive(&mut self) -> (r: &mut DiffPrimitiveVisitor)
        ensures
            *r == old(self).primitive_visitor(),
            final(self).primitive_visitor() == *final(r),
            final(self).array_visitor() == old(self).array_visitor(),
    {
        &mut self.primitive
    }
}

} // verus!
