//! The rule contract and the dispatcher.
//!
//! A rule receives traversal events through hook methods; hooks a rule
//! does not care about yield nothing. The dispatcher holds the ordered
//! list of active rules and broadcasts every event to all of them in
//! registration order.

use vstd::prelude::*;

use crate::context::Context;
use crate::findings::{Finding, FindingS, finding_views};
use crate::model::{Cell, Placement, Record};
use crate::text::lower;
use crate::validators::cells::{seen_views, spec_cell_record_findings, spec_cellref_findings,
    CellValidator};
use crate::validators::missing::{spec_field_findings, FieldValidator};
use crate::validators::supplies::{spec_supply_findings, SupplyChestValidator};
use crate::validators::todo::{spec_todo_findings, ToDoValidator};

verus! {

/// One active rule instance.
pub enum Rule {
    Cells(CellValidator),
    Supplies(SupplyChestValidator),
    ToDo(ToDoValidator),
    Fields(FieldValidator),
}

/// Which rule a [`RuleSpec`] abstracts.
#[derive(Clone, Copy, Debug, PartialEq, Eq, Structural)]
pub enum RuleKind {
    Cells,
    Supplies,
    ToDo,
    Fields,
}

/// The ghost image of a rule: its kind, its construction-time tables,
/// and its mutable de-duplication state.
pub struct RuleSpec {
    pub kind: RuleKind,
    pub broken: Seq<(Vec<u8>, Vec<u8>)>,
    pub chests: Seq<(Vec<u8>, Vec<u8>)>,
    pub seen: Seq<Seq<u8>>,
}

/// The ghost image of a rule instance.
pub open spec fn rule_spec(rule: Rule) -> RuleSpec {
    match rule {
        Rule::Cells(c) => RuleSpec {
            kind: RuleKind::Cells,
            broken: c.broken.entries@,
            chests: Seq::empty(),
            seen: seen_views(c.seen@),
        },
        Rule::Supplies(s) => RuleSpec {
            kind: RuleKind::Supplies,
            broken: Seq::empty(),
            chests: s.chests.entries@,
            seen: Seq::empty(),
        },
        Rule::ToDo(_) => RuleSpec {
            kind: RuleKind::ToDo,
            broken: Seq::empty(),
            chests: Seq::empty(),
            seen: Seq::empty(),
        },
        Rule::Fields(_) => RuleSpec {
            kind: RuleKind::Fields,
            broken: Seq::empty(),
            chests: Seq::empty(),
            seen: Seq::empty(),
        },
    }
}

/// The ghost images of a rule list.
pub open spec fn rules_spec(rules: Seq<Rule>) -> Seq<RuleSpec> {
    rules.map_values(|r: Rule| rule_spec(r))
}

/// What one rule yields for a record-seen event.
pub open spec fn spec_rs_record(r: RuleSpec, ctx: Context, record: Record) -> Seq<FindingS> {
    match r.kind {
        RuleKind::Cells => spec_cell_record_findings(ctx, record),
        RuleKind::Fields => spec_field_findings(record),
        _ => Seq::empty(),
    }
}

/// What one rule yields for a cell-placement-seen event, and the rule's
/// state afterwards.
pub open spec fn spec_rs_cellref(r: RuleSpec, cell: Cell, p: Placement) -> (Seq<FindingS>, RuleSpec) {
    match r.kind {
        RuleKind::Cells => {
            let x = spec_cellref_findings(r.broken, r.seen, cell, p);
            (x.0, RuleSpec { seen: x.1, ..r })
        },
        RuleKind::Supplies => (spec_supply_findings(r.chests, cell, p), r),
        _ => (Seq::empty(), r),
    }
}

/// What one rule yields for a script-line-seen event.
pub open spec fn spec_rs_scriptline(
    r: RuleSpec,
    record: Record,
    comment: Seq<u8>,
    topic: Seq<u8>,
) -> Seq<FindingS> {
    match r.kind {
        RuleKind::ToDo => spec_todo_findings(record, comment, topic),
        _ => Seq::empty(),
    }
}

/// What the first `j` rules yield for a record-seen event, in rule order.
pub open spec fn spec_record_upto(rs: Seq<RuleSpec>, ctx: Context, record: Record, j: int) -> Seq<
    FindingS,
>
    decreases j,
{
    if j <= 0 {
        Seq::empty()
    } else {
        spec_record_upto(rs, ctx, record, j - 1) + spec_rs_record(rs[j - 1], ctx, record)
    }
}

/// What every rule yields for a record-seen event.
pub open spec fn spec_record_all(rs: Seq<RuleSpec>, ctx: Context, record: Record) -> Seq<FindingS> {
    spec_record_upto(rs, ctx, record, rs.len() as int)
}

/// What the first `j` rules yield for a cell-placement-seen event.
pub open spec fn spec_cellref_upto(rs: Seq<RuleSpec>, cell: Cell, p: Placement, j: int) -> Seq<
    FindingS,
>
    decreases j,
{
    if j <= 0 {
        Seq::empty()
    } else {
        spec_cellref_upto(rs, cell, p, j - 1) + spec_rs_cellref(rs[j - 1], cell, p).0
    }
}

/// What every rule yields for a cell-placement-seen event, and every
/// rule's state afterwards.
pub open spec fn spec_dispatch_cellref(rs: Seq<RuleSpec>, cell: Cell, p: Placement) -> (Seq<
    FindingS,
>, Seq<RuleSpec>) {
    (
        spec_cellref_upto(rs, cell, p, rs.len() as int),
        Seq::new(rs.len(), |j: int| spec_rs_cellref(rs[j], cell, p).1),
    )
}

/// What the first `j` rules yield for a script-line-seen event.
pub open spec fn spec_scriptline_upto(
    rs: Seq<RuleSpec>,
    record: Record,
    comment: Seq<u8>,
    topic: Seq<u8>,
    j: int,
) -> Seq<FindingS>
    decreases j,
{
    if j <= 0 {
        Seq::empty()
    } else {
        spec_scriptline_upto(rs, record, comment, topic, j - 1) + spec_rs_scriptline(
            rs[j - 1],
            record,
            comment,
            topic,
        )
    }
}

/// What every rule yields for a script-line-seen event.
pub open spec fn spec_scriptline_all(
    rs: Seq<RuleSpec>,
    record: Record,
    comment: Seq<u8>,
    topic: Seq<u8>,
) -> Seq<FindingS> {
    spec_scriptline_upto(rs, record, comment, topic, rs.len() as int)
}

impl Rule {
    /// The record-seen hook.
    pub fn on_record(&self, ctx: &Context, record: &Record) -> (out: Vec<Finding>)
        ensures
            finding_views(out@) == spec_rs_record(rule_spec(*self), *ctx, *record),
    {
        match self {
            Rule::Cells(c) => c.on_record(ctx, record),
            Rule::Fields(f) => f.on_record(record),
            _ => {
                let out: Vec<Finding> = Vec::new();
                proof {
                    assert(finding_views(out@) =~= Seq::<FindingS>::empty());
                }
                out
            },
        }
    }

    /// The cell-placement-seen hook. `id` is the placement's id already
    /// normalized to lower case.
    pub fn on_cellref(
        &mut self,
        cell: &Cell,
        reference: &Placement,
        id: &Vec<u8>,
        index: usize,
    ) -> (out: Vec<Finding>)
        requires
            id@ == lower(reference.id@),
        ensures
            ({
                let x = spec_rs_cellref(rule_spec(*old(self)), *cell, *reference);
                finding_views(out@) == x.0 && rule_spec(*final(self)) == x.1
            }),
    {
        let _ = index;
        match self {
            Rule::Cells(c) => c.on_cellref(cell, reference, id),
            Rule::Supplies(s) => s.on_cellref(cell, reference, id),
            _ => {
                let out: Vec<Finding> = Vec::new();
                proof {
                    assert(finding_views(out@) =~= Seq::<FindingS>::empty());
                }
                out
            },
        }
    }

    /// The info-entry-seen hook: at its default no-op for every rule
    /// of this set.
    pub fn on_info(&self, record: &Record, topic: &Vec<u8>) -> (out: Vec<Finding>)
        ensures
            out@.len() == 0,
    {
        let _ = record;
        let _ = topic;
        Vec::new()
    }

    /// The leveled-entry-seen hook: at its default no-op for every rule
    /// of this set.
    pub fn on_leveled(&self, record: &Record, id: &Vec<u8>, level: u16) -> (out: Vec<Finding>)
        ensures
            out@.len() == 0,
    {
        let _ = record;
        let _ = id;
        let _ = level;
        Vec::new()
    }

    /// The inventory-entry-seen hook: at its default no-op for every
    /// rule of this set.
    pub fn on_inventory(&self, record: &Record, count: i32, id: &Vec<u8>) -> (out: Vec<Finding>)
        ensures
            out@.len() == 0,
    {
        let _ = record;
        let _ = count;
        let _ = id;
        Vec::new()
    }

    /// The traversal-finished hook: at its default no-op for every rule
    /// of this set.
    pub fn on_end(&self) -> (out: Vec<Finding>)
        ensures
            out@.len() == 0,
    {
        Vec::new()
    }

    /// The script-line-seen hook. `code` is the line's code portion,
    /// trimmed and lowercased; no rule of this set reads it.
    pub fn on_scriptline(
        &self,
        record: &Record,
        code: &Vec<u8>,
        comment: &Vec<u8>,
        topic: &Vec<u8>,
    ) -> (out: Vec<Finding>)
        ensures
            finding_views(out@) == spec_rs_scriptline(rule_spec(*self), *record, comment@, topic@),
    {
        let _ = code;
        match self {
            Rule::ToDo(t) => t.on_scriptline(record, comment, topic),
            _ => {
                let out: Vec<Finding> = Vec::new();
                proof {
                    assert(finding_views(out@) =~= Seq::<FindingS>::empty());
                }
                out
            },
        }
    }
}

/// The dispatcher: the ordered list of active rules.
pub struct Handlers {
    pub rules: Vec<Rule>,
}

impl Handlers {
    /// A dispatcher over the given rules, broadcast in list order.
    pub fn new(rules: Vec<Rule>) -> (r: Handlers)
        ensures
            r.rules == rules,
    {
        Handlers { rules }
    }

    /// Broadcasts a record-seen event and appends what the rules yield.
    pub fn on_record(&self, ctx: &Context, record: &Record, out: &mut Vec<Finding>)
        ensures
            finding_views(final(out)@) == finding_views(old(out)@) + spec_record_all(
                rules_spec(self.rules@),
                *ctx,
                *record,
            ),
    {
        let ghost rs = rules_spec(self.rules@);
        let mut j: usize = 0;
        while j < self.rules.len()
            invariant
                j <= self.rules@.len(),
                rs == rules_spec(self.rules@),
                finding_views(out@) == finding_views(old(out)@) + spec_record_upto(
                    rs,
                    *ctx,
                    *record,
                    j as int,
                ),
            decreases self.rules@.len() - j,
        {
            let found = self.rules[j].on_record(ctx, record);
            append_findings(out, found);
            proof {
                assert(rs[j as int] == rule_spec(self.rules@[j as int]));
                assert(finding_views(out@) =~= finding_views(old(out)@) + spec_record_upto(
                    rs,
                    *ctx,
                    *record,
                    j + 1,
                ));
            }
            j = j + 1;
        }
    }

    /// Broadcasts a cell-placement-seen event and appends what the rules
    /// yield. `id` is the placement's id already normalized to lower
    /// case.
    pub fn on_cellref(
        &mut self,
        cell: &Cell,
        reference: &Placement,
        id: &Vec<u8>,
        index: usize,
        out: &mut Vec<Finding>,
    )
        requires
            id@ == lower(reference.id@),
        ensures
            ({
                let d = spec_dispatch_cellref(rules_spec(old(self).rules@), *cell, *reference);
                finding_views(final(out)@) == finding_views(old(out)@) + d.0 && rules_spec(
                    final(self).rules@,
                ) == d.1
            }),
    {
        let ghost rs = rules_spec(self.rules@);
        let n = self.rules.len();
        let mut j: usize = 0;
        while j < n
            invariant
                j <= n,
                n == self.rules@.len(),
                rs.len() == n,
                id@ == lower(reference.id@),
                forall|k: int| j <= k < n ==> rule_spec(self.rules@[k]) == rs[k],
                forall|k: int|
                    0 <= k < j ==> rule_spec(self.rules@[k]) == spec_rs_cellref(
                        rs[k],
                        *cell,
                        *reference,
                    ).1,
                finding_views(out@) == finding_views(old(out)@) + spec_cellref_upto(
                    rs,
                    *cell,
                    *reference,
                    j as int,
                ),
            decreases n - j,
        {
            let rule = &mut self.rules[j];
            let found = rule.on_cellref(cell, reference, id, index);
            append_findings(out, found);
            proof {
                assert(finding_views(out@) =~= finding_views(old(out)@) + spec_cellref_upto(
                    rs,
                    *cell,
                    *reference,
                    j + 1,
                ));
            }
            j = j + 1;
        }
        proof {
            assert(rules_spec(self.rules@) =~= spec_dispatch_cellref(rs, *cell, *reference).1);
        }
    }

    /// Broadcasts an info-entry-seen event; every rule of this set
    /// leaves the hook at its default no-op, so nothing is reported.
    pub fn on_info(&self, record: &Record, topic: &Vec<u8>) {
        let mut j: usize = 0;
        while j < self.rules.len()
            decreases self.rules@.len() - j,
        {
            let found = self.rules[j].on_info(record, topic);
            let _ = found;
            j = j + 1;
        }
    }

    /// Broadcasts a leveled-entry-seen event; every rule of this set
    /// leaves the hook at its default no-op, so nothing is reported.
    pub fn on_leveled(&self, record: &Record, id: &Vec<u8>, level: u16) {
        let mut j: usize = 0;
        while j < self.rules.len()
            decreases self.rules@.len() - j,
        {
            let found = self.rules[j].on_leveled(record, id, level);
            let _ = found;
            j = j + 1;
        }
    }

    /// Broadcasts an inventory-entry-seen event; every rule of this set
    /// leaves the hook at its default no-op, so nothing is reported.
    pub fn on_inventory(&self, record: &Record, count: i32, id: &Vec<u8>) {
        let mut j: usize = 0;
        while j < self.rules.len()
            decreases self.rules@.len() - j,
        {
            let found = self.rules[j].on_inventory(record, count, id);
            let _ = found;
            j = j + 1;
        }
    }

    /// Broadcasts the traversal-finished event, exactly once per run;
    /// every rule of this set leaves the hook at its default no-op.
    pub fn on_end(&self) {
        let mut j: usize = 0;
        while j < self.rules.len()
            decreases self.rules@.len() - j,
        {
            let found = self.rules[j].on_end();
            let _ = found;
            j = j + 1;
        }
    }

    /// Broadcasts a script-line-seen event and appends what the rules
    /// yield.
    pub fn on_scriptline(
        &self,
        record: &Record,
        code: &Vec<u8>,
        comment: &Vec<u8>,
        topic: &Vec<u8>,
        out: &mut Vec<Finding>,
    )
        ensures
            finding_views(final(out)@) == finding_views(old(out)@) + spec_scriptline_all(
                rules_spec(self.rules@),
                *record,
                comment@,
                topic@,
            ),
    {
        let ghost rs = rules_spec(self.rules@);
        let mut j: usize = 0;
        while j < self.rules.len()
            invariant
                j <= self.rules@.len(),
                rs == rules_spec(self.rules@),
                finding_views(out@) == finding_views(old(out)@) + spec_scriptline_upto(
                    rs,
                    *record,
                    comment@,
                    topic@,
                    j as int,
                ),
            decreases self.rules@.len() - j,
        {
            let found = self.rules[j].on_scriptline(record, code, comment, topic);
            append_findings(out, found);
            proof {
                assert(rs[j as int] == rule_spec(self.rules@[j as int]));
                assert(finding_views(out@) =~= finding_views(old(out)@) + spec_scriptline_upto(
                    rs,
                    *record,
                    comment@,
                    topic@,
                    j + 1,
                ));
            }
            j = j + 1;
        }
    }
}

/// Appends every finding of `found` to `out`, in order.
pub fn append_findings(out: &mut Vec<Finding>, found: Vec<Finding>)
    ensures
        finding_views(final(out)@) == finding_views(old(out)@) + finding_views(found@),
{
    let mut found = found;
    let ghost all = found@;
    let mut i: usize = 0;
    let len = found.len();
    proof {
        assert(found@ =~= all.skip(0));
        assert(all.take(0) =~= Seq::<Finding>::empty());
    }
    while i < len
        invariant
            i <= len,
            len == all.len(),
            found@ == all.skip(i as int),
            finding_views(out@) == finding_views(old(out)@) + finding_views(all.take(i as int)),
        decreases len - i,
    {
        let f = found.remove(0);
        proof {
            assert(f == all[i as int]);
            assert(found@ =~= all.skip(i + 1));
        }
        let ghost pre_views = finding_views(out@);
        out.push(f);
        proof {
            assert(finding_views(out@) =~= pre_views.push(f@));
            assert((finding_views(old(out)@) + finding_views(all.take(i as int))).push(f@)
                =~= finding_views(old(out)@) + finding_views(all.take(i as int)).push(f@));
            assert(finding_views(all.take(i as int)).push(f@) =~= finding_views(all.take(i + 1)));
            assert(finding_views(out@) == finding_views(old(out)@) + finding_views(
                all.take(i + 1),
            ));
        }
        i = i + 1;
    }
    proof {
        assert(all.take(all.len() as int) =~= all);
    }
}

} // verus!
