//! The traversal driver and the concrete validation rules.
//!
//! The driver performs exactly one forward pass over the record
//! sequence, dispatches every event to the rules in registration order,
//! and threads the single piece of cross-record state: the current
//! dialogue topic.

pub mod cells;
pub mod missing;
pub mod supplies;
pub mod todo;

use vstd::prelude::*;

use crate::context::Context;
use crate::findings::{Finding, FindingS, finding_views};
use crate::handlers::{rules_spec, spec_dispatch_cellref, spec_record_all, spec_scriptline_all,
    Handlers, RuleSpec};
use crate::model::{Cell, InventoryEntry, LeveledEntry, Record};
use crate::text::{find_byte, find_from, lemma_find_from, lower, sub_bytes, to_lowercase, trim,
    trim_bytes};

verus! {

/// The run state of a traversal: the rule states, the findings so far,
/// and the current dialogue topic id.
pub struct RunState {
    pub rs: Seq<RuleSpec>,
    pub findings: Seq<FindingS>,
    pub topic: Seq<u8>,
}

/// The lines of a script text, split on line feeds.
pub open spec fn spec_lines(s: Seq<u8>) -> Seq<Seq<u8>>
    decreases s.len(),
    via spec_lines_via
{
    match find_from(s, 0x0a, 0) {
        None => seq![s],
        Some(i) => seq![s.take(i)] + spec_lines(s.skip(i + 1)),
    }
}

#[via_fn]
proof fn spec_lines_via(s: Seq<u8>) {
    lemma_find_from(s, 0x0a, 0);
}

/// One script line split at its first comment marker: the code portion,
/// trimmed and lowercased, and the raw comment portion.
pub open spec fn spec_split_line(line: Seq<u8>) -> (Seq<u8>, Seq<u8>) {
    match find_from(line, 0x3b, 0) {
        None => (lower(trim(line)), Seq::empty()),
        Some(i) => (lower(trim(line.take(i))), line.skip(i + 1)),
    }
}

/// What the rules yield for one script line: nothing when code and
/// comment are both empty, else one script-line-seen broadcast.
pub open spec fn spec_line_findings(
    rs: Seq<RuleSpec>,
    record: Record,
    line: Seq<u8>,
    topic: Seq<u8>,
) -> Seq<FindingS> {
    let sp = spec_split_line(line);
    if sp.0.len() > 0 || sp.1.len() > 0 {
        spec_scriptline_all(rs, record, sp.1, topic)
    } else {
        Seq::empty()
    }
}

/// What the rules yield for a list of script lines, in order.
pub open spec fn spec_lines_findings(
    rs: Seq<RuleSpec>,
    record: Record,
    lines: Seq<Seq<u8>>,
    topic: Seq<u8>,
) -> Seq<FindingS>
    decreases lines.len(),
{
    if lines.len() == 0 {
        Seq::empty()
    } else {
        spec_line_findings(rs, record, lines[0], topic) + spec_lines_findings(
            rs,
            record,
            lines.skip(1),
            topic,
        )
    }
}

/// What the rules yield for a whole script text: the text is trimmed,
/// split into lines, and each non-empty line is broadcast.
pub open spec fn spec_script_findings(
    rs: Seq<RuleSpec>,
    record: Record,
    text: Seq<u8>,
    topic: Seq<u8>,
) -> Seq<FindingS> {
    spec_lines_findings(rs, record, spec_lines(trim(text)), topic)
}

/// The findings and rule states after the first `k` placements of a
/// cell have been broadcast.
pub open spec fn spec_cellrefs_upto(rs: Seq<RuleSpec>, c: Cell, k: int) -> (Seq<FindingS>, Seq<
    RuleSpec,
>)
    decreases k,
{
    if k <= 0 {
        (Seq::empty(), rs)
    } else {
        let prev = spec_cellrefs_upto(rs, c, k - 1);
        let d = spec_dispatch_cellref(prev.1, c, c.references@[k - 1]);
        (prev.0 + d.0, d.1)
    }
}

/// The run state after one record: a record-seen broadcast for every
/// kind but the four inert ones, then the record's sub-element events.
/// A dialogue record replaces the current topic; leveled-entry,
/// inventory-entry and info-entry broadcasts reach no hook that yields
/// findings.
pub open spec fn spec_step(ctx: Context, st: RunState, record: Record) -> RunState {
    match record {
        Record::Header => st,
        Record::Landscape => st,
        Record::LandscapeTexture => st,
        Record::Skill => st,
        Record::Cell(c) => {
            let f1 = st.findings + spec_record_all(st.rs, ctx, record);
            let cr = spec_cellrefs_upto(st.rs, c, c.references@.len() as int);
            RunState { rs: cr.1, findings: f1 + cr.0, topic: st.topic }
        },
        Record::Dialogue { id } => RunState {
            rs: st.rs,
            findings: st.findings + spec_record_all(st.rs, ctx, record),
            topic: id@,
        },
        Record::Info { script_text, .. } => {
            let f1 = st.findings + spec_record_all(st.rs, ctx, record);
            let f2 = match script_text {
                Some(t) => f1 + spec_script_findings(st.rs, record, t@, st.topic),
                None => f1,
            };
            RunState { rs: st.rs, findings: f2, topic: st.topic }
        },
        Record::Script { script_text, .. } => {
            let f1 = st.findings + spec_record_all(st.rs, ctx, record);
            let f2 = match script_text {
                Some(t) => f1 + spec_script_findings(st.rs, record, t@, Seq::empty()),
                None => f1,
            };
            RunState { rs: st.rs, findings: f2, topic: st.topic }
        },
        _ => RunState {
            rs: st.rs,
            findings: st.findings + spec_record_all(st.rs, ctx, record),
            topic: st.topic,
        },
    }
}

/// The run state after the first `i` records, starting from the given
/// rule states, an empty finding list and the no-topic sentinel.
pub open spec fn spec_run_upto(
    rs0: Seq<RuleSpec>,
    ctx: Context,
    records: Seq<Record>,
    i: int,
) -> RunState
    decreases i,
{
    if i <= 0 {
        RunState { rs: rs0, findings: Seq::empty(), topic: Seq::empty() }
    } else {
        spec_step(ctx, spec_run_upto(rs0, ctx, records, i - 1), records[i - 1])
    }
}

/// The run state after the whole record sequence. The final
/// traversal-finished broadcast reaches no hook that yields findings.
pub open spec fn spec_run(rs0: Seq<RuleSpec>, ctx: Context, records: Seq<Record>) -> RunState {
    spec_run_upto(rs0, ctx, records, records.len() as int)
}

/// The traversal driver: the active rules and the read-only context.
pub struct Validator {
    pub handlers: Handlers,
    pub context: Context,
}

/// Decomposes a script text and broadcasts each non-empty line.
#[verifier::loop_isolation(false)]
fn run_script(
    handlers: &Handlers,
    record: &Record,
    text: &Vec<u8>,
    topic: &Vec<u8>,
    out: &mut Vec<Finding>,
)
    ensures
        finding_views(final(out)@) == finding_views(old(out)@) + spec_script_findings(
            rules_spec(handlers.rules@),
            *record,
            text@,
            topic@,
        ),
{
    let ghost rs = rules_spec(handlers.rules@);
    let trimmed = trim_bytes(text, 0, text.len());
    proof {
        assert(text@.subrange(0, text@.len() as int) =~= text@);
    }
    let ghost all_lines = spec_lines(trimmed@);
    let mut rest = trimmed;
    let ghost mut acc = Seq::<FindingS>::empty();
    let mut done = false;
    proof {
        assert(finding_views(out@) =~= finding_views(old(out)@) + acc);
    }
    while !done
        invariant
            finding_views(out@) == finding_views(old(out)@) + acc,
            !done ==> spec_lines_findings(rs, *record, all_lines, topic@) == acc
                + spec_lines_findings(rs, *record, spec_lines(rest@), topic@),
            done ==> spec_lines_findings(rs, *record, all_lines, topic@) == acc,
        decreases rest@.len() + if done {
            0int
        } else {
            1int
        },
    {
        let ghost rest0 = rest@;
        proof {
            lemma_find_from(rest0, 0x0a, 0);
        }
        let line: Vec<u8>;
        match find_byte(&rest, 0x0a, 0) {
            Some(ix) => {
                let rlen = rest.len();
                line = sub_bytes(&rest, 0, ix);
                let new_rest = sub_bytes(&rest, ix + 1, rlen);
                rest = new_rest;
                proof {
                    assert(line@ =~= rest0.take(ix as int));
                    assert(rest@ =~= rest0.skip(ix + 1));
                    assert(spec_lines(rest0) == seq![line@] + spec_lines(rest@));
                }
            },
            None => {
                line = rest;
                rest = Vec::new();
                done = true;
                proof {
                    assert(spec_lines(rest0) == seq![line@]);
                }
            },
        }
        let ghost pre = finding_views(out@);
        proof {
            lemma_find_from(line@, 0x3b, 0);
        }
        let comment: Vec<u8>;
        let code: Vec<u8>;
        match find_byte(&line, 0x3b, 0) {
            Some(j) => {
                let llen = line.len();
                code = to_lowercase(&trim_bytes(&line, 0, j));
                comment = sub_bytes(&line, j + 1, llen);
                proof {
                    assert(line@.subrange(0, j as int) =~= line@.take(j as int));
                    assert(comment@ =~= line@.skip(j + 1));
                }
            },
            None => {
                code = to_lowercase(&trim_bytes(&line, 0, line.len()));
                comment = Vec::new();
                proof {
                    assert(line@.subrange(0, line@.len() as int) =~= line@);
                }
            },
        }
        proof {
            assert(code@ == spec_split_line(line@).0);
            assert(comment@ == spec_split_line(line@).1);
        }
        if code.len() > 0 || comment.len() > 0 {
            handlers.on_scriptline(record, &code, &comment, topic, out);
        }
        proof {
            assert(finding_views(out@) =~= pre + spec_line_findings(rs, *record, line@, topic@));
            acc = acc + spec_line_findings(rs, *record, line@, topic@);
            let lines0 = spec_lines(rest0);
            assert(lines0[0] == line@);
            if !done {
                assert(lines0.skip(1) =~= spec_lines(rest@));
            } else {
                assert(lines0.skip(1) =~= Seq::<Seq<u8>>::empty());
                assert(spec_lines_findings(rs, *record, lines0.skip(1), topic@)
                    =~= Seq::<FindingS>::empty());
            }
        }
    }
}

impl Validator {
    /// A driver over the given context and active rules.
    pub fn new(context: Context, handlers: Handlers) -> (r: Validator)
        ensures
            r.context == context,
            r.handlers == handlers,
    {
        Validator { handlers, context }
    }

    /// Performs the single forward pass over the record sequence and
    /// returns every finding the active rules yield, in event order and,
    /// within one event, in rule registration order.
    #[verifier::loop_isolation(false)]
    pub fn validate(&mut self, records: &Vec<Record>) -> (out: Vec<Finding>)
        ensures
            ({
                let end = spec_run(
                    rules_spec(old(self).handlers.rules@),
                    old(self).context,
                    records@,
                );
                finding_views(out@) == end.findings && rules_spec(final(self).handlers.rules@)
                    == end.rs && final(self).context == old(self).context
            }),
    {
        let ghost rs0 = rules_spec(self.handlers.rules@);
        let ghost ctx0 = self.context;
        let mut out: Vec<Finding> = Vec::new();
        let mut topic: Vec<u8> = Vec::new();
        let no_topic: Vec<u8> = Vec::new();
        let mut i: usize = 0;
        while i < records.len()
            invariant
                i <= records@.len(),
                self.context == ctx0,
                ({
                    let st = spec_run_upto(rs0, ctx0, records@, i as int);
                    finding_views(out@) == st.findings && rules_spec(self.handlers.rules@) == st.rs
                        && topic@ == st.topic
                }),
            decreases records@.len() - i,
        {
            let ghost st = spec_run_upto(rs0, ctx0, records@, i as int);
            let record = &records[i];
            match record {
                Record::Header => {},
                Record::Landscape => {},
                Record::LandscapeTexture => {},
                Record::Skill => {},
                Record::Container { inventory, .. } => {
                    self.handlers.on_record(&self.context, record, &mut out);
                    self.run_inventory(record, inventory);
                },
                Record::Creature { inventory, .. } => {
                    self.handlers.on_record(&self.context, record, &mut out);
                    self.run_inventory(record, inventory);
                },
                Record::Npc { inventory, .. } => {
                    self.handlers.on_record(&self.context, record, &mut out);
                    self.run_inventory(record, inventory);
                },
                Record::LeveledCreature { creatures, .. } => {
                    self.handlers.on_record(&self.context, record, &mut out);
                    self.run_leveled(record, creatures);
                },
                Record::LeveledItem { items, .. } => {
                    self.handlers.on_record(&self.context, record, &mut out);
                    self.run_leveled(record, items);
                },
                Record::Cell(c) => {
                    self.handlers.on_record(&self.context, record, &mut out);
                    let ghost f1 = st.findings + spec_record_all(st.rs, ctx0, *record);
                    let mut k: usize = 0;
                    proof {
                        assert(finding_views(out@) =~= f1 + spec_cellrefs_upto(st.rs, *c, 0).0);
                    }
                    while k < c.references.len()
                        invariant
                            k <= c.references@.len(),
                            self.context == ctx0,
                            finding_views(out@) == f1 + spec_cellrefs_upto(st.rs, *c, k as int).0,
                            rules_spec(self.handlers.rules@) == spec_cellrefs_upto(
                                st.rs,
                                *c,
                                k as int,
                            ).1,
                        decreases c.references@.len() - k,
                    {
                        let reference = &c.references[k];
                        let lid = to_lowercase(&reference.id);
                        self.handlers.on_cellref(c, reference, &lid, k, &mut out);
                        proof {
                            assert(finding_views(out@) =~= f1 + spec_cellrefs_upto(
                                st.rs,
                                *c,
                                k + 1,
                            ).0);
                        }
                        k = k + 1;
                    }
                },
                Record::Dialogue { id } => {
                    self.handlers.on_record(&self.context, record, &mut out);
                    topic = crate::text::copy_bytes(id);
                },
                Record::Info { script_text, .. } => {
                    self.handlers.on_record(&self.context, record, &mut out);
                    self.handlers.on_info(record, &topic);
                    match script_text {
                        Some(text) => {
                            run_script(&self.handlers, record, text, &topic, &mut out);
                        },
                        None => {},
                    }
                },
                Record::Script { script_text, .. } => {
                    self.handlers.on_record(&self.context, record, &mut out);
                    match script_text {
                        Some(text) => {
                            run_script(&self.handlers, record, text, &no_topic, &mut out);
                        },
                        None => {},
                    }
                },
                _ => {
                    self.handlers.on_record(&self.context, record, &mut out);
                },
            }
            proof {
                let st1 = spec_run_upto(rs0, ctx0, records@, i + 1);
                assert(st1 == spec_step(ctx0, st, records@[i as int]));
                assert(finding_views(out@) =~= st1.findings);
                assert(rules_spec(self.handlers.rules@) =~= st1.rs);
                assert(topic@ =~= st1.topic);
            }
            i = i + 1;
        }
        self.handlers.on_end();
        out
    }

    /// Broadcasts one inventory-entry-seen event per inventory line.
    fn run_inventory(&self, record: &Record, inventory: &Option<Vec<InventoryEntry>>) {
        match inventory {
            Some(list) => {
                let mut k: usize = 0;
                while k < list.len()
                    decreases list@.len() - k,
                {
                    self.handlers.on_inventory(record, list[k].count, &list[k].id);
                    k = k + 1;
                }
            },
            None => {},
        }
    }

    /// Broadcasts one leveled-entry-seen event per leveled-list line.
    fn run_leveled(&self, record: &Record, entries: &Option<Vec<LeveledEntry>>) {
        match entries {
            Some(list) => {
                let mut k: usize = 0;
                while k < list.len()
                    decreases list@.len() - k,
                {
                    self.handlers.on_leveled(record, &list[k].id, list[k].level);
                    k = k + 1;
                }
            },
            None => {},
        }
    }
}

} // verus!
