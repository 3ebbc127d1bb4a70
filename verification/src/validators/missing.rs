//! The required-field rule: records of placeable kinds must carry their
//! icon, mesh and name fields, and file-name fields must carry an
//! extension.

use vstd::prelude::*;

use crate::findings::{FieldKind, Finding, FindingS, finding_views};
use crate::model::{Record, RecordKind};
use crate::text::{blank, copy_bytes, is_blank};

verus! {

/// Whether a byte string contains a `.` character.
pub open spec fn spec_has_dot(s: Seq<u8>) -> bool {
    exists|i: int| 0 <= i < s.len() && s[i] == 0x2e
}

/// Whether a byte string contains a `.` character.
pub fn has_dot(s: &Vec<u8>) -> (r: bool)
    ensures
        r == spec_has_dot(s@),
{
    let mut i: usize = 0;
    while i < s.len()
        invariant
            i <= s.len(),
            forall|j: int| 0 <= j < i ==> s@[j] != 0x2e,
        decreases s.len() - i,
    {
        if s[i] == 0x2e {
            return true;
        }
        i = i + 1;
    }
    false
}

/// The findings one required field yields: a blank value is missing; a
/// non-blank value of a field other than the name without a `.` (so
/// without a file extension) is invalid.
pub open spec fn spec_field_check(
    kind: RecordKind,
    id: Seq<u8>,
    field: FieldKind,
    value: Seq<u8>,
) -> Seq<FindingS> {
    if !is_blank(value) {
        if field != FieldKind::Name && !spec_has_dot(value) {
            seq![FindingS::InvalidFieldValue { kind, id, field, value }]
        } else {
            Seq::empty()
        }
    } else {
        seq![FindingS::MissingField { kind, id, field }]
    }
}

/// Every finding the required-field rule yields for one record.
pub open spec fn spec_field_findings(r: Record) -> Seq<FindingS> {
    match r {
        Record::Activator { id, mesh, .. } => spec_field_check(
            RecordKind::Activator,
            id@,
            FieldKind::Mesh,
            mesh@,
        ),
        Record::Alchemy { id, icon, mesh, name, .. } => spec_three(
            RecordKind::Alchemy,
            id@,
            icon@,
            mesh@,
            name@,
        ),
        Record::Apparatus { id, icon, mesh, name, .. } => spec_three(
            RecordKind::Apparatus,
            id@,
            icon@,
            mesh@,
            name@,
        ),
        Record::Armor { id, icon, mesh, name, .. } => spec_three(
            RecordKind::Armor,
            id@,
            icon@,
            mesh@,
            name@,
        ),
        Record::Book { id, icon, mesh, name, marker, .. } => {
            if marker {
                Seq::empty()
            } else {
                spec_three(RecordKind::Book, id@, icon@, mesh@, name@)
            }
        },
        Record::Clothing { id, icon, mesh, name, .. } => spec_three(
            RecordKind::Clothing,
            id@,
            icon@,
            mesh@,
            name@,
        ),
        Record::Container { id, mesh, .. } => spec_field_check(
            RecordKind::Container,
            id@,
            FieldKind::Mesh,
            mesh@,
        ),
        Record::Creature { id, mesh, .. } => spec_field_check(
            RecordKind::Creature,
            id@,
            FieldKind::Mesh,
            mesh@,
        ),
        Record::Door { id, mesh, name, .. } => spec_field_check(
            RecordKind::Door,
            id@,
            FieldKind::Mesh,
            mesh@,
        ) + spec_field_check(RecordKind::Door, id@, FieldKind::Name, name@),
        Record::Ingredient { id, icon, mesh, name, .. } => spec_three(
            RecordKind::Ingredient,
            id@,
            icon@,
            mesh@,
            name@,
        ),
        Record::Light { id, icon, mesh, name, carryable, .. } => {
            if carryable {
                spec_three(RecordKind::Light, id@, icon@, mesh@, name@)
            } else {
                Seq::empty()
            }
        },
        Record::Lockpick { id, icon, mesh, name, .. } => spec_three(
            RecordKind::Lockpick,
            id@,
            icon@,
            mesh@,
            name@,
        ),
        Record::MiscItem { id, icon, mesh, name, .. } => spec_three(
            RecordKind::MiscItem,
            id@,
            icon@,
            mesh@,
            name@,
        ),
        Record::Npc { id, name, .. } => spec_field_check(
            RecordKind::Npc,
            id@,
            FieldKind::Name,
            name@,
        ),
        Record::Probe { id, icon, mesh, name, .. } => spec_three(
            RecordKind::Probe,
            id@,
            icon@,
            mesh@,
            name@,
        ),
        Record::RepairItem { id, icon, mesh, name, .. } => spec_three(
            RecordKind::RepairItem,
            id@,
            icon@,
            mesh@,
            name@,
        ),
        Record::Static { id, mesh, .. } => spec_field_check(
            RecordKind::Static,
            id@,
            FieldKind::Mesh,
            mesh@,
        ),
        Record::Weapon { id, icon, mesh, name, .. } => spec_three(
            RecordKind::Weapon,
            id@,
            icon@,
            mesh@,
            name@,
        ),
        _ => Seq::empty(),
    }
}

/// The icon, mesh and name checks of one record, in report order.
pub open spec fn spec_three(
    kind: RecordKind,
    id: Seq<u8>,
    icon: Seq<u8>,
    mesh: Seq<u8>,
    name: Seq<u8>,
) -> Seq<FindingS> {
    spec_field_check(kind, id, FieldKind::Icon, icon) + spec_field_check(
        kind,
        id,
        FieldKind::Mesh,
        mesh,
    ) + spec_field_check(kind, id, FieldKind::Name, name)
}

/// The required-field rule. It holds no state.
pub struct FieldValidator {}

impl FieldValidator {
    pub fn new() -> (r: FieldValidator) {
        FieldValidator {  }
    }

    /// Appends the findings one required field yields.
    fn check(
        kind: RecordKind,
        id: &Vec<u8>,
        field: FieldKind,
        value: &Vec<u8>,
        out: &mut Vec<Finding>,
    )
        ensures
            finding_views(final(out)@) == finding_views(old(out)@) + spec_field_check(
                kind,
                id@,
                field,
                value@,
            ),
    {
        if !blank(value) {
            if field != FieldKind::Name && !has_dot(value) {
                out.push(
                    Finding::InvalidFieldValue {
                        kind,
                        id: copy_bytes(id),
                        field,
                        value: copy_bytes(value),
                    },
                );
            }
        } else {
            out.push(Finding::MissingField { kind, id: copy_bytes(id), field });
        }
        proof {
            assert(finding_views(final(out)@) =~= finding_views(old(out)@) + spec_field_check(
                kind,
                id@,
                field,
                value@,
            ));
        }
    }

    /// Appends the icon, mesh and name checks of one record.
    fn check_three(
        kind: RecordKind,
        id: &Vec<u8>,
        icon: &Vec<u8>,
        mesh: &Vec<u8>,
        name: &Vec<u8>,
        out: &mut Vec<Finding>,
    )
        ensures
            finding_views(final(out)@) == finding_views(old(out)@) + spec_three(
                kind,
                id@,
                icon@,
                mesh@,
                name@,
            ),
    {
        Self::check(kind, id, FieldKind::Icon, icon, out);
        Self::check(kind, id, FieldKind::Mesh, mesh, out);
        Self::check(kind, id, FieldKind::Name, name, out);
        proof {
            assert(finding_views(final(out)@) =~= finding_views(old(out)@) + spec_three(
                kind,
                id@,
                icon@,
                mesh@,
                name@,
            ));
        }
    }

    /// The record-seen hook: checks the required fields of one record.
    pub fn on_record(&self, record: &Record) -> (out: Vec<Finding>)
        ensures
            finding_views(out@) == spec_field_findings(*record),
    {
        let mut out: Vec<Finding> = Vec::new();
        match record {
            Record::Activator { id, mesh, .. } => {
                Self::check(RecordKind::Activator, id, FieldKind::Mesh, mesh, &mut out);
            },
            Record::Alchemy { id, icon, mesh, name, .. } => {
                Self::check_three(RecordKind::Alchemy, id, icon, mesh, name, &mut out);
            },
            Record::Apparatus { id, icon, mesh, name, .. } => {
                Self::check_three(RecordKind::Apparatus, id, icon, mesh, name, &mut out);
            },
            Record::Armor { id, icon, mesh, name, .. } => {
                Self::check_three(RecordKind::Armor, id, icon, mesh, name, &mut out);
            },
            Record::Book { id, icon, mesh, name, marker, .. } => {
                if !*marker {
                    Self::check_three(RecordKind::Book, id, icon, mesh, name, &mut out);
                }
            },
            Record::Clothing { id, icon, mesh, name, .. } => {
                Self::check_three(RecordKind::Clothing, id, icon, mesh, name, &mut out);
            },
            Record::Container { id, mesh, .. } => {
                Self::check(RecordKind::Container, id, FieldKind::Mesh, mesh, &mut out);
            },
            Record::Creature { id, mesh, .. } => {
                Self::check(RecordKind::Creature, id, FieldKind::Mesh, mesh, &mut out);
            },
            Record::Door { id, mesh, name, .. } => {
                Self::check(RecordKind::Door, id, FieldKind::Mesh, mesh, &mut out);
                Self::check(RecordKind::Door, id, FieldKind::Name, name, &mut out);
            },
            Record::Ingredient { id, icon, mesh, name, .. } => {
                Self::check_three(RecordKind::Ingredient, id, icon, mesh, name, &mut out);
            },
            Record::Light { id, icon, mesh, name, carryable, .. } => {
                if *carryable {
                    Self::check_three(RecordKind::Light, id, icon, mesh, name, &mut out);
                }
            },
            Record::Lockpick { id, icon, mesh, name, .. } => {
                Self::check_three(RecordKind::Lockpick, id, icon, mesh, name, &mut out);
            },
            Record::MiscItem { id, icon, mesh, name, .. } => {
                Self::check_three(RecordKind::MiscItem, id, icon, mesh, name, &mut out);
            },
            Record::Npc { id, name, .. } => {
                Self::check(RecordKind::Npc, id, FieldKind::Name, name, &mut out);
            },
            Record::Probe { id, icon, mesh, name, .. } => {
                Self::check_three(RecordKind::Probe, id, icon, mesh, name, &mut out);
            },
            Record::RepairItem { id, icon, mesh, name, .. } => {
                Self::check_three(RecordKind::RepairItem, id, icon, mesh, name, &mut out);
            },
            Record::Static { id, mesh, .. } => {
                Self::check(RecordKind::Static, id, FieldKind::Mesh, mesh, &mut out);
            },
            Record::Weapon { id, icon, mesh, name, .. } => {
                Self::check_three(RecordKind::Weapon, id, icon, mesh, name, &mut out);
            },
            _ => {},
        }
        proof {
            assert(finding_views(out@) =~= spec_field_findings(*record));
        }
        out
    }
}

} // verus!
