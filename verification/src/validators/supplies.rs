//! The ownership-policy rule: known supply containers must be owned by
//! their faction and be available to all ranks.

use vstd::prelude::*;

use crate::findings::{Finding, FindingS, finding_views};
use crate::model::{Cell, Placement};
use crate::tables::{spec_lookup, LookupTable};
use crate::text::{copy_bytes, eq_ignore_case, lower};
use crate::util::{get_cell_name, spec_cell_name};

verus! {

/// The rank value that marks a container as open to all ranks.
pub const ALL_RANKS: u32 = 4294967295;

/// Whether the placement's owning faction equals `faction`, ignoring
/// ASCII case.
pub open spec fn spec_owner_matches(p: Placement, faction: Seq<u8>) -> bool {
    match p.owner_faction {
        Some(f) => lower(f@) == lower(faction),
        None => false,
    }
}

/// Every finding the supply-chest rule yields for one placement, given
/// the ownership table and the placement's lowercased id.
pub open spec fn spec_supply_findings(
    chests: Seq<(Vec<u8>, Vec<u8>)>,
    cell: Cell,
    p: Placement,
) -> Seq<FindingS> {
    match spec_lookup(chests, lower(p.id@)) {
        None => Seq::empty(),
        Some(faction) => {
            if !spec_owner_matches(p, faction) {
                seq![
                    FindingS::NotOwnedByFaction {
                        cell: spec_cell_name(cell),
                        id: p.id@,
                        faction,
                    },
                ]
            } else {
                let rank = match p.owner_faction_rank {
                    Some(r) => r,
                    None => 0u32,
                };
                if rank != 0 && rank != ALL_RANKS {
                    seq![
                        FindingS::NotAvailableToAllRanks {
                            cell: spec_cell_name(cell),
                            id: p.id@,
                        },
                    ]
                } else {
                    Seq::empty()
                }
            }
        },
    }
}

/// The ownership-policy rule. Its table maps a lowercased supply-container
/// id to the faction expected to own it.
pub struct SupplyChestValidator {
    pub chests: LookupTable,
}

impl SupplyChestValidator {
    /// A rule instance over the given ownership table.
    pub fn new(chests: LookupTable) -> (r: SupplyChestValidator)
        ensures
            r.chests == chests,
    {
        SupplyChestValidator { chests }
    }

    /// The cell-placement-seen hook. `id` is the placement's id already
    /// normalized to lower case by the traversal driver.
    pub fn on_cellref(&self, cell: &Cell, reference: &Placement, id: &Vec<u8>) -> (out: Vec<
        Finding,
    >)
        requires
            id@ == lower(reference.id@),
        ensures
            finding_views(out@) == spec_supply_findings(self.chests.entries@, *cell, *reference),
    {
        let mut out: Vec<Finding> = Vec::new();
        match self.chests.get(id) {
            None => {},
            Some(faction) => {
                let owner_matches = match &reference.owner_faction {
                    Some(f) => eq_ignore_case(f, faction),
                    None => false,
                };
                if !owner_matches {
                    out.push(
                        Finding::NotOwnedByFaction {
                            cell: get_cell_name(cell),
                            id: copy_bytes(&reference.id),
                            faction: copy_bytes(faction),
                        },
                    );
                } else {
                    let rank = match reference.owner_faction_rank {
                        Some(r) => r,
                        None => 0u32,
                    };
                    if rank != 0 && rank != ALL_RANKS {
                        out.push(
                            Finding::NotAvailableToAllRanks {
                                cell: get_cell_name(cell),
                                id: copy_bytes(&reference.id),
                            },
                        );
                    }
                }
            },
        }
        proof {
            assert(finding_views(out@) =~= spec_supply_findings(
                self.chests.entries@,
                *cell,
                *reference,
            ));
        }
        out
    }
}

} // verus!
