//! The comment-pattern rule: script comments left over from development
//! ("todo", "fixme", "to do", "fix me" at the start of the comment, or
//! "merge" after whitespace or at the start) are reported.

use vstd::prelude::*;

use crate::findings::{Finding, FindingS, finding_views};
use crate::model::Record;
use crate::text::{byte_is_space, copy_bytes, is_space, lower, to_lowercase};

verus! {

/// "todo", lowercased bytes.
pub open spec fn pat_todo() -> Seq<u8> {
    seq![0x74u8, 0x6fu8, 0x64u8, 0x6fu8]
}

/// "fixme", lowercased bytes.
pub open spec fn pat_fixme() -> Seq<u8> {
    seq![0x66u8, 0x69u8, 0x78u8, 0x6du8, 0x65u8]
}

/// "to do", lowercased bytes.
pub open spec fn pat_to_do() -> Seq<u8> {
    seq![0x74u8, 0x6fu8, 0x20u8, 0x64u8, 0x6fu8]
}

/// "fix me", lowercased bytes.
pub open spec fn pat_fix_me() -> Seq<u8> {
    seq![0x66u8, 0x69u8, 0x78u8, 0x20u8, 0x6du8, 0x65u8]
}

/// "merge", lowercased bytes.
pub open spec fn pat_merge() -> Seq<u8> {
    seq![0x6du8, 0x65u8, 0x72u8, 0x67u8, 0x65u8]
}

/// Whether `p` is a prefix of `s`.
pub open spec fn has_prefix(s: Seq<u8>, p: Seq<u8>) -> bool {
    p.len() <= s.len() && forall|i: int| 0 <= i < p.len() ==> s[i] == p[i]
}

/// Whether `p` occurs in `s` at position `at`.
pub open spec fn occurs_at(s: Seq<u8>, p: Seq<u8>, at: int) -> bool {
    0 <= at && at + p.len() <= s.len() && forall|i: int| 0 <= i < p.len() ==> s[at + i] == p[i]
}

/// Whether a comment contains a development marker: one of the todo
/// patterns at the start (ignoring case), or "merge" at the start or
/// after ASCII whitespace.
pub open spec fn spec_todo_match(comment: Seq<u8>) -> bool {
    let lc = lower(comment);
    has_prefix(lc, pat_todo()) || has_prefix(lc, pat_fixme()) || has_prefix(lc, pat_to_do())
        || has_prefix(lc, pat_fix_me()) || exists|at: int|
        occurs_at(lc, pat_merge(), at) && (at == 0 || is_space(lc[at - 1]))
}

/// Every finding the comment rule yields for one script line, given the
/// record that owns the script text and the current topic id.
pub open spec fn spec_todo_findings(record: Record, comment: Seq<u8>, topic: Seq<u8>) -> Seq<
    FindingS,
> {
    if spec_todo_match(comment) {
        match record {
            Record::Script { id, .. } => seq![
                FindingS::TodoScript { script: id@, comment },
            ],
            Record::Info { id, .. } => seq![
                FindingS::TodoInfo { info: id@, topic, comment },
            ],
            _ => Seq::empty(),
        }
    } else {
        Seq::empty()
    }
}

/// Whether `s` starts with `p`, checked byte by byte.
fn prefix_eq(s: &Vec<u8>, p: &Vec<u8>) -> (r: bool)
    ensures
        r == has_prefix(s@, p@),
{
    if p.len() > s.len() {
        return false;
    }
    let mut i: usize = 0;
    while i < p.len()
        invariant
            i <= p.len(),
            p@.len() <= s@.len(),
            forall|j: int| 0 <= j < i ==> s@[j] == p@[j],
        decreases p.len() - i,
    {
        if s[i] != p[i] {
            return false;
        }
        i = i + 1;
    }
    true
}

/// The comment-pattern rule. It holds no state beyond the fixed pattern.
pub struct ToDoValidator {}

impl ToDoValidator {
    pub fn new() -> (r: ToDoValidator) {
        ToDoValidator {  }
    }

    /// Whether a comment contains a development marker.
    pub fn matches(comment: &Vec<u8>) -> (r: bool)
        ensures
            r == spec_todo_match(comment@),
    {
        let lc = to_lowercase(comment);
        let todo: Vec<u8> = vec![0x74u8, 0x6fu8, 0x64u8, 0x6fu8];
        let fixme: Vec<u8> = vec![0x66u8, 0x69u8, 0x78u8, 0x6du8, 0x65u8];
        let to_do: Vec<u8> = vec![0x74u8, 0x6fu8, 0x20u8, 0x64u8, 0x6fu8];
        let fix_me: Vec<u8> = vec![0x66u8, 0x69u8, 0x78u8, 0x20u8, 0x6du8, 0x65u8];
        proof {
            assert(todo@ =~= pat_todo());
            assert(fixme@ =~= pat_fixme());
            assert(to_do@ =~= pat_to_do());
            assert(fix_me@ =~= pat_fix_me());
        }
        if prefix_eq(&lc, &todo) || prefix_eq(&lc, &fixme) || prefix_eq(&lc, &to_do) || prefix_eq(
            &lc,
            &fix_me,
        ) {
            return true;
        }
        Self::has_merge(&lc)
    }

    /// Whether "merge" occurs at the start or after ASCII whitespace.
    fn has_merge(lc: &Vec<u8>) -> (r: bool)
        ensures
            r == exists|at: int|
                occurs_at(lc@, pat_merge(), at) && (at == 0 || is_space(lc@[at - 1])),
    {
        if lc.len() < 5 {
            proof {
                assert forall|at: int| !occurs_at(lc@, pat_merge(), at) by {
                    assert(pat_merge().len() == 5);
                }
            }
            return false;
        }
        let mut at: usize = 0;
        while at <= lc.len() - 5
            invariant
                lc@.len() >= 5,
                at <= lc@.len() - 4,
                forall|j: int|
                    0 <= j < at ==> !(occurs_at(lc@, pat_merge(), j) && (j == 0 || is_space(
                        lc@[j - 1],
                    ))),
            decreases lc.len() - at,
        {
            let boundary = at == 0 || byte_is_space(lc[at - 1]);
            if boundary && lc[at] == 0x6d && lc[at + 1] == 0x65 && lc[at + 2] == 0x72 && lc[at + 3]
                == 0x67 && lc[at + 4] == 0x65 {
                proof {
                    assert(pat_merge().len() == 5);
                    assert forall|i: int| 0 <= i < 5 implies lc@[at + i] == pat_merge()[i] by {
                        assert(pat_merge()[0] == 0x6du8);
                        assert(pat_merge()[1] == 0x65u8);
                        assert(pat_merge()[2] == 0x72u8);
                        assert(pat_merge()[3] == 0x67u8);
                        assert(pat_merge()[4] == 0x65u8);
                    }
                    assert(occurs_at(lc@, pat_merge(), at as int));
                }
                return true;
            }
            at = at + 1;
        }
        proof {
            assert forall|j: int|
                !(occurs_at(lc@, pat_merge(), j) && (j == 0 || is_space(lc@[j - 1]))) by {
                if occurs_at(lc@, pat_merge(), j) {
                    assert(pat_merge().len() == 5);
                    assert(j + 5 <= lc@.len());
                    assert(j < at);
                }
            }
        }
        false
    }

    /// The script-line-seen hook: reports a marked comment against the
    /// owning script, or the owning info entry and its topic.
    pub fn on_scriptline(
        &self,
        record: &Record,
        comment: &Vec<u8>,
        topic: &Vec<u8>,
    ) -> (out: Vec<Finding>)
        ensures
            finding_views(out@) == spec_todo_findings(*record, comment@, topic@),
    {
        let mut out: Vec<Finding> = Vec::new();
        if Self::matches(comment) {
            match record {
                Record::Script { id, .. } => {
                    out.push(
                        Finding::TodoScript { script: copy_bytes(id), comment: copy_bytes(comment) },
                    );
                },
                Record::Info { id, .. } => {
                    out.push(
                        Finding::TodoInfo {
                            info: copy_bytes(id),
                            topic: copy_bytes(topic),
                            comment: copy_bytes(comment),
                        },
                    );
                },
                _ => {},
            }
        }
        proof {
            assert(finding_views(out@) =~= spec_todo_findings(*record, comment@, topic@));
        }
        out
    }
}

} // verus!
