//! The `init` command's report on the data directories it prepares.
use vstd::prelude::*;
use crate::text::{dec_text, push_u64};

verus! {

/// What became of one data directory during `init`.
#[derive(Clone, Copy, Debug, PartialEq, Eq)]
pub enum DirOutcome {
    /// The directory was already there.
    Existing,
    /// The directory was created.
    Created,
    /// Creating the directory failed.
    Failed,
}

/// How many of the outcomes are `o`.
pub open spec fn outcome_count(s: Seq<DirOutcome>, o: DirOutcome) -> nat
    decreases s.len(),
{
    if s.len() == 0 {
        0
    } else {
        outcome_count(s.drop_last(), o) + if s.last() == o {
            1nat
        } else {
            0nat
        }
    }
}

/// The summary lines: how many directories existed and how many were
/// created, and when some failed, how many, with a warning line.
pub open spec fn directory_summary_text(existing: nat, created: nat, failed: nat) -> Seq<char> {
    "    共 "@ + dec_text(existing) + " 个已存在, "@ + dec_text(created) + " 个新建"@ + if failed > 0 {
        ", "@ + dec_text(failed) + " 个失败\n    ⚠️  部分目录创建失败，后续操作可能出错\n"@
    } else {
        "\n"@
    }
}

/// The summary `init` prints after preparing its data directories.
pub fn init_directory_summary(outcomes: &Vec<DirOutcome>) -> (r: String)
    ensures
        r@ == directory_summary_text(
            outcome_count(outcomes@, DirOutcome::Existing),
            outcome_count(outcomes@, DirOutcome::Created),
            outcome_count(outcomes@, DirOutcome::Failed),
        ),
{
    let mut existing: u64 = 0;
    let mut created: u64 = 0;
    let mut failed: u64 = 0;
    let mut i: usize = 0;
    while i < outcomes.len()
        invariant
            i <= outcomes.len(),
            existing == outcome_count(outcomes@.take(i as int), DirOutcome::Existing),
            created == outcome_count(outcomes@.take(i as int), DirOutcome::Created),
            failed == outcome_count(outcomes@.take(i as int), DirOutcome::Failed),
            existing + created + failed == i,
        decreases outcomes.len() - i,
    {
        assert(outcomes@.take(i + 1).drop_last() =~= outcomes@.take(i as int));
        match outcomes[i] {
            DirOutcome::Existing => existing = existing + 1,
            DirOutcome::Created => created = created + 1,
            DirOutcome::Failed => failed = failed + 1,
        }
        i = i + 1;
    }
    assert(outcomes@.take(i as int) =~= outcomes@);
    let mut s = String::new();
    s.append("    共 ");
    push_u64(&mut s, existing);
    s.append(" 个已存在, ");
    push_u64(&mut s, created);
    s.append(" 个新建");
    if failed > 0 {
        s.append(", ");
        push_u64(&mut s, failed);
        s.append(" 个失败\n    ⚠️  部分目录创建失败，后续操作可能出错\n");
    } else {
        s.append("\n");
    }
    s
}


/// Every directory is counted once: the existing, created and failed counts
/// add up to the number of directories.
pub proof fn lemma_outcome_counts_total(s: Seq<DirOutcome>)
    ensures
        outcome_count(s, DirOutcome::Existing) + outcome_count(s, DirOutcome::Created)
            + outcome_count(s, DirOutcome::Failed) == s.len(),
    decreases s.len(),
{
    if s.len() > 0 {
        lemma_outcome_counts_total(s.drop_last());
    }
}

} // verus!
