//! Account kinds named on the command line.
use vstd::prelude::*;
use crate::error::QuantixError;
use crate::text::{str_eq, to_lowercase, unicode_lowercase};

verus! {

/// The kind of a trading account.
#[derive(Clone, Copy, Debug, PartialEq, Eq)]
pub enum AccountType {
    /// Simulated fills against market data.
    Paper,
    /// Live market data with simulated submission.
    MockLive,
    /// Orders submitted to the broker through QMT.
    Live,
}

/// The account kind that a lower-case name denotes, if any; `live` is kept
/// as an alias of `qmt_live`.
pub open spec fn account_type_named(lowered: Seq<char>) -> Option<AccountType> {
    if lowered == "paper"@ {
        Some(AccountType::Paper)
    } else if lowered == "mock_live"@ {
        Some(AccountType::MockLive)
    } else if lowered == "qmt_live"@ || lowered == "live"@ {
        Some(AccountType::Live)
    } else {
        None
    }
}

/// The message refusing an account kind name.
pub open spec fn account_type_message(input: Seq<char>) -> Seq<char> {
    "无效的账户类型: "@ + input + "，支持: paper, mock_live, qmt_live（兼容 live 别名）"@
}

/// The account kind named by `input`, given its lower-case form `lowered`.
pub fn account_type_from_lowercase(lowered: &str, input: &str) -> (r: Result<
    AccountType,
    QuantixError,
>)
    ensures
        match account_type_named(lowered@) {
            Some(t) => r == Ok::<AccountType, QuantixError>(t),
            None => r matches Err(QuantixError::Other(m)) && m@ == account_type_message(input@),
        },
{
    if str_eq(lowered, "paper") {
        Ok(AccountType::Paper)
    } else if str_eq(lowered, "mock_live") {
        Ok(AccountType::MockLive)
    } else if str_eq(lowered, "qmt_live") || str_eq(lowered, "live") {
        Ok(AccountType::Live)
    } else {
        let mut m = "无效的账户类型: ".to_string();
        m.append(input);
        m.append("，支持: paper, mock_live, qmt_live（兼容 live 别名）");
        Err(QuantixError::Other(m))
    }
}

/// The account kind named on the command line, in any letter case:
/// `paper`, `mock_live`, or `qmt_live` with its alias `live`.
pub fn parse_account_type_input(input: &str) -> (r: Result<AccountType, QuantixError>)
    ensures
        match account_type_named(unicode_lowercase(input@)) {
            Some(t) => r == Ok::<AccountType, QuantixError>(t),
            None => r matches Err(QuantixError::Other(m)) && m@ == account_type_message(input@),
        },
{
    let lowered = to_lowercase(input);
    account_type_from_lowercase(lowered.as_str(), input)
}

/// How an order is split across the accounts of a group.
#[derive(Clone, Debug, PartialEq, Eq)]
pub enum AllocationStrategy {
    /// The same quantity for every account.
    Equal,
    /// Quantities in proportion to the accounts' capital.
    Proportional,
    /// Everything to the primary account first.
    PrimaryFirst { primary_account_id: String },
}

/// The name of a strategy as the split preview shows it.
pub open spec fn allocation_strategy_text(s: AllocationStrategy) -> Seq<char> {
    match s {
        AllocationStrategy::Equal => "equal"@,
        AllocationStrategy::Proportional => "proportional"@,
        AllocationStrategy::PrimaryFirst { .. } => "primary_first"@,
    }
}

/// The name of a strategy: `equal`, `proportional` or `primary_first`.
pub fn allocation_strategy_name(s: &AllocationStrategy) -> (r: &'static str)
    ensures
        r@ == allocation_strategy_text(*s),
{
    match s {
        AllocationStrategy::Equal => "equal",
        AllocationStrategy::Proportional => "proportional",
        AllocationStrategy::PrimaryFirst { .. } => "primary_first",
    }
}

/// A strategy read from the command line, with the notice to print when
/// `weighted` was asked for (its weights need more configuration, so the
/// equal split stands in).
#[derive(Clone, Debug, PartialEq, Eq)]
pub struct ParsedAllocation {
    pub strategy: AllocationStrategy,
    pub notice: Option<String>,
}

/// The notice printed for `weighted`.
pub open spec fn weighted_notice() -> Seq<char> {
    "⚠️  加权分配需要额外配置权重，暂时使用平均分配"@
}

/// The message refusing a strategy name.
pub open spec fn allocation_message(input: Seq<char>) -> Seq<char> {
    "无效的分配策略: "@ + input + "，支持: equal, proportional, weighted, primary_first"@
}

/// The message when `primary_first` has no primary account.
pub open spec fn primary_missing_message() -> Seq<char> {
    "primary_first 策略需要指定主账户"@
}

/// The strategy named by `strategy`, given its lower-case form `lowered`.
pub fn allocation_from_lowercase(
    lowered: &str,
    strategy: &str,
    primary_account: Option<String>,
) -> (r: Result<ParsedAllocation, QuantixError>)
    ensures
        lowered@ == "equal"@ ==> r == Ok::<ParsedAllocation, QuantixError>(
            ParsedAllocation { strategy: AllocationStrategy::Equal, notice: None },
        ),
        lowered@ == "proportional"@ ==> r == Ok::<ParsedAllocation, QuantixError>(
            ParsedAllocation { strategy: AllocationStrategy::Proportional, notice: None },
        ),
        lowered@ == "weighted"@ ==> (r matches Ok(p) && p.strategy == AllocationStrategy::Equal
            && (p.notice matches Some(n) && n@ == weighted_notice())),
        lowered@ == "primary_first"@ ==> match primary_account {
            Some(id) => r == Ok::<ParsedAllocation, QuantixError>(
                ParsedAllocation {
                    strategy: AllocationStrategy::PrimaryFirst { primary_account_id: id },
                    notice: None,
                },
            ),
            None => r matches Err(QuantixError::Other(m)) && m@ == primary_missing_message(),
        },
        !(lowered@ == "equal"@ || lowered@ == "proportional"@ || lowered@ == "weighted"@
            || lowered@ == "primary_first"@) ==> (r matches Err(QuantixError::Other(m)) && m@
            == allocation_message(strategy@)),
{
    proof {
        reveal_strlit("equal");
        reveal_strlit("proportional");
        reveal_strlit("weighted");
        reveal_strlit("primary_first");
        assert("equal"@ != "proportional"@ && "equal"@ != "weighted"@ && "equal"@
            != "primary_first"@) by {
            assert("equal"@.len() != "proportional"@.len());
            assert("equal"@[0] != "weighted"@[0]);
            assert("equal"@.len() != "primary_first"@.len());
        }
        assert("proportional"@ != "weighted"@ && "proportional"@ != "primary_first"@) by {
            assert("proportional"@.len() != "weighted"@.len());
            assert("proportional"@.len() != "primary_first"@.len());
        }
        assert("weighted"@ != "primary_first"@) by {
            assert("weighted"@.len() != "primary_first"@.len());
        }
    }
    if str_eq(lowered, "equal") {
        Ok(ParsedAllocation { strategy: AllocationStrategy::Equal, notice: None })
    } else if str_eq(lowered, "proportional") {
        Ok(ParsedAllocation { strategy: AllocationStrategy::Proportional, notice: None })
    } else if str_eq(lowered, "weighted") {
        Ok(
            ParsedAllocation {
                strategy: AllocationStrategy::Equal,
                notice: Some("⚠️  加权分配需要额外配置权重，暂时使用平均分配".to_string()),
            },
        )
    } else if str_eq(lowered, "primary_first") {
        match primary_account {
            Some(id) => Ok(
                ParsedAllocation {
                    strategy: AllocationStrategy::PrimaryFirst { primary_account_id: id },
                    notice: None,
                },
            ),
            None => Err(QuantixError::Other("primary_first 策略需要指定主账户".to_string())),
        }
    } else {
        let mut m = "无效的分配策略: ".to_string();
        m.append(strategy);
        m.append("，支持: equal, proportional, weighted, primary_first");
        Err(QuantixError::Other(m))
    }
}

/// The allocation strategy named on the command line, in any letter case.
pub fn parse_allocation_strategy(strategy: &str, primary_account: Option<String>) -> (r: Result<
    ParsedAllocation,
    QuantixError,
>)
    ensures
        ({
            let lowered = unicode_lowercase(strategy@);
            &&& lowered == "equal"@ ==> r == Ok::<ParsedAllocation, QuantixError>(
                ParsedAllocation { strategy: AllocationStrategy::Equal, notice: None },
            )
            &&& lowered == "proportional"@ ==> r == Ok::<ParsedAllocation, QuantixError>(
                ParsedAllocation { strategy: AllocationStrategy::Proportional, notice: None },
            )
            &&& lowered == "weighted"@ ==> (r matches Ok(p) && p.strategy
                == AllocationStrategy::Equal && (p.notice matches Some(n) && n@ == weighted_notice()))
            &&& lowered == "primary_first"@ ==> match primary_account {
                Some(id) => r == Ok::<ParsedAllocation, QuantixError>(
                    ParsedAllocation {
                        strategy: AllocationStrategy::PrimaryFirst { primary_account_id: id },
                        notice: None,
                    },
                ),
                None => r matches Err(QuantixError::Other(m)) && m@ == primary_missing_message(),
            }
            &&& !(lowered == "equal"@ || lowered == "proportional"@ || lowered == "weighted"@
                || lowered == "primary_first"@) ==> (r matches Err(QuantixError::Other(m)) && m@
                == allocation_message(strategy@))
        }),
{
    let lowered = to_lowercase(strategy);
    allocation_from_lowercase(lowered.as_str(), strategy, primary_account)
}

/// Where a split order goes: one account or a group.
#[derive(Clone, Debug, PartialEq, Eq)]
pub enum SplitTarget {
    Single(String),
    Group(String),
}

/// The message refusing a split target kind.
pub open spec fn split_target_message(input: Seq<char>) -> Seq<char> {
    "无效的目标类型: "@ + input + "，支持: single, group"@
}

/// The split target of `account split`, from its kind (any letter case)
/// given as `target_type` with lower-case form `lowered`.
pub fn split_target_from_lowercase(lowered: &str, target_type: &str, target_id: String) -> (r:
    Result<SplitTarget, QuantixError>)
    ensures
        lowered@ == "single"@ ==> r == Ok::<SplitTarget, QuantixError>(
            SplitTarget::Single(target_id),
        ),
        lowered@ == "group"@ ==> r == Ok::<SplitTarget, QuantixError>(
            SplitTarget::Group(target_id),
        ),
        !(lowered@ == "single"@ || lowered@ == "group"@) ==> (r matches Err(
            QuantixError::Other(m),
        ) && m@ == split_target_message(target_type@)),
{
    proof {
        reveal_strlit("single");
        reveal_strlit("group");
        assert("single"@ != "group"@) by {
            assert("single"@.len() != "group"@.len());
        }
    }
    if str_eq(lowered, "single") {
        Ok(SplitTarget::Single(target_id))
    } else if str_eq(lowered, "group") {
        Ok(SplitTarget::Group(target_id))
    } else {
        let mut m = "无效的目标类型: ".to_string();
        m.append(target_type);
        m.append("，支持: single, group");
        Err(QuantixError::Other(m))
    }
}

/// The split target of `account split`: `single` or `group`, any letter case.
pub fn parse_split_target(target_type: &str, target_id: String) -> (r: Result<
    SplitTarget,
    QuantixError,
>)
    ensures
        unicode_lowercase(target_type@) == "single"@ ==> r == Ok::<SplitTarget, QuantixError>(
            SplitTarget::Single(target_id),
        ),
        unicode_lowercase(target_type@) == "group"@ ==> r == Ok::<SplitTarget, QuantixError>(
            SplitTarget::Group(target_id),
        ),
        !(unicode_lowercase(target_type@) == "single"@ || unicode_lowercase(target_type@)
            == "group"@) ==> (r matches Err(QuantixError::Other(m)) && m@ == split_target_message(
            target_type@,
        )),
{
    let lowered = to_lowercase(target_type);
    split_target_from_lowercase(lowered.as_str(), target_type, target_id)
}

} // verus!
