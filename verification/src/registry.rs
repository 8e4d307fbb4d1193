//! The compliance registry: per-participant bond, verification flag, credit
//! balance, and compliance status, together with the operations that maintain
//! them. The bond vault itself lives on the value ledger and is modeled as a
//! `HoldingAccount`; the credit mint and burn are directed by the amounts
//! these operations validate and record.

use vstd::prelude::*;

use crate::errors::CarbonError;
use crate::holding::HoldingAccount;

verus! {

/// A participant's standing against its emission obligations.
#[derive(Clone, Copy, Debug, PartialEq, Eq, Structural)]
pub enum ComplianceStatus {
    Pending,
    Compliant,
    NonCompliant,
    Warning,
}

/// The registry's record for one industrial participant. `verified` only ever
/// moves from false to true; `ct_balance` grows only through claim settlement
/// and shrinks only through a compliance burn.
#[derive(Clone, Debug, PartialEq, Eq)]
pub struct IndustryAccount {
    pub authority: u64,
    pub company_name: String,
    pub bond_amount: u64,
    pub verified: bool,
    pub ct_balance: u64,
    pub total_purchased: u64,
    pub total_burned: u64,
    pub compliance_status: ComplianceStatus,
    pub created_at: i64,
}

/// An immutable emission report, keyed by its submitter and timestamp.
#[derive(Clone, Debug, PartialEq, Eq)]
pub struct EmissionReport {
    pub industry_owner: u64,
    pub co2_emitted: u64,
    pub report_period: String,
    pub submitted_at: i64,
    pub verified: bool,
}

/// The smallest bond a participant may register with, in currency base units.
pub const MIN_BOND: u64 = 1_000_000_000;

/// Registers a participant, rejecting a bond below the fixed minimum. The new
/// record starts unverified, with empty credit counters and a pending
/// compliance status.
pub fn register_industry(authority: u64, company_name: String, bond_amount: u64, now: i64) -> (r:
    Result<IndustryAccount, CarbonError>)
    ensures
        bond_amount < MIN_BOND ==> r == Err::<IndustryAccount, CarbonError>(
            CarbonError::InsufficientBond,
        ),
        bond_amount >= MIN_BOND ==> (r matches Ok(ind) && ind == (IndustryAccount {
            authority: authority,
            company_name: company_name,
            bond_amount: bond_amount,
            verified: false,
            ct_balance: 0,
            total_purchased: 0,
            total_burned: 0,
            compliance_status: ComplianceStatus::Pending,
            created_at: now,
        })),
{
    if bond_amount < MIN_BOND {
        return Err(CarbonError::InsufficientBond);
    }
    Ok(
        IndustryAccount {
            authority,
            company_name,
            bond_amount,
            verified: false,
            ct_balance: 0,
            total_purchased: 0,
            total_burned: 0,
            compliance_status: ComplianceStatus::Pending,
            created_at: now,
        },
    )
}

/// Marks a participant verified, a one-way transition, and moves it to
/// `Compliant` standing.
pub fn verify_industry(industry: &mut IndustryAccount) -> (r: Result<(), CarbonError>)
    ensures
        old(industry).verified ==> r == Err::<(), CarbonError>(CarbonError::AlreadyVerified)
            && *final(industry) == *old(industry),
        !old(industry).verified ==> r == Ok::<(), CarbonError>(()) && *final(industry)
            == (IndustryAccount {
            verified: true,
            compliance_status: ComplianceStatus::Compliant,
            ..*old(industry)
        }),
{
    if industry.verified {
        return Err(CarbonError::AlreadyVerified);
    }
    industry.verified = true;
    industry.compliance_status = ComplianceStatus::Compliant;
    Ok(())
}

/// Records a bond deposit by a verified participant: the vault takes the
/// funds and the registry's bond figure grows by the same amount.
pub fn deposit_bond(industry: &mut IndustryAccount, vault: &mut HoldingAccount, amount: u64) -> (r:
    Result<(), CarbonError>)
    requires
        old(vault).wf(),
    ensures
        final(vault).wf(),
        !old(industry).verified ==> r == Err::<(), CarbonError>(CarbonError::NotVerified)
            && *final(industry) == *old(industry) && *final(vault) == *old(vault),
        old(industry).verified && (old(industry).bond_amount + amount > u64::MAX || old(
            vault,
        ).balance + amount > u64::MAX) ==> r == Err::<(), CarbonError>(CarbonError::MathOverflow)
            && *final(industry) == *old(industry) && *final(vault) == *old(vault),
        old(industry).verified && old(industry).bond_amount + amount <= u64::MAX && old(
            vault,
        ).balance + amount <= u64::MAX ==> r == Ok::<(), CarbonError>(()) && *final(industry)
            == (IndustryAccount {
            bond_amount: (old(industry).bond_amount + amount) as u64,
            ..*old(industry)
        }) && *final(vault) == (HoldingAccount {
            balance: (old(vault).balance + amount) as u64,
            ..*old(vault)
        }),
{
    if !industry.verified {
        return Err(CarbonError::NotVerified);
    }
    let new_bond: u64 = match industry.bond_amount.checked_add(amount) {
        Some(v) => v,
        None => {
            return Err(CarbonError::MathOverflow);
        },
    };
    let new_balance: u64 = match vault.balance.checked_add(amount) {
        Some(v) => v,
        None => {
            return Err(CarbonError::MathOverflow);
        },
    };
    industry.bond_amount = new_bond;
    vault.balance = new_balance;
    Ok(())
}

/// Releases part of a compliant participant's bond: only up to the recorded
/// bond figure, and only out of what the vault can release above its reserve
/// floor.
pub fn withdraw_bond(industry: &mut IndustryAccount, vault: &mut HoldingAccount, amount: u64) -> (r:
    Result<(), CarbonError>)
    requires
        old(vault).wf(),
    ensures
        final(vault).wf(),
        !(old(industry).compliance_status is Compliant) ==> r == Err::<(), CarbonError>(
            CarbonError::NotCompliant,
        ) && *final(industry) == *old(industry) && *final(vault) == *old(vault),
        old(industry).compliance_status is Compliant && (old(industry).bond_amount < amount || old(
            vault,
        ).spec_available() < amount) ==> r == Err::<(), CarbonError>(CarbonError::InsufficientBond)
            && *final(industry) == *old(industry) && *final(vault) == *old(vault),
        old(industry).compliance_status is Compliant && old(industry).bond_amount >= amount && old(
            vault,
        ).spec_available() >= amount ==> r == Ok::<(), CarbonError>(()) && *final(industry)
            == (IndustryAccount {
            bond_amount: (old(industry).bond_amount - amount) as u64,
            ..*old(industry)
        }) && *final(vault) == (HoldingAccount {
            balance: (old(vault).balance - amount) as u64,
            ..*old(vault)
        }),
{
    match industry.compliance_status {
        ComplianceStatus::Compliant => (),
        _ => {
            return Err(CarbonError::NotCompliant);
        },
    }
    if industry.bond_amount < amount {
        return Err(CarbonError::InsufficientBond);
    }
    let releasable: u64 = vault.available();
    if releasable < amount {
        return Err(CarbonError::InsufficientBond);
    }
    industry.bond_amount = industry.bond_amount - amount;
    vault.balance = vault.balance - amount;
    Ok(())
}

/// Burns credits against a reported emission amount: the participant's credit
/// balance shrinks, the burn total grows, and the compliance status becomes
/// `Compliant` exactly when the burn covers the reported emissions.
pub fn burn_ct_for_compliance(industry: &mut IndustryAccount, amount: u64, emission_amount: u64) -> (r:
    Result<(), CarbonError>)
    ensures
        !old(industry).verified ==> r == Err::<(), CarbonError>(CarbonError::NotVerified)
            && *final(industry) == *old(industry),
        old(industry).verified && old(industry).ct_balance < amount ==> r == Err::<(), CarbonError>(
            CarbonError::InsufficientCT,
        ) && *final(industry) == *old(industry),
        old(industry).verified && old(industry).ct_balance >= amount && old(industry).total_burned
            + amount > u64::MAX ==> r == Err::<(), CarbonError>(CarbonError::MathOverflow)
            && *final(industry) == *old(industry),
        old(industry).verified && old(industry).ct_balance >= amount && old(industry).total_burned
            + amount <= u64::MAX ==> r == Ok::<(), CarbonError>(()) && *final(industry)
            == (IndustryAccount {
            ct_balance: (old(industry).ct_balance - amount) as u64,
            total_burned: (old(industry).total_burned + amount) as u64,
            compliance_status: if amount >= emission_amount {
                ComplianceStatus::Compliant
            } else {
                ComplianceStatus::NonCompliant
            },
            ..*old(industry)
        }),
{
    if !industry.verified {
        return Err(CarbonError::NotVerified);
    }
    if industry.ct_balance < amount {
        return Err(CarbonError::InsufficientCT);
    }
    let new_burned: u64 = match industry.total_burned.checked_add(amount) {
        Some(v) => v,
        None => {
            return Err(CarbonError::MathOverflow);
        },
    };
    industry.ct_balance = industry.ct_balance - amount;
    industry.total_burned = new_burned;
    if amount >= emission_amount {
        industry.compliance_status = ComplianceStatus::Compliant;
    } else {
        industry.compliance_status = ComplianceStatus::NonCompliant;
    }
    Ok(())
}

/// Appends an immutable emission report for a participant; the report starts
/// unverified.
pub fn submit_emission_report(
    industry_owner: u64,
    co2_emitted: u64,
    report_period: String,
    now: i64,
) -> (r: EmissionReport)
    ensures
        r == (EmissionReport {
            industry_owner: industry_owner,
            co2_emitted: co2_emitted,
            report_period: report_period,
            submitted_at: now,
            verified: false,
        }),
{
    EmissionReport { industry_owner, co2_emitted, report_period, submitted_at: now, verified: false }
}

} // verus!
