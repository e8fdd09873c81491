use vstd::prelude::*;

use crate::account::{refuse, refused, AccountSnapshot, Plan, PlanSpec, Sysvars};
use crate::error::FundraiserError;
use crate::instructions::check::{check_contributions, check_contributions_spec};
use crate::instructions::contribute::{contribute, contribute_spec};
use crate::instructions::initialize::{initialize, initialize_spec};
use crate::instructions::refund::{refund, refund_spec};

verus! {

/// What an instruction does: its first byte names it (initialize, contribute,
/// collect, refund), and the bytes after it are its arguments.
pub open spec fn process_instruction_spec(instruction_data: Seq<u8>, accounts: Seq<AccountSnapshot>, sysvars: Sysvars) -> PlanSpec {
    if instruction_data.len() == 0 {
        refused(FundraiserError::InvalidInstructionData)
    } else {
        let data = instruction_data.skip(1);
        if instruction_data[0] == 0 {
            initialize_spec(data, accounts, sysvars)
        } else if instruction_data[0] == 1 {
            contribute_spec(data, accounts, sysvars)
        } else if instruction_data[0] == 2 {
            check_contributions_spec(accounts)
        } else if instruction_data[0] == 3 {
            refund_spec(accounts, sysvars)
        } else {
            refused(FundraiserError::InvalidInstructionData)
        }
    }
}

/// Dispatches an instruction on its first byte.
pub fn process_instruction(_program_id: &[u8; 32], accounts: &[AccountSnapshot], instruction_data: &[u8], sysvars: &Sysvars) -> (plan: Plan)
    ensures
        plan@ == process_instruction_spec(instruction_data@, accounts@, *sysvars),
{
    if instruction_data.len() == 0 {
        return refuse(FundraiserError::InvalidInstructionData);
    }
    let discriminator = instruction_data[0];
    let data = vstd::slice::slice_subrange(instruction_data, 1, instruction_data.len());
    assert(data@ =~= instruction_data@.skip(1));
    if discriminator == 0 {
        initialize(data, accounts, sysvars)
    } else if discriminator == 1 {
        contribute(data, accounts, sysvars)
    } else if discriminator == 2 {
        check_contributions(data, accounts)
    } else if discriminator == 3 {
        refund(data, accounts, sysvars)
    } else {
        refuse(FundraiserError::InvalidInstructionData)
    }
}

} // verus!
