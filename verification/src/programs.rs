//! The operations of the ledger, each built from the guards it needs; some
//! come in two forms, one of which leaves a guard out.

pub mod account_constraint_fixed;
pub mod account_constraint_vulnerable;
pub mod arithmetic_fixed;
pub mod arithmetic_vulnerable;
pub mod attacker_program;
pub mod direct_lamport_cpi_dos;
pub mod frontrunning_fixed;
pub mod incorrect_space_allocation;
pub mod missing_account_checks_pinocchio;
pub mod reinitialization_fixed;
pub mod reinitialization_vulnerable;
pub mod seed_collision;
pub mod signature_replay;
pub mod stale_oracle_replay;
pub mod unsafe_cpi_fixed;
pub mod unsafe_cpi_vulnerable;
pub mod unsafe_storage_reads_pinocchio;
