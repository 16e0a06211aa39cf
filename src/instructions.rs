pub mod approve_proposal;
pub mod cancel_proposal;
pub mod create_proposal;
pub mod initialize;
pub mod reject_proposal;
pub mod execute_sol_proposal;
pub mod execute_token_proposal;
