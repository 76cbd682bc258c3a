pub mod closure_opt_ref;
pub mod closure_ref;
pub mod closure_res_ref;
pub mod closure_val;
