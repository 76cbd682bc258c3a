//! Closures with the captured data strictly separated from the transformation.
//!
//! A closure value here is the pair of a piece of captured data and a
//! non-capturing transformation from a reference to that data and an input
//! to an output.  Both halves are ordinary nameable types, so the pair can
//! be stored in struct fields, cloned when the data is cloneable, and
//! returned from functions without boxing.
//!
//! Four base closure shapes cover the four ways the output may borrow from
//! the captured data: a plain value (`Closure`), a reference (`ClosureRef`),
//! an optional reference (`ClosureOptRef`) and a fallible reference
//! (`ClosureResRef`).  On top of those, closed unions of two, three or four
//! alternative capture types (`ClosureOneOf2` and friends) give one sized,
//! nameable type that can hold any one of several closures sharing one
//! input/output shape; calling the union dispatches to whichever closure it
//! holds, without changing what that closure would have returned.

mod capture;
mod closure_opt_ref;
mod closure_ref;
mod closure_res_ref;
mod closure_val;
mod debug_str;
mod fun;
mod into_capture;
mod one_of;
mod one_of2;
mod one_of3;
mod one_of4;

pub use capture::{
    Capture, lemma_fun_option_ref_round_trip, lemma_fun_ref_round_trip,
    lemma_fun_result_ref_round_trip, lemma_fun_round_trip,
};
pub use closure_opt_ref::{ClosureOptRef, lemma_closure_opt_ref_call_deterministic};
pub use closure_ref::{ClosureRef, lemma_closure_ref_call_deterministic};
pub use closure_res_ref::{ClosureResRef, lemma_closure_res_ref_call_deterministic};
pub use closure_val::{Closure, lemma_closure_call_deterministic};
pub use debug_str::debug_wrap;
pub use fun::{Fun, FunOptRef, FunRef, FunResRef};
pub use into_capture::IntoCapture;
pub use one_of::{OneOf2, OneOf3, OneOf4};

pub use one_of2::closure_opt_ref::{ClosureOptRefOneOf2, lemma_closure_opt_ref_oneof2_dispatch};
pub use one_of2::closure_ref::{ClosureRefOneOf2, lemma_closure_ref_oneof2_dispatch};
pub use one_of2::closure_res_ref::{ClosureResRefOneOf2, lemma_closure_res_ref_oneof2_dispatch};
pub use one_of2::closure_val::{ClosureOneOf2, lemma_closure_oneof2_dispatch};

pub use one_of3::closure_opt_ref::{ClosureOptRefOneOf3, lemma_closure_opt_ref_oneof3_dispatch};
pub use one_of3::closure_ref::{ClosureRefOneOf3, lemma_closure_ref_oneof3_dispatch};
pub use one_of3::closure_res_ref::{ClosureResRefOneOf3, lemma_closure_res_ref_oneof3_dispatch};
pub use one_of3::closure_val::{ClosureOneOf3, lemma_closure_oneof3_dispatch};

pub use one_of4::closure_opt_ref::{ClosureOptRefOneOf4, lemma_closure_opt_ref_oneof4_dispatch};
pub use one_of4::closure_ref::{ClosureRefOneOf4, lemma_closure_ref_oneof4_dispatch};
pub use one_of4::closure_res_ref::{ClosureResRefOneOf4, lemma_closure_res_ref_oneof4_dispatch};
pub use one_of4::closure_val::{ClosureOneOf4, lemma_closure_oneof4_dispatch};
