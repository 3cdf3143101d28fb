use vstd::prelude::*;

verus! {

/// Evaluator of arithmetic expressions typed into the search bar.
#[derive(Debug, Clone, Copy)]
pub struct ExpressionEvaluator;

impl ExpressionEvaluator {
    /// An evaluator; it holds no state.
    pub fn new() -> (r: ExpressionEvaluator)
        ensures
            r == ExpressionEvaluator,
    {
        ExpressionEvaluator
    }
}

} // verus!
