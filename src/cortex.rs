use vstd::prelude::*;

verus! {

/// The ternary weights (-1, 0 or 1) that the engine applies.
pub open spec fn weight_table() -> Seq<i8> {
    seq![1i8, -1i8, 0i8, 1i8]
}

/// An inference engine over a fixed vector of ternary weights.
pub struct CortexEngine {
    weights: Vec<i8>,
}

impl CortexEngine {
    /// The weights, in order.
    pub closed spec fn view(&self) -> Seq<i8> {
        self.weights@
    }

    /// An engine over the built-in weights.
    pub fn new() -> (e: CortexEngine)
        ensures
            e@ == weight_table(),
    {
        let weights: Vec<i8> = vec![1, -1, 0, 1];
        assert(weights@ =~= weight_table());
        CortexEngine { weights }
    }

    /// How many weights the engine holds.
    pub fn weight_count(&self) -> (n: usize)
        ensures
            n == self@.len(),
    {
        self.weights.len()
    }

    /// The weight at position `i`.
    pub fn weight(&self, i: usize) -> (w: i8)
        requires
            i < self@.len(),
        ensures
            w == self@[i as int],
    {
        self.weights[i]
    }

    /// How many terms a dot product with an input of `input_len` values
    /// takes: the shorter of the input and the weights.
    pub fn term_count(&self, input_len: usize) -> (n: usize)
        ensures
            n as int == if input_len < self@.len() { input_len as int } else { self@.len() as int },
    {
        if input_len < self.weights.len() {
            input_len
        } else {
            self.weights.len()
        }
    }
}

} // verus!
