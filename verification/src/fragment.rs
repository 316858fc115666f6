//! One accepted unit of user input, as handed over by the external
//! classifier: item definitions, ordered statements, and the names of the
//! external crates the unit requires.

use vstd::prelude::*;

verus! {

/// One statement of a fragment: the expression text and whether the
/// statement was terminated so that its value is discarded.
pub struct Statement {
    /// The expression text.
    pub expr: String,
    /// True when the statement discards its value (trailing separator).
    pub semi: bool,
}

/// Mathematical image of a [`Statement`].
pub ghost struct StatementV {
    pub expr: Seq<char>,
    pub semi: bool,
}

impl View for Statement {
    type V = StatementV;

    open spec fn view(&self) -> StatementV {
        StatementV { expr: self.expr@, semi: self.semi }
    }
}

/// One accepted unit of user submission for one round.
pub struct Fragment {
    /// Declarations with no immediate evaluable value.
    pub items: Vec<String>,
    /// Ordered statements; at most the trailing one is expected to produce
    /// the round's displayed value.
    pub stmts: Vec<Statement>,
    /// Names of external crates the fragment requires.
    pub crates: Vec<String>,
}

/// Mathematical image of a [`Fragment`].
pub ghost struct FragmentV {
    pub items: Seq<Seq<char>>,
    pub stmts: Seq<StatementV>,
    pub crates: Seq<Seq<char>>,
}

impl View for Fragment {
    type V = FragmentV;

    open spec fn view(&self) -> FragmentV {
        FragmentV {
            items: self.items@.map_values(|s: String| s@),
            stmts: self.stmts@.map_values(|s: Statement| s@),
            crates: self.crates@.map_values(|s: String| s@),
        }
    }
}

} // verus!
