//! Rendering a dual quantity as text, for diagnostics.

use vstd::prelude::*;
use vstd::string::StringExecFns;
use crate::dual::Dual;
use crate::space::{Real, VectorSpace};

verus! {

/// A value that can be written out as text. How it is written is for the
/// type to say.
pub trait Render {
    /// Returns the text of `self`.
    fn render(&self) -> String;
}

/// `text` is a text that rendering `x` gives.
pub open spec fn render_gives<R: Render>(x: R, text: String) -> bool {
    call_ensures(R::render, (&x,), text)
}

/// The text of an ordered pair: an opening bracket, the first component, a
/// comma and a space, the second component, a closing bracket.
pub open spec fn pair_text(first: Seq<char>, second: Seq<char>) -> Seq<char> {
    seq!['('] + first + seq![',', ' '] + second + seq![')']
}

/// Writes two components, given as text, as an ordered pair.
pub fn render_pair(first: &str, second: &str) -> (text: String)
    ensures
        text@ == pair_text(first@, second@),
{
    let mut text = String::from_str("(");
    text.append(first);
    text.append(", ");
    text.append(second);
    text.append(")");
    proof {
        reveal_strlit("(");
        reveal_strlit(", ");
        reveal_strlit(")");
        assert(text@ =~= pair_text(first@, second@));
    }
    text
}

impl<T: VectorSpace + Render> Dual<T> where T::Scalar: Real + Render {
    /// Writes the dual as the ordered pair of its primal and its tangent,
    /// each as its own type renders it.
    pub fn render(&self) -> (text: String)
        ensures
            exists|primal: String, tangent: String|
                render_gives(self.primal, primal) && render_gives(self.tangent, tangent) && text@
                    == pair_text(primal@, tangent@),
    {
        let primal = self.primal.render();
        let tangent = self.tangent.render();
        render_pair(primal.as_str(), tangent.as_str())
    }
}

} // verus!
