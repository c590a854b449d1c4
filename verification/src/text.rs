//! The display form of a complex value, put together from the texts of its
//! two parts.

use vstd::prelude::*;
use vstd::string::*;

verus! {

/// What stands between the real part and the magnitude of the imaginary part.
pub open spec fn separator(negative: bool) -> Seq<char> {
    if negative {
        seq![' ', '-', ' ']
    } else {
        seq![' ', '+', ' ']
    }
}

/// The display form: the real part, the separator for the sign of the
/// imaginary part, the magnitude of the imaginary part, and the letter `i`.
pub open spec fn display_form(re: Seq<char>, negative: bool, im: Seq<char>) -> Seq<char> {
    re + separator(negative) + im + seq!['i']
}

/// Puts the display form together from the text of the real part, the sign of
/// the imaginary part, and the text of the magnitude of the imaginary part.
pub fn compose(re: &str, negative: bool, im: &str) -> (r: String)
    ensures
        r@ == display_form(re@, negative, im@),
{
    let mut out = String::from_str(re);
    if negative {
        proof {
            reveal_strlit(" - ");
        }
        out.append(" - ");
        assert(out@ =~= re@ + separator(true));
    } else {
        proof {
            reveal_strlit(" + ");
        }
        out.append(" + ");
        assert(out@ =~= re@ + separator(false));
    }
    out.append(im);
    proof {
        reveal_strlit("i");
    }
    out.append("i");
    assert(out@ =~= display_form(re@, negative, im@));
    out
}

} // verus!
