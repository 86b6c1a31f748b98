//! The text of a point, for diagnostics.

use vstd::prelude::*;
use vstd::string::to_string_from_display_ensures;
use vstd::string::StringExecFns;

verus! {

/// Whether `text` is what `Display` writes for the integer `v`.
pub open spec fn written(v: int, text: Seq<char>) -> bool {
    exists|s: String|
        {
            &&& #[trigger] to_string_from_display_ensures::<i128>(&(v as i128), s)
            &&& s@ == text
        }
}

/// The integer as `Display` writes it.
pub fn write_integer(v: i128) -> (text: String)
    ensures
        written(v as int, text@),
{
    let text = v.to_string();
    assert(to_string_from_display_ensures::<i128>(&((v as int) as i128), text));
    text
}

/// Two texts between parentheses, with a comma between them.
pub open spec fn pair_text(x: Seq<char>, y: Seq<char>) -> Seq<char> {
    seq!['('] + x + seq![','] + y + seq![')']
}

/// Three texts between parentheses, with commas between them.
pub open spec fn triple_text(x: Seq<char>, y: Seq<char>, z: Seq<char>) -> Seq<char> {
    seq!['('] + x + seq![','] + y + seq![','] + z + seq![')']
}

/// Whether `text` is the integers `x` and `y` as `Display` writes them,
/// between parentheses and with a comma between them.
pub open spec fn is_pair_text(x: int, y: int, text: Seq<char>) -> bool {
    exists|xs: Seq<char>, ys: Seq<char>|
        {
            &&& written(x, xs)
            &&& written(y, ys)
            &&& text == #[trigger] pair_text(xs, ys)
        }
}

/// Whether `text` is the integers `x`, `y` and `z` as `Display` writes them,
/// between parentheses and with commas between them.
pub open spec fn is_triple_text(x: int, y: int, z: int, text: Seq<char>) -> bool {
    exists|xs: Seq<char>, ys: Seq<char>, zs: Seq<char>|
        {
            &&& written(x, xs)
            &&& written(y, ys)
            &&& written(z, zs)
            &&& text == #[trigger] triple_text(xs, ys, zs)
        }
}

/// `(x,y)`.
pub fn join_pair(x: &str, y: &str) -> (text: String)
    ensures
        text@ == pair_text(x@, y@),
{
    proof {
        reveal_strlit("(");
        reveal_strlit(",");
        reveal_strlit(")");
    }
    let mut text = String::from_str("(");
    text.append(x);
    text.append(",");
    text.append(y);
    text.append(")");
    assert(text@ =~= pair_text(x@, y@));
    text
}

/// `(x,y,z)`.
pub fn join_triple(x: &str, y: &str, z: &str) -> (text: String)
    ensures
        text@ == triple_text(x@, y@, z@),
{
    proof {
        reveal_strlit("(");
        reveal_strlit(",");
        reveal_strlit(")");
    }
    let mut text = String::from_str("(");
    text.append(x);
    text.append(",");
    text.append(y);
    text.append(",");
    text.append(z);
    text.append(")");
    assert(text@ =~= triple_text(x@, y@, z@));
    text
}

} // verus!
