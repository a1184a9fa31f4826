use vstd::prelude::*;

verus! {

/// A character that a Soroban symbol may hold: `_`, an ASCII digit or an
/// ASCII letter.
pub open spec fn is_symbol_char(c: char) -> bool {
    ||| c == '_'
    ||| ('0' as int) <= (c as int) <= ('9' as int)
    ||| ('A' as int) <= (c as int) <= ('Z' as int)
    ||| ('a' as int) <= (c as int) <= ('z' as int)
}

/// A string that fits a small Soroban symbol: at most nine characters, each
/// of them a symbol character. Exactly these strings are accepted by
/// `symbol_short!`, and they are encoded in a single value with no host
/// object.
pub open spec fn is_short_symbol(s: Seq<char>) -> bool {
    &&& s.len() <= 9
    &&& forall|i: int| 0 <= i < s.len() ==> is_symbol_char(#[trigger] s[i])
}

} // verus!
