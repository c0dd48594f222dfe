use vstd::prelude::*;
use vstd::string::*;

verus! {

/// Characters that open the field list of a `Debug` rendering.
pub open spec fn opens_fields(c: char) -> bool {
    c == '{' || c == '('
}

/// Index of the first character at or after `i` that opens a field list, or
/// the length of `s` when none does.
pub open spec fn field_list_start(s: Seq<char>, i: int) -> int
    decreases s.len() - i,
{
    if i < 0 || i >= s.len() {
        s.len() as int
    } else if opens_fields(s[i]) {
        i
    } else {
        field_list_start(s, i + 1)
    }
}

/// `m` moved left past the spaces that end `s.subrange(0, m)`.
pub open spec fn before_spaces(s: Seq<char>, m: int) -> int
    decreases m,
{
    if m > 0 && m <= s.len() && s[m - 1] == ' ' {
        before_spaces(s, m - 1)
    } else {
        m
    }
}

/// The type name of a `Debug` rendering: the text before the first `{` or
/// `(` with the spaces in front of that bracket dropped, or the whole text
/// when it has no bracket.
pub open spec fn spec_struct_name(s: Seq<char>) -> Seq<char> {
    let k = field_list_start(s, 0);
    if k < s.len() {
        s.subrange(0, before_spaces(s, k))
    } else {
        s
    }
}

/// Keeps the type name of a `Debug` rendering: `AGreatTuple(0.0)` gives
/// `AGreatTuple`, `AnAwesomeStruct { v: 0.0 }` gives `AnAwesomeStruct`.
pub fn debug_struct_name(string: String) -> (r: String)
    ensures
        r@ == spec_struct_name(string@),
{
    let s = string.as_str();
    let n = s.unicode_len();
    let mut i: usize = 0;
    while i < n
        invariant
            s@ == string@,
            n == s@.len(),
            0 <= i <= n,
            field_list_start(s@, i as int) == field_list_start(s@, 0),
        ensures
            0 <= i <= n,
            field_list_start(s@, 0) == i,
        decreases n - i,
    {
        let c = s.get_char(i);
        if c == '{' || c == '(' {
            break;
        }
        i = i + 1;
    }
    if i == n {
        return String::from_str(s);
    }
    let mut m: usize = i;
    while m > 0 && s.get_char(m - 1) == ' '
        invariant
            s@ == string@,
            n == s@.len(),
            0 <= m <= i < n,
            before_spaces(s@, m as int) == before_spaces(s@, i as int),
        decreases m,
    {
        m = m - 1;
    }
    let name = s.substring_char(0, m);
    String::from_str(name)
}

} // verus!
