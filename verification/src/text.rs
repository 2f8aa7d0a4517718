use vstd::prelude::*;

verus! {

/// Lexicographic comparison of two character sequences, as a sign:
/// -1 when `x` comes first, 0 when they are equal, 1 when `y` comes first.
pub open spec fn lex_sign(x: Seq<char>, y: Seq<char>) -> int
    decreases x.len(),
{
    if x.len() == 0 && y.len() == 0 {
        0
    } else if x.len() == 0 {
        -1
    } else if y.len() == 0 {
        1
    } else if x[0] < y[0] {
        -1
    } else if y[0] < x[0] {
        1
    } else {
        lex_sign(x.drop_first(), y.drop_first())
    }
}

/// Lexicographic comparison of two strings by their characters. Because
/// UTF-8 preserves the order of code points, this is the order in which
/// `String`'s `Ord` (bytewise) puts them.
pub fn compare_text(a: &String, b: &String) -> (r: i8)
    ensures
        r == lex_sign(a@, b@),
{
    let sa = a.as_str();
    let sb = b.as_str();
    let la = sa.unicode_len();
    let lb = sb.unicode_len();
    let mut i: usize = 0;
    assert(a@.skip(0) =~= a@);
    assert(b@.skip(0) =~= b@);
    while i < la && i < lb
        invariant
            la == a@.len(),
            lb == b@.len(),
            sa@ == a@,
            sb@ == b@,
            i <= la,
            i <= lb,
            lex_sign(a@, b@) == lex_sign(a@.skip(i as int), b@.skip(i as int)),
        decreases la - i,
    {
        let ca = sa.get_char(i);
        let cb = sb.get_char(i);
        if ca < cb {
            return -1;
        }
        if cb < ca {
            return 1;
        }
        assert(a@.skip(i as int).drop_first() =~= a@.skip(i + 1));
        assert(b@.skip(i as int).drop_first() =~= b@.skip(i + 1));
        i = i + 1;
    }
    if i < la {
        1
    } else if i < lb {
        -1
    } else {
        0
    }
}

/// Lexicographic comparison gives 0 exactly for equal sequences, and only
/// -1, 0 or 1.
pub proof fn lemma_lex_zero(x: Seq<char>, y: Seq<char>)
    ensures
        (lex_sign(x, y) == 0) <==> (x == y),
        -1 <= lex_sign(x, y) <= 1,
    decreases x.len(),
{
    if x.len() > 0 && y.len() > 0 && x[0] == y[0] {
        lemma_lex_zero(x.drop_first(), y.drop_first());
        if x.drop_first() == y.drop_first() {
            assert(x =~= seq![x[0]] + x.drop_first());
            assert(y =~= seq![y[0]] + y.drop_first());
        }
        if x == y {
            assert(x.drop_first() =~= y.drop_first());
        }
    } else if x.len() > 0 && y.len() > 0 {
        assert(x[0] != y[0]);
    } else if x.len() != y.len() {
        assert(x.len() != y.len());
    } else {
        assert(x =~= y);
    }
}

/// Swapping the arguments negates the comparison.
pub proof fn lemma_lex_antisymmetric(x: Seq<char>, y: Seq<char>)
    ensures
        lex_sign(x, y) == -lex_sign(y, x),
    decreases x.len(),
{
    if x.len() > 0 && y.len() > 0 && x[0] == y[0] {
        lemma_lex_antisymmetric(x.drop_first(), y.drop_first());
    }
}

/// If `x` comes before `y` and `y` before `z`, then `x` comes before `z`.
pub proof fn lemma_lex_transitive(x: Seq<char>, y: Seq<char>, z: Seq<char>)
    requires
        lex_sign(x, y) < 0,
        lex_sign(y, z) < 0,
    ensures
        lex_sign(x, z) < 0,
    decreases x.len(),
{
    if x.len() > 0 && y.len() > 0 && z.len() > 0 && x[0] == y[0] && y[0] == z[0] {
        lemma_lex_transitive(x.drop_first(), y.drop_first(), z.drop_first());
    }
}

/// Characters that `Debug` writes unchanged inside a quoted string:
/// printable ASCII other than the double quote and the backslash.
pub open spec fn debug_plain(s: Seq<char>) -> bool {
    forall|i: int|
        0 <= i < s.len() ==> 32 <= #[trigger] (s[i] as u32) <= 126 && s[i] != '"' && s[i] != '\\'
}

/// What `Debug` of an optional name is known to write: `None` for no name,
/// and the quoted name for a name made only of characters that `Debug`
/// leaves unescaped.
pub open spec fn name_debug_ok(name: Option<Seq<char>>, text: Seq<char>) -> bool {
    match name {
        None => text == "None"@,
        Some(s) => debug_plain(s) ==> text == "Some(\""@ + s + "\")"@,
    }
}

/// Calls `format!("{:?}", name)` (std's `Debug` for `Option<String>`). The
/// contract claims `None` for no name, and the quoted name for a name made
/// only of characters that `Debug` leaves unescaped; what escaping other
/// characters gives is left unsaid.
#[verifier::external_body]
pub(crate) fn debug_name(name: &Option<String>) -> (r: String)
    ensures
        name_debug_ok(crate::aid::name_view(*name), r@),
{
    format!("{:?}", name)
}

} // verus!
