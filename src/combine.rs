//! Composition of dispatch macros: one macro that resolves the concrete types
//! of several enum values at once, by nesting their dispatch macros.

use crate::naming::{snake_case, snake_of};
use crate::text::{join, lemma_join_step};
use vstd::prelude::*;

verus! {

/// The fewest enums a combined macro composes.
pub const MIN_COMBINED: usize = 2;

/// The most enums a combined macro composes.
pub const MAX_COMBINED: usize = 5;

/// Why no combined macro is generated.
#[derive(Clone, Copy, PartialEq, Eq, Structural, Debug)]
pub enum CombineError {
    /// Fewer than two or more than five enums were given.
    UnsupportedCount { count: usize },
}

/// The word that names the metavariables of the `i`-th enum.
pub open spec fn ordinal(i: int) -> Seq<char> {
    if i == 0 {
        "first"@
    } else if i == 1 {
        "second"@
    } else if i == 2 {
        "third"@
    } else if i == 3 {
        "fourth"@
    } else {
        "fifth"@
    }
}

fn ordinal_exec(i: usize) -> (r: &'static str)
    ensures
        r@ == ordinal(i as int),
{
    if i == 0 {
        "first"
    } else if i == 1 {
        "second"
    } else if i == 2 {
        "third"
    } else if i == 3 {
        "fourth"
    } else {
        "fifth"
    }
}

/// The repeated pieces of a combined macro, one per enum.
#[derive(Clone, Copy, PartialEq, Eq, Structural, Debug)]
pub enum Piece {
    /// `_name` in the macro's own name.
    NameSuffix,
    /// `$first_var:expr` in the matcher.
    Value,
    /// `$first_type:ident` in the matcher.
    Type,
    /// The opening of the call of one dispatch macro.
    Call,
    /// The closing of that call.
    Close,
}

pub open spec fn piece(snakes: Seq<Seq<char>>, p: Piece, i: int) -> Seq<char> {
    match p {
        Piece::NameSuffix => "_"@ + snakes[i],
        Piece::Value => "$"@ + ordinal(i) + "_var:expr"@,
        Piece::Type => "$"@ + ordinal(i) + "_type:ident"@,
        Piece::Call => snakes[i] + "!($"@ + ordinal(i) + "_var; $"@ + ordinal(i) + "_type => { "@,
        Piece::Close => " })"@,
    }
}

pub open spec fn pieces(snakes: Seq<Seq<char>>, p: Piece) -> Seq<Seq<char>> {
    Seq::new(snakes.len(), |i: int| piece(snakes, p, i))
}

/// `dispatch_a_b_c` for the snake_case names `a`, `b`, `c`.
pub open spec fn combined_name(snakes: Seq<Seq<char>>) -> Seq<char> {
    "dispatch"@ + join(pieces(snakes, Piece::NameSuffix), Seq::empty())
}

/// The combined macro for enums whose dispatch macros are named `snakes`:
/// it takes `(v1, v2, ..; (T1, T2, ..) => block)` and runs the block inside
/// the nested dispatch macros, the first enum's outermost.
pub open spec fn combined_macro_text(snakes: Seq<Seq<char>>) -> Seq<char> {
    "#[macro_export] macro_rules! "@ + combined_name(snakes) + " { ("@ + join(pieces(snakes, Piece::Value), ", "@)
        + "; ("@ + join(pieces(snakes, Piece::Type), ", "@) + ") => $code_block:block) => { "@
        + join(pieces(snakes, Piece::Call), Seq::empty()) + "$code_block"@
        + join(pieces(snakes, Piece::Close), Seq::empty()) + " }; } "@
}

/// The combined macro's text, or the error for an unsupported number of enums.
pub open spec fn combine(snakes: Seq<Seq<char>>) -> Result<Seq<char>, CombineError> {
    if MIN_COMBINED <= snakes.len() <= MAX_COMBINED {
        Ok(combined_macro_text(snakes))
    } else {
        Err(CombineError::UnsupportedCount { count: snakes.len() as usize })
    }
}

pub open spec fn strings_view(v: Seq<String>) -> Seq<Seq<char>> {
    v.map_values(|s: String| s@)
}

/// The snake_case names of the given enum names.
pub open spec fn snake_names(idents: Seq<Seq<char>>) -> Seq<Seq<char>> {
    idents.map_values(|s: Seq<char>| snake_of(s))
}

/// Appends the pieces of kind `p`, one per name, with `sep` between them.
fn write_pieces(snakes: &Vec<String>, p: Piece, sep: &str, out: &mut String)
    ensures
        final(out)@ == old(out)@ + join(pieces(strings_view(snakes@), p), sep@),
{
    let ghost start = out@;
    let ghost sv = strings_view(snakes@);
    let ghost parts = pieces(sv, p);
    let n = snakes.len();
    let mut i: usize = 0;
    while i < n
        invariant
            i <= n == snakes@.len(),
            sv == strings_view(snakes@),
            parts == pieces(sv, p),
            out@ == start + join(parts.take(i as int), sep@),
        decreases n - i,
    {
        proof {
            lemma_join_step(parts, sep@, i as int);
        }
        if i > 0 {
            out.append(sep);
        }
        let ghost before = out@;
        let word = ordinal_exec(i);
        match p {
            Piece::NameSuffix => {
                out.append("_");
                out.append(snakes[i].as_str());
            },
            Piece::Value => {
                out.append("$");
                out.append(word);
                out.append("_var:expr");
            },
            Piece::Type => {
                out.append("$");
                out.append(word);
                out.append("_type:ident");
            },
            Piece::Call => {
                out.append(snakes[i].as_str());
                out.append("!($");
                out.append(word);
                out.append("_var; $");
                out.append(word);
                out.append("_type => { ");
            },
            Piece::Close => out.append(" })"),
        }
        assert(out@ =~= before + piece(sv, p, i as int));
        assert(out@ =~= start + join(parts.take(i + 1), sep@));
        i = i + 1;
    }
    assert(parts.take(n as int) =~= parts);
}

/// The name of the combined macro for enums whose dispatch macros are named
/// `snakes`: `dispatch` followed by `_name` for each, in order.
pub fn combined_name_from_snakes(snakes: &Vec<String>) -> (r: String)
    ensures
        r@ == combined_name(strings_view(snakes@)),
{
    let mut out = String::from_str("dispatch");
    proof {
        reveal_strlit("");
    }
    assert(""@ =~= Seq::<char>::empty());
    write_pieces(snakes, Piece::NameSuffix, "", &mut out);
    out
}

/// The combined macro for enums whose dispatch macros are named `snakes`;
/// between two and five of them are supported.
pub fn combine_snakes(snakes: &Vec<String>) -> (r: Result<String, CombineError>)
    ensures
        match r {
            Ok(s) => combine(strings_view(snakes@)) == Ok::<_, CombineError>(s@),
            Err(e) => combine(strings_view(snakes@)) == Err::<Seq<char>, _>(e),
        },
{
    let n = snakes.len();
    if n < MIN_COMBINED || n > MAX_COMBINED {
        return Err(CombineError::UnsupportedCount { count: n });
    }
    let mut out = String::from_str("#[macro_export] macro_rules! ");
    proof {
        reveal_strlit("");
    }
    assert(""@ =~= Seq::<char>::empty());
    let name = combined_name_from_snakes(snakes);
    out.append(name.as_str());
    out.append(" { (");
    write_pieces(snakes, Piece::Value, ", ", &mut out);
    out.append("; (");
    write_pieces(snakes, Piece::Type, ", ", &mut out);
    out.append(") => $code_block:block) => { ");
    write_pieces(snakes, Piece::Call, "", &mut out);
    out.append("$code_block");
    write_pieces(snakes, Piece::Close, "", &mut out);
    out.append(" }; } ");
    assert(out@ =~= combined_macro_text(strings_view(snakes@)));
    Ok(out)
}

fn snake_all(idents: &Vec<String>) -> (r: Vec<String>)
    ensures
        strings_view(r@) == snake_names(strings_view(idents@)),
{
    let mut out: Vec<String> = Vec::new();
    let mut i: usize = 0;
    while i < idents.len()
        invariant
            i <= idents@.len(),
            out@.len() == i,
            forall|j: int| 0 <= j < i ==> out@[j]@ == snake_of(idents@[j]@),
        decreases idents@.len() - i,
    {
        out.push(snake_case(idents[i].as_str()));
        i = i + 1;
    }
    assert(strings_view(out@) =~= snake_names(strings_view(idents@)));
    out
}

/// The name of the combined macro for the enums named `idents`, in order:
/// `[Exchange, Strategy]` gives `dispatch_exchange_strategy`.
pub fn combined_macro_name(idents: &Vec<String>) -> (r: String)
    ensures
        r@ == combined_name(snake_names(strings_view(idents@))),
{
    combined_name_from_snakes(&snake_all(idents))
}

/// The combined macro for the enums named `idents`, in order, each of which
/// has its `Concrete` dispatch macro; between two and five are supported.
pub fn combine_dispatch_macros(idents: &Vec<String>) -> (r: Result<String, CombineError>)
    ensures
        match r {
            Ok(s) => combine(snake_names(strings_view(idents@))) == Ok::<_, CombineError>(s@),
            Err(e) => combine(snake_names(strings_view(idents@))) == Err::<Seq<char>, _>(e),
        },
{
    combine_snakes(&snake_all(idents))
}

/// `p` is a prefix of `s`.
pub open spec fn is_prefix(p: Seq<char>, s: Seq<char>) -> bool {
    p.len() <= s.len() && s.subrange(0, p.len() as int) == p
}

proof fn lemma_join_pair(parts: Seq<Seq<char>>)
    requires
        parts.len() == 2,
    ensures
        join(parts, Seq::empty()) == parts[0] + parts[1],
{
    assert(parts.drop_last().len() == 1);
    assert(join(parts.drop_last(), Seq::empty()) == parts[0]);
    assert(parts[0] + Seq::<char>::empty() =~= parts[0]);
}

proof fn lemma_swapped_pair_differs(x: Seq<char>, y: Seq<char>, u: Seq<char>)
    requires
        u.len() == 1,
        x != y,
        !is_prefix(x + u, y),
        !is_prefix(y + u, x),
    ensures
        x + u + y != y + u + x,
    decreases x.len() + y.len(),
{
    if x + u + y == y + u + x {
        let s = x + u + y;
        let t = y + u + x;
        if x.len() == y.len() {
            assert forall|k: int| 0 <= k < x.len() implies x[k] == y[k] by {
                assert(s[k] == t[k]);
            }
            assert(x =~= y);
        } else if x.len() < y.len() {
            assert forall|k: int| 0 <= k < x.len() + 1 implies y[k] == (x + u)[k] by {
                assert(s[k] == t[k]);
            }
            assert(y.subrange(0, (x + u).len() as int) =~= x + u);
        } else {
            assert forall|k: int| 0 <= k < y.len() + 1 implies x[k] == (y + u)[k] by {
                assert(s[k] == t[k]);
            }
            assert(x.subrange(0, (y + u).len() as int) =~= y + u);
        }
    }
}

/// Combining two enums depends on their order. The name is fixed by the
/// ordered list alone: `dispatch_a_b` for `[A, B]`, `dispatch_b_a` for
/// `[B, A]`. When the snake_case names differ, and neither is the other's
/// name followed by `_` and more, the two names differ. Both orders are
/// accepted.
pub proof fn lemma_combined_name_order_sensitive(a: Seq<char>, b: Seq<char>)
    requires
        snake_of(a) != snake_of(b),
        !is_prefix(snake_of(a) + "_"@, snake_of(b)),
        !is_prefix(snake_of(b) + "_"@, snake_of(a)),
    ensures
        combine(snake_names(seq![a, b])) is Ok,
        combine(snake_names(seq![b, a])) is Ok,
        combined_name(snake_names(seq![a, b])) == "dispatch"@ + "_"@ + snake_of(a) + "_"@ + snake_of(b),
        combined_name(snake_names(seq![b, a])) == "dispatch"@ + "_"@ + snake_of(b) + "_"@ + snake_of(a),
        combined_name(snake_names(seq![a, b])) != combined_name(snake_names(seq![b, a])),
{
    reveal_strlit("_");
    let sa = snake_of(a);
    let sb = snake_of(b);
    let u = "_"@;
    let ab = snake_names(seq![a, b]);
    let ba = snake_names(seq![b, a]);
    assert(ab =~= seq![sa, sb]);
    assert(ba =~= seq![sb, sa]);
    lemma_join_pair(pieces(ab, Piece::NameSuffix));
    lemma_join_pair(pieces(ba, Piece::NameSuffix));
    let d = "dispatch"@;
    let n1 = combined_name(ab);
    let n2 = combined_name(ba);
    assert(n1 == d + ((u + sa) + (u + sb)));
    assert(n2 == d + ((u + sb) + (u + sa)));
    assert(n1 =~= d + u + sa + u + sb);
    assert(n2 =~= d + u + sb + u + sa);
    lemma_swapped_pair_differs(sa, sb, u);
    if n1 == n2 {
        assert(n1.subrange(d.len() + 1int, n1.len() as int) =~= sa + u + sb);
        assert(n2.subrange(d.len() + 1int, n2.len() as int) =~= sb + u + sa);
    }
}

} // verus!
