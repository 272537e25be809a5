//! Display forms, `format` substitution and the order of values.
use vstd::prelude::*;
use vstd::string::*;

use crate::ast::{element_value, element_values, lemma_element_values, Const, Expression, Identifier};
use crate::value::{
    compare_chars, compare_idents, compare_sequences, compare_values, decimal, display, kind_rank,
    sign, substitute, unquote,
};

verus! {

/// Relies on `i64`'s `ToString` (its `Display`): the decimal digits, with a
/// leading `-` for a negative number and no leading zeros.
#[verifier::external_body]
fn decimal_string(i: i64) -> (r: String)
    ensures
        r@ == decimal(i as int),
{
    i.to_string()
}

/// A string without one leading and one trailing quote character, where present.
pub fn unquoted(s: &String) -> (r: String)
    ensures
        r@ == unquote(s@),
{
    let text = s.as_str();
    let n = text.unicode_len();
    let from: usize = if n > 0 && text.get_char(0) == '"' { 1 } else { 0 };
    let to: usize = if n > from && text.get_char(n - 1) == '"' { n - 1 } else { n };
    let r = String::from_str(text.substring_char(from, to));
    proof {
        let t = if s@.len() > 0 && s@[0] == '"' { s@.drop_first() } else { s@ };
        assert(t =~= s@.subrange(from as int, n as int));
        if t.len() > 0 && t.last() == '"' {
            assert(t.drop_last() =~= s@.subrange(from as int, to as int));
        } else {
            assert(t =~= s@.subrange(from as int, to as int));
        }
    }
    r
}

/// The display form of a constant: decimal for integers, a string with one
/// layer of quotes stripped, and the empty string for anything else.
pub fn display_string(c: &Const) -> (r: String)
    ensures
        r@ == display(c@),
{
    match c {
        Const::Integer(i) => decimal_string(*i),
        Const::String(s) => unquoted(s),
        _ => String::new(),
    }
}

/// The display form of a vector element.
fn display_element(e: &Expression) -> (r: String)
    ensures
        r@ == display(element_value(*e)),
{
    match e {
        Expression::Constant(c) => display_string(c),
        _ => String::new(),
    }
}

/// `p` put in front of a result that may be missing.
pub open spec fn prepend(p: Seq<char>, o: Option<Seq<char>>) -> Option<Seq<char>> {
    match o {
        Some(r) => Some(p + r),
        None => None,
    }
}

/// `fmt` with each `{}`, left to right, replaced by the display form of the
/// next element of `items`; `None` when the elements run out first.
pub fn substitute_placeholders(fmt: &String, items: &Vec<Box<Expression>>) -> (r: Option<String>)
    ensures
        match r {
            Some(s) => substitute(fmt@, element_values(items@)) == Some(s@),
            None => substitute(fmt@, element_values(items@)) is None,
        },
{
    let ghost vals = element_values(items@);
    proof {
        lemma_element_values(items@);
        assert(fmt@.skip(0) =~= fmt@);
        assert(vals.skip(0) =~= vals);
        assert(Seq::<char>::empty() + fmt@ =~= fmt@);
    }
    let text = fmt.as_str();
    let n = text.unicode_len();
    let mut out = String::new();
    let mut i: usize = 0;
    let mut j: usize = 0;
    while i < n
        invariant
            n == fmt@.len(),
            text@ == fmt@,
            vals == element_values(items@),
            vals.len() == items.len(),
            i <= n,
            j <= items.len(),
            substitute(fmt@, vals) == prepend(out@, substitute(fmt@.skip(i as int), vals.skip(j as int))),
        decreases n - i,
    {
        let rest = Ghost(fmt@.skip(i as int));
        if i + 1 < n && text.get_char(i) == '{' && text.get_char(i + 1) == '}' {
            if j >= items.len() {
                return None;
            }
            let d = display_element(&items[j]);
            proof {
                lemma_element_values(items@);
                assert(rest@.skip(2) =~= fmt@.skip(i + 2));
                assert(vals.skip(j as int).drop_first() =~= vals.skip(j + 1));
                assert(vals.skip(j as int)[0] == element_value(*items@[j as int]));
            }
            let ghost before = out@;
            out.append(d.as_str());
            proof {
                match substitute(fmt@.skip(i + 2), vals.skip(j + 1)) {
                    Some(t) => assert(before + (d@ + t) =~= out@ + t),
                    None => {},
                }
            }
            i = i + 2;
            j = j + 1;
        } else {
            let ghost before = out@;
            out.append(text.substring_char(i, i + 1));
            proof {
                assert(rest@.skip(1) =~= fmt@.skip(i + 1));
                assert(text@.subrange(i as int, i + 1) =~= seq![rest@[0]]);
                match substitute(fmt@.skip(i + 1), vals.skip(j as int)) {
                    Some(t) => assert(before + (seq![rest@[0]] + t) =~= out@ + t),
                    None => {},
                }
            }
            i = i + 1;
        }
    }
    proof {
        assert(fmt@.skip(i as int) =~= Seq::<char>::empty());
        assert(out@ + Seq::<char>::empty() =~= out@);
    }
    Some(out)
}

/// `-1`, `0` or `1` as `a` is below, equal to or above `b`.
fn sign_of(a: i64, b: i64) -> (r: i8)
    ensures
        r as int == sign(a as int, b as int),
{
    if a < b {
        -1
    } else if a == b {
        0
    } else {
        1
    }
}

/// Lexicographic comparison of two strings by character.
pub fn compare_strings(s: &String, t: &String) -> (r: i8)
    ensures
        r as int == compare_chars(s@, t@),
{
    let a = s.as_str();
    let b = t.as_str();
    let n = a.unicode_len();
    let m = b.unicode_len();
    let mut i: usize = 0;
    proof {
        assert(s@.skip(0) =~= s@);
        assert(t@.skip(0) =~= t@);
    }
    while i < n && i < m
        invariant
            a@ == s@,
            b@ == t@,
            n == s@.len(),
            m == t@.len(),
            i <= n,
            i <= m,
            compare_chars(s@, t@) == compare_chars(s@.skip(i as int), t@.skip(i as int)),
        decreases n - i,
    {
        let x = a.get_char(i);
        let y = b.get_char(i);
        if x != y {
            return if (x as u32) < (y as u32) {
                -1
            } else {
                1
            };
        }
        proof {
            assert(s@.skip(i as int).drop_first() =~= s@.skip(i + 1));
            assert(t@.skip(i as int).drop_first() =~= t@.skip(i + 1));
        }
        i = i + 1;
    }
    sign_of_lengths(n - i, m - i)
}

/// `-1`, `0` or `1` as `a` is below, equal to or above `b`.
fn sign_of_lengths(a: usize, b: usize) -> (r: i8)
    ensures
        r as int == sign(a as int, b as int),
{
    if a < b {
        -1
    } else if a == b {
        0
    } else {
        1
    }
}

/// The order of identifiers: plain names first, then by name and length.
pub fn compare_identifiers(a: &Identifier, b: &Identifier) -> (r: i8)
    ensures
        r as int == compare_idents(*a, *b),
{
    match (a, b) {
        (Identifier::Name(x), Identifier::Name(y)) => compare_strings(x, y),
        (Identifier::Name(_), Identifier::Vector(_, _)) => -1,
        (Identifier::Vector(_, _), Identifier::Name(_)) => 1,
        (Identifier::Vector(x, n), Identifier::Vector(y, k)) => {
            let c = compare_strings(x, y);
            if c != 0 {
                c
            } else {
                sign_of(*n, *k)
            }
        },
    }
}

fn rank_of(c: &Const) -> (r: i8)
    ensures
        r as int == kind_rank(c@),
{
    match c {
        Const::Integer(_) => 0,
        Const::String(_) => 1,
        Const::Vector(_) => 2,
        Const::Ident(_) => 3,
    }
}

fn element_rank(e: &Expression) -> (r: i8)
    ensures
        r as int == kind_rank(element_value(*e)),
{
    match e {
        Expression::Constant(c) => rank_of(c),
        _ => 4,
    }
}

/// The total order of values: by kind, then numerically, by character,
/// element by element, or by identifier.
pub fn compare_consts(a: &Const, b: &Const) -> (r: i8)
    ensures
        r as int == compare_values(a@, b@),
    decreases a,
{
    let ra = rank_of(a);
    let rb = rank_of(b);
    if ra != rb {
        return if ra < rb {
            -1
        } else {
            1
        };
    }
    match (a, b) {
        (Const::Integer(x), Const::Integer(y)) => sign_of(*x, *y),
        (Const::String(s), Const::String(t)) => compare_strings(s, t),
        (Const::Ident(i), Const::Ident(j)) => compare_identifiers(i, j),
        (Const::Vector(v), Const::Vector(w)) => {
            let ghost sv = element_values(v@);
            let ghost sw = element_values(w@);
            proof {
                lemma_element_values(v@);
                lemma_element_values(w@);
                assert(sv.skip(0) =~= sv);
                assert(sw.skip(0) =~= sw);
            }
            let mut i: usize = 0;
            while i < v.len() && i < w.len()
                invariant
                    *a == Const::Vector(*v),
                    sv == element_values(v@),
                    sw == element_values(w@),
                    sv.len() == v.len(),
                    sw.len() == w.len(),
                    i <= v.len(),
                    i <= w.len(),
                    compare_values(a@, b@) == compare_sequences(sv.skip(i as int), sw.skip(i as int)),
                decreases v.len() - i,
            {
                let x = &*v[i];
                let y = &*w[i];
                let c: i8 = match (x, y) {
                    (Expression::Constant(p), Expression::Constant(q)) => {
                        proof {
                            vstd::std_specs::vec::axiom_vec_index_decreases(*v, i as int);
                            assert(decreases_to!(*a => (*a)->Vector_0));
                            let ghost e = *v@[i as int];
                            assert(decreases_to!(e => e->Constant_0));
                        }
                        compare_consts(p, q)
                    },
                    _ => {
                        let rx = element_rank(x);
                        let ry = element_rank(y);
                        if rx < ry {
                            -1
                        } else if rx > ry {
                            1
                        } else {
                            0
                        }
                    },
                };
                proof {
                    lemma_element_values(v@);
                    lemma_element_values(w@);
                    assert(sv.skip(i as int)[0] == sv[i as int]);
                    assert(sw.skip(i as int)[0] == sw[i as int]);
                    assert(sv.skip(i as int).drop_first() =~= sv.skip(i + 1));
                    assert(sw.skip(i as int).drop_first() =~= sw.skip(i + 1));
                    assert(c as int == compare_values(sv[i as int], sw[i as int]));
                }
                if c != 0 {
                    return c;
                }
                i = i + 1;
            }
            sign_of_lengths(v.len() - i, w.len() - i)
        },
        _ => 0,
    }
}

} // verus!
