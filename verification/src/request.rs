//! Reading request expressions: keyword argument lists and maps become
//! ordered string fields, looked up last-write-wins as a map would.

use vstd::prelude::*;

use crate::expr::{Expr, ExprView, Symbol, entry_views, expr_views, list_expr, qualified_text};
use crate::kernel::{Error, Result};
use crate::text::{chars_of, str_eq, string_of, strip_leading};

verus! {

/// The views of a list of string fields.
pub open spec fn field_views(v: Seq<(String, String)>) -> Seq<(Seq<char>, Seq<char>)> {
    v.map_values(|p: (String, String)| (p.0@, p.1@))
}

/// A field key: a symbol's name or a string, leading colons dropped.
pub open spec fn key_text(e: ExprView) -> Option<Seq<char>> {
    match e {
        ExprView::Sym(s) => Some(strip_leading(s.1, ':')),
        ExprView::Text(v) => Some(strip_leading(v, ':')),
        _ => None,
    }
}

/// A field value: a string, or a symbol's text.
pub open spec fn value_text(e: ExprView) -> Option<Seq<char>> {
    match e {
        ExprView::Text(v) => Some(v),
        ExprView::Sym(s) => Some(qualified_text(s)),
        _ => None,
    }
}

/// The value of the last field named `name`.
pub open spec fn lookup(fs: Seq<(Seq<char>, Seq<char>)>, name: Seq<char>) -> Option<Seq<char>>
    decreases fs.len(),
{
    if fs.len() == 0 {
        None
    } else if fs.last().0 == name {
        Some(fs.last().1)
    } else {
        lookup(fs.drop_last(), name)
    }
}

/// The fields of the first `n` key/value pairs of `args`.
pub open spec fn pair_fields(args: Seq<ExprView>, n: nat, key_msg: Seq<char>, value_msg: Seq<char>) -> core::result::Result<
    Seq<(Seq<char>, Seq<char>)>,
    Seq<char>,
>
    decreases n,
{
    if n == 0 {
        Ok(Seq::empty())
    } else {
        match pair_fields(args, (n - 1) as nat, key_msg, value_msg) {
            Err(m) => Err(m),
            Ok(fs) => match key_text(args[2 * n - 2]) {
                None => Err(key_msg),
                Some(k) => match value_text(args[2 * n - 1]) {
                    None => Err(value_msg),
                    Some(v) => Ok(fs.push((k, v))),
                },
            },
        }
    }
}

/// The fields of a keyword argument list.
pub open spec fn keyed_fields(args: Seq<ExprView>, pairs_msg: Seq<char>, key_msg: Seq<char>, value_msg: Seq<char>) -> core::result::Result<
    Seq<(Seq<char>, Seq<char>)>,
    Seq<char>,
> {
    if args.len() % 2 != 0 {
        Err(pairs_msg)
    } else {
        pair_fields(args, (args.len() / 2) as nat, key_msg, value_msg)
    }
}

/// The fields of a map's entries.
pub open spec fn entry_fields(es: Seq<(ExprView, ExprView)>, key_msg: Seq<char>, value_msg: Seq<char>) -> core::result::Result<
    Seq<(Seq<char>, Seq<char>)>,
    Seq<char>,
>
    decreases es.len(),
{
    if es.len() == 0 {
        Ok(Seq::empty())
    } else {
        match entry_fields(es.drop_last(), key_msg, value_msg) {
            Err(m) => Err(m),
            Ok(fs) => match key_text(es.last().0) {
                None => Err(key_msg),
                Some(k) => match value_text(es.last().1) {
                    None => Err(value_msg),
                    Some(v) => Ok(fs.push((k, v))),
                },
            },
        }
    }
}

/// A string with its leading colons dropped.
pub fn strip_colons(s: &str) -> (r: String)
    ensures
        r@ == strip_leading(s@, ':'),
{
    let cs = chars_of(s);
    let mut i: usize = 0;
    assert(cs@.skip(0) =~= cs@);
    while i < cs.len() && cs[i] == ':'
        invariant
            cs@ == s@,
            i <= cs@.len(),
            strip_leading(s@, ':') == strip_leading(cs@.skip(i as int), ':'),
        decreases cs@.len() - i,
    {
        assert(cs@.skip(i as int)[0] == ':');
        assert(cs@.skip(i as int).drop_first() =~= cs@.skip(i + 1));
        i = i + 1;
    }
    let mut out: Vec<char> = Vec::new();
    let mut j: usize = i;
    while j < cs.len()
        invariant
            i <= j <= cs@.len(),
            out@ == cs@.subrange(i as int, j as int),
        decreases cs@.len() - j,
    {
        out.push(cs[j]);
        j = j + 1;
        assert(out@ =~= cs@.subrange(i as int, j as int));
    }
    assert(cs@.subrange(i as int, cs@.len() as int) =~= cs@.skip(i as int));
    string_of(out.as_slice())
}

/// A field key, or `None`.
pub fn key_of(e: &Expr) -> (r: Option<String>)
    ensures
        match key_text(e@) {
            Some(k) => r matches Some(s) && s@ == k,
            None => r is None,
        },
{
    match e {
        Expr::Symbol(s) => Some(strip_colons(s.name.as_str())),
        Expr::String(v) => Some(strip_colons(v.as_str())),
        _ => None,
    }
}

/// A field value, or `None`.
pub fn value_of(e: &Expr) -> (r: Option<String>)
    ensures
        match value_text(e@) {
            Some(v) => r matches Some(s) && s@ == v,
            None => r is None,
        },
{
    match e {
        Expr::String(v) => Some(v.clone()),
        Expr::Symbol(s) => Some(s.as_qualified_str()),
        _ => None,
    }
}

/// The value of the last field named `name`.
pub fn lookup_field<'a>(fields: &'a [(String, String)], name: &str) -> (r: Option<&'a String>)
    ensures
        match lookup(field_views(fields@), name@) {
            Some(v) => r matches Some(s) && s@ == v,
            None => r is None,
        },
{
    let ghost fs = field_views(fields@);
    let mut i: usize = fields.len();
    assert(fs.take(fs.len() as int) =~= fs);
    while i > 0
        invariant
            fs == field_views(fields@),
            i <= fields@.len(),
            lookup(fs, name@) == lookup(fs.take(i as int), name@),
        decreases i,
    {
        let ghost t = fs.take(i as int);
        assert(t.last() == (fields@[i - 1].0@, fields@[i - 1].1@));
        if str_eq(fields[i - 1].0.as_str(), name) {
            return Some(&fields[i - 1].1);
        }
        assert(t.drop_last() =~= fs.take(i - 1));
        i = i - 1;
    }
    None
}

fn eval_error(text: &str) -> (e: Error)
    ensures
        e matches Error::Eval(m) && m@ == text@,
{
    Error::Eval(text.to_owned())
}

/// The fields of a keyword argument list, refusing an odd count, a key
/// that is not a symbol or string, or a value that is not a string or
/// symbol, each with its caller's message.
pub fn keyed_args(args: &[Expr], pairs_msg: &str, key_msg: &str, value_msg: &str) -> (r: Result<Vec<(String, String)>>)
    ensures
        match keyed_fields(expr_views(args@), pairs_msg@, key_msg@, value_msg@) {
            Ok(fs) => r matches Ok(v) && field_views(v@) == fs,
            Err(m) => r matches Err(Error::Eval(e)) && e@ == m,
        },
{
    let ghost av = expr_views(args@);
    if args.len() % 2 != 0 {
        return Err(eval_error(pairs_msg));
    }
    let mut out: Vec<(String, String)> = Vec::new();
    let mut n: usize = 0;
    assert(field_views(out@) =~= Seq::<(Seq<char>, Seq<char>)>::empty());
    while 2 * n < args.len()
        invariant
            av == expr_views(args@),
            args@.len() % 2 == 0,
            2 * n <= args@.len(),
            pair_fields(av, n as nat, key_msg@, value_msg@) == Ok::<Seq<(Seq<char>, Seq<char>)>, Seq<char>>(
                field_views(out@),
            ),
        decreases args@.len() - 2 * n,
    {
        let k = match key_of(&args[2 * n]) {
            Some(k) => k,
            None => {
                proof {
                    lemma_pair_error_sticks(av, (n + 1) as nat, (args@.len() / 2) as nat, key_msg@, value_msg@);
                }
                return Err(eval_error(key_msg));
            },
        };
        let v = match value_of(&args[2 * n + 1]) {
            Some(v) => v,
            None => {
                proof {
                    lemma_pair_error_sticks(av, (n + 1) as nat, (args@.len() / 2) as nat, key_msg@, value_msg@);
                }
                return Err(eval_error(value_msg));
            },
        };
        let ghost before = out@;
        out.push((k, v));
        assert(field_views(out@) =~= field_views(before).push((k@, v@)));
        n = n + 1;
    }
    assert(n == args@.len() / 2);
    Ok(out)
}

/// Once the first pairs fail, every longer prefix fails the same way.
pub proof fn lemma_pair_error_sticks(args: Seq<ExprView>, n: nat, m: nat, key_msg: Seq<char>, value_msg: Seq<char>)
    requires
        n <= m,
        pair_fields(args, n, key_msg, value_msg) is Err,
    ensures
        pair_fields(args, m, key_msg, value_msg) == pair_fields(args, n, key_msg, value_msg),
    decreases m - n,
{
    if n < m {
        lemma_pair_error_sticks(args, n, (m - 1) as nat, key_msg, value_msg);
    }
}

/// The fields of a map's entries, refusing a bad key or value with its
/// caller's message.
pub fn map_args(entries: &[(Expr, Expr)], key_msg: &str, value_msg: &str) -> (r: Result<Vec<(String, String)>>)
    ensures
        match entry_fields(entry_views(entries@), key_msg@, value_msg@) {
            Ok(fs) => r matches Ok(v) && field_views(v@) == fs,
            Err(m) => r matches Err(Error::Eval(e)) && e@ == m,
        },
{
    let ghost es = entry_views(entries@);
    let mut out: Vec<(String, String)> = Vec::new();
    let mut i: usize = 0;
    assert(es.take(0) =~= Seq::<(ExprView, ExprView)>::empty());
    assert(field_views(out@) =~= Seq::<(Seq<char>, Seq<char>)>::empty());
    while i < entries.len()
        invariant
            es == entry_views(entries@),
            i <= entries@.len(),
            entry_fields(es.take(i as int), key_msg@, value_msg@) == Ok::<Seq<(Seq<char>, Seq<char>)>, Seq<char>>(
                field_views(out@),
            ),
        decreases entries@.len() - i,
    {
        let ghost t = es.take(i + 1);
        assert(t.drop_last() =~= es.take(i as int));
        assert(t.last() == (entries@[i as int].0@, entries@[i as int].1@));
        let k = match key_of(&entries[i].0) {
            Some(k) => k,
            None => {
                proof {
                    lemma_entry_error_sticks(es, i + 1, key_msg@, value_msg@);
                }
                return Err(eval_error(key_msg));
            },
        };
        let v = match value_of(&entries[i].1) {
            Some(v) => v,
            None => {
                proof {
                    lemma_entry_error_sticks(es, i + 1, key_msg@, value_msg@);
                }
                return Err(eval_error(value_msg));
            },
        };
        let ghost before = out@;
        out.push((k, v));
        assert(field_views(out@) =~= field_views(before).push((k@, v@)));
        i = i + 1;
    }
    assert(es.take(entries@.len() as int) =~= es);
    Ok(out)
}

/// Once a prefix of the entries fails, the whole list fails the same way.
pub proof fn lemma_entry_error_sticks(es: Seq<(ExprView, ExprView)>, k: int, key_msg: Seq<char>, value_msg: Seq<char>)
    requires
        0 <= k <= es.len(),
        entry_fields(es.take(k), key_msg, value_msg) is Err,
    ensures
        entry_fields(es, key_msg, value_msg) == entry_fields(es.take(k), key_msg, value_msg),
    decreases es.len(),
{
    if k == es.len() {
        assert(es.take(k) =~= es);
    } else {
        assert(es.drop_last().take(k) =~= es.take(k));
        lemma_entry_error_sticks(es.drop_last(), k, key_msg, value_msg);
    }
}

/// A keyword argument list: the operator symbol, then `:key` symbols
/// each followed by its string value.
pub open spec fn keyed_view(op: Seq<ExprView>, fields: Seq<(Seq<char>, Seq<char>)>) -> ExprView {
    ExprView::List(op + keyed_items(fields))
}

/// The `:key` symbols and string values of keyword arguments.
pub open spec fn keyed_items(fields: Seq<(Seq<char>, Seq<char>)>) -> Seq<ExprView>
    decreases fields.len(),
{
    if fields.len() == 0 {
        Seq::empty()
    } else {
        keyed_items(fields.drop_last()) + seq![
            ExprView::Sym((None, seq![':'] + fields.last().0)),
            ExprView::Text(fields.last().1),
        ]
    }
}

/// The views of literal key and value pairs.
pub open spec fn pair_views(v: Seq<(&str, &str)>) -> Seq<(Seq<char>, Seq<char>)> {
    v.map_values(|p: (&str, &str)| (p.0@, p.1@))
}

/// Builds a keyword argument list after `operator`.
pub fn keyed_expr(operator: Symbol, fields: &[(&str, &str)]) -> (r: Expr)
    ensures
        r@ == keyed_view(seq![ExprView::Sym(operator@)], pair_views(fields@)),
{
    let ghost op = operator@;
    let mut items: Vec<Expr> = vec![Expr::Symbol(operator)];
    let mut i: usize = 0;
    assert(expr_views(items@) =~= seq![ExprView::Sym(op)] + keyed_items(pair_views(fields@.take(0))));
    while i < fields.len()
        invariant
            i <= fields@.len(),
            expr_views(items@) == seq![ExprView::Sym(op)] + keyed_items(pair_views(fields@.take(i as int))),
        decreases fields@.len() - i,
    {
        let (k, v) = fields[i];
        proof {
            reveal_strlit(":");
        }
        let mut name = chars_of(":");
        let mut rest = chars_of(k);
        name.append(&mut rest);
        assert(name@ =~= seq![':'] + k@);
        let ghost before = expr_views(items@);
        let key_sym = Expr::Symbol(Symbol::from_string(string_of(name.as_slice())));
        assert(key_sym@ == ExprView::Sym((None, seq![':'] + k@)));
        let val = Expr::String(v.to_owned());
        assert(val@ == ExprView::Text(v@));
        items.push(key_sym);
        items.push(val);
        proof {
            let t = pair_views(fields@.take(i + 1));
            assert(t.drop_last() =~= pair_views(fields@.take(i as int)));
            assert(t.last() == (k@, v@));
            assert(expr_views(items@) =~= before + seq![
                ExprView::Sym((None, seq![':'] + k@)),
                ExprView::Text(v@),
            ]);
        }
        i = i + 1;
    }
    assert(fields@.take(fields@.len() as int) =~= fields@);
    list_expr(items)
}

/// The shape of keyword arguments: a `:key` symbol, then its value.
pub proof fn lemma_keyed_items_shape(fs: Seq<(Seq<char>, Seq<char>)>)
    ensures
        keyed_items(fs).len() == 2 * fs.len(),
        forall|i: int| 0 <= i < fs.len() ==> keyed_items(fs)[2 * i] == ExprView::Sym((None, seq![':'] + (#[trigger] fs[i]).0))
            && keyed_items(fs)[2 * i + 1] == ExprView::Text(fs[i].1),
    decreases fs.len(),
{
    if fs.len() > 0 {
        let front = fs.drop_last();
        lemma_keyed_items_shape(front);
        assert forall|i: int| 0 <= i < fs.len() implies keyed_items(fs)[2 * i] == ExprView::Sym(
            (None, seq![':'] + (#[trigger] fs[i]).0),
        ) && keyed_items(fs)[2 * i + 1] == ExprView::Text(fs[i].1) by {
            if i < front.len() {
                assert(front[i] == fs[i]);
            }
        }
    }
}

/// Dropping leading colons from `:key` gives `key` back, for a key that
/// does not itself start with a colon.
pub proof fn lemma_strip_colon_prefix(k: Seq<char>)
    requires
        k.len() == 0 || k[0] != ':',
    ensures
        strip_leading(seq![':'] + k, ':') == k,
{
    let s = seq![':'] + k;
    assert(s.drop_first() =~= k);
    if k.len() > 0 {
        assert(strip_leading(k, ':') == k);
    } else {
        assert(strip_leading(k, ':') == k);
    }
}

/// Keyword arguments built from fields read back as the same fields, when
/// no key starts with a colon.
pub proof fn lemma_keyed_round_trip(fs: Seq<(Seq<char>, Seq<char>)>, pairs_msg: Seq<char>, key_msg: Seq<char>, value_msg: Seq<char>)
    requires
        forall|i: int| 0 <= i < fs.len() ==> (#[trigger] fs[i]).0.len() == 0 || fs[i].0[0] != ':',
    ensures
        keyed_fields(keyed_items(fs), pairs_msg, key_msg, value_msg) == Ok::<Seq<(Seq<char>, Seq<char>)>, Seq<char>>(fs),
{
    lemma_keyed_items_shape(fs);
    let items = keyed_items(fs);
    assert(items.len() % 2 == 0);
    assert(items.len() / 2 == fs.len());
    lemma_pair_fields_prefix(fs, fs.len() as nat, key_msg, value_msg);
    assert(fs.take(fs.len() as int) =~= fs);
}

/// The first `n` pairs of built keyword arguments read back as the first
/// `n` fields.
pub proof fn lemma_pair_fields_prefix(fs: Seq<(Seq<char>, Seq<char>)>, n: nat, key_msg: Seq<char>, value_msg: Seq<char>)
    requires
        n <= fs.len(),
        forall|i: int| 0 <= i < fs.len() ==> (#[trigger] fs[i]).0.len() == 0 || fs[i].0[0] != ':',
    ensures
        pair_fields(keyed_items(fs), n, key_msg, value_msg) == Ok::<Seq<(Seq<char>, Seq<char>)>, Seq<char>>(fs.take(n as int)),
    decreases n,
{
    lemma_keyed_items_shape(fs);
    if n == 0 {
        assert(fs.take(0) =~= Seq::<(Seq<char>, Seq<char>)>::empty());
    } else {
        lemma_pair_fields_prefix(fs, (n - 1) as nat, key_msg, value_msg);
        let j = n - 1;
        assert(keyed_items(fs)[2 * j] == ExprView::Sym((None, seq![':'] + fs[j as int].0)));
        assert(keyed_items(fs)[2 * j + 1] == ExprView::Text(fs[j as int].1));
        lemma_strip_colon_prefix(fs[j as int].0);
        assert(fs.take(n as int) =~= fs.take(j as int).push(fs[j as int]));
    }
}

} // verus!
