//! Text for the terminal: pieces of text, each with the look it is shown
//! in. The layout of an output is a list of such pieces and is proved here;
//! the escape sequences that give a piece its look come from the `console`
//! crate, which adds them only where the process has colours switched on.

use crate::text::{contains, occurs_at};
use vstd::prelude::*;
use vstd::string::*;

verus! {

/// The look of a piece of text.
#[derive(Debug, Clone, Copy, PartialEq, Eq, Structural)]
pub enum Tint {
    Plain,
    Bold,
    Dim,
    Underlined,
    Green,
    Red,
    Yellow,
    Cyan,
    GreenBold,
    YellowBold,
    RedBold,
}

/// A piece of text with its look.
#[derive(Debug)]
pub struct Span {
    pub tint: Tint,
    pub text: String,
}

pub ghost struct SpanView {
    pub tint: Tint,
    pub text: Seq<char>,
}

impl View for Span {
    type V = SpanView;

    open spec fn view(&self) -> SpanView {
        SpanView { tint: self.tint, text: self.text@ }
    }
}

/// The views of a list of pieces, in order.
pub open spec fn spans_view(v: Seq<Span>) -> Seq<SpanView> {
    v.map_values(|s: Span| s@)
}

/// A piece of plain text.
pub open spec fn plain(text: Seq<char>) -> SpanView {
    SpanView { tint: Tint::Plain, text }
}

/// A piece of text with a look.
pub open spec fn tinted(tint: Tint, text: Seq<char>) -> SpanView {
    SpanView { tint, text }
}

/// The texts of the pieces, one after the other.
pub open spec fn plain_text(spans: Seq<SpanView>) -> Seq<char>
    decreases spans.len(),
{
    if spans.len() == 0 {
        Seq::empty()
    } else {
        plain_text(spans.drop_last()) + spans.last().text
    }
}

/// Every piece is plain.
pub open spec fn all_plain(spans: Seq<SpanView>) -> bool {
    forall|i: int| 0 <= i < spans.len() ==> (#[trigger] spans[i]).tint == Tint::Plain
}

/// The pieces of text, one after the other.
pub open spec fn joined(pieces: Seq<Seq<char>>) -> Seq<char>
    decreases pieces.len(),
{
    if pieces.len() == 0 {
        Seq::empty()
    } else {
        joined(pieces.drop_last()) + pieces.last()
    }
}

/// `pieces` are the pieces as they are shown: one for each of `spans`, the
/// text itself for each plain one, and for every other one a text that
/// holds the text of the piece: no piece is lost.
pub open spec fn shows(pieces: Seq<Seq<char>>, spans: Seq<SpanView>) -> bool {
    &&& pieces.len() == spans.len()
    &&& forall|i: int|
        0 <= i < spans.len() && spans[i].tint == Tint::Plain ==> #[trigger] pieces[i]
            == spans[i].text
    &&& forall|i: int| 0 <= i < spans.len() ==> contains(#[trigger] pieces[i], spans[i].text)
}

/// A text holds itself.
pub proof fn lemma_contains_itself(t: Seq<char>)
    ensures
        contains(t, t),
{
    assert(t.subrange(0, t.len() as int) =~= t);
    assert(occurs_at(t, t, 0));
}

/// `console::StyledObject::bold`, shown through `Display`. With colours off
/// the text comes back as it is, else wrapped in escape sequences; which of
/// the two depends on the process. Either way the text itself is part of
/// what comes back: `console` writes escape sequences before and after the
/// text and nothing into it. The same holds of the nine wrappers below.
#[verifier::external_body]
fn paint_bold(text: &str) -> (r: String)
    ensures
        contains(r@, text@),
{
    console::style(text).bold().to_string()
}

/// `console::StyledObject::dim`, shown through `Display`.
#[verifier::external_body]
fn paint_dim(text: &str) -> (r: String)
    ensures
        contains(r@, text@),
{
    console::style(text).dim().to_string()
}

/// `console::StyledObject::underlined`, shown through `Display`.
#[verifier::external_body]
fn paint_underlined(text: &str) -> (r: String)
    ensures
        contains(r@, text@),
{
    console::style(text).underlined().to_string()
}

/// `console::StyledObject::green`, shown through `Display`.
#[verifier::external_body]
fn paint_green(text: &str) -> (r: String)
    ensures
        contains(r@, text@),
{
    console::style(text).green().to_string()
}

/// `console::StyledObject::red`, shown through `Display`.
#[verifier::external_body]
fn paint_red(text: &str) -> (r: String)
    ensures
        contains(r@, text@),
{
    console::style(text).red().to_string()
}

/// `console::StyledObject::yellow`, shown through `Display`.
#[verifier::external_body]
fn paint_yellow(text: &str) -> (r: String)
    ensures
        contains(r@, text@),
{
    console::style(text).yellow().to_string()
}

/// `console::StyledObject::cyan`, shown through `Display`.
#[verifier::external_body]
fn paint_cyan(text: &str) -> (r: String)
    ensures
        contains(r@, text@),
{
    console::style(text).cyan().to_string()
}

/// `console::StyledObject::green` and `bold` together, shown through
/// `Display`.
#[verifier::external_body]
fn paint_green_bold(text: &str) -> (r: String)
    ensures
        contains(r@, text@),
{
    console::style(text).green().bold().to_string()
}

/// `console::StyledObject::yellow` and `bold` together, shown through
/// `Display`.
#[verifier::external_body]
fn paint_yellow_bold(text: &str) -> (r: String)
    ensures
        contains(r@, text@),
{
    console::style(text).yellow().bold().to_string()
}

/// `console::StyledObject::red` and `bold` together, shown through
/// `Display`.
#[verifier::external_body]
fn paint_red_bold(text: &str) -> (r: String)
    ensures
        contains(r@, text@),
{
    console::style(text).red().bold().to_string()
}

/// A plain piece.
pub fn text(s: &str) -> (r: Span)
    ensures
        r@ == plain(s@),
{
    Span { tint: Tint::Plain, text: s.to_owned() }
}

/// A piece with a look.
pub fn look(tint: Tint, s: &str) -> (r: Span)
    ensures
        r@ == tinted(tint, s@),
{
    Span { tint, text: s.to_owned() }
}

/// The look that is used: the given one with colours, none without.
pub open spec fn shade_of(colors: bool, tint: Tint) -> Tint {
    if colors {
        tint
    } else {
        Tint::Plain
    }
}

/// The look that is used: the given one with colours, none without.
pub fn shade(colors: bool, tint: Tint) -> (r: Tint)
    ensures
        r == shade_of(colors, tint),
{
    if colors {
        tint
    } else {
        Tint::Plain
    }
}

/// Adds a piece at the end of a list.
pub fn push_span(out: &mut Vec<Span>, tint: Tint, s: &str)
    ensures
        spans_view(final(out)@) == spans_view(old(out)@).push(tinted(tint, s@)),
{
    out.push(Span { tint, text: s.to_owned() });
    assert(spans_view(out@) =~= spans_view(old(out)@).push(tinted(tint, s@)));
}

/// Adds a plain piece at the end of a list.
pub fn push_text(out: &mut Vec<Span>, s: &str)
    ensures
        spans_view(final(out)@) == spans_view(old(out)@).push(plain(s@)),
{
    push_span(out, Tint::Plain, s);
}

/// Adds the pieces of `block` at the end of `out`.
pub fn extend(out: &mut Vec<Span>, block: Vec<Span>)
    ensures
        spans_view(final(out)@) == spans_view(old(out)@) + spans_view(block@),
{
    let ghost added = spans_view(block@);
    let mut rest = block;
    out.append(&mut rest);
    assert(spans_view(out@) =~= spans_view(old(out)@) + added);
}

/// One piece as it is shown: a plain piece is its text, and any other
/// piece holds its text.
pub fn paint(span: &Span) -> (r: String)
    ensures
        span.tint == Tint::Plain ==> r@ == span.text@,
        contains(r@, span.text@),
{
    let t = span.text.as_str();
    proof {
        lemma_contains_itself(span.text@);
    }
    match span.tint {
        Tint::Plain => span.text.clone(),
        Tint::Bold => paint_bold(t),
        Tint::Dim => paint_dim(t),
        Tint::Underlined => paint_underlined(t),
        Tint::Green => paint_green(t),
        Tint::Red => paint_red(t),
        Tint::Yellow => paint_yellow(t),
        Tint::Cyan => paint_cyan(t),
        Tint::GreenBold => paint_green_bold(t),
        Tint::YellowBold => paint_yellow_bold(t),
        Tint::RedBold => paint_red_bold(t),
    }
}

proof fn lemma_plain_text_is_joined(pieces: Seq<Seq<char>>, spans: Seq<SpanView>)
    requires
        shows(pieces, spans),
        all_plain(spans),
    ensures
        joined(pieces) == plain_text(spans),
    decreases spans.len(),
{
    if spans.len() > 0 {
        let p = pieces.drop_last();
        let s = spans.drop_last();
        assert forall|i: int| 0 <= i < s.len() && s[i].tint == Tint::Plain implies #[trigger] p[i]
            == s[i].text by {
            assert(p[i] == pieces[i]);
            assert(s[i] == spans[i]);
        }
        assert forall|i: int| 0 <= i < s.len() implies (#[trigger] s[i]).tint == Tint::Plain by {
            assert(s[i] == spans[i]);
        }
        assert forall|i: int| 0 <= i < s.len() implies contains(#[trigger] p[i], s[i].text) by {
            assert(p[i] == pieces[i]);
            assert(s[i] == spans[i]);
        }
        lemma_plain_text_is_joined(p, s);
        assert(pieces.last() == pieces[pieces.len() - 1]);
        assert(spans.last() == spans[spans.len() - 1]);
    }
}

/// The pieces as they are shown, one after the other. Where every piece is
/// plain the result is the texts, one after the other; in any case it is
/// made of one shown piece for each piece, a plain piece is shown as it is,
/// and every other piece is shown with its text in it.
pub fn render(spans: &Vec<Span>) -> (r: String)
    ensures
        all_plain(spans_view(spans@)) ==> r@ == plain_text(spans_view(spans@)),
        exists|pieces: Seq<Seq<char>>| #[trigger]
            shows(pieces, spans_view(spans@)) && r@ == joined(pieces),
{
    let ghost all = spans_view(spans@);
    let ghost mut pieces: Seq<Seq<char>> = Seq::empty();
    let mut r = String::new();
    let mut i: usize = 0;
    while i < spans.len()
        invariant
            i <= spans.len(),
            all == spans_view(spans@),
            shows(pieces, all.take(i as int)),
            r@ == joined(pieces),
        decreases spans.len() - i,
    {
        let piece = paint(&spans[i]);
        r.append(piece.as_str());
        proof {
            let before = pieces;
            pieces = pieces.push(piece@);
            assert(pieces.drop_last() =~= before);
            assert forall|k: int|
                0 <= k < all.take(i + 1).len() && all.take(i + 1)[k].tint
                    == Tint::Plain implies #[trigger] pieces[k] == all.take(i + 1)[k].text by {
                if k < i {
                    assert(before[k] == all.take(i as int)[k].text);
                }
            }
            assert forall|k: int| 0 <= k < all.take(i + 1).len() implies contains(
                #[trigger] pieces[k],
                all.take(i + 1)[k].text,
            ) by {
                if k < i {
                    assert(contains(before[k], all.take(i as int)[k].text));
                }
            }
        }
        i += 1;
    }
    proof {
        assert(all.take(spans.len() as int) =~= all);
        if all_plain(all) {
            lemma_plain_text_is_joined(pieces, all);
        }
    }
    r
}

/// The texts of the pieces, one after the other, without any look.
pub fn render_plain(spans: &Vec<Span>) -> (r: String)
    ensures
        r@ == plain_text(spans_view(spans@)),
{
    let ghost all = spans_view(spans@);
    let mut r = String::new();
    let mut i: usize = 0;
    assert(all.take(0) =~= Seq::<SpanView>::empty());
    while i < spans.len()
        invariant
            i <= spans.len(),
            all == spans_view(spans@),
            r@ == plain_text(all.take(i as int)),
        decreases spans.len() - i,
    {
        assert(all.take(i + 1).drop_last() =~= all.take(i as int));
        r.append(spans[i].text.as_str());
        i += 1;
    }
    assert(all.take(spans.len() as int) =~= all);
    r
}

} // verus!
