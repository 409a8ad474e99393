//! Diagnostic rendering: two rules sets that produce a textual picture of
//! an aggregate — one from the type-only sequence (the shape of the type),
//! one from a borrowed sequence (the shape with the live values). Output
//! is built line by line: an aggregate renders as its name, a brace-
//! wrapped block of its slots indented by three spaces, and a closing
//! brace.

use vstd::prelude::*;

use crate::data::{
    actor_fields, director_fields, kind_fields, lemma_actor_weight, lemma_director_weight,
    lemma_kind_weight, lemma_movie_weight, lemma_point_weight, lemma_shape_weight,
    lemma_version_weight, movie_fields, point_fields, shape_fields, slot_weight, slots_weight,
    var_slot_weight, var_slots_weight, version_fields, weight, Actor, DatumRef, DatumView,
    Director, Kind, Movie, Point, Shape, Version,
};
use crate::field::{RefField, VarRefField, VarSlotView, VariantHeader};
use crate::ty::{lemma_list_unfold, List};
use crate::{Inception, Property};

verus! {

/// The property marker of the type-only rendering.
pub struct Ty;

impl Property for Ty {
}

/// The property marker of the borrowed-value rendering.
pub struct Ref;

impl Property for Ref {
}

/// The digit character of one decimal digit.
pub open spec fn dec_digit(d: nat) -> char {
    if d == 0 {
        '0'
    } else if d == 1 {
        '1'
    } else if d == 2 {
        '2'
    } else if d == 3 {
        '3'
    } else if d == 4 {
        '4'
    } else if d == 5 {
        '5'
    } else if d == 6 {
        '6'
    } else if d == 7 {
        '7'
    } else if d == 8 {
        '8'
    } else {
        '9'
    }
}

/// The decimal rendering of a number, most significant digit first.
pub open spec fn dec_rep(n: nat) -> Seq<char>
    decreases n,
{
    if n < 10 {
        seq![dec_digit(n)]
    } else {
        dec_rep(n / 10) + seq![dec_digit(n % 10)]
    }
}

/// One decimal digit as text.
fn digit_str(d: u128) -> (r: &'static str)
    requires
        d < 10,
    ensures
        r@ == seq![dec_digit(d as nat)],
{
    let r = match d {
        0 => "0",
        1 => "1",
        2 => "2",
        3 => "3",
        4 => "4",
        5 => "5",
        6 => "6",
        7 => "7",
        8 => "8",
        _ => "9",
    };
    proof {
        reveal_strlit("0");
        reveal_strlit("1");
        reveal_strlit("2");
        reveal_strlit("3");
        reveal_strlit("4");
        reveal_strlit("5");
        reveal_strlit("6");
        reveal_strlit("7");
        reveal_strlit("8");
        reveal_strlit("9");
        assert(r@ =~= seq![dec_digit(d as nat)]);
    }
    r
}

/// Renders a number in decimal.
pub fn render_wide(n: u128) -> (r: String)
    ensures
        r@ == dec_rep(n as nat),
    decreases n,
{
    if n < 10 {
        digit_str(n).to_owned()
    } else {
        let mut s = render_wide(n / 10);
        s.append(digit_str(n % 10));
        s
    }
}

/// Renders a word-sized number in decimal.
pub fn render_word(n: u64) -> (r: String)
    ensures
        r@ == dec_rep(n as nat),
{
    render_wide(n as u128)
}

/// Renders a byte-sized number in decimal.
pub fn render_byte(n: u8) -> (r: String)
    ensures
        r@ == dec_rep(n as nat),
{
    render_wide(n as u128)
}

/// Renders a position index in decimal.
pub fn render_index(n: usize) -> (r: String)
    ensures
        r@ == dec_rep(n as nat),
{
    render_wide(n as u128)
}

/// Lines joined into one text, separated by newlines.
pub open spec fn join_lines_view(ls: Seq<Seq<char>>) -> Seq<char>
    decreases ls.len(),
{
    if ls.len() == 0 {
        Seq::empty()
    } else if ls.len() == 1 {
        ls[0]
    } else {
        ls[0] + seq!['\n'] + join_lines_view(ls.skip(1))
    }
}

/// Joins the lines from position `i` on.
fn join_from(ls: &Vec<String>, i: usize) -> (r: String)
    requires
        i <= ls.len(),
    ensures
        r@ == join_lines_view(ls.deep_view().skip(i as int)),
    decreases ls.len() - i,
{
    let n = ls.len();
    if i == n {
        let r = String::new();
        proof {
            assert(ls.deep_view().skip(i as int) =~= Seq::<Seq<char>>::empty());
        }
        r
    } else if i + 1 == n {
        let r = ls[i].clone();
        proof {
            assert(ls.deep_view().skip(i as int) =~= seq![ls.deep_view()[i as int]]);
        }
        r
    } else {
        let mut s = ls[i].clone();
        s.append("\n");
        let rest = join_from(ls, i + 1);
        s.append(rest.as_str());
        proof {
            reveal_strlit("\n");
            assert("\n"@ =~= seq!['\n']);
            assert(ls.deep_view().skip(i as int).skip(1) =~= ls.deep_view().skip(i as int + 1));
            assert(s@ =~= join_lines_view(ls.deep_view().skip(i as int)));
        }
        s
    }
}

/// Joins rendered lines into one text, separated by newlines.
pub fn join_lines(ls: &Vec<String>) -> (r: String)
    ensures
        r@ == join_lines_view(ls.deep_view()),
{
    let r = join_from(ls, 0);
    proof {
        assert(ls.deep_view().skip(0) =~= ls.deep_view());
    }
    r
}

} // verus!

verus! {

/// Every line of a block, indented by three spaces.
pub open spec fn indent_lines_view(ls: Seq<Seq<char>>) -> Seq<Seq<char>> {
    Seq::new(ls.len(), |i: int| "   "@ + ls[i])
}

/// A prefix glued onto the first line; the remaining lines unchanged.
pub open spec fn prefixed_lines_view(prefix: Seq<char>, ls: Seq<Seq<char>>) -> Seq<Seq<char>> {
    if ls.len() == 0 {
        seq![prefix]
    } else {
        seq![prefix + ls[0]] + ls.skip(1)
    }
}

/// An aggregate's rendering: its name and an opening brace, the body
/// indented by three spaces, and a closing brace.
pub open spec fn wrap_lines_view(name: Seq<char>, body: Seq<Seq<char>>) -> Seq<Seq<char>> {
    seq![name + " {"@] + indent_lines_view(body) + seq!["}"@]
}

/// Appends the lines of `more` to `out`.
fn append_all(out: &mut Vec<String>, more: &Vec<String>)
    ensures
        final(out).deep_view() == old(out).deep_view() + more.deep_view(),
{
    let ghost base = out.deep_view();
    let n = more.len();
    let mut i: usize = 0;
    while i < n
        invariant
            n == more.len(),
            i <= n,
            out.deep_view() == base + more.deep_view().take(i as int),
        decreases n - i,
    {
        let line = more[i].clone();
        let ghost pre = out@;
        let ghost prev_deep = out.deep_view();
        out.push(line);
        proof {
            assert(forall|j: int| 0 <= j < pre.len() ==> #[trigger] out@[j] == pre[j]);
            assert(forall|j: int|
                0 <= j < pre.len() ==> #[trigger] out.deep_view()[j] == prev_deep[j]);
            assert(out@.len() == pre.len() + 1);
            assert(prev_deep.len() == pre.len());
            assert(out@[pre.len() as int].deep_view() == more.deep_view()[i as int]);
            assert(out.deep_view() =~= base + more.deep_view().take(i as int + 1));
        }
        i = i + 1;
    }
    proof {
        assert(base + more.deep_view().take(n as int) =~= base + more.deep_view());
    }
}

/// Indents every line of a block by three spaces.
fn indent_block(ls: &Vec<String>) -> (r: Vec<String>)
    ensures
        r.deep_view() == indent_lines_view(ls.deep_view()),
{
    let n = ls.len();
    let mut out: Vec<String> = Vec::new();
    let mut i: usize = 0;
    while i < n
        invariant
            n == ls.len(),
            i <= n,
            out.deep_view() == indent_lines_view(ls.deep_view()).take(i as int),
        decreases n - i,
    {
        let mut line = "   ".to_owned();
        line.append(ls[i].as_str());
        let ghost pre = out@;
        let ghost prev_deep = out.deep_view();
        out.push(line);
        proof {
            assert(forall|j: int| 0 <= j < pre.len() ==> #[trigger] out@[j] == pre[j]);
            assert(forall|j: int|
                0 <= j < pre.len() ==> #[trigger] out.deep_view()[j] == prev_deep[j]);
            assert(out@.len() == pre.len() + 1);
            assert(prev_deep.len() == pre.len());
            assert(out@[pre.len() as int].deep_view() == indent_lines_view(ls.deep_view())[
                i as int
            ]);
            assert(out.deep_view() =~= indent_lines_view(ls.deep_view()).take(i as int + 1));
        }
        i = i + 1;
    }
    proof {
        assert(indent_lines_view(ls.deep_view()).take(n as int) =~= indent_lines_view(
            ls.deep_view(),
        ));
    }
    out
}

/// Glues a prefix onto the first line of a block.
fn prefixed_block(prefix: String, ls: &Vec<String>) -> (r: Vec<String>)
    ensures
        r.deep_view() == prefixed_lines_view(prefix@, ls.deep_view()),
{
    let mut out: Vec<String> = Vec::new();
    let mut head = prefix;
    let n = ls.len();
    if n == 0 {
        out.push(head);
        proof {
            assert(out.deep_view() =~= prefixed_lines_view(out.deep_view()[0], ls.deep_view()));
        }
        return out;
    }
    head.append(ls[0].as_str());
    out.push(head);
    let mut i: usize = 1;
    while i < n
        invariant
            n == ls.len(),
            1 <= i <= n,
            out.deep_view().len() == i,
            out.deep_view() == prefixed_lines_view(prefix@, ls.deep_view()).take(i as int),
        decreases n - i,
    {
        let line = ls[i].clone();
        let ghost pre = out@;
        out.push(line);
        proof {
            assert(forall|j: int| 0 <= j < pre.len() ==> #[trigger] out@[j] == pre[j]);
            assert(out@[pre.len() as int].deep_view() == prefixed_lines_view(
                prefix@,
                ls.deep_view(),
            )[i as int]);
            assert(out.deep_view() =~= prefixed_lines_view(prefix@, ls.deep_view()).take(
                i as int + 1,
            ));
        }
        i = i + 1;
    }
    proof {
        assert(prefixed_lines_view(prefix@, ls.deep_view()).take(n as int) =~= prefixed_lines_view(
            prefix@,
            ls.deep_view(),
        ));
    }
    out
}

/// Wraps a rendered body into the aggregate's braces.
fn wrap_block(name: &'static str, body: &Vec<String>) -> (r: Vec<String>)
    ensures
        r.deep_view() == wrap_lines_view(name@, body.deep_view()),
{
    let mut out: Vec<String> = Vec::new();
    let mut head = name.to_owned();
    head.append(" {");
    out.push(head);
    proof {
        assert(out.deep_view() =~= seq![name@ + " {"@]);
    }
    let indented = indent_block(body);
    append_all(&mut out, &indented);
    let ghost pre = out@;
    out.push("}".to_owned());
    proof {
        assert(forall|j: int| 0 <= j < pre.len() ==> #[trigger] out@[j] == pre[j]);
        assert(out@[pre.len() as int].deep_view() == "}"@);
        assert(out.deep_view() =~= wrap_lines_view(name@, body.deep_view()));
    }
    out
}

} // verus!


verus! {

/// The owning variant's name for each position of a kind's flattened
/// sequence.
pub open spec fn kind_slot_variant_names() -> Seq<Seq<char>> {
    seq!["BigName"@, "BigName"@, "Aspiring"@, "Aspiring"@]
}

/// The declared field name for each position of a kind's flattened
/// sequence, where the registry has one.
pub open spec fn kind_slot_field_names() -> Seq<Seq<char>> {
    seq!["salary"@, "unnamed"@, "unnamed"@, "unnamed"@]
}

/// The owning variant's name for each position of a version's flattened
/// sequence.
pub open spec fn version_slot_variant_names() -> Seq<Seq<char>> {
    seq!["One"@, "One"@, "Two"@, "Two"@]
}

/// The declared field name for each position of a version's flattened
/// sequence; its variants carry unnamed fields.
pub open spec fn version_slot_field_names() -> Seq<Seq<char>> {
    seq!["unnamed"@, "unnamed"@, "unnamed"@, "unnamed"@]
}

/// The owning variant's name for each position of a shape's flattened
/// sequence.
pub open spec fn shape_slot_variant_names() -> Seq<Seq<char>> {
    seq!["Circle"@, "Circle"@, "Square"@, "Square"@, "Square"@]
}

/// The declared field name for each position of a shape's flattened
/// sequence; its variants carry unnamed fields.
pub open spec fn shape_slot_field_names() -> Seq<Seq<char>> {
    seq!["unnamed"@, "unnamed"@, "unnamed"@, "unnamed"@, "unnamed"@]
}

/// The rendering of one slot content: leaves render as a single line,
/// aggregates as a brace-wrapped block.
pub open spec fn print_datum_lines(d: DatumView) -> Seq<Seq<char>>
    decreases weight(d),
    via print_datum_lines_decreases
{
    match d {
        DatumView::Byte(b) => seq![dec_rep(b as nat)],
        DatumView::Word(w) => seq![dec_rep(w as nat)],
        DatumView::Wide(w) => seq![dec_rep(w as nat)],
        DatumView::Text(s) => seq![s],
        DatumView::Head => seq!["__variant__"@],
        DatumView::Kind(k) => wrap_lines_view(
            "Kind"@,
            print_var_block(kind_fields(k), 0, kind_slot_variant_names(), kind_slot_field_names()),
        ),
        DatumView::Actor(a) => wrap_lines_view("Actor"@, print_block(actor_fields(a), 0)),
        DatumView::Director(dr) => wrap_lines_view(
            "Director"@,
            print_block(director_fields(dr), 0),
        ),
        DatumView::Movie(m) => wrap_lines_view("Movie"@, print_block(movie_fields(m), 0)),
        DatumView::Version(v) => wrap_lines_view(
            "Version"@,
            print_var_block(
                version_fields(v),
                0,
                version_slot_variant_names(),
                version_slot_field_names(),
            ),
        ),
        DatumView::Point(p) => wrap_lines_view("Point"@, print_block(point_fields(p), 0)),
        DatumView::Shape(s) => wrap_lines_view(
            "Shape"@,
            print_var_block(
                shape_fields(s),
                0,
                shape_slot_variant_names(),
                shape_slot_field_names(),
            ),
        ),
    }
}

#[via_fn]
proof fn print_datum_lines_decreases(d: DatumView) {
    match d {
        DatumView::Kind(k) => lemma_kind_weight(k),
        DatumView::Actor(a) => lemma_actor_weight(a),
        DatumView::Director(dr) => lemma_director_weight(dr),
        DatumView::Movie(m) => lemma_movie_weight(m),
        DatumView::Version(v) => lemma_version_weight(v),
        DatumView::Point(p) => lemma_point_weight(p),
        DatumView::Shape(s) => lemma_shape_weight(s),
        _ => {}
    }
}

/// The rendering of one plain slot; an absent content renders as an empty
/// line.
pub open spec fn print_slot_lines(o: Option<DatumView>) -> Seq<Seq<char>>
    decreases slot_weight(o),
{
    match o {
        Some(d) => print_datum_lines(d),
        None => seq![Seq::<char>::empty()],
    }
}

/// The rendering of a plain field sequence: each slot's block, its first
/// line prefixed with the slot's position.
pub open spec fn print_block(s: Seq<Option<DatumView>>, pos: nat) -> Seq<Seq<char>>
    decreases slots_weight(s),
{
    if s.len() == 0 {
        Seq::empty()
    } else {
        prefixed_lines_view(dec_rep(pos) + ": "@, print_slot_lines(s[0])) + print_block(
            s.skip(1),
            pos + 1,
        )
    }
}

/// The rendering of one enum-variant slot: a payload renders under its
/// declared field name, a discriminant header renders as the bracketed
/// variant name, and a vacant position renders as the bare field name.
pub open spec fn print_var_slot_lines(
    sl: VarSlotView<DatumView>,
    vname: Seq<char>,
    fname: Seq<char>,
) -> Seq<Seq<char>>
    decreases var_slot_weight(sl),
{
    match sl {
        VarSlotView::Payload(o) => {
            if o is Some {
                prefixed_lines_view(fname + ": "@, print_datum_lines(o->0))
            } else {
                seq![fname]
            }
        }
        VarSlotView::Header(_) => seq![("[["@ + vname) + "]]"@],
        VarSlotView::Vacant => seq![fname],
    }
}

/// The rendering of an enum's flattened field sequence.
pub open spec fn print_var_block(
    s: Seq<VarSlotView<DatumView>>,
    pos: nat,
    vns: Seq<Seq<char>>,
    fns: Seq<Seq<char>>,
) -> Seq<Seq<char>>
    decreases var_slots_weight(s),
{
    if s.len() == 0 {
        Seq::empty()
    } else {
        prefixed_lines_view(
            dec_rep(pos) + ": "@,
            print_var_slot_lines(s[0], vns[pos as int], fns[pos as int]),
        ) + print_var_block(s.skip(1), pos + 1, vns, fns)
    }
}

/// The per-position variant names of a kind's flattened sequence.
fn kind_variant_table() -> (r: Vec<&'static str>)
    ensures
        r.deep_view() == kind_slot_variant_names(),
{
    let v: Vec<&'static str> = vec!["BigName", "BigName", "Aspiring", "Aspiring"];
    proof {
        assert(v.deep_view() =~= kind_slot_variant_names());
    }
    v
}

/// The per-position field names of a kind's flattened sequence.
fn kind_field_table() -> (r: Vec<&'static str>)
    ensures
        r.deep_view() == kind_slot_field_names(),
{
    let v: Vec<&'static str> = vec!["salary", "unnamed", "unnamed", "unnamed"];
    proof {
        assert(v.deep_view() =~= kind_slot_field_names());
    }
    v
}

/// The per-position variant names of a version's flattened sequence.
fn version_variant_table() -> (r: Vec<&'static str>)
    ensures
        r.deep_view() == version_slot_variant_names(),
{
    let v: Vec<&'static str> = vec!["One", "One", "Two", "Two"];
    proof {
        assert(v.deep_view() =~= version_slot_variant_names());
    }
    v
}

/// The per-position field names of a version's flattened sequence.
fn version_field_table() -> (r: Vec<&'static str>)
    ensures
        r.deep_view() == version_slot_field_names(),
{
    let v: Vec<&'static str> = vec!["unnamed", "unnamed", "unnamed", "unnamed"];
    proof {
        assert(v.deep_view() =~= version_slot_field_names());
    }
    v
}

/// The per-position variant names of a shape's flattened sequence.
fn shape_variant_table() -> (r: Vec<&'static str>)
    ensures
        r.deep_view() == shape_slot_variant_names(),
{
    let v: Vec<&'static str> = vec!["Circle", "Circle", "Square", "Square", "Square"];
    proof {
        assert(v.deep_view() =~= shape_slot_variant_names());
    }
    v
}

/// The per-position field names of a shape's flattened sequence.
fn shape_field_table() -> (r: Vec<&'static str>)
    ensures
        r.deep_view() == shape_slot_field_names(),
{
    let v: Vec<&'static str> = vec!["unnamed", "unnamed", "unnamed", "unnamed", "unnamed"];
    proof {
        assert(v.deep_view() =~= shape_slot_field_names());
    }
    v
}

/// Renders one slot content.
fn print_datum<'a>(d: &DatumRef<'a>, Ghost(dv): Ghost<DatumView>) -> (r: Vec<String>)
    requires
        dv == d.deep_view(),
    ensures
        r.deep_view() == print_datum_lines(d.deep_view()),
    decreases weight(dv),
{
    match d {
        DatumRef::Byte(b) => {
            let r = vec![render_byte(**b)];
            proof {
                assert(r.deep_view() =~= print_datum_lines(d.deep_view()));
            }
            r
        }
        DatumRef::Word(w) => {
            let r = vec![render_word(**w)];
            proof {
                assert(r.deep_view() =~= print_datum_lines(d.deep_view()));
            }
            r
        }
        DatumRef::Wide(w) => {
            let r = vec![render_wide(**w)];
            proof {
                assert(r.deep_view() =~= print_datum_lines(d.deep_view()));
            }
            r
        }
        DatumRef::Text(s) => {
            let r = vec![(*s).clone()];
            proof {
                assert(r.deep_view() =~= print_datum_lines(d.deep_view()));
            }
            r
        }
        DatumRef::Head(_) => {
            let r = vec!["__variant__".to_owned()];
            proof {
                assert(r.deep_view() =~= print_datum_lines(d.deep_view()));
            }
            r
        }
        DatumRef::Kind(k) => {
            proof {
                lemma_kind_weight(k.deep_view());
            }
            let fields = k.fields();
            let vt = kind_variant_table();
            let ft = kind_field_table();
            let body = print_var_fields(&fields, 0, &vt, &ft, Ghost(fields.deep_view()));
            wrap_block("Kind", &body)
        }
        DatumRef::Actor(a) => {
            proof {
                lemma_actor_weight(a.deep_view());
            }
            let fields = a.fields();
            let body = print_fields(&fields, 0, Ghost(fields.deep_view()));
            wrap_block("Actor", &body)
        }
        DatumRef::Director(dr) => {
            proof {
                lemma_director_weight(dr.deep_view());
            }
            let fields = dr.fields();
            let body = print_fields(&fields, 0, Ghost(fields.deep_view()));
            wrap_block("Director", &body)
        }
        DatumRef::Movie(m) => {
            proof {
                lemma_movie_weight(m.deep_view());
            }
            let fields = m.fields();
            let body = print_fields(&fields, 0, Ghost(fields.deep_view()));
            wrap_block("Movie", &body)
        }
        DatumRef::Version(v) => {
            proof {
                lemma_version_weight(v.deep_view());
            }
            let fields = v.fields();
            let vt = version_variant_table();
            let ft = version_field_table();
            let body = print_var_fields(&fields, 0, &vt, &ft, Ghost(fields.deep_view()));
            wrap_block("Version", &body)
        }
        DatumRef::Point(p) => {
            proof {
                lemma_point_weight(p.deep_view());
            }
            let fields = p.fields();
            let body = print_fields(&fields, 0, Ghost(fields.deep_view()));
            wrap_block("Point", &body)
        }
        DatumRef::Shape(s) => {
            proof {
                lemma_shape_weight(s.deep_view());
            }
            let fields = s.fields();
            let vt = shape_variant_table();
            let ft = shape_field_table();
            let body = print_var_fields(&fields, 0, &vt, &ft, Ghost(fields.deep_view()));
            wrap_block("Shape", &body)
        }
    }
}

/// Reduces a borrowed plain field sequence to its rendering, numbering
/// positions from `pos` on.
fn print_fields<'a, S>(
    l: &List<RefField<DatumRef<'a>, S>>,
    pos: usize,
    Ghost(lv): Ghost<Seq<Option<DatumView>>>,
) -> (r: Vec<String>)
    requires
        lv == l.deep_view(),
        pos + lv.len() <= usize::MAX,
    ensures
        r.deep_view() == print_block(l.deep_view(), pos as nat),
    decreases slots_weight(lv),
{
    proof {
        lemma_list_unfold(*l);
    }
    match l {
        List::Nil => {
            let r: Vec<String> = Vec::new();
            proof {
                assert(r.deep_view() =~= print_block(l.deep_view(), pos as nat));
            }
            r
        }
        List::Cons(h, t) => {
            proof {
                assert(lv.skip(1) =~= t.deep_view());
            }
            let head_lines = match &h.0 {
                Some(d) => print_datum(d, Ghost(d.deep_view())),
                None => {
                    let e = vec![String::new()];
                    proof {
                        assert(e.deep_view() =~= print_slot_lines(h.deep_view()));
                    }
                    e
                }
            };
            let mut prefix = render_index(pos);
            prefix.append(": ");
            let mut out = prefixed_block(prefix, &head_lines);
            let rest = print_fields(&**t, pos + 1, Ghost(t.deep_view()));
            append_all(&mut out, &rest);
            proof {
                assert(l.deep_view()[0] == h.deep_view());
                assert(head_lines.deep_view() == print_slot_lines(l.deep_view()[0]));
                assert(out.deep_view() =~= print_block(l.deep_view(), pos as nat));
            }
            out
        }
    }
}

/// Reduces an enum's borrowed flattened sequence to its rendering, taking
/// each position's variant and field name from the registry tables.
fn print_var_fields<'a, S>(
    l: &List<VarRefField<DatumRef<'a>, S>>,
    pos: usize,
    vnames: &Vec<&'static str>,
    fnames: &Vec<&'static str>,
    Ghost(lv): Ghost<Seq<VarSlotView<DatumView>>>,
) -> (r: Vec<String>)
    requires
        lv == l.deep_view(),
        pos + lv.len() <= usize::MAX,
        pos + lv.len() <= vnames.deep_view().len(),
        pos + lv.len() <= fnames.deep_view().len(),
    ensures
        r.deep_view() == print_var_block(
            l.deep_view(),
            pos as nat,
            vnames.deep_view(),
            fnames.deep_view(),
        ),
    decreases var_slots_weight(lv),
{
    proof {
        lemma_list_unfold(*l);
    }
    match l {
        List::Nil => {
            let r: Vec<String> = Vec::new();
            proof {
                assert(r.deep_view() =~= print_var_block(
                    l.deep_view(),
                    pos as nat,
                    vnames.deep_view(),
                    fnames.deep_view(),
                ));
            }
            r
        }
        List::Cons(h, t) => {
            proof {
                assert(lv.skip(1) =~= t.deep_view());
            }
            let head_lines = match h {
                VarRefField::Ref(f) => match &f.0 {
                    Some(d) => {
                        let mut p = fnames[pos].to_owned();
                        p.append(": ");
                        let inner = print_datum(d, Ghost(d.deep_view()));
                        prefixed_block(p, &inner)
                    }
                    None => vec![fnames[pos].to_owned()],
                },
                VarRefField::Header(_) => {
                    let mut p = "[[".to_owned();
                    p.append(vnames[pos]);
                    p.append("]]");
                    vec![p]
                }
                VarRefField::Empty(_) => vec![fnames[pos].to_owned()],
            };
            proof {
                assert(head_lines.deep_view() =~= print_var_slot_lines(
                    h.deep_view(),
                    vnames.deep_view()[pos as int],
                    fnames.deep_view()[pos as int],
                ));
            }
            let mut prefix = render_index(pos);
            prefix.append(": ");
            let mut out = prefixed_block(prefix, &head_lines);
            let rest = print_var_fields(&**t, pos + 1, vnames, fnames, Ghost(t.deep_view()));
            append_all(&mut out, &rest);
            proof {
                assert(l.deep_view()[0] == h.deep_view());
                assert(out.deep_view() =~= print_var_block(
                    l.deep_view(),
                    pos as nat,
                    vnames.deep_view(),
                    fnames.deep_view(),
                ));
            }
            out
        }
    }
}

} // verus!

verus! {

/// The borrowed-value rendering: an aggregate prints as its name and a
/// position-numbered block of its live field values, nested aggregates
/// indented inside.
pub trait DiagRef: DeepView {
    /// The exact text this value renders to.
    spec fn spec_print(v: <Self as DeepView>::V) -> Seq<char>;

    fn print(&self) -> (r: String)
        ensures
            r@ == Self::spec_print(self.deep_view()),
    ;
}

impl DiagRef for u8 {
    open spec fn spec_print(v: u8) -> Seq<char> {
        dec_rep(v as nat)
    }

    fn print(&self) -> (r: String) {
        render_byte(*self)
    }
}

impl DiagRef for u64 {
    open spec fn spec_print(v: u64) -> Seq<char> {
        dec_rep(v as nat)
    }

    fn print(&self) -> (r: String) {
        render_word(*self)
    }
}

impl DiagRef for u128 {
    open spec fn spec_print(v: u128) -> Seq<char> {
        dec_rep(v as nat)
    }

    fn print(&self) -> (r: String) {
        render_wide(*self)
    }
}

impl DiagRef for String {
    open spec fn spec_print(v: Seq<char>) -> Seq<char> {
        v
    }

    fn print(&self) -> (r: String) {
        self.clone()
    }
}

impl DiagRef for VariantHeader {
    open spec fn spec_print(v: VariantHeader) -> Seq<char> {
        "__variant__"@
    }

    fn print(&self) -> (r: String) {
        "__variant__".to_owned()
    }
}

impl DiagRef for Kind {
    open spec fn spec_print(v: <Self as DeepView>::V) -> Seq<char> {
        join_lines_view(
            wrap_lines_view(
                "Kind"@,
                print_var_block(
                    kind_fields(v),
                    0,
                    kind_slot_variant_names(),
                    kind_slot_field_names(),
                ),
            ),
        )
    }

    fn print(&self) -> (r: String) {
        let fields = self.fields();
        let vt = kind_variant_table();
        let ft = kind_field_table();
        let body = print_var_fields(&fields, 0, &vt, &ft, Ghost(fields.deep_view()));
        let wrapped = wrap_block("Kind", &body);
        join_lines(&wrapped)
    }
}

impl DiagRef for Actor {
    open spec fn spec_print(v: <Self as DeepView>::V) -> Seq<char> {
        join_lines_view(wrap_lines_view("Actor"@, print_block(actor_fields(v), 0)))
    }

    fn print(&self) -> (r: String) {
        let fields = self.fields();
        let body = print_fields(&fields, 0, Ghost(fields.deep_view()));
        let wrapped = wrap_block("Actor", &body);
        join_lines(&wrapped)
    }
}

impl DiagRef for Director {
    open spec fn spec_print(v: <Self as DeepView>::V) -> Seq<char> {
        join_lines_view(wrap_lines_view("Director"@, print_block(director_fields(v), 0)))
    }

    fn print(&self) -> (r: String) {
        let fields = self.fields();
        let body = print_fields(&fields, 0, Ghost(fields.deep_view()));
        let wrapped = wrap_block("Director", &body);
        join_lines(&wrapped)
    }
}

impl DiagRef for Movie {
    open spec fn spec_print(v: <Self as DeepView>::V) -> Seq<char> {
        join_lines_view(wrap_lines_view("Movie"@, print_block(movie_fields(v), 0)))
    }

    fn print(&self) -> (r: String) {
        let fields = self.fields();
        let body = print_fields(&fields, 0, Ghost(fields.deep_view()));
        let wrapped = wrap_block("Movie", &body);
        join_lines(&wrapped)
    }
}

impl DiagRef for Version {
    open spec fn spec_print(v: <Self as DeepView>::V) -> Seq<char> {
        join_lines_view(
            wrap_lines_view(
                "Version"@,
                print_var_block(
                    version_fields(v),
                    0,
                    version_slot_variant_names(),
                    version_slot_field_names(),
                ),
            ),
        )
    }

    fn print(&self) -> (r: String) {
        let fields = self.fields();
        let vt = version_variant_table();
        let ft = version_field_table();
        let body = print_var_fields(&fields, 0, &vt, &ft, Ghost(fields.deep_view()));
        let wrapped = wrap_block("Version", &body);
        join_lines(&wrapped)
    }
}

impl DiagRef for Point {
    open spec fn spec_print(v: <Self as DeepView>::V) -> Seq<char> {
        join_lines_view(wrap_lines_view("Point"@, print_block(point_fields(v), 0)))
    }

    fn print(&self) -> (r: String) {
        let fields = self.fields();
        let body = print_fields(&fields, 0, Ghost(fields.deep_view()));
        let wrapped = wrap_block("Point", &body);
        join_lines(&wrapped)
    }
}

impl DiagRef for Shape {
    open spec fn spec_print(v: <Self as DeepView>::V) -> Seq<char> {
        join_lines_view(
            wrap_lines_view(
                "Shape"@,
                print_var_block(
                    shape_fields(v),
                    0,
                    shape_slot_variant_names(),
                    shape_slot_field_names(),
                ),
            ),
        )
    }

    fn print(&self) -> (r: String) {
        let fields = self.fields();
        let vt = shape_variant_table();
        let ft = shape_field_table();
        let body = print_var_fields(&fields, 0, &vt, &ft, Ghost(fields.deep_view()));
        let wrapped = wrap_block("Shape", &body);
        join_lines(&wrapped)
    }
}

/// The type-only rendering of a kind: a header and a field type per
/// variant, at their flattened positions.
pub open spec fn kind_ty_lines() -> Seq<Seq<char>> {
    wrap_lines_view(
        "Kind"@,
        seq![
            (dec_rep(0) + ": "@) + "__variant__"@,
            (dec_rep(1) + ": "@) + "u64"@,
            (dec_rep(2) + ": "@) + "__variant__"@,
            (dec_rep(3) + ": "@) + "u8"@,
        ],
    )
}

/// The type-only rendering of an actor.
pub open spec fn actor_ty_lines() -> Seq<Seq<char>> {
    wrap_lines_view("Actor"@, seq!["String"@] + kind_ty_lines() + seq!["u128"@])
}

/// The type-only rendering of a director.
pub open spec fn director_ty_lines() -> Seq<Seq<char>> {
    wrap_lines_view("Director"@, seq!["String"@, "u8"@, "u8"@])
}

/// The type-only rendering of a movie.
pub open spec fn movie_ty_lines() -> Seq<Seq<char>> {
    wrap_lines_view(
        "Movie"@,
        seq!["String"@, "u64"@] + actor_ty_lines() + actor_ty_lines() + director_ty_lines(),
    )
}

/// The type-only rendering of a version.
pub open spec fn version_ty_lines() -> Seq<Seq<char>> {
    wrap_lines_view(
        "Version"@,
        prefixed_lines_view(dec_rep(0) + ": "@, seq!["__variant__"@]) + prefixed_lines_view(
            dec_rep(1) + ": "@,
            movie_ty_lines(),
        ) + prefixed_lines_view(dec_rep(2) + ": "@, seq!["__variant__"@]) + prefixed_lines_view(
            dec_rep(3) + ": "@,
            movie_ty_lines(),
        ),
    )
}

/// The type-only rendering of a point.
pub open spec fn point_ty_lines() -> Seq<Seq<char>> {
    wrap_lines_view("Point"@, seq!["u8"@, "u8"@])
}

/// The type-only rendering of a shape.
pub open spec fn shape_ty_lines() -> Seq<Seq<char>> {
    wrap_lines_view(
        "Shape"@,
        seq![
            (dec_rep(0) + ": "@) + "__variant__"@,
            (dec_rep(1) + ": "@) + "u8"@,
            (dec_rep(2) + ": "@) + "__variant__"@,
            (dec_rep(3) + ": "@) + "u8"@,
            (dec_rep(4) + ": "@) + "u8"@,
        ],
    )
}

/// Appends one line to a block.
fn push_line(out: &mut Vec<String>, line: String)
    ensures
        final(out).deep_view() == old(out).deep_view() + seq![line@],
{
    let ghost pre = out@;
    let ghost prev_deep = out.deep_view();
    out.push(line);
    proof {
        assert(out@.len() == pre.len() + 1);
        assert(prev_deep.len() == pre.len());
        assert(forall|j: int| 0 <= j < pre.len() ==> #[trigger] out@[j] == pre[j]);
        assert(forall|j: int|
            0 <= j < pre.len() ==> #[trigger] out.deep_view()[j] == prev_deep[j]);
        assert(out.deep_view() =~= prev_deep + seq![out@[pre.len() as int]@]);
    }
}

/// Builds one single-line block.
fn leaf_line(s: &'static str) -> (r: Vec<String>)
    ensures
        r.deep_view() == seq![s@],
{
    let r = vec![s.to_owned()];
    proof {
        assert(r.deep_view() =~= seq![s@]);
    }
    r
}

/// Builds a position-prefixed single line.
fn ty_slot_line(pos: usize, s: &'static str) -> (r: String)
    ensures
        r@ == (dec_rep(pos as nat) + ": "@) + s@,
{
    let mut p = render_index(pos);
    p.append(": ");
    p.append(s);
    p
}

/// Builds the type-only rendering of a kind.
fn kind_ty_block() -> (r: Vec<String>)
    ensures
        r.deep_view() == kind_ty_lines(),
{
    let mut body: Vec<String> = Vec::new();
    push_line(&mut body, ty_slot_line(0, "__variant__"));
    push_line(&mut body, ty_slot_line(1, "u64"));
    push_line(&mut body, ty_slot_line(2, "__variant__"));
    push_line(&mut body, ty_slot_line(3, "u8"));
    proof {
        assert(body.deep_view() =~= seq![
            (dec_rep(0) + ": "@) + "__variant__"@,
            (dec_rep(1) + ": "@) + "u64"@,
            (dec_rep(2) + ": "@) + "__variant__"@,
            (dec_rep(3) + ": "@) + "u8"@,
        ]);
    }
    wrap_block("Kind", &body)
}

/// Builds the type-only rendering of an actor.
fn actor_ty_block() -> (r: Vec<String>)
    ensures
        r.deep_view() == actor_ty_lines(),
{
    let mut body = leaf_line("String");
    let kind = kind_ty_block();
    append_all(&mut body, &kind);
    let wide = leaf_line("u128");
    append_all(&mut body, &wide);
    proof {
        assert(body.deep_view() =~= seq!["String"@] + kind_ty_lines() + seq!["u128"@]);
    }
    wrap_block("Actor", &body)
}

/// Builds the type-only rendering of a director.
fn director_ty_block() -> (r: Vec<String>)
    ensures
        r.deep_view() == director_ty_lines(),
{
    let mut body = leaf_line("String");
    push_line(&mut body, "u8".to_owned());
    push_line(&mut body, "u8".to_owned());
    proof {
        assert(body.deep_view() =~= seq!["String"@, "u8"@, "u8"@]);
    }
    wrap_block("Director", &body)
}

/// Builds the type-only rendering of a movie.
fn movie_ty_block() -> (r: Vec<String>)
    ensures
        r.deep_view() == movie_ty_lines(),
{
    let mut body = leaf_line("String");
    push_line(&mut body, "u64".to_owned());
    proof {
        assert(body.deep_view() =~= seq!["String"@, "u64"@]);
    }
    let lead = actor_ty_block();
    append_all(&mut body, &lead);
    let also = actor_ty_block();
    append_all(&mut body, &also);
    let director = director_ty_block();
    append_all(&mut body, &director);
    proof {
        assert(body.deep_view() =~= seq!["String"@, "u64"@] + actor_ty_lines() + actor_ty_lines()
            + director_ty_lines());
    }
    wrap_block("Movie", &body)
}

/// Builds the type-only rendering of a version.
fn version_ty_block() -> (r: Vec<String>)
    ensures
        r.deep_view() == version_ty_lines(),
{
    let mut body: Vec<String> = Vec::new();
    push_line(&mut body, ty_slot_line(0, "__variant__"));
    let movie = movie_ty_block();
    let mut p1 = render_index(1);
    p1.append(": ");
    let one = prefixed_block(p1, &movie);
    append_all(&mut body, &one);
    push_line(&mut body, ty_slot_line(2, "__variant__"));
    let mut p3 = render_index(3);
    p3.append(": ");
    let two = prefixed_block(p3, &movie);
    append_all(&mut body, &two);
    proof {
        assert(body.deep_view() =~= prefixed_lines_view(dec_rep(0) + ": "@, seq!["__variant__"@])
            + prefixed_lines_view(dec_rep(1) + ": "@, movie_ty_lines()) + prefixed_lines_view(
            dec_rep(2) + ": "@,
            seq!["__variant__"@],
        ) + prefixed_lines_view(dec_rep(3) + ": "@, movie_ty_lines()));
    }
    wrap_block("Version", &body)
}

/// Builds the type-only rendering of a point.
fn point_ty_block() -> (r: Vec<String>)
    ensures
        r.deep_view() == point_ty_lines(),
{
    let mut body: Vec<String> = Vec::new();
    push_line(&mut body, "u8".to_owned());
    push_line(&mut body, "u8".to_owned());
    proof {
        assert(body.deep_view() =~= seq!["u8"@, "u8"@]);
    }
    wrap_block("Point", &body)
}

/// Builds the type-only rendering of a shape.
fn shape_ty_block() -> (r: Vec<String>)
    ensures
        r.deep_view() == shape_ty_lines(),
{
    let mut body: Vec<String> = Vec::new();
    push_line(&mut body, ty_slot_line(0, "__variant__"));
    push_line(&mut body, ty_slot_line(1, "u8"));
    push_line(&mut body, ty_slot_line(2, "__variant__"));
    push_line(&mut body, ty_slot_line(3, "u8"));
    push_line(&mut body, ty_slot_line(4, "u8"));
    proof {
        assert(body.deep_view() =~= seq![
            (dec_rep(0) + ": "@) + "__variant__"@,
            (dec_rep(1) + ": "@) + "u8"@,
            (dec_rep(2) + ": "@) + "__variant__"@,
            (dec_rep(3) + ": "@) + "u8"@,
            (dec_rep(4) + ": "@) + "u8"@,
        ]);
    }
    wrap_block("Shape", &body)
}

/// The type-only rendering: the shape of an aggregate's type, with the
/// content type of every slot and, for enums, each slot's flattened
/// position.
pub trait DiagTy {
    /// The exact text the type renders to.
    spec fn spec_diag() -> Seq<char>;

    fn diag() -> (r: String)
        ensures
            r@ == Self::spec_diag(),
    ;
}

impl DiagTy for u8 {
    open spec fn spec_diag() -> Seq<char> {
        "u8"@
    }

    fn diag() -> (r: String) {
        "u8".to_owned()
    }
}

impl DiagTy for u64 {
    open spec fn spec_diag() -> Seq<char> {
        "u64"@
    }

    fn diag() -> (r: String) {
        "u64".to_owned()
    }
}

impl DiagTy for u128 {
    open spec fn spec_diag() -> Seq<char> {
        "u128"@
    }

    fn diag() -> (r: String) {
        "u128".to_owned()
    }
}

impl DiagTy for String {
    open spec fn spec_diag() -> Seq<char> {
        "String"@
    }

    fn diag() -> (r: String) {
        "String".to_owned()
    }
}

impl DiagTy for VariantHeader {
    open spec fn spec_diag() -> Seq<char> {
        "__variant__"@
    }

    fn diag() -> (r: String) {
        "__variant__".to_owned()
    }
}

impl DiagTy for Kind {
    open spec fn spec_diag() -> Seq<char> {
        join_lines_view(kind_ty_lines())
    }

    fn diag() -> (r: String) {
        let block = kind_ty_block();
        join_lines(&block)
    }
}

impl DiagTy for Actor {
    open spec fn spec_diag() -> Seq<char> {
        join_lines_view(actor_ty_lines())
    }

    fn diag() -> (r: String) {
        let block = actor_ty_block();
        join_lines(&block)
    }
}

impl DiagTy for Director {
    open spec fn spec_diag() -> Seq<char> {
        join_lines_view(director_ty_lines())
    }

    fn diag() -> (r: String) {
        let block = director_ty_block();
        join_lines(&block)
    }
}

impl DiagTy for Movie {
    open spec fn spec_diag() -> Seq<char> {
        join_lines_view(movie_ty_lines())
    }

    fn diag() -> (r: String) {
        let block = movie_ty_block();
        join_lines(&block)
    }
}

impl DiagTy for Version {
    open spec fn spec_diag() -> Seq<char> {
        join_lines_view(version_ty_lines())
    }

    fn diag() -> (r: String) {
        let block = version_ty_block();
        join_lines(&block)
    }
}

impl DiagTy for Point {
    open spec fn spec_diag() -> Seq<char> {
        join_lines_view(point_ty_lines())
    }

    fn diag() -> (r: String) {
        let block = point_ty_block();
        join_lines(&block)
    }
}

impl DiagTy for Shape {
    open spec fn spec_diag() -> Seq<char> {
        join_lines_view(shape_ty_lines())
    }

    fn diag() -> (r: String) {
        let block = shape_ty_block();
        join_lines(&block)
    }
}

} // verus!

verus! {

impl<T> crate::SplitTy<Ty> for List<T> {
    type Left = T;

    type Right = List<T>;

    open spec fn can_split_ty(self) -> bool {
        self@.len() > 0
    }

    fn split_ty(self) -> (r: (T, List<T>))
        ensures
            r.0 == self@[0],
            r.1@ == self@.skip(1),
    {
        List::split(self)
    }
}

} // verus!
