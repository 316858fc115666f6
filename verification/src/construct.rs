//! The project constructor: renders a session snapshot and a linking
//! configuration into the two files of a compilable project — a manifest and
//! one generated source module with a single well-known evaluation entry
//! point.
//!
//! The rendering is a mathematical function of the session and the
//! configuration, so replaying a session always yields byte-identical text.

use vstd::prelude::*;
use vstd::string::StringExecFns;
use crate::fragment::{Fragment, FragmentV, StatementV};
use crate::linking::DependencyV;

verus! {

/// The decimal digit character for `d` (meaningful for `d < 10`).
pub open spec fn digit_char(d: nat) -> char {
    if d == 0 { '0' }
    else if d == 1 { '1' }
    else if d == 2 { '2' }
    else if d == 3 { '3' }
    else if d == 4 { '4' }
    else if d == 5 { '5' }
    else if d == 6 { '6' }
    else if d == 7 { '7' }
    else if d == 8 { '8' }
    else { '9' }
}

/// Decimal rendering of `n`, most significant digit first.
pub open spec fn dec_str(n: nat) -> Seq<char>
    decreases n,
{
    if n < 10 {
        seq![digit_char(n)]
    } else {
        dec_str(n / 10) + seq![digit_char(n % 10)]
    }
}

/// All items of one fragment, each on a line of its own.
pub open spec fn items_block(items: Seq<Seq<char>>) -> Seq<char>
    decreases items.len(),
{
    if items.len() == 0 {
        Seq::empty()
    } else {
        items_block(items.drop_last()) + items.last() + "\n"@
    }
}

/// All items of the session, in fragment order.
pub open spec fn session_items(frags: Seq<FragmentV>) -> Seq<char>
    decreases frags.len(),
{
    if frags.len() == 0 {
        Seq::empty()
    } else {
        session_items(frags.drop_last()) + items_block(frags.last().items)
    }
}

/// One statement inside the evaluation function. A value-discarding
/// statement is emitted as written; a value-producing one binds the round's
/// result name, numbered by the fragment it came from.
pub open spec fn stmt_line(s: StatementV, round: nat) -> Seq<char> {
    if s.semi {
        s.expr + ";\n"@
    } else {
        "let out"@ + dec_str(round) + " = "@ + s.expr + ";\n"@
    }
}

/// The statements of one fragment, in order.
pub open spec fn stmts_block(stmts: Seq<StatementV>, round: nat) -> Seq<char>
    decreases stmts.len(),
{
    if stmts.len() == 0 {
        Seq::empty()
    } else {
        stmts_block(stmts.drop_last(), round) + stmt_line(stmts.last(), round)
    }
}

/// The statements of the whole session, in fragment order.
pub open spec fn session_stmts(frags: Seq<FragmentV>) -> Seq<char>
    decreases frags.len(),
{
    if frags.len() == 0 {
        Seq::empty()
    } else {
        session_stmts(frags.drop_last()) + stmts_block(frags.last().stmts, (frags.len() - 1) as nat)
    }
}

/// Whether some statement of the fragment produces a value.
pub open spec fn has_value(f: FragmentV) -> bool {
    exists|k: int| 0 <= k < f.stmts.len() && !f.stmts[k].semi
}

/// How the opaque data handle is handed to the evaluation function: by
/// value, by reference, or by mutable reference. Chosen when the session is
/// configured, never per round.
#[derive(Clone, Copy, PartialEq, Eq, Structural, Debug)]
pub enum DataHandling {
    Value,
    Borrow,
    BorrowMut,
}

/// The opaque data handle's type, as the generated source names it, and how
/// it is handed over. A session without data uses the unit type by value.
pub struct DataConfig {
    /// The data type's name, as user code sees it.
    pub data_type: String,
    /// How the handle is passed.
    pub handling: DataHandling,
}

/// Mathematical image of a [`DataConfig`].
pub ghost struct DataConfigV {
    pub data_type: Seq<char>,
    pub handling: DataHandling,
}

impl View for DataConfig {
    type V = DataConfigV;

    open spec fn view(&self) -> DataConfigV {
        DataConfigV { data_type: self.data_type@, handling: self.handling }
    }
}

/// The sigil in front of the data parameter's type.
pub open spec fn handling_prefix(h: DataHandling) -> Seq<char> {
    match h {
        DataHandling::Value => Seq::empty(),
        DataHandling::Borrow => "&"@,
        DataHandling::BorrowMut => "&mut "@,
    }
}

/// The head of the generated evaluation function, exposed under the one
/// fixed symbol the executor resolves; its single parameter is the data
/// handle user code may reference.
pub open spec fn eval_header(data: DataConfigV) -> Seq<char> {
    "#[no_mangle]\npub fn __intern_eval(app_data: "@ + handling_prefix(data.handling)
        + data.data_type + ") -> String {\n"@
}

/// The tail of the generated evaluation function: the debug representation
/// of the current round's value binding — the last fragment is always the
/// round being evaluated — or the empty representation when that round's
/// trailing statement produced no value.
pub open spec fn eval_footer(frags: Seq<FragmentV>) -> Seq<char> {
    if frags.len() > 0 && has_value(frags.last()) {
        "format!(\"{:?}\", out"@ + dec_str((frags.len() - 1) as nat) + ")\n}\n"@
    } else {
        "String::new()\n}\n"@
    }
}

/// The whole generated source module for a session: every item, then the
/// evaluation function holding every statement in fragment order.
pub open spec fn source_code(frags: Seq<FragmentV>, data: DataConfigV) -> Seq<char> {
    session_items(frags) + eval_header(data) + session_stmts(frags) + eval_footer(frags)
}

/// The fixed head of the generated manifest: a library crate built as a
/// loadable artifact.
pub open spec fn manifest_header() -> Seq<char> {
    "[package]\nname = \"papyrus-eval\"\nversion = \"0.1.0\"\nedition = \"2021\"\n\n[lib]\ncrate-type = [\"cdylib\"]\n\n[dependencies]\n"@
}

/// One manifest dependency line. A dependency with an explicit artifact
/// location is not resolved through the registry, so it contributes no
/// line: the builder links its artifact directly.
pub open spec fn dep_line(d: DependencyV) -> Seq<char> {
    if d.path is None {
        d.name + " = \"*\"\n"@
    } else {
        Seq::empty()
    }
}

/// The dependency section of the manifest, in declaration order.
pub open spec fn dep_lines(deps: Seq<DependencyV>) -> Seq<char>
    decreases deps.len(),
{
    if deps.len() == 0 {
        Seq::empty()
    } else {
        dep_lines(deps.drop_last()) + dep_line(deps.last())
    }
}

/// The whole generated manifest for a linking configuration.
pub open spec fn manifest_code(deps: Seq<DependencyV>) -> Seq<char> {
    manifest_header() + dep_lines(deps)
}

/// The image of a vector of fragments.
pub open spec fn frags_view(frags: Seq<Fragment>) -> Seq<FragmentV> {
    frags.map_values(|f: Fragment| f@)
}

/// The decimal digit character for `d`, as a one-character string.
fn digit_str(d: usize) -> (r: &'static str)
    requires
        d < 10,
    ensures
        r@ == seq![digit_char(d as nat)],
{
    let r = if d == 0 { "0" }
    else if d == 1 { "1" }
    else if d == 2 { "2" }
    else if d == 3 { "3" }
    else if d == 4 { "4" }
    else if d == 5 { "5" }
    else if d == 6 { "6" }
    else if d == 7 { "7" }
    else if d == 8 { "8" }
    else { "9" };
    proof {
        reveal_strlit("0");
        reveal_strlit("1");
        reveal_strlit("2");
        reveal_strlit("3");
        reveal_strlit("4");
        reveal_strlit("5");
        reveal_strlit("6");
        reveal_strlit("7");
        reveal_strlit("8");
        reveal_strlit("9");
        assert(r@ =~= seq![digit_char(d as nat)]);
    }
    r
}

/// Decimal rendering of `n`.
pub fn usize_dec(n: usize) -> (r: String)
    ensures
        r@ == dec_str(n as nat),
    decreases n,
{
    if n < 10 {
        let mut s = String::new();
        s.append(digit_str(n));
        proof {
            assert(s@ =~= dec_str(n as nat));
        }
        s
    } else {
        let mut s = usize_dec(n / 10);
        s.append(digit_str(n % 10));
        proof {
            assert(s@ =~= dec_str(n as nat));
        }
        s
    }
}

/// Whether some statement of `f` produces a value.
pub fn fragment_has_value(f: &Fragment) -> (r: bool)
    ensures
        r == has_value(f@),
{
    let mut k: usize = 0;
    while k < f.stmts.len()
        invariant
            k <= f.stmts.len(),
            forall|j: int| 0 <= j < k ==> f@.stmts[j].semi,
        decreases f.stmts.len() - k,
    {
        if !f.stmts[k].semi {
            assert(!f@.stmts[k as int].semi);
            return true;
        }
        k += 1;
    }
    false
}

/// Append one fragment's items, each on its own line.
fn append_items(out: &mut String, f: &Fragment)
    ensures
        final(out)@ == old(out)@ + items_block(f@.items),
{
    let ghost fv = f@;
    let ghost start = out@;
    let mut j: usize = 0;
    while j < f.items.len()
        invariant
            j <= f.items.len(),
            fv == f@,
            out@ == start + items_block(fv.items.take(j as int)),
        decreases f.items.len() - j,
    {
        let ghost items_prefix = fv.items.take(j as int + 1);
        proof {
            assert(items_prefix.drop_last() =~= fv.items.take(j as int));
            assert(items_prefix.last() == fv.items[j as int]);
        }
        out.append(f.items[j].as_str());
        out.append("\n");
        j += 1;
    }
    proof {
        assert(fv.items.take(f.items.len() as int) =~= fv.items);
    }
}

/// Append one fragment's statements, numbered as the given round.
fn append_stmts(out: &mut String, f: &Fragment, round: usize)
    ensures
        final(out)@ == old(out)@ + stmts_block(f@.stmts, round as nat),
{
    let ghost fv = f@;
    let ghost start = out@;
    let mut j: usize = 0;
    while j < f.stmts.len()
        invariant
            j <= f.stmts.len(),
            fv == f@,
            out@ == start + stmts_block(fv.stmts.take(j as int), round as nat),
        decreases f.stmts.len() - j,
    {
        let ghost stmts_prefix = fv.stmts.take(j as int + 1);
        proof {
            assert(stmts_prefix.drop_last() =~= fv.stmts.take(j as int));
            assert(stmts_prefix.last() == fv.stmts[j as int]);
        }
        let s = &f.stmts[j];
        if s.semi {
            out.append(s.expr.as_str());
            out.append(";\n");
        } else {
            out.append("let out");
            let num = usize_dec(round);
            out.append(num.as_str());
            out.append(" = ");
            out.append(s.expr.as_str());
            out.append(";\n");
        }
        j += 1;
    }
    proof {
        assert(fv.stmts.take(f.stmts.len() as int) =~= fv.stmts);
    }
}

/// Render the generated source module for the committed fragments together
/// with the current round's provisional fragment.
pub fn render_source(frags: &Vec<Fragment>, current: &Fragment, data: &DataConfig) -> (r: String)
    ensures
        r@ == source_code(frags_view(frags@).push(current@), data@),
{
    let ghost view = frags_view(frags@);
    let ghost full = view.push(current@);
    proof {
        assert(full.drop_last() =~= view);
        assert(full.last() == current@);
    }
    let mut out = String::new();

    // Accumulated items of every fragment, in order.
    let mut i: usize = 0;
    while i < frags.len()
        invariant
            i <= frags.len(),
            view == frags_view(frags@),
            out@ == session_items(view.take(i as int)),
        decreases frags.len() - i,
    {
        proof {
            let prefix = view.take(i as int + 1);
            assert(prefix.drop_last() =~= view.take(i as int));
            assert(prefix.last() == view[i as int]);
        }
        append_items(&mut out, &frags[i]);
        i += 1;
    }
    proof {
        assert(view.take(frags.len() as int) =~= view);
    }
    append_items(&mut out, current);

    out.append("#[no_mangle]\npub fn __intern_eval(app_data: ");
    match data.handling {
        DataHandling::Value => {},
        DataHandling::Borrow => out.append("&"),
        DataHandling::BorrowMut => out.append("&mut "),
    }
    out.append(data.data_type.as_str());
    out.append(") -> String {\n");

    // Accumulated statements of every fragment, in order.
    let ghost after_header = out@;
    let mut i: usize = 0;
    while i < frags.len()
        invariant
            i <= frags.len(),
            view == frags_view(frags@),
            out@ == after_header + session_stmts(view.take(i as int)),
        decreases frags.len() - i,
    {
        proof {
            let prefix = view.take(i as int + 1);
            assert(prefix.drop_last() =~= view.take(i as int));
            assert(prefix.last() == view[i as int]);
        }
        append_stmts(&mut out, &frags[i], i);
        i += 1;
    }
    proof {
        assert(view.take(frags.len() as int) =~= view);
    }
    append_stmts(&mut out, current, frags.len());

    // The returned representation of the current round's value, if any: the
    // footer looks only at the round being evaluated, never at an earlier
    // fragment, so a value-less round displays the empty representation.
    if fragment_has_value(current) {
        out.append("format!(\"{:?}\", out");
        let num = usize_dec(frags.len());
        out.append(num.as_str());
        out.append(")\n}\n");
    } else {
        out.append("String::new()\n}\n");
    }
    proof {
        assert(out@ =~= source_code(full, data@));
    }
    out
}

/// Render the generated manifest for the given dependency table.
pub fn render_manifest(deps: &Vec<crate::linking::Dependency>) -> (r: String)
    ensures
        r@ == manifest_code(deps@.map_values(|d: crate::linking::Dependency| d@)),
{
    let ghost view = deps@.map_values(|d: crate::linking::Dependency| d@);
    let mut out = String::new();
    out.append("[package]\nname = \"papyrus-eval\"\nversion = \"0.1.0\"\nedition = \"2021\"\n\n[lib]\ncrate-type = [\"cdylib\"]\n\n[dependencies]\n");
    let mut i: usize = 0;
    while i < deps.len()
        invariant
            i <= deps.len(),
            view == deps@.map_values(|d: crate::linking::Dependency| d@),
            out@ == manifest_header() + dep_lines(view.take(i as int)),
        decreases deps.len() - i,
    {
        let ghost prefix = view.take(i as int + 1);
        proof {
            assert(prefix.drop_last() =~= view.take(i as int));
            assert(prefix.last() == view[i as int]);
        }
        match &deps[i].path {
            Option::Some(_) => {},
            Option::None => {
                out.append(deps[i].name.as_str());
                out.append(" = \"*\"\n");
            },
        }
        i += 1;
    }
    proof {
        assert(view.take(deps.len() as int) =~= view);
        assert(out@ =~= manifest_code(view));
    }
    out
}

} // verus!
