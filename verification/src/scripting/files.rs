//! Which files of a script directory are run, and in what order.

use vstd::multiset::*;
use vstd::prelude::*;
use vstd::seq_lib::*;
use vstd::string::*;

use crate::text::{chars_of, same};

verus! {

/// A file of the script directory: its path, its name in the directory, and its text or why
/// it could not be read.
#[derive(Debug)]
pub struct ScriptFile {
    pub path: String,
    pub name: String,
    pub source: Result<String, String>,
}

/// Whether a file name has the extension `lua`.
///
/// A name that is nothing but `.lua` has no extension.
pub open spec fn is_script_name(name: Seq<char>) -> bool {
    name.len() > 4 && name.skip(name.len() - 4) == ".lua"@
}

/// Whether one name stands no later than another in the alphabet of character codes.
pub open spec fn at_most(a: Seq<char>, b: Seq<char>) -> bool
    decreases a.len(),
{
    if a.len() == 0 {
        true
    } else if b.len() == 0 {
        false
    } else if a[0] != b[0] {
        (a[0] as int) < (b[0] as int)
    } else {
        at_most(a.drop_first(), b.drop_first())
    }
}

/// The files stand in the alphabetical order of their names.
pub open spec fn is_sorted(files: Seq<ScriptFile>) -> bool {
    forall|i: int, j: int|
        0 <= i <= j < files.len() ==> at_most(#[trigger] files[i].name@, #[trigger] files[j].name@)
}

/// The scripts among some files.
pub open spec fn scripts_of(files: Seq<ScriptFile>) -> Seq<ScriptFile> {
    files.filter(|f: ScriptFile| is_script_name(f.name@))
}

/// `order` holds the scripts among `files`, each as often as there, in alphabetical order.
pub open spec fn is_load_order(files: Seq<ScriptFile>, order: Seq<ScriptFile>) -> bool {
    &&& is_sorted(order)
    &&& order.to_multiset() == scripts_of(files).to_multiset()
}

proof fn at_most_is_total(a: Seq<char>, b: Seq<char>)
    ensures
        at_most(a, b) || at_most(b, a),
    decreases a.len(),
{
    if a.len() > 0 && b.len() > 0 && a[0] == b[0] {
        at_most_is_total(a.drop_first(), b.drop_first());
    } else if a.len() > 0 && b.len() > 0 {
        assert(a[0] as int != b[0] as int);
    }
}

proof fn at_most_is_transitive(a: Seq<char>, b: Seq<char>, c: Seq<char>)
    requires
        at_most(a, b),
        at_most(b, c),
    ensures
        at_most(a, c),
    decreases a.len(),
{
    if a.len() > 0 && a[0] == b[0] && b[0] == c[0] {
        at_most_is_transitive(a.drop_first(), b.drop_first(), c.drop_first());
    }
}

/// Two names that each stand no later than the other are the same.
proof fn at_most_is_antisymmetric(a: Seq<char>, b: Seq<char>)
    requires
        at_most(a, b),
        at_most(b, a),
    ensures
        a == b,
    decreases a.len(),
{
    if a.len() > 0 {
        at_most_is_antisymmetric(a.drop_first(), b.drop_first());
        assert(a =~= seq![a[0]] + a.drop_first());
        assert(b =~= seq![b[0]] + b.drop_first());
    } else {
        assert(a =~= b);
    }
}

fn code_of(c: char) -> (r: u32)
    ensures
        r as int == c as int,
{
    c as u32
}

fn stands_at_most(a: &str, b: &str) -> (r: bool)
    ensures
        r == at_most(a@, b@),
{
    let x = chars_of(a);
    let y = chars_of(b);
    let mut i: usize = 0;
    assert(x@.skip(0) =~= x@);
    assert(y@.skip(0) =~= y@);
    while i < x.len()
        invariant
            x@ == a@,
            y@ == b@,
            i <= x.len(),
            i <= y.len(),
            at_most(a@, b@) == at_most(x@.skip(i as int), y@.skip(i as int)),
        decreases x.len() - i,
    {
        let ghost p = x@.skip(i as int);
        let ghost q = y@.skip(i as int);
        if i >= y.len() {
            return false;
        }
        assert(p[0] == x@[i as int] && q[0] == y@[i as int]);
        let c: char = x[i];
        let d: char = y[i];
        if c != d {
            return code_of(c) < code_of(d);
        }
        i += 1;
        assert(p.drop_first() =~= x@.skip(i as int));
        assert(q.drop_first() =~= y@.skip(i as int));
    }
    true
}

/// Whether a file name has the extension `lua`.
pub fn is_script(name: &str) -> (r: bool)
    ensures
        r == is_script_name(name@),
{
    let n: usize = name.unicode_len();
    if n <= 4 {
        return false;
    }
    let tail = name.substring_char(n - 4, n);
    assert(tail@ =~= name@.skip(name@.len() - 4));
    same(tail, ".lua")
}

/// Puts a file into a sorted list, before those that its name does not follow.
fn insert_sorted(files: &mut Vec<ScriptFile>, file: ScriptFile)
    requires
        is_sorted(old(files)@),
        old(files)@.len() < usize::MAX,
    ensures
        is_sorted(final(files)@),
        final(files)@.to_multiset() == old(files)@.to_multiset().insert(file),
        final(files)@.len() == old(files)@.len() + 1,
{
    let ghost before = files@;
    let mut at: usize = 0;
    while at < files.len() && !stands_at_most(file.name.as_str(), files[at].name.as_str())
        invariant
            files@ == before,
            at <= files.len(),
            forall|i: int| 0 <= i < at ==> !at_most(file.name@, #[trigger] before[i].name@),
        decreases files.len() - at,
    {
        at += 1;
    }
    files.insert(at, file);
    proof {
        to_multiset_insert(before, at as int, file);
        let after = files@;
        assert(after == before.insert(at as int, file));
        assert forall|i: int, j: int| 0 <= i <= j < after.len() implies at_most(
            #[trigger] after[i].name@,
            #[trigger] after[j].name@,
        ) by {
            let m = file.name@;
            if i == j {
                at_most_is_total(after[i].name@, after[i].name@);
            } else if i == at {
                assert(after[j] == before[j - 1]);
                assert(at_most(before[at as int].name@, before[j - 1].name@));
                at_most_is_transitive(m, before[at as int].name@, before[j - 1].name@);
            } else if j == at {
                assert(after[i] == before[i]);
                at_most_is_total(m, before[i].name@);
            } else {
                let p = if i < at { i } else { i - 1 };
                let q = if j < at { j } else { j - 1 };
                assert(after[i] == before[p] && after[j] == before[q]);
                assert(at_most(before[p].name@, before[q].name@));
            }
        }
    }
}

/// The scripts among the files of a directory, in alphabetical order.
pub fn in_load_order(files: Vec<ScriptFile>) -> (r: Vec<ScriptFile>)
    ensures
        is_load_order(files@, r@),
{
    let mut rest = files;
    let mut order: Vec<ScriptFile> = Vec::new();
    let total: usize = rest.len();
    proof {
        to_multiset_len(order@);
        assert(order@.to_multiset().add(scripts_of(rest@).to_multiset()) =~= scripts_of(
            files@,
        ).to_multiset());
    }
    while rest.len() > 0
        invariant
            is_sorted(order@),
            order@.len() + rest@.len() <= total,
            order@.to_multiset().add(scripts_of(rest@).to_multiset()) == scripts_of(
                files@,
            ).to_multiset(),
        decreases rest.len(),
    {
        let ghost had = rest@;
        let ghost placed = order@.to_multiset();
        match rest.pop() {
            Some(file) => {
                proof {
                    reveal(Seq::filter);
                    to_multiset_build(scripts_of(had.drop_last()), file);
                    assert(rest@ =~= had.drop_last());
                    assert(had.last() == file);
                }
                if is_script(file.name.as_str()) {
                    insert_sorted(&mut order, file);
                    assert(order@.to_multiset().add(scripts_of(rest@).to_multiset())
                        =~= placed.add(scripts_of(rest@).to_multiset().insert(file)));
                }
            },
            None => {},
        }
    }
    proof {
        reveal(Seq::filter);
        assert(scripts_of(rest@) =~= Seq::<ScriptFile>::empty());
        assert(order@.to_multiset().add(scripts_of(rest@).to_multiset())
            =~= order@.to_multiset()) by {
            to_multiset_len(scripts_of(rest@));
        }
    }
    order
}

/// The order in which the scripts of a directory run follows from their names alone.
///
/// Whatever order the directory lists them in, two lists of the same scripts with distinct
/// names are run in the same order.
pub proof fn names_fix_the_order(a: Seq<ScriptFile>, b: Seq<ScriptFile>)
    requires
        is_sorted(a),
        is_sorted(b),
        a.to_multiset() == b.to_multiset(),
        forall|i: int, j: int|
            0 <= i < j < a.len() ==> #[trigger] a[i].name@ != #[trigger] a[j].name@,
    ensures
        a == b,
    decreases a.len(),
{
    to_multiset_len(a);
    to_multiset_len(b);
    if a.len() > 0 {
        let x = a.last();
        let y = b.last();
        to_multiset_contains(a, x);
        to_multiset_contains(b, x);
        to_multiset_contains(a, y);
        to_multiset_contains(b, y);
        assert(a[a.len() - 1] == x && b[b.len() - 1] == y);
        let i = choose|i: int| 0 <= i < b.len() && b[i] == x;
        let j = choose|j: int| 0 <= j < a.len() && a[j] == y;
        assert(at_most(b[i].name@, b[b.len() - 1].name@));
        assert(at_most(a[j].name@, a[a.len() - 1].name@));
        at_most_is_antisymmetric(x.name@, y.name@);
        assert(a[j].name@ == a[a.len() - 1].name@);
        assert(x == y);
        let p = a.drop_last();
        let q = b.drop_last();
        assert(a =~= p.push(x));
        assert(b =~= q.push(x));
        to_multiset_build(p, x);
        to_multiset_build(q, x);
        assert(p.to_multiset() =~= a.to_multiset().remove(x));
        assert(q.to_multiset() =~= b.to_multiset().remove(x));
        assert forall|i: int, j: int| 0 <= i < j < p.len() implies #[trigger] p[i].name@
            != #[trigger] p[j].name@ by {
            assert(a[i].name@ != a[j].name@);
        }
        assert forall|i: int, j: int| 0 <= i <= j < p.len() implies at_most(
            #[trigger] p[i].name@,
            #[trigger] p[j].name@,
        ) by {
            assert(at_most(a[i].name@, a[j].name@));
        }
        assert forall|i: int, j: int| 0 <= i <= j < q.len() implies at_most(
            #[trigger] q[i].name@,
            #[trigger] q[j].name@,
        ) by {
            assert(at_most(b[i].name@, b[j].name@));
        }
        names_fix_the_order(p, q);
    } else {
        assert(a =~= b);
    }
}

/// A script is a file whose name ends in `.lua` with something before it.
pub proof fn a_script_is_known_by_its_ending(name: Seq<char>, stem: Seq<char>)
    ensures
        stem.len() > 0 ==> is_script_name(stem + ".lua"@),
        !is_script_name(".lua"@),
        is_script_name(name) ==> name == name.take(name.len() - 4) + ".lua"@ && name.take(
            name.len() - 4,
        ).len() > 0,
{
    reveal_strlit(".lua");
    let whole = stem + ".lua"@;
    assert(whole.skip(whole.len() - 4) =~= ".lua"@);
    assert(".lua"@.len() == 4);
    if is_script_name(name) {
        assert(name =~= name.take(name.len() - 4) + name.skip(name.len() - 4));
    }
}

/// Names are ordered by the first character in which they differ, by its code, and a name comes
/// before those that continue it.
pub proof fn names_are_ordered_by_their_first_difference(
    head: Seq<char>,
    x: char,
    y: char,
    a: Seq<char>,
    b: Seq<char>,
)
    requires
        (x as u32) < (y as u32),
    ensures
        at_most(head + seq![x] + a, head + seq![y] + b),
        !at_most(head + seq![y] + b, head + seq![x] + a),
        at_most(head, head + a),
        a.len() > 0 ==> !at_most(head + a, head),
    decreases head.len(),
{
    let lo = head + seq![x] + a;
    let hi = head + seq![y] + b;
    if head.len() == 0 {
        assert(lo[0] == x && hi[0] == y);
        assert(head + a =~= a);
    } else {
        let rest = head.drop_first();
        names_are_ordered_by_their_first_difference(rest, x, y, a, b);
        assert(lo.drop_first() =~= rest + seq![x] + a);
        assert(hi.drop_first() =~= rest + seq![y] + b);
        assert((head + a).drop_first() =~= rest + a);
        assert((head + a)[0] == head[0]);
        assert(lo[0] == head[0] && hi[0] == head[0]);
    }
}

/// The files that are loaded are those whose names end in `.lua`, each as often as it was found, in
/// the order of their names.
pub proof fn scripts_are_loaded_by_name(
    files: Seq<ScriptFile>,
    order: Seq<ScriptFile>,
    file: ScriptFile,
)
    requires
        is_load_order(files, order),
    ensures
        order.contains(file) == (files.contains(file) && is_script_name(file.name@)),
        order.len() <= files.len(),
        forall|i: int|
            0 < i < order.len() ==> at_most((#[trigger] order[i - 1]).name@, order[i].name@),
{
    let f = |x: ScriptFile| is_script_name(x.name@);
    let scripts = files.filter(f);
    assert(scripts == scripts_of(files));
    order.to_multiset_ensures();
    scripts.to_multiset_ensures();
    assert(order.to_multiset().count(file) == scripts.to_multiset().count(file));
    assert(order.contains(file) == scripts.contains(file));
    if scripts.contains(file) {
        files.lemma_filter_contains_rev(f, file);
        let i = choose|i: int| 0 <= i < scripts.len() && scripts[i] == file;
        files.lemma_filter_pred(f, i);
    }
    if files.contains(file) && is_script_name(file.name@) {
        let i = choose|i: int| 0 <= i < files.len() && files[i] == file;
        files.lemma_filter_contains(f, i);
    }
    files.lemma_filter_len(f);
}

} // verus!
