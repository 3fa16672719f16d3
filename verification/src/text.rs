//! Building source text: concatenation of generated pieces and the few operations on
//! characters that the generators need.
use vstd::prelude::*;
use vstd::string::StrSliceExecFns;

verus! {

/// The texts of a sequence of strings.
pub open spec fn views(v: Seq<String>) -> Seq<Seq<char>> {
    v.map_values(|s: String| s@)
}

/// The pieces of text written one after the other.
pub open spec fn concat(parts: Seq<Seq<char>>) -> Seq<char>
    decreases parts.len(),
{
    if parts.len() == 0 {
        seq![]
    } else {
        concat(parts.drop_last()) + parts.last()
    }
}

/// The text of an optional piece: nothing where there is none.
pub open spec fn opt_text(o: Option<Seq<char>>) -> Seq<char> {
    match o {
        Some(s) => s,
        None => seq![],
    }
}

/// Whether an identifier's text is that of a raw identifier (`r#` before the name).
pub open spec fn is_raw(name: Seq<char>) -> bool {
    name.len() >= 2 && name[0] == 'r' && name[1] == '#'
}

/// An identifier's text without the `r#` of a raw identifier.
pub open spec fn unraw(name: Seq<char>) -> Seq<char> {
    if is_raw(name) {
        name.skip(2)
    } else {
        name
    }
}

/// Whether `pat` occurs in `s` as a run of consecutive characters.
pub open spec fn contains(s: Seq<char>, pat: Seq<char>) -> bool {
    exists|i: int| 0 <= i && i + pat.len() <= s.len() && #[trigger] s.subrange(i, i + pat.len()) == pat
}

/// A piece written between two others occurs in the text.
pub proof fn lemma_contains_middle(before: Seq<char>, piece: Seq<char>, after: Seq<char>)
    ensures
        contains(before + piece + after, piece),
{
    let s = before + piece + after;
    assert(s.subrange(before.len() as int, (before.len() + piece.len()) as int) =~= piece);
}

/// Writing one more piece extends the text of the pieces before it.
pub proof fn lemma_concat_step(parts: Seq<Seq<char>>, i: int)
    requires
        0 <= i < parts.len(),
    ensures
        concat(parts.take(i + 1)) == concat(parts.take(i)) + parts[i],
{
    assert(parts.take(i + 1).drop_last() =~= parts.take(i));
}

/// A piece written before the others comes first in their text.
pub proof fn lemma_concat_prepend(first: Seq<char>, parts: Seq<Seq<char>>)
    ensures
        concat(seq![first] + parts) == first + concat(parts),
    decreases parts.len(),
{
    if parts.len() == 0 {
        assert(seq![first] + parts =~= seq![first]);
        assert(seq![first].drop_last() =~= Seq::<Seq<char>>::empty());
        let one = seq![first];
        assert(one.len() == 1);
        assert(one.last() == first);
        assert(concat(one.drop_last()) == Seq::<char>::empty());
        assert(concat(one) == concat(one.drop_last()) + one.last());
        assert(concat(one) =~= first);
        assert(first + concat(parts) =~= first);
    } else {
        lemma_concat_prepend(first, parts.drop_last());
        let whole = seq![first] + parts;
        assert(whole.drop_last() =~= seq![first] + parts.drop_last());
        assert(whole.last() == parts.last());
        assert(concat(whole) == concat(whole.drop_last()) + whole.last());
        assert(first + concat(parts) =~= first + concat(parts.drop_last()) + parts.last());
    }
}

/// The text of one piece is that piece.
pub proof fn lemma_concat_single(x: Seq<char>)
    ensures
        concat(seq![x]) == x,
{
    let one = seq![x];
    assert(one.len() == 1);
    assert(one.last() == x);
    assert(one.drop_last() =~= Seq::<Seq<char>>::empty());
    assert(concat(one.drop_last()) == Seq::<char>::empty());
    assert(concat(one) == concat(one.drop_last()) + one.last());
    assert(concat(one) =~= x);
}

/// The text of two lists of pieces is the text of the first, then that of the second.
pub proof fn lemma_concat_append(a: Seq<Seq<char>>, b: Seq<Seq<char>>)
    ensures
        concat(a + b) == concat(a) + concat(b),
    decreases b.len(),
{
    if b.len() == 0 {
        assert(a + b =~= a);
        assert(concat(a) + concat(b) =~= concat(a));
    } else {
        lemma_concat_append(a, b.drop_last());
        assert((a + b).drop_last() =~= a + b.drop_last());
        assert((a + b).last() == b.last());
        assert(concat(a) + concat(b) =~= concat(a) + concat(b.drop_last()) + b.last());
    }
}

/// A text that holds a piece still holds it with more text after it.
pub proof fn lemma_contains_extend(s: Seq<char>, pat: Seq<char>, more: Seq<char>)
    requires
        contains(s, pat),
    ensures
        contains(s + more, pat),
{
    let i = choose|i: int| 0 <= i && i + pat.len() <= s.len() && #[trigger] s.subrange(i, i + pat.len()) == pat;
    assert((s + more).subrange(i, i + pat.len()) =~= s.subrange(i, i + pat.len()));
}

/// Every piece occurs in the text of the pieces, whatever its place among them.
pub proof fn lemma_concat_contains(parts: Seq<Seq<char>>, i: int)
    requires
        0 <= i < parts.len(),
    ensures
        contains(concat(parts), parts[i]),
{
    let before = parts.take(i);
    let after = parts.skip(i + 1);
    assert(parts =~= before + seq![parts[i]] + after);
    lemma_concat_append(before + seq![parts[i]], after);
    lemma_concat_append(before, seq![parts[i]]);
    lemma_concat_single(parts[i]);
    lemma_contains_middle(concat(before), parts[i], concat(after));
}

/// Stripping the raw prefix: a name without `r#` in front stays as it is, and a raw
/// name is `r#` followed by what is left.
pub proof fn unraw_removes_only_the_raw_prefix(name: Seq<char>)
    ensures
        !(name.len() >= 2 && name[0] == 'r' && name[1] == '#') ==> unraw(name) == name,
        name.len() >= 2 && name[0] == 'r' && name[1] == '#' ==> "r#"@ + unraw(name) == name,
{
    reveal_strlit("r#");
    if name.len() >= 2 && name[0] == 'r' && name[1] == '#' {
        assert("r#"@ + unraw(name) =~= name);
    }
}

/// Writes the strings one after the other.
pub fn concat_all(parts: &Vec<String>) -> (r: String)
    ensures
        r@ == concat(views(parts@)),
{
    let mut r = String::new();
    let ghost all = views(parts@);
    for i in 0..parts.len()
        invariant
            all == views(parts@),
            r@ == concat(all.take(i as int)),
    {
        r.append(parts[i].as_str());
        assert(all.take(i + 1).drop_last() =~= all.take(i as int));
    }
    assert(all.take(parts.len() as int) =~= all);
    r
}

/// The characters of a string.
pub fn chars_of(s: &str) -> (r: Vec<char>)
    ensures
        r@ == s@,
{
    let n = s.unicode_len();
    let mut r: Vec<char> = Vec::new();
    for i in 0..n
        invariant
            n == s@.len(),
            r@ == s@.take(i as int),
    {
        r.push(s.get_char(i));
        assert(r@ =~= s@.take(i + 1));
    }
    assert(r@ =~= s@);
    r
}

/// Whether `pat` occurs in `s` (`str::contains` with a string pattern).
pub fn str_contains(s: &str, pat: &str) -> (r: bool)
    ensures
        r == contains(s@, pat@),
{
    let sc = chars_of(s);
    let pc = chars_of(pat);
    if pc.len() > sc.len() {
        return false;
    }
    let sl = sc.len();
    let last = sl - pc.len();
    let mut i: usize = 0;
    loop
        invariant
            sc@ == s@,
            pc@ == pat@,
            pc@.len() <= sc@.len(),
            sl == sc@.len(),
            last == sc@.len() - pc@.len(),
            i <= last,
            forall|k: int| 0 <= k < i ==> #[trigger] s@.subrange(k, k + pat@.len()) != pat@,
        ensures
            forall|k: int| 0 <= k <= last ==> #[trigger] s@.subrange(k, k + pat@.len()) != pat@,
        decreases last - i,
    {
        let mut j: usize = 0;
        let mut same = true;
        assert(s@.subrange(i as int, i as int) =~= pat@.take(0));
        while j < pc.len()
            invariant
                sc@ == s@,
                pc@ == pat@,
                i <= last,
                pc@.len() <= sc@.len(),
                sl == sc@.len(),
                last == sc@.len() - pc@.len(),
                j <= pc@.len(),
                same == (s@.subrange(i as int, i + j) == pat@.take(j as int)),
            decreases pc@.len() - j,
        {
            assert(i + j < sc@.len());
            if same && sc[i + j] != pc[j] {
                same = false;
                assert(s@.subrange(i as int, i + j + 1)[j as int] != pat@.take(j + 1)[j as int]);
            } else if same {
                assert(s@.subrange(i as int, i + j + 1) =~= s@.subrange(i as int, i + j).push(sc@[i + j]));
                assert(pat@.take(j + 1) =~= pat@.take(j as int).push(pc@[j as int]));
            } else {
                assert(s@.subrange(i as int, i + j + 1).take(j as int) =~= s@.subrange(i as int, i + j));
                assert(pat@.take(j + 1).take(j as int) =~= pat@.take(j as int));
            }
            j = j + 1;
        }
        assert(pat@.take(pc@.len() as int) =~= pat@);
        if same {
            return true;
        }
        if i == last {
            break;
        }
        i = i + 1;
    }
    assert forall|k: int| 0 <= k && k + pat@.len() <= s@.len() implies #[trigger] s@.subrange(k, k + pat@.len()) != pat@ by {
    }
    false
}

/// Whether two texts are the same.
pub fn same_text(a: &str, b: &str) -> (r: bool)
    ensures
        r == (a@ == b@),
{
    let ac = chars_of(a);
    let bc = chars_of(b);
    if ac.len() != bc.len() {
        return false;
    }
    for i in 0..ac.len()
        invariant
            ac@ == a@,
            bc@ == b@,
            ac@.len() == bc@.len(),
            ac@.take(i as int) == bc@.take(i as int),
    {
        if ac[i] != bc[i] {
            assert(a@[i as int] != b@[i as int]);
            return false;
        }
        assert(ac@.take(i + 1) =~= ac@.take(i as int).push(ac@[i as int]));
        assert(bc@.take(i + 1) =~= bc@.take(i as int).push(bc@[i as int]));
    }
    assert(ac@.take(ac@.len() as int) =~= ac@);
    assert(bc@.take(bc@.len() as int) =~= bc@);
    true
}

/// Whether an identifier's text is that of a raw identifier.
pub fn raw_ident(name: &str) -> (r: bool)
    ensures
        r == is_raw(name@),
{
    let n = name.unicode_len();
    n >= 2 && name.get_char(0) == 'r' && name.get_char(1) == '#'
}

/// An identifier's text without the `r#` of a raw identifier (what `format_ident!` writes
/// for an identifier).
pub fn strip_raw(name: &str) -> (r: String)
    ensures
        r@ == unraw(name@),
{
    if raw_ident(name) {
        String::from_str(name.substring_char(2, name.unicode_len()))
    } else {
        String::from_str(name)
    }
}

} // verus!
