//! Lines of text: their order, sorting and joining.

use vstd::prelude::*;

verus! {

/// The characters of each text of a list.
pub open spec fn texts(lines: Seq<String>) -> Seq<Seq<char>> {
    Seq::new(lines.len(), |i: int| lines[i]@)
}

/// Whether `a` stands before `b` or equals it, in the order of strings:
/// the texts are compared character by character by their code points, and
/// a text stands before each of its extensions.
pub open spec fn precedes(a: Seq<char>, b: Seq<char>) -> bool
    decreases a.len(),
{
    if a.len() == 0 {
        true
    } else if b.len() == 0 {
        false
    } else if a[0] != b[0] {
        (a[0] as int) < (b[0] as int)
    } else {
        precedes(a.drop_first(), b.drop_first())
    }
}

/// Compares two texts with `<=` of `str`.
///
/// The contract claims what the standard library documents of the order of
/// strings: it is lexicographic by bytes, which orders texts by the code
/// points of their characters.
#[verifier::external_body]
pub(crate) fn text_precedes(a: &str, b: &str) -> (r: bool)
    ensures
        r == precedes(a@, b@),
{
    a <= b
}

/// Where `line` goes into `sorted`, searching from `from`: before the first
/// text that does not precede it, or at the end.
pub open spec fn place(sorted: Seq<Seq<char>>, line: Seq<char>, from: int) -> int
    decreases sorted.len() - from,
{
    if from < 0 || from >= sorted.len() {
        sorted.len() as int
    } else if !precedes(sorted[from], line) {
        from
    } else {
        place(sorted, line, from + 1)
    }
}

/// `lines` in the order of strings.
pub open spec fn sorted(lines: Seq<Seq<char>>) -> Seq<Seq<char>>
    decreases lines.len(),
{
    if lines.len() == 0 {
        Seq::empty()
    } else {
        let front = sorted(lines.drop_last());
        front.insert(place(front, lines.last(), 0), lines.last())
    }
}

/// `lines` with a line feed between neighbours.
pub open spec fn joined(lines: Seq<Seq<char>>) -> Seq<char>
    decreases lines.len(),
{
    if lines.len() == 0 {
        Seq::empty()
    } else if lines.len() == 1 {
        lines[0]
    } else {
        joined(lines.drop_last()) + "\n"@ + lines.last()
    }
}

/// Where a search from `from` places a line lies between `from` and the end.
pub proof fn place_in_range(sorted: Seq<Seq<char>>, line: Seq<char>, from: int)
    requires
        0 <= from <= sorted.len(),
    ensures
        from <= place(sorted, line, from) <= sorted.len(),
        forall|i: int| from <= i < place(sorted, line, from) ==> precedes(#[trigger] sorted[i], line),
        place(sorted, line, from) < sorted.len() ==> !precedes(
            sorted[place(sorted, line, from)],
            line,
        ),
    decreases sorted.len() - from,
{
    if from < sorted.len() && precedes(sorted[from], line) {
        place_in_range(sorted, line, from + 1);
    }
}

/// Of two texts one precedes the other.
pub proof fn precedes_is_total(a: Seq<char>, b: Seq<char>)
    ensures
        precedes(a, b) || precedes(b, a),
    decreases a.len(),
{
    if a.len() > 0 && b.len() > 0 && a[0] == b[0] {
        precedes_is_total(a.drop_first(), b.drop_first());
    }
}

/// What precedes a text precedes what that text precedes.
pub proof fn precedes_is_transitive(a: Seq<char>, b: Seq<char>, c: Seq<char>)
    requires
        precedes(a, b),
        precedes(b, c),
    ensures
        precedes(a, c),
    decreases a.len(),
{
    if a.len() > 0 && a[0] == b[0] && b[0] == c[0] {
        precedes_is_transitive(a.drop_first(), b.drop_first(), c.drop_first());
    }
}

/// Two texts that precede each other are the same text.
pub proof fn precedes_is_antisymmetric(a: Seq<char>, b: Seq<char>)
    requires
        precedes(a, b),
        precedes(b, a),
    ensures
        a == b,
    decreases a.len(),
{
    if a.len() == 0 {
        assert(b.len() == 0);
        assert(a =~= b);
    } else {
        assert(b.len() > 0);
        assert(a[0] == b[0]);
        let rest_a = a.drop_first();
        let rest_b = b.drop_first();
        precedes_is_antisymmetric(rest_a, rest_b);
        assert(a.len() == b.len());
        assert forall|i: int| 0 <= i < a.len() implies a[i] == b[i] by {
            if i > 0 {
                assert(a[i] == rest_a[i - 1]);
                assert(b[i] == rest_b[i - 1]);
            }
        }
        assert(a =~= b);
    }
}

/// In `sorted(lines)` each line precedes every later one.
pub proof fn sorted_is_ordered(lines: Seq<Seq<char>>)
    ensures
        sorted(lines).len() == lines.len(),
        forall|i: int, j: int|
            0 <= i <= j < lines.len() ==> precedes(
                #[trigger] sorted(lines)[i],
                #[trigger] sorted(lines)[j],
            ),
    decreases lines.len(),
{
    if lines.len() > 0 {
        let front = sorted(lines.drop_last());
        let line = lines.last();
        let at = place(front, line, 0);
        sorted_is_ordered(lines.drop_last());
        place_in_range(front, line, 0);
        let all = sorted(lines);
        assert(all == front.insert(at, line));
        precedes_is_total(line, line);
        assert forall|i: int, j: int| 0 <= i <= j < lines.len() implies precedes(
            #[trigger] all[i],
            #[trigger] all[j],
        ) by {
            if j < at {
                assert(all[i] == front[i] && all[j] == front[j]);
            } else if j == at {
                if i < at {
                    assert(all[i] == front[i]);
                }
            } else if i > at {
                assert(all[i] == front[i - 1] && all[j] == front[j - 1]);
            } else {
                assert(all[j] == front[j - 1]);
                precedes_is_total(front[at], line);
                assert(precedes(front[at], front[j - 1]));
                precedes_is_transitive(line, front[at], front[j - 1]);
                if i < at {
                    assert(all[i] == front[i]);
                    precedes_is_transitive(front[i], line, front[j - 1]);
                }
            }
        }
    }
}

/// `sorted(lines)` holds the lines of `lines`, each as often.
pub proof fn sorted_keeps_lines(lines: Seq<Seq<char>>)
    ensures
        sorted(lines).to_multiset() == lines.to_multiset(),
    decreases lines.len(),
{
    if lines.len() > 0 {
        let front = sorted(lines.drop_last());
        let line = lines.last();
        sorted_keeps_lines(lines.drop_last());
        sorted_is_ordered(lines.drop_last());
        place_in_range(front, line, 0);
        vstd::seq_lib::to_multiset_insert(front, place(front, line, 0), line);
        vstd::seq_lib::to_multiset_build(lines.drop_last(), line);
        assert(lines.drop_last().push(line) =~= lines);
    } else {
        assert(sorted(lines) =~= lines);
    }
}

/// Sorts `lines` into the order of strings.
pub fn sort_lines(lines: &Vec<String>) -> (r: Vec<String>)
    ensures
        texts(r@) == sorted(texts(lines@)),
{
    let mut out: Vec<String> = Vec::new();
    let mut k: usize = 0;
    assert(texts(lines@).take(0) =~= Seq::<Seq<char>>::empty());
    assert(texts(out@) =~= Seq::<Seq<char>>::empty());
    while k < lines.len()
        invariant
            k <= lines.len(),
            out@.len() == k,
            texts(out@) == sorted(texts(lines@).take(k as int)),
        decreases lines.len() - k,
    {
        let line = lines[k].clone();
        let ghost front = texts(out@);
        let mut at: usize = 0;
        while at < out.len() && text_precedes(out[at].as_str(), line.as_str())
            invariant
                at <= out.len(),
                front == texts(out@),
                place(front, line@, 0) == place(front, line@, at as int),
            decreases out.len() - at,
        {
            at = at + 1;
        }
        proof {
            assert(texts(lines@).take(k + 1).drop_last() =~= texts(lines@).take(k as int));
            assert(texts(lines@).take(k + 1).last() == line@);
            assert(place(front, line@, at as int) == at);
        }
        out.insert(at, line);
        assert(texts(out@) =~= front.insert(at as int, line@));
        k = k + 1;
    }
    assert(texts(lines@).take(k as int) =~= texts(lines@));
    out
}

/// Joins `lines` with a line feed between neighbours.
pub fn join_lines(lines: &Vec<String>) -> (r: String)
    ensures
        r@ == joined(texts(lines@)),
{
    let mut text = String::new();
    let mut k: usize = 0;
    assert(texts(lines@).take(0) =~= Seq::<Seq<char>>::empty());
    while k < lines.len()
        invariant
            k <= lines.len(),
            text@ == joined(texts(lines@).take(k as int)),
        decreases lines.len() - k,
    {
        proof {
            assert(texts(lines@).take(k + 1).drop_last() =~= texts(lines@).take(k as int));
            assert(texts(lines@).take(k + 1).last() == lines@[k as int]@);
        }
        if k > 0 {
            text.append("\n");
        }
        text.append(lines[k].as_str());
        proof {
            if k == 0 {
                assert(text@ =~= lines@[0]@);
                assert(texts(lines@).take(1)[0] == lines@[0]@);
            }
        }
        k = k + 1;
    }
    assert(texts(lines@).take(k as int) =~= texts(lines@));
    text
}

} // verus!
