//! A model of the part of an HTTP response this stage reads and writes:
//! a status code and the response headers, in order. Header insertion is
//! last-writer-wins: it overwrites any prior value under the same name and
//! never appends a duplicate.

use vstd::prelude::*;

verus! {

/// One response header: a lowercase name and its value.
pub struct Header {
    pub name: String,
    pub value: String,
}

/// The abstract content of a header list: (name, value) character
/// sequences, in response order.
pub open spec fn headers_view(hs: Seq<Header>) -> Seq<(Seq<char>, Seq<char>)> {
    hs.map_values(|h: Header| (h.name@, h.value@))
}

/// Whether some header in `hs` bears the name `n`.
pub open spec fn has_name(hs: Seq<(Seq<char>, Seq<char>)>, n: Seq<char>) -> bool {
    exists|i: int| 0 <= i < hs.len() && hs[i].0 == n
}

/// Index of the first header named `n`; `hs.len()` when none is.
pub open spec fn first_index(hs: Seq<(Seq<char>, Seq<char>)>, n: Seq<char>) -> int
    decreases hs.len(),
{
    if hs.len() == 0 {
        0
    } else if hs[0].0 == n {
        0
    } else {
        1 + first_index(hs.drop_first(), n)
    }
}

/// The value of the first header named `n`.
pub open spec fn lookup(hs: Seq<(Seq<char>, Seq<char>)>, n: Seq<char>) -> Seq<char>
    recommends
        has_name(hs, n),
{
    hs[first_index(hs, n)].1
}

/// How many headers in `hs` bear the name `n`.
pub open spec fn count_name(hs: Seq<(Seq<char>, Seq<char>)>, n: Seq<char>) -> nat
    decreases hs.len(),
{
    if hs.len() == 0 {
        0
    } else {
        (if hs[0].0 == n {
            1nat
        } else {
            0nat
        }) + count_name(hs.drop_first(), n)
    }
}

/// No two headers bear the same name.
pub open spec fn distinct_names(hs: Seq<(Seq<char>, Seq<char>)>) -> bool {
    forall|i: int, j: int| 0 <= i < j < hs.len() ==> hs[i].0 != hs[j].0
}

/// The header list after a last-writer-wins insert of `(n, v)`: the first
/// header named `n` is overwritten in place, or `(n, v)` is appended when
/// none is.
pub open spec fn with_header(
    hs: Seq<(Seq<char>, Seq<char>)>,
    n: Seq<char>,
    v: Seq<char>,
) -> Seq<(Seq<char>, Seq<char>)> {
    if has_name(hs, n) {
        hs.update(first_index(hs, n), (n, v))
    } else {
        hs.push((n, v))
    }
}

/// `first_index` points at `n` when `i` is the least index named `n`.
proof fn lemma_first_index_at(hs: Seq<(Seq<char>, Seq<char>)>, n: Seq<char>, i: int)
    requires
        0 <= i < hs.len(),
        hs[i].0 == n,
        forall|j: int| 0 <= j < i ==> hs[j].0 != n,
    ensures
        first_index(hs, n) == i,
    decreases i,
{
    if i > 0 {
        assert(hs[0].0 != n);
        let rest = hs.drop_first();
        assert(rest[i - 1].0 == n);
        assert(forall|j: int| 0 <= j < i - 1 ==> rest[j].0 != n);
        lemma_first_index_at(rest, n, i - 1);
    }
}

/// When no header bears the name `n`, `first_index` is the length.
proof fn lemma_first_index_none(hs: Seq<(Seq<char>, Seq<char>)>, n: Seq<char>)
    requires
        forall|j: int| 0 <= j < hs.len() ==> hs[j].0 != n,
    ensures
        first_index(hs, n) == hs.len(),
    decreases hs.len(),
{
    if hs.len() > 0 {
        let rest = hs.drop_first();
        assert(forall|j: int| 0 <= j < rest.len() ==> rest[j].0 != n);
        lemma_first_index_none(rest, n);
    }
}

/// A name that is absent is counted zero times.
proof fn lemma_count_absent(hs: Seq<(Seq<char>, Seq<char>)>, n: Seq<char>)
    requires
        !has_name(hs, n),
    ensures
        count_name(hs, n) == 0,
    decreases hs.len(),
{
    if hs.len() > 0 {
        let rest = hs.drop_first();
        assert(forall|j: int| 0 <= j < rest.len() ==> rest[j] == hs[j + 1]);
        assert(!has_name(rest, n));
        lemma_count_absent(rest, n);
    }
}

/// With distinct names, a present name is counted exactly once.
proof fn lemma_count_distinct(hs: Seq<(Seq<char>, Seq<char>)>, n: Seq<char>)
    requires
        distinct_names(hs),
        has_name(hs, n),
    ensures
        count_name(hs, n) == 1,
    decreases hs.len(),
{
    let rest = hs.drop_first();
    assert(forall|j: int| 0 <= j < rest.len() ==> rest[j] == hs[j + 1]);
    if hs[0].0 == n {
        assert(forall|j: int| 0 <= j < rest.len() ==> rest[j].0 != n);
        assert(!has_name(rest, n));
        lemma_count_absent(rest, n);
    } else {
        let i = choose|i: int| 0 <= i < hs.len() && hs[i].0 == n;
        assert(rest[i - 1].0 == n);
        assert(has_name(rest, n));
        lemma_count_distinct(rest, n);
    }
}

/// A last-writer-wins insert keeps names distinct.
proof fn lemma_with_header_distinct(hs: Seq<(Seq<char>, Seq<char>)>, n: Seq<char>, v: Seq<char>)
    requires
        distinct_names(hs),
    ensures
        distinct_names(with_header(hs, n, v)),
        has_name(with_header(hs, n, v), n),
        lookup(with_header(hs, n, v), n) == v,
{
    let hs2 = with_header(hs, n, v);
    if has_name(hs, n) {
        let i = choose|i: int| 0 <= i < hs.len() && hs[i].0 == n;
        assert(forall|j: int| 0 <= j < i ==> hs[j].0 != n) by {
            assert(forall|j: int| 0 <= j < i ==> hs[j].0 != hs[i].0);
        }
        lemma_first_index_at(hs, n, i);
        assert(hs2 == hs.update(i, (n, v)));
        assert(forall|k: int| 0 <= k < hs2.len() ==> hs2[k].0 == hs[k].0);
        assert(hs2[i].0 == n);
        assert(forall|j: int| 0 <= j < i ==> hs2[j].0 != n);
        lemma_first_index_at(hs2, n, i);
    } else {
        assert(forall|j: int| 0 <= j < hs.len() ==> hs[j].0 != n);
        lemma_first_index_none(hs, n);
        assert(hs2 == hs.push((n, v)));
        assert(hs2[hs.len() as int].0 == n);
        lemma_first_index_at(hs2, n, hs.len() as int);
    }
}

/// Law: inserting under one name twice leaves exactly one header with
/// that name, and it holds the later value.
pub proof fn lemma_last_writer_wins(
    hs: Seq<(Seq<char>, Seq<char>)>,
    n: Seq<char>,
    v1: Seq<char>,
    v2: Seq<char>,
)
    requires
        distinct_names(hs),
    ensures
        count_name(with_header(with_header(hs, n, v1), n, v2), n) == 1,
        lookup(with_header(with_header(hs, n, v1), n, v2), n) == v2,
{
    let hs1 = with_header(hs, n, v1);
    lemma_with_header_distinct(hs, n, v1);
    lemma_with_header_distinct(hs1, n, v2);
    lemma_count_distinct(with_header(hs1, n, v2), n);
}

/// The part of an HTTP response this stage models.
pub struct Response {
    /// Status code of the response.
    pub status: u16,
    /// Response headers, in order.
    pub headers: Vec<Header>,
}

impl Response {
    /// The abstract header content of this response.
    pub open spec fn headers_abs(&self) -> Seq<(Seq<char>, Seq<char>)> {
        headers_view(self.headers@)
    }

    /// Well-formed: no two headers bear the same name.
    pub open spec fn wf(&self) -> bool {
        distinct_names(self.headers_abs())
    }

    /// An empty response carrying only a status code.
    pub fn new(status: u16) -> (r: Response)
        ensures
            r.status == status,
            r.headers_abs() == Seq::<(Seq<char>, Seq<char>)>::empty(),
            r.wf(),
    {
        let r = Response { status, headers: Vec::new() };
        proof {
            assert(r.headers_abs() =~= Seq::<(Seq<char>, Seq<char>)>::empty());
        }
        r
    }

    /// Inserts `(name, value)`, overwriting any prior value under that
    /// name; never appends a duplicate.
    pub fn set_header(&mut self, name: String, value: String)
        requires
            old(self).wf(),
        ensures
            final(self).wf(),
            final(self).status == old(self).status,
            final(self).headers_abs() == with_header(old(self).headers_abs(), name@, value@),
    {
        let ghost hs = self.headers_abs();
        let mut i: usize = 0;
        let len = self.headers.len();
        while i < len
            invariant
                len == self.headers.len(),
                0 <= i <= len,
                *self == *old(self),
                hs == self.headers_abs(),
                hs.len() == len as int,
                distinct_names(hs),
                forall|j: int| 0 <= j < i ==> hs[j].0 != name@,
            decreases len - i,
        {
            if self.headers[i].name == name {
                proof {
                    assert(hs[i as int].0 == name@);
                    assert(has_name(hs, name@));
                    lemma_first_index_at(hs, name@, i as int);
                }
                self.headers[i] = Header { name, value };
                proof {
                    assert(self.headers_abs() =~= hs.update(i as int, (name@, value@)));
                    assert(with_header(hs, name@, value@) == hs.update(i as int, (name@, value@)));
                    lemma_with_header_distinct(hs, name@, value@);
                }
                return ;
            }
            i += 1;
        }
        proof {
            assert(forall|j: int| 0 <= j < hs.len() ==> hs[j].0 != name@);
            assert(!has_name(hs, name@));
        }
        self.headers.push(Header { name, value });
        proof {
            assert(self.headers_abs() =~= hs.push((name@, value@)));
            lemma_with_header_distinct(hs, name@, value@);
        }
    }
}

} // verus!
