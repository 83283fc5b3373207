//! Name-lists: comma-separated ASCII algorithm names, as carried in `KexInit`
//! and `UserauthFailure`.

use vstd::prelude::*;
use crate::bytes::{bytes_eq, to_vec, extend};
use crate::error::Error;

verus! {

pub const COMMA: u8 = 44;

/// Index of the first comma in `s`, or `s.len()` if there is none.
pub open spec fn comma_index(s: Seq<u8>) -> int
    decreases s.len(),
{
    if s.len() == 0 {
        0
    } else if s[0] == COMMA {
        0
    } else {
        1 + comma_index(s.skip(1))
    }
}

/// The names of a comma-separated list, in order.
pub open spec fn spec_names(s: Seq<u8>) -> Seq<Seq<u8>>
    decreases s.len(),
{
    if s.len() == 0 {
        Seq::empty()
    } else {
        let i = comma_index(s);
        if 0 <= i < s.len() {
            seq![s.take(i)] + spec_names(s.skip(i + 1))
        } else {
            seq![s]
        }
    }
}

/// The comma-separated form of a sequence of names.
pub open spec fn spec_join(names: Seq<Seq<u8>>) -> Seq<u8>
    decreases names.len(),
{
    if names.len() == 0 {
        Seq::empty()
    } else if names.len() == 1 {
        names[0]
    } else {
        spec_join(names.drop_last()) + seq![COMMA] + names.last()
    }
}

/// A byte allowed in an algorithm name: printable ASCII other than space.
pub open spec fn name_byte(b: u8) -> bool {
    0x21 <= b <= 0x7e
}

/// Every byte of a name-list is printable ASCII (commas included).
pub open spec fn valid_list(s: Seq<u8>) -> bool {
    forall|i: int| 0 <= i < s.len() ==> name_byte(#[trigger] s[i])
}

/// The first name of `client` that also appears in `server`.
pub open spec fn first_common(client: Seq<Seq<u8>>, server: Seq<Seq<u8>>) -> Option<Seq<u8>>
    decreases client.len(),
{
    if client.len() == 0 {
        None
    } else if server.contains(client[0]) {
        Some(client[0])
    } else {
        first_common(client.skip(1), server)
    }
}

/// The views of a vector of names.
pub open spec fn names_view(v: Seq<Vec<u8>>) -> Seq<Seq<u8>> {
    v.map_values(|n: Vec<u8>| n@)
}

proof fn lemma_comma_index(t: Seq<u8>, m: int)
    requires
        0 <= m <= t.len(),
        forall|k: int| 0 <= k < m ==> t[k] != COMMA,
        m == t.len() || t[m] == COMMA,
    ensures
        comma_index(t) == m,
    decreases m,
{
    if m > 0 {
        lemma_comma_index(t.skip(1), m - 1);
    }
}

proof fn lemma_comma_index_bounds(t: Seq<u8>)
    ensures
        0 <= comma_index(t) <= t.len(),
    decreases t.len(),
{
    if t.len() > 0 && t[0] != COMMA {
        lemma_comma_index_bounds(t.skip(1));
    }
}

/// Checks that every byte of a received name-list is printable ASCII.
pub fn check_list(s: &[u8]) -> (r: Result<(), Error>)
    ensures
        r is Ok <==> valid_list(s@),
        r is Err ==> r == Err::<(), Error>(Error::BadName),
{
    let mut i: usize = 0;
    while i < s.len()
        invariant
            i <= s@.len(),
            forall|j: int| 0 <= j < i ==> name_byte(#[trigger] s@[j]),
        decreases s@.len() - i,
    {
        if s[i] < 0x21 || s[i] > 0x7e {
            return Err(Error::BadName);
        }
        i = i + 1;
    }
    Ok(())
}

/// Splits a comma-separated list into its names.
pub fn split_names(s: &[u8]) -> (r: Vec<Vec<u8>>)
    ensures
        names_view(r@) == spec_names(s@),
{
    let mut out: Vec<Vec<u8>> = Vec::new();
    let mut start: usize = 0;
    let n = s.len();
    if n == 0 {
        assert(names_view(out@) =~= spec_names(s@));
        return out;
    }
    assert(s@.skip(0) =~= s@);
    assert(names_view(out@) =~= Seq::<Seq<u8>>::empty());
    loop
        invariant
            n == s@.len(),
            start < n,
            spec_names(s@) == names_view(out@) + spec_names(s@.skip(start as int)),
        decreases n - start,
    {
        let ghost t = s@.skip(start as int);
        let mut j = start;
        while j < n && s[j] != COMMA
            invariant
                start <= j <= n,
                n == s@.len(),
                forall|k: int| start <= k < j ==> s@[k] != COMMA,
            decreases n - j,
        {
            j = j + 1;
        }
        proof {
            lemma_comma_index(t, j - start);
        }
        let name = to_vec(&s[start..j]);
        let ghost prev = out@;
        out.push(name);
        assert(names_view(out@) =~= names_view(prev).push(name@));
        assert(name@ =~= t.take(j - start));
        if j == n {
            assert(t.len() == j - start);
            assert(t.take(j - start) =~= t);
            assert(spec_names(t) == seq![t]);
            assert(names_view(prev) + seq![t] =~= names_view(prev).push(name@));
            assert(names_view(out@) =~= names_view(out@) + spec_names(s@.skip(n as int)));
            return out;
        }
        assert(s@.skip(j as int + 1) =~= t.skip(j - start + 1));
        if j + 1 == n {
            assert(spec_names(s@.skip(j as int + 1)) =~= Seq::<Seq<u8>>::empty());
            assert(names_view(prev) + (seq![name@] + Seq::<Seq<u8>>::empty()) =~= names_view(out@));
            return out;
        }
        assert(names_view(prev) + (seq![name@] + spec_names(s@.skip(j as int + 1))) =~=
            names_view(out@) + spec_names(s@.skip(j as int + 1)));
        start = j + 1;
    }
}

/// Whether `name` is one of `names`.
pub fn contains_name(names: &Vec<Vec<u8>>, name: &[u8]) -> (r: bool)
    ensures
        r == names_view(names@).contains(name@),
{
    let mut i: usize = 0;
    while i < names.len()
        invariant
            i <= names@.len(),
            forall|j: int| 0 <= j < i ==> names@[j]@ != name@,
        decreases names@.len() - i,
    {
        if bytes_eq(names[i].as_slice(), name) {
            assert(names_view(names@)[i as int] == name@);
            return true;
        }
        i = i + 1;
    }
    proof {
        if names_view(names@).contains(name@) {
            let k = choose|k: int| 0 <= k < names_view(names@).len() && names_view(names@)[k] == name@;
            assert(names@[k]@ == name@);
        }
    }
    false
}

/// Whether a received comma-separated list names `name`.
pub fn has_algo(list: &[u8], name: &[u8]) -> (r: bool)
    ensures
        r == spec_names(list@).contains(name@),
{
    let names = split_names(list);
    contains_name(&names, name)
}

/// The first name of `client` that also appears in `server`.
pub fn first_common_name(client: &Vec<Vec<u8>>, server: &Vec<Vec<u8>>) -> (r: Option<Vec<u8>>)
    ensures
        match first_common(names_view(client@), names_view(server@)) {
            Some(n) => r matches Some(v) && v@ == n,
            None => r is None,
        },
{
    let ghost c = names_view(client@);
    let ghost sv = names_view(server@);
    let mut i: usize = 0;
    assert(c.skip(0) =~= c);
    while i < client.len()
        invariant
            i <= client@.len(),
            c == names_view(client@),
            sv == names_view(server@),
            first_common(c, sv) == first_common(c.skip(i as int), sv),
        decreases client@.len() - i,
    {
        assert(c.skip(i as int)[0] == client@[i as int]@);
        if contains_name(server, client[i].as_slice()) {
            return Some(to_vec(client[i].as_slice()));
        }
        assert(c.skip(i as int).skip(1) =~= c.skip(i as int + 1));
        i = i + 1;
    }
    assert(c.skip(i as int) =~= Seq::<Seq<u8>>::empty());
    None
}

/// Picks the negotiated name: the first entry of the client's list that the
/// server's list also holds. `is_client` says whether `ours` is the client's list.
pub fn first_match(is_client: bool, theirs: &[u8], ours: &Vec<Vec<u8>>) -> (r: Option<Vec<u8>>)
    ensures
        match (if is_client {
            first_common(names_view(ours@), spec_names(theirs@))
        } else {
            first_common(spec_names(theirs@), names_view(ours@))
        }) {
            Some(n) => r matches Some(v) && v@ == n,
            None => r is None,
        },
{
    let t = split_names(theirs);
    if is_client {
        first_common_name(ours, &t)
    } else {
        first_common_name(&t, ours)
    }
}

/// Joins names with commas.
pub fn join_names(names: &Vec<Vec<u8>>) -> (r: Vec<u8>)
    ensures
        r@ == spec_join(names_view(names@)),
{
    let mut out: Vec<u8> = Vec::new();
    let mut i: usize = 0;
    assert(names_view(names@).take(0) =~= Seq::<Seq<u8>>::empty());
    while i < names.len()
        invariant
            i <= names@.len(),
            out@ == spec_join(names_view(names@).take(i as int)),
        decreases names@.len() - i,
    {
        let ghost nv = names_view(names@).take(i as int + 1);
        assert(nv.drop_last() =~= names_view(names@).take(i as int));
        if i > 0 {
            out.push(COMMA);
        } else {
            assert(out@ =~= Seq::<u8>::empty());
        }
        extend(&mut out, names[i].as_slice());
        i = i + 1;
        if i == 1 {
            assert(out@ =~= nv[0]);
        } else {
            assert(out@ =~= spec_join(nv.drop_last()) + seq![COMMA] + nv.last());
        }
    }
    assert(names_view(names@).take(names@.len() as int) =~= names_view(names@));
    out
}


/// Names that can be listed: non-empty and without commas.
pub open spec fn listable(l: Seq<Seq<u8>>) -> bool {
    forall|i: int| 0 <= i < l.len() ==> #[trigger] l[i].len() > 0 && !l[i].contains(COMMA)
}

proof fn lemma_comma_free(n: Seq<u8>)
    requires
        !n.contains(COMMA),
    ensures
        comma_index(n) == n.len(),
{
    assert forall|k: int| 0 <= k < n.len() implies n[k] != COMMA by {
        if n[k] == COMMA {
            assert(n.contains(COMMA));
        }
    }
    lemma_comma_index(n, n.len() as int);
}

proof fn lemma_names_cons(n: Seq<u8>, r: Seq<u8>)
    requires
        n.len() > 0,
        !n.contains(COMMA),
    ensures
        spec_names(n + seq![COMMA] + r) == seq![n] + spec_names(r),
{
    let s = n + seq![COMMA] + r;
    assert forall|k: int| 0 <= k < n.len() implies s[k] != COMMA by {
        assert(s[k] == n[k]);
        if n[k] == COMMA {
            assert(n.contains(COMMA));
        }
    }
    lemma_comma_index(s, n.len() as int);
    assert(s.take(n.len() as int) =~= n);
    assert(s.skip(n.len() as int + 1) =~= r);
}

proof fn lemma_join_front(l: Seq<Seq<u8>>)
    requires
        l.len() >= 2,
    ensures
        spec_join(l) == l[0] + seq![COMMA] + spec_join(l.skip(1)),
    decreases l.len(),
{
    if l.len() == 2 {
        assert(l.drop_last() =~= seq![l[0]]);
        assert(l.skip(1) =~= seq![l[1]]);
        assert(spec_join(l.drop_last()) == l[0]);
        assert(spec_join(l.skip(1)) == l[1]);
        assert(l.last() == l[1]);
    } else {
        lemma_join_front(l.drop_last());
        assert(l.drop_last().skip(1) =~= l.skip(1).drop_last());
        assert(l.skip(1).last() == l.last());
        assert(spec_join(l.skip(1)) == spec_join(l.skip(1).drop_last()) + seq![COMMA] + l.skip(1).last());
        assert(spec_join(l) =~= l[0] + seq![COMMA] + spec_join(l.skip(1)));
    }
}

/// Splitting joined names gives the names back.
pub proof fn lemma_split_join(l: Seq<Seq<u8>>)
    requires
        listable(l),
    ensures
        spec_names(spec_join(l)) == l,
    decreases l.len(),
{
    if l.len() == 0 {
        assert(spec_names(Seq::<u8>::empty()) =~= l);
    } else if l.len() == 1 {
        assert(l[0].len() > 0 && !l[0].contains(COMMA));
        lemma_comma_free(l[0]);
        assert(spec_names(l[0]) =~= seq![l[0]]);
        assert(seq![l[0]] =~= l);
    } else {
        assert(l[0].len() > 0 && !l[0].contains(COMMA));
        lemma_join_front(l);
        assert(listable(l.skip(1))) by {
            assert forall|i: int| 0 <= i < l.skip(1).len() implies #[trigger] l.skip(1)[i].len() > 0
                && !l.skip(1)[i].contains(COMMA) by {
                assert(l.skip(1)[i] == l[i + 1]);
            }
        }
        lemma_split_join(l.skip(1));
        lemma_names_cons(l[0], spec_join(l.skip(1)));
        assert(seq![l[0]] + l.skip(1) =~= l);
    }
}


/// A received name-list: printable ASCII, and no name listed twice.
pub open spec fn valid_namelist(s: Seq<u8>) -> bool {
    valid_list(s) && spec_names(s).no_duplicates()
}

/// Checks a received name-list: every byte printable ASCII and no name
/// repeated.
pub fn check_namelist(s: &[u8]) -> (r: Result<(), Error>)
    ensures
        r is Ok <==> valid_namelist(s@),
        r is Err ==> r == Err::<(), Error>(Error::BadName),
{
    match check_list(s) {
        Ok(()) => {},
        Err(e) => return Err(e),
    }
    let names = split_names(s);
    let ghost nv = names_view(names@);
    let mut i: usize = 0;
    while i < names.len()
        invariant
            i <= names@.len(),
            nv == names_view(names@),
            nv == spec_names(s@),
            nv.len() == names@.len(),
            forall|a: int, b: int| 0 <= a < i && 0 <= b < i && a != b ==> nv[a] != nv[b],
        decreases names@.len() - i,
    {
        let mut j: usize = 0;
        while j < i
            invariant
                j <= i < names@.len(),
                nv == names_view(names@),
                nv == spec_names(s@),
                nv.len() == names@.len(),
                forall|a: int, b: int| 0 <= a < i && 0 <= b < i && a != b ==> nv[a] != nv[b],
                forall|b: int| 0 <= b < j ==> nv[b] != nv[i as int],
            decreases i - j,
        {
            if bytes_eq(names[j].as_slice(), names[i].as_slice()) {
                proof {
                    assert(nv[j as int] == nv[i as int]);
                    assert(!nv.no_duplicates());
                }
                return Err(Error::BadName);
            }
            j = j + 1;
        }
        i = i + 1;
    }
    assert(nv.no_duplicates());
    Ok(())
}

} // verus!
