//! Wire primitives: big-endian `u32`, `bool`, length-prefixed strings and
//! fixed-size byte arrays, and records made of a sequence of such fields.
//!
//! A record's encoding is the concatenation of its fields' encodings. Its
//! decoding is driven by a schema, the sequence of field kinds expected.

use vstd::prelude::*;
use crate::error::Error;
use crate::bytes::{extend, to_vec};

verus! {

/// The size of a fixed (unprefixed) byte array field, such as a `KexInit` cookie.
pub const FIXED_LEN: usize = 16;

/// The kind of a single wire field.
#[derive(Debug, Clone, Copy, PartialEq, Eq, Structural)]
pub enum Kind {
    Byte,
    Bool,
    U32,
    /// `u32` length followed by that many bytes.
    Str,
    /// Exactly [`FIXED_LEN`] bytes with no prefix.
    Fixed,
}

/// A decoded wire field.
#[derive(Debug)]
pub enum Field {
    Byte(u8),
    Bool(bool),
    U32(u32),
    Str(Vec<u8>),
    Fixed(Vec<u8>),
}

/// The mathematical value of a [`Field`].
pub enum FieldV {
    Byte(u8),
    Bool(bool),
    U32(u32),
    Str(Seq<u8>),
    Fixed(Seq<u8>),
}

impl View for Field {
    type V = FieldV;

    open spec fn view(&self) -> FieldV {
        match self {
            Field::Byte(b) => FieldV::Byte(*b),
            Field::Bool(b) => FieldV::Bool(*b),
            Field::U32(v) => FieldV::U32(*v),
            Field::Str(s) => FieldV::Str(s@),
            Field::Fixed(s) => FieldV::Fixed(s@),
        }
    }
}

/// The views of a sequence of fields.
pub open spec fn fields_view(fs: Seq<Field>) -> Seq<FieldV> {
    fs.map_values(|f: Field| f@)
}

pub open spec fn kind_of(f: FieldV) -> Kind {
    match f {
        FieldV::Byte(_) => Kind::Byte,
        FieldV::Bool(_) => Kind::Bool,
        FieldV::U32(_) => Kind::U32,
        FieldV::Str(_) => Kind::Str,
        FieldV::Fixed(_) => Kind::Fixed,
    }
}

/// A field value can be put on the wire: a string's length fits its `u32`
/// prefix and a fixed array has exactly [`FIXED_LEN`] bytes.
pub open spec fn field_ok(f: FieldV) -> bool {
    match f {
        FieldV::Str(s) => s.len() <= u32::MAX,
        FieldV::Fixed(s) => s.len() == FIXED_LEN,
        _ => true,
    }
}

/// The fields match the schema kind for kind, and each can be encoded.
pub open spec fn conforms(fs: Seq<FieldV>, schema: Seq<Kind>) -> bool {
    &&& fs.len() == schema.len()
    &&& forall|i: int| 0 <= i < fs.len() ==> kind_of(#[trigger] fs[i]) == schema[i]
    &&& forall|i: int| 0 <= i < fs.len() ==> field_ok(#[trigger] fs[i])
}

/// Big-endian encoding of a `u32`.
pub open spec fn spec_u32_be(v: u32) -> Seq<u8> {
    seq![(v >> 24) as u8, ((v >> 16) & 0xff) as u8, ((v >> 8) & 0xff) as u8, (v & 0xff) as u8]
}

/// The `u32` held big-endian in the first four bytes.
pub open spec fn spec_u32_of(s: Seq<u8>) -> u32
    recommends
        s.len() >= 4,
{
    ((s[0] as u32) << 24) | ((s[1] as u32) << 16) | ((s[2] as u32) << 8) | (s[3] as u32)
}

pub open spec fn enc_field(f: FieldV) -> Seq<u8> {
    match f {
        FieldV::Byte(b) => seq![b],
        FieldV::Bool(b) => seq![if b { 1u8 } else { 0u8 }],
        FieldV::U32(v) => spec_u32_be(v),
        FieldV::Str(s) => spec_u32_be(s.len() as u32) + s,
        FieldV::Fixed(s) => s,
    }
}

/// The concatenated encoding of a sequence of fields.
pub open spec fn enc_fields(fs: Seq<FieldV>) -> Seq<u8>
    decreases fs.len(),
{
    if fs.len() == 0 {
        Seq::empty()
    } else {
        enc_fields(fs.drop_last()) + enc_field(fs.last())
    }
}

/// Reads one field of the given kind from the front of `s`, returning it and
/// the rest of the input.
pub open spec fn parse_field(k: Kind, s: Seq<u8>) -> Result<(FieldV, Seq<u8>), Error> {
    match k {
        Kind::Byte => if s.len() < 1 {
            Err(Error::RanOut)
        } else {
            Ok((FieldV::Byte(s[0]), s.skip(1)))
        },
        Kind::Bool => if s.len() < 1 {
            Err(Error::RanOut)
        } else {
            Ok((FieldV::Bool(s[0] != 0), s.skip(1)))
        },
        Kind::U32 => if s.len() < 4 {
            Err(Error::RanOut)
        } else {
            Ok((FieldV::U32(spec_u32_of(s)), s.skip(4)))
        },
        Kind::Str => if s.len() < 4 {
            Err(Error::RanOut)
        } else if spec_u32_of(s) > s.len() - 4 {
            Err(Error::BadLength)
        } else {
            Ok((FieldV::Str(s.subrange(4, 4 + spec_u32_of(s))), s.skip(4 + spec_u32_of(s))))
        },
        Kind::Fixed => if s.len() < FIXED_LEN {
            Err(Error::RanOut)
        } else {
            Ok((FieldV::Fixed(s.take(FIXED_LEN as int)), s.skip(FIXED_LEN as int)))
        },
    }
}

/// Reads fields following `schema` from the front of `s`.
pub open spec fn parse_fields(schema: Seq<Kind>, s: Seq<u8>) -> Result<(Seq<FieldV>, Seq<u8>), Error>
    decreases schema.len(),
{
    if schema.len() == 0 {
        Ok((Seq::empty(), s))
    } else {
        match parse_fields(schema.drop_last(), s) {
            Ok((fs, rest)) => match parse_field(schema.last(), rest) {
                Ok((f, rest2)) => Ok((fs.push(f), rest2)),
                Err(e) => Err(e),
            },
            Err(e) => Err(e),
        }
    }
}

pub proof fn lemma_u32_round_trip(v: u32)
    ensures
        spec_u32_of(spec_u32_be(v)) == v,
        spec_u32_be(v).len() == 4,
{
    let s = spec_u32_be(v);
    let b0 = (v >> 24) as u8;
    let b1 = ((v >> 16) & 0xff) as u8;
    let b2 = ((v >> 8) & 0xff) as u8;
    let b3 = (v & 0xff) as u8;
    assert(s[0] == b0 && s[1] == b1 && s[2] == b2 && s[3] == b3);
    assert(((b0 as u32) << 24) | ((b1 as u32) << 16) | ((b2 as u32) << 8) | (b3 as u32) == v)
        by (bit_vector)
        requires
            b0 == (v >> 24) as u8,
            b1 == ((v >> 16) & 0xff) as u8,
            b2 == ((v >> 8) & 0xff) as u8,
            b3 == (v & 0xff) as u8,
    ;
}

/// Each field decodes back from its encoding, leaving what followed it.
pub proof fn lemma_field_round_trip(f: FieldV, rest: Seq<u8>)
    requires
        field_ok(f),
    ensures
        parse_field(kind_of(f), enc_field(f) + rest) == Ok::<(FieldV, Seq<u8>), Error>((f, rest)),
{
    let e = enc_field(f) + rest;
    match f {
        FieldV::Byte(b) => {
            assert(e.skip(1) =~= rest);
        },
        FieldV::Bool(b) => {
            assert(e.skip(1) =~= rest);
        },
        FieldV::U32(v) => {
            lemma_u32_round_trip(v);
            assert(e.take(4) =~= spec_u32_be(v));
            assert(spec_u32_of(e) == spec_u32_of(e.take(4)));
            assert(e.skip(4) =~= rest);
        },
        FieldV::Str(s) => {
            let n = s.len() as u32;
            lemma_u32_round_trip(n);
            assert(e.take(4) =~= spec_u32_be(n));
            assert(spec_u32_of(e) == spec_u32_of(e.take(4)));
            assert(e.subrange(4, 4 + n) =~= s);
            assert(e.skip(4 + n) =~= rest);
        },
        FieldV::Fixed(s) => {
            assert(e.take(FIXED_LEN as int) =~= s);
            assert(e.skip(FIXED_LEN as int) =~= rest);
        },
    }
}

/// A conforming field sequence decodes back from its encoding under its schema.
pub proof fn lemma_fields_round_trip(schema: Seq<Kind>, fs: Seq<FieldV>, rest: Seq<u8>)
    requires
        conforms(fs, schema),
    ensures
        parse_fields(schema, enc_fields(fs) + rest) == Ok::<(Seq<FieldV>, Seq<u8>), Error>((fs, rest)),
    decreases fs.len(),
{
    if fs.len() > 0 {
        let last = fs.last();
        let rest1 = enc_field(last) + rest;
        assert(conforms(fs.drop_last(), schema.drop_last()));
        lemma_fields_round_trip(schema.drop_last(), fs.drop_last(), rest1);
        assert(enc_fields(fs) + rest =~= enc_fields(fs.drop_last()) + rest1);
        assert(kind_of(last) == schema.last());
        assert(field_ok(fs[fs.len() - 1]));
        lemma_field_round_trip(last, rest);
        assert(fs.drop_last().push(last) =~= fs);
    } else {
        assert(enc_fields(fs) + rest =~= rest);
        assert(fs =~= Seq::<FieldV>::empty());
    }
}

/// Decoding a concatenated schema decodes each part in turn.
pub proof fn lemma_parse_fields_append(a: Seq<Kind>, b: Seq<Kind>, s: Seq<u8>)
    ensures
        parse_fields(a + b, s) == (match parse_fields(a, s) {
            Ok((fa, r)) => match parse_fields(b, r) {
                Ok((fb, r2)) => Ok((fa + fb, r2)),
                Err(e) => Err(e),
            },
            Err(e) => Err(e),
        }),
    decreases b.len(),
{
    if b.len() == 0 {
        assert(a + b =~= a);
        match parse_fields(a, s) {
            Ok((fa, r)) => { assert(fa + Seq::<FieldV>::empty() =~= fa); },
            Err(e) => {},
        }
    } else {
        assert((a + b).drop_last() =~= a + b.drop_last());
        assert((a + b).last() == b.last());
        lemma_parse_fields_append(a, b.drop_last(), s);
        match parse_fields(a, s) {
            Ok((fa, r)) => {
                match parse_fields(b.drop_last(), r) {
                    Ok((fb, r2)) => {
                        match parse_field(b.last(), r2) {
                            Ok((f, r3)) => { assert((fa + fb).push(f) =~= fa + fb.push(f)); },
                            Err(e) => {},
                        }
                    },
                    Err(e) => {},
                }
            },
            Err(e) => {},
        }
    }
}

pub proof fn lemma_enc_fields_append(a: Seq<FieldV>, b: Seq<FieldV>)
    ensures
        enc_fields(a + b) == enc_fields(a) + enc_fields(b),
    decreases b.len(),
{
    if b.len() == 0 {
        assert(a + b =~= a);
        assert(enc_fields(a) + enc_fields(b) =~= enc_fields(a));
    } else {
        assert((a + b).drop_last() =~= a + b.drop_last());
        assert((a + b).last() == b.last());
        lemma_enc_fields_append(a, b.drop_last());
        assert(enc_fields(a + b) =~= enc_fields(a) + enc_fields(b));
    }
}

/// Writes `v` big-endian.
pub fn put_u32(out: &mut Vec<u8>, v: u32)
    ensures
        final(out)@ == old(out)@ + spec_u32_be(v),
{
    out.push((v >> 24) as u8);
    out.push(((v >> 16) & 0xff) as u8);
    out.push(((v >> 8) & 0xff) as u8);
    out.push((v & 0xff) as u8);
    assert(out@ =~= old(out)@ + spec_u32_be(v));
}

/// Reads a big-endian `u32` at `pos`.
pub fn get_u32(s: &[u8], pos: usize) -> (r: u32)
    requires
        pos + 4 <= s@.len(),
    ensures
        r == spec_u32_of(s@.skip(pos as int)),
{
    let b0 = s[pos];
    let b1 = s[pos + 1];
    let b2 = s[pos + 2];
    let b3 = s[pos + 3];
    ((b0 as u32) << 24) | ((b1 as u32) << 16) | ((b2 as u32) << 8) | (b3 as u32)
}

/// Appends the encoding of one field.
pub fn put_field(out: &mut Vec<u8>, f: &Field)
    requires
        field_ok(f@),
    ensures
        final(out)@ == old(out)@ + enc_field(f@),
{
    match f {
        Field::Byte(b) => {
            out.push(*b);
            assert(out@ =~= old(out)@ + enc_field(f@));
        },
        Field::Bool(b) => {
            out.push(if *b { 1u8 } else { 0u8 });
            assert(out@ =~= old(out)@ + enc_field(f@));
        },
        Field::U32(v) => {
            put_u32(out, *v);
        },
        Field::Str(s) => {
            put_u32(out, s.len() as u32);
            extend(out, s.as_slice());
            assert(out@ =~= old(out)@ + enc_field(f@));
        },
        Field::Fixed(s) => {
            extend(out, s.as_slice());
        },
    }
}

/// Appends the encoding of a sequence of fields.
pub fn put_fields(out: &mut Vec<u8>, fs: &Vec<Field>)
    requires
        forall|i: int| 0 <= i < fs@.len() ==> field_ok(#[trigger] fs@[i]@),
    ensures
        final(out)@ == old(out)@ + enc_fields(fields_view(fs@)),
{
    let ghost start = out@;
    let mut i: usize = 0;
    while i < fs.len()
        invariant
            i <= fs@.len(),
            forall|j: int| 0 <= j < fs@.len() ==> field_ok(#[trigger] fs@[j]@),
            out@ == start + enc_fields(fields_view(fs@.take(i as int))),
        decreases fs@.len() - i,
    {
        put_field(out, &fs[i]);
        proof {
            let v = fields_view(fs@.take(i as int + 1));
            assert(v.drop_last() =~= fields_view(fs@.take(i as int)));
            assert(v.last() == fs@[i as int]@);
        }
        i = i + 1;
    }
    assert(fs@.take(fs@.len() as int) =~= fs@);
}

/// Reads one field of kind `k` at `pos`, returning it and the position after it.
pub fn get_field(k: Kind, s: &[u8], pos: usize) -> (r: Result<(Field, usize), Error>)
    requires
        pos <= s@.len(),
    ensures
        match parse_field(k, s@.skip(pos as int)) {
            Ok((f, rest)) => r matches Ok((g, p)) && g@ == f && pos <= p <= s@.len() && rest == s@.skip(p as int),
            Err(e) => r == Err::<(Field, usize), Error>(e),
        },
{
    let ghost t = s@.skip(pos as int);
    let avail = s.len() - pos;
    match k {
        Kind::Byte => {
            if avail < 1 {
                return Err(Error::RanOut);
            }
            assert(s@.skip(pos + 1) =~= t.skip(1));
            Ok((Field::Byte(s[pos]), pos + 1))
        },
        Kind::Bool => {
            if avail < 1 {
                return Err(Error::RanOut);
            }
            assert(s@.skip(pos + 1) =~= t.skip(1));
            Ok((Field::Bool(s[pos] != 0), pos + 1))
        },
        Kind::U32 => {
            if avail < 4 {
                return Err(Error::RanOut);
            }
            let v = get_u32(s, pos);
            assert(s@.skip(pos + 4) =~= t.skip(4));
            Ok((Field::U32(v), pos + 4))
        },
        Kind::Str => {
            if avail < 4 {
                return Err(Error::RanOut);
            }
            let n = get_u32(s, pos);
            if n as usize > avail - 4 {
                return Err(Error::BadLength);
            }
            let start = pos + 4;
            let end = start + n as usize;
            let v = to_vec(&s[start..end]);
            assert(v@ =~= t.subrange(4, 4 + n));
            assert(s@.skip(end as int) =~= t.skip(4 + n));
            Ok((Field::Str(v), end))
        },
        Kind::Fixed => {
            if avail < FIXED_LEN {
                return Err(Error::RanOut);
            }
            let end = pos + FIXED_LEN;
            let v = to_vec(&s[pos..end]);
            assert(v@ =~= t.take(FIXED_LEN as int));
            assert(s@.skip(end as int) =~= t.skip(FIXED_LEN as int));
            Ok((Field::Fixed(v), end))
        },
    }
}

/// Reads fields following `schema` starting at `pos`.
pub fn get_fields(schema: &[Kind], s: &[u8], pos: usize) -> (r: Result<(Vec<Field>, usize), Error>)
    requires
        pos <= s@.len(),
    ensures
        match parse_fields(schema@, s@.skip(pos as int)) {
            Ok((fs, rest)) => r matches Ok((g, p)) && fields_view(g@) == fs && pos <= p <= s@.len()
                && rest == s@.skip(p as int),
            Err(e) => r == Err::<(Vec<Field>, usize), Error>(e),
        },
{
    let ghost t = s@.skip(pos as int);
    let mut out: Vec<Field> = Vec::new();
    let mut p = pos;
    let mut i: usize = 0;
    assert(schema@.take(0) =~= Seq::<Kind>::empty());
    assert(fields_view(out@) =~= Seq::<FieldV>::empty());
    while i < schema.len()
        invariant
            i <= schema@.len(),
            pos <= p <= s@.len(),
            t == s@.skip(pos as int),
            parse_fields(schema@.take(i as int), t) == Ok::<(Seq<FieldV>, Seq<u8>), Error>(
                (fields_view(out@), s@.skip(p as int)),
            ),
        decreases schema@.len() - i,
    {
        let ghost prev = out@;
        assert(schema@.take(i as int + 1).drop_last() =~= schema@.take(i as int));
        let (f, np) = match get_field(schema[i], s, p) {
            Ok(x) => x,
            Err(e) => {
                proof { lemma_parse_fields_prefix_err(schema@, i as int + 1, t); }
                return Err(e);
            },
        };
        out.push(f);
        p = np;
        i = i + 1;
        assert(fields_view(out@) =~= fields_view(prev).push(f@));
    }
    assert(schema@.take(schema@.len() as int) =~= schema@);
    Ok((out, p))
}

/// An error while decoding a prefix of a schema is the error of the whole.
proof fn lemma_parse_fields_prefix_err(schema: Seq<Kind>, n: int, s: Seq<u8>)
    requires
        0 <= n <= schema.len(),
        parse_fields(schema.take(n), s) is Err,
    ensures
        parse_fields(schema, s) == parse_fields(schema.take(n), s),
{
    lemma_parse_fields_append(schema.take(n), schema.skip(n), s);
    assert(schema.take(n) + schema.skip(n) =~= schema);
}

/// The fields have the schema's kinds, one for one.
pub open spec fn kinds_match(fs: Seq<FieldV>, schema: Seq<Kind>) -> bool {
    &&& fs.len() == schema.len()
    &&& forall|i: int| 0 <= i < fs.len() ==> kind_of(#[trigger] fs[i]) == schema[i]
}

/// What decoding under a schema returns has that schema's kinds.
pub proof fn lemma_parse_kinds(schema: Seq<Kind>, s: Seq<u8>)
    ensures
        parse_fields(schema, s) matches Ok((fs, r)) ==> kinds_match(fs, schema),
    decreases schema.len(),
{
    if schema.len() > 0 {
        lemma_parse_kinds(schema.drop_last(), s);
        if let Ok((fs, r)) = parse_fields(schema, s) {
            let (fs0, r0) = parse_fields(schema.drop_last(), s)->Ok_0;
            let (f, r1) = parse_field(schema.last(), r0)->Ok_0;
            assert(fs == fs0.push(f));
            assert forall|i: int| 0 <= i < fs.len() implies kind_of(#[trigger] fs[i]) == schema[i] by {
                if i < fs0.len() {
                    assert(fs[i] == fs0[i]);
                }
            }
        }
    }
}

pub fn get_u32_field(f: &Vec<Field>, i: usize) -> (r: u32)
    requires
        i < f@.len(),
        kind_of(fields_view(f@)[i as int]) == Kind::U32,
    ensures
        fields_view(f@)[i as int] == FieldV::U32(r),
{
    match &f[i] {
        Field::U32(v) => *v,
        _ => 0,
    }
}

pub fn get_bool_field(f: &Vec<Field>, i: usize) -> (r: bool)
    requires
        i < f@.len(),
        kind_of(fields_view(f@)[i as int]) == Kind::Bool,
    ensures
        fields_view(f@)[i as int] == FieldV::Bool(r),
{
    match &f[i] {
        Field::Bool(v) => *v,
        _ => false,
    }
}

pub fn get_str_field(f: &Vec<Field>, i: usize) -> (r: Vec<u8>)
    requires
        i < f@.len(),
        kind_of(fields_view(f@)[i as int]) == Kind::Str,
    ensures
        fields_view(f@)[i as int] == FieldV::Str(r@),
{
    match &f[i] {
        Field::Str(v) => to_vec(v.as_slice()),
        _ => Vec::new(),
    }
}

pub fn get_fixed_field(f: &Vec<Field>, i: usize) -> (r: Vec<u8>)
    requires
        i < f@.len(),
        kind_of(fields_view(f@)[i as int]) == Kind::Fixed,
    ensures
        fields_view(f@)[i as int] == FieldV::Fixed(r@),
{
    match &f[i] {
        Field::Fixed(v) => to_vec(v.as_slice()),
        _ => Vec::new(),
    }
}

} // verus!
