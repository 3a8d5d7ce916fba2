//! The fingerprint of what an import reads: equal contents have equal fingerprints.
use vstd::prelude::*;

use crate::hash;
use crate::legacy::source;
use crate::legacy::source::LegacySourceKind;
use crate::text;

verus! {

/// A table as the fingerprint sees it: its declaration, and the quoted values of its rows in order.
#[derive(Debug, PartialEq, Eq)]
pub struct TableSnapshot {
    pub name: String,
    pub schema: Option<String>,
    pub rows: Vec<Vec<String>>,
}

/// The bytes of a value: their number, a colon, the bytes, a comma.
pub open spec fn value_bytes(value: Seq<char>) -> Seq<u8> {
    let bytes = vstd::utf8::encode_utf8(value);
    ascii(text::decimal(bytes.len())) + seq![58u8] + bytes + seq![44u8]
}

/// The bytes of an ASCII text.
pub open spec fn ascii(s: Seq<char>) -> Seq<u8> {
    Seq::new(s.len(), |i: int| s[i] as u8)
}

/// The bytes of a row.
pub open spec fn row_bytes(row: Seq<String>) -> Seq<u8> {
    seq![114u8, 111, 119, 58] + values_bytes(row) + seq![10u8]
}

/// The bytes of values, one after the other.
pub open spec fn values_bytes(row: Seq<String>) -> Seq<u8>
    decreases row.len(),
{
    if row.len() == 0 {
        Seq::empty()
    } else {
        values_bytes(row.drop_last()) + value_bytes(row.last()@)
    }
}

/// The bytes of rows, one after the other.
pub open spec fn rows_bytes(rows: Seq<Vec<String>>) -> Seq<u8>
    decreases rows.len(),
{
    if rows.len() == 0 {
        Seq::empty()
    } else {
        rows_bytes(rows.drop_last()) + row_bytes(rows.last()@)
    }
}

/// The bytes of a table: its name, its declaration, its rows.
pub open spec fn table_bytes(table: TableSnapshot) -> Seq<u8> {
    seq![116u8, 97, 98, 108, 101, 58] + vstd::utf8::encode_utf8(table.name@) + seq![10u8]
        + value_bytes(
        match table.schema {
            Some(s) => s@,
            None => Seq::empty(),
        },
    ) + seq![10u8] + rows_bytes(table.rows@)
}

/// The bytes of tables, one after the other.
pub open spec fn tables_bytes(tables: Seq<TableSnapshot>) -> Seq<u8>
    decreases tables.len(),
{
    if tables.len() == 0 {
        Seq::empty()
    } else {
        tables_bytes(tables.drop_last()) + table_bytes(tables.last())
    }
}

/// The bytes of a snapshot: what it is, whose it is, and its tables.
pub open spec fn snapshot_bytes(kind: LegacySourceKind, tables: Seq<TableSnapshot>) -> Seq<u8> {
    vstd::utf8::encode_utf8("weiback-logical-snapshot-v1"@) + seq![0u8] + vstd::utf8::encode_utf8(
        source::kind_name(kind),
    ) + seq![0u8] + tables_bytes(tables)
}

fn append(bytes: &mut Vec<u8>, more: &[u8])
    ensures
        final(bytes)@ == old(bytes)@ + more@,
{
    let ghost before = bytes@;
    let mut i: usize = 0;
    while i < more.len()
        invariant
            i <= more@.len(),
            bytes@ == before + more@.subrange(0, i as int),
        decreases more@.len() - i,
    {
        bytes.push(more[i]);
        i = i + 1;
        assert(bytes@ == before + more@.subrange(0, i as int));
    }
    assert(more@.subrange(0, i as int) == more@);
}

proof fn lemma_decimal_ascii(n: nat)
    ensures
        vstd::utf8::encode_utf8(text::decimal(n)) == ascii(text::decimal(n)),
        forall|i: int|
            0 <= i < text::decimal(n).len() ==> 48 <= #[trigger] ascii(text::decimal(n))[i] <= 57,
{
    text::decimal_denotes(n);
    let s = text::decimal(n);
    assert forall|i: int| 0 <= i < s.len() implies '\0' <= #[trigger] s[i] <= '\u{7f}' by {
        assert('0' <= s[i] <= '9');
    }
    vstd::utf8::is_ascii_chars_encode_utf8(s);
    assert(vstd::utf8::encode_utf8(s) =~= ascii(s));
    assert forall|i: int| 0 <= i < s.len() implies 48 <= #[trigger] ascii(s)[i] <= 57 by {
        assert('0' <= s[i] <= '9');
    }
}

/// Appends the bytes of a value.
pub fn append_fingerprint_value(bytes: &mut Vec<u8>, value: &str)
    ensures
        final(bytes)@ == old(bytes)@ + value_bytes(value@),
{
    let ghost before = bytes@;
    let content = value.as_bytes();
    let size: usize = content.len();
    let number = text::u64_text(size as u64);
    proof {
        lemma_decimal_ascii(size as nat);
    }
    append(bytes, number.as_str().as_bytes());
    bytes.push(58);
    append(bytes, content);
    bytes.push(44);
    assert(bytes@ == before + value_bytes(value@));
}

fn append_row(bytes: &mut Vec<u8>, row: &Vec<String>)
    ensures
        final(bytes)@ == old(bytes)@ + row_bytes(row@),
{
    let ghost before = bytes@;
    let head: [u8; 4] = [114, 111, 119, 58];
    let end: [u8; 1] = [10];
    append(bytes, head.as_slice());
    assert(head@ =~= seq![114u8, 111, 119, 58]);
    let mut i: usize = 0;
    assert(values_bytes(row@.subrange(0, 0)) =~= Seq::<u8>::empty());
    assert(bytes@ == before + head@ + values_bytes(row@.subrange(0, 0)));
    while i < row.len()
        invariant
            i <= row@.len(),
            bytes@ == before + head@ + values_bytes(row@.subrange(0, i as int)),
        decreases row@.len() - i,
    {
        let ghost next = row@.subrange(0, i + 1);
        assert(next.drop_last() == row@.subrange(0, i as int));
        append_fingerprint_value(bytes, row[i].as_str());
        assert(bytes@ == before + head@ + values_bytes(next));
        i = i + 1;
    }
    assert(row@.subrange(0, i as int) == row@);
    append(bytes, end.as_slice());
    assert(end@ =~= seq![10u8]);
    assert(bytes@ == before + row_bytes(row@));
}

fn append_rows(bytes: &mut Vec<u8>, rows: &Vec<Vec<String>>)
    ensures
        final(bytes)@ == old(bytes)@ + rows_bytes(rows@),
{
    let ghost before = bytes@;
    let mut i: usize = 0;
    assert(rows_bytes(rows@.subrange(0, 0)) =~= Seq::<u8>::empty());
    assert(bytes@ == before + rows_bytes(rows@.subrange(0, 0)));
    while i < rows.len()
        invariant
            i <= rows@.len(),
            bytes@ == before + rows_bytes(rows@.subrange(0, i as int)),
        decreases rows@.len() - i,
    {
        let ghost next = rows@.subrange(0, i + 1);
        assert(next.drop_last() == rows@.subrange(0, i as int));
        append_row(bytes, &rows[i]);
        assert(bytes@ == before + rows_bytes(next));
        i = i + 1;
    }
    assert(rows@.subrange(0, i as int) == rows@);
}

fn append_table(bytes: &mut Vec<u8>, table: &TableSnapshot)
    ensures
        final(bytes)@ == old(bytes)@ + table_bytes(*table),
{
    let ghost before = bytes@;
    let head: [u8; 6] = [116, 97, 98, 108, 101, 58];
    append(bytes, head.as_slice());
    assert(head@ =~= seq![116u8, 97, 98, 108, 101, 58]);
    append(bytes, table.name.as_str().as_bytes());
    bytes.push(10);
    match &table.schema {
        Some(s) => append_fingerprint_value(bytes, s.as_str()),
        None => {
            let none = String::new();
            assert(none@ =~= Seq::<char>::empty());
            append_fingerprint_value(bytes, none.as_str());
        },
    }
    bytes.push(10);
    append_rows(bytes, &table.rows);
    assert(bytes@ == before + table_bytes(*table));
}

/// The bytes of a snapshot.
pub fn snapshot_of(kind: LegacySourceKind, tables: &Vec<TableSnapshot>) -> (r: Vec<u8>)
    ensures
        r@ == snapshot_bytes(kind, tables@),
{
    let mut bytes: Vec<u8> = Vec::new();
    append(&mut bytes, "weiback-logical-snapshot-v1".as_bytes());
    bytes.push(0);
    append(&mut bytes, source::source_kind_name(kind).as_bytes());
    bytes.push(0);
    let ghost head = bytes@;
    assert(head =~= vstd::utf8::encode_utf8("weiback-logical-snapshot-v1"@) + seq![0u8]
        + vstd::utf8::encode_utf8(source::kind_name(kind)) + seq![0u8]);
    let mut i: usize = 0;
    assert(tables_bytes(tables@.subrange(0, 0)) =~= Seq::<u8>::empty());
    assert(bytes@ =~= head + tables_bytes(tables@.subrange(0, 0)));
    while i < tables.len()
        invariant
            i <= tables@.len(),
            bytes@ == head + tables_bytes(tables@.subrange(0, i as int)),
        decreases tables@.len() - i,
    {
        let ghost next = tables@.subrange(0, i + 1);
        assert(next.drop_last() == tables@.subrange(0, i as int));
        append_table(&mut bytes, &tables[i]);
        assert(bytes@ =~= head + tables_bytes(next));
        i = i + 1;
    }
    assert(tables@.subrange(0, i as int) == tables@);
    bytes
}

/// The hexadecimal digits of bytes.
pub open spec fn hex_of(bytes: Seq<u8>) -> Seq<char>
    decreases bytes.len(),
{
    if bytes.len() == 0 {
        Seq::empty()
    } else {
        hex_of(bytes.drop_last()) + text::hex(bytes.last() as nat, 2)
    }
}

/// The hexadecimal digits of bytes.
pub fn hex_digits(bytes: &[u8]) -> (r: String)
    ensures
        r@ == hex_of(bytes@),
{
    let mut r = String::new();
    let mut i: usize = 0;
    while i < bytes.len()
        invariant
            i <= bytes@.len(),
            r@ == hex_of(bytes@.subrange(0, i as int)),
        decreases bytes@.len() - i,
    {
        assert(bytes@.subrange(0, i + 1).drop_last() == bytes@.subrange(0, i as int));
        r.append(text::hex_text(bytes[i] as u64, 2).as_str());
        i = i + 1;
    }
    assert(bytes@.subrange(0, i as int) == bytes@);
    r
}

/// The tables that an import reads, in the order of the fingerprint.
pub open spec fn fingerprinted(kind: LegacySourceKind) -> Seq<Seq<char>> {
    match kind {
        LegacySourceKind::RustV1 => seq!["users"@, "posts"@, "picture"@, "video"@],
        LegacySourceKind::PythonV2 => seq!["user"@, "weibo"@, "image"@],
    }
}

/// The tables that an import reads, in the order of the fingerprint.
pub fn fingerprint_tables(kind: LegacySourceKind) -> (r: Vec<String>)
    ensures
        text::list_view(r@) == fingerprinted(kind),
{
    let mut r: Vec<String> = Vec::new();
    match kind {
        LegacySourceKind::RustV1 => {
            r.push("users".to_owned());
            r.push("posts".to_owned());
            r.push("picture".to_owned());
            r.push("video".to_owned());
        },
        LegacySourceKind::PythonV2 => {
            r.push("user".to_owned());
            r.push("weibo".to_owned());
            r.push("image".to_owned());
        },
    }
    assert(text::list_view(r@) =~= fingerprinted(kind));
    r
}

/// The fingerprint of a snapshot: the SHA-256 of its bytes.
pub fn source_snapshot_fingerprint(kind: LegacySourceKind, tables: &Vec<TableSnapshot>) -> (r: String)
    ensures
        r@ == "sha256:"@ + hex_of(hash::sha256_of(snapshot_bytes(kind, tables@))),
{
    let bytes = snapshot_of(kind, tables);
    let digest = hash::sha256(bytes.as_slice());
    text::join2("sha256:", hex_digits(digest.as_slice()).as_str())
}

/// Values cannot run into each other: the bytes of a value tell where it ends.
pub proof fn value_bytes_are_self_delimiting(a: Seq<char>, b: Seq<char>, x: Seq<u8>, y: Seq<u8>)
    requires
        value_bytes(a) + x == value_bytes(b) + y,
    ensures
        a == b,
        x == y,
{
    let ba = vstd::utf8::encode_utf8(a);
    let bb = vstd::utf8::encode_utf8(b);
    let da = ascii(text::decimal(ba.len()));
    let db = ascii(text::decimal(bb.len()));
    let whole = value_bytes(a) + x;
    lemma_decimal_ascii(ba.len());
    lemma_decimal_ascii(bb.len());
    assert(whole =~= da + seq![58u8] + ba + seq![44u8] + x);
    assert(whole =~= db + seq![58u8] + bb + seq![44u8] + y);
    assert(whole[da.len() as int] == 58);
    assert(whole[db.len() as int] == 58);
    if da.len() < db.len() {
        assert(whole[da.len() as int] == db[da.len() as int]);
    }
    if db.len() < da.len() {
        assert(whole[db.len() as int] == da[db.len() as int]);
    }
    assert(da =~= whole.subrange(0, da.len() as int));
    assert(db =~= whole.subrange(0, db.len() as int));
    let ta = text::decimal(ba.len());
    let tb = text::decimal(bb.len());
    text::decimal_denotes(ba.len());
    text::decimal_denotes(bb.len());
    assert forall|i: int| 0 <= i < ta.len() implies ta[i] == tb[i] by {
        assert(da[i] == db[i]);
        assert('0' <= ta[i] <= '9' && '0' <= tb[i] <= '9');
    }
    assert(ta =~= tb);
    let n: int = (da.len() + 1) as int;
    assert(ba =~= whole.subrange(n, n + ba.len()));
    assert(bb =~= whole.subrange(n, n + bb.len()));
    assert(x =~= whole.subrange(n + ba.len() + 1, whole.len() as int));
    assert(y =~= whole.subrange(n + bb.len() + 1, whole.len() as int));
    vstd::utf8::encode_utf8_decode_utf8(a);
    vstd::utf8::encode_utf8_decode_utf8(b);
}

} // verus!
