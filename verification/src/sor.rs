//! The `.sor` resource archive of the game client.
//!
//! Layout (all integers big-endian):
//! - file count, `u16`;
//! - `count - 1` cumulative end offsets, `u32` each, relative to the end of
//!   this header (the last entry runs to the end of the archive);
//! - the entries, each a `u16` name length, the name bytes, and the content
//!   xored with the repeating password.

use vstd::prelude::*;
use vstd::utf8::*;
use vstd::string::StringExecFns;

use crate::text::{bytes_to_string_lossy, decimal, decimal_string, lemma_text_lt_order, lossy_text, text_less, text_lt};

verus! {

broadcast use vstd::seq_lib::group_seq_properties;

/// One archived file with its decrypted content.
pub struct FileEntry {
    pub filename: String,
    pub data: Vec<u8>,
}

impl View for FileEntry {
    type V = (Seq<char>, Seq<u8>);

    open spec fn view(&self) -> (Seq<char>, Seq<u8>) {
        (self.filename@, self.data@)
    }
}

/// The views of a sequence of entries.
pub open spec fn entry_views(es: Seq<FileEntry>) -> Seq<(Seq<char>, Seq<u8>)> {
    es.map_values(|e: FileEntry| e@)
}

/// Big-endian bytes of the low 16 bits of `v`.
pub open spec fn be16(v: nat) -> Seq<u8> {
    seq![((v / 256) % 256) as u8, (v % 256) as u8]
}

/// Big-endian bytes of the low 32 bits of `v`.
pub open spec fn be32(v: nat) -> Seq<u8> {
    seq![
        ((v / 16777216) % 256) as u8,
        ((v / 65536) % 256) as u8,
        ((v / 256) % 256) as u8,
        (v % 256) as u8,
    ]
}

/// The big-endian `u16` at offset `o`.
pub open spec fn be16_at(d: Seq<u8>, o: int) -> nat {
    (d[o] as nat) * 256 + (d[o + 1] as nat)
}

/// The big-endian `u32` at offset `o`.
pub open spec fn be32_at(d: Seq<u8>, o: int) -> nat {
    (d[o] as nat) * 16777216 + (d[o + 1] as nat) * 65536 + (d[o + 2] as nat) * 256 + (d[o + 3] as nat)
}

/// `data` xored with `key` repeated to its length.
pub open spec fn xor_repeat(data: Seq<u8>, key: Seq<u8>) -> Seq<u8> {
    Seq::new(data.len(), |i: int| data[i] ^ key[i % (key.len() as int)])
}

/// The stored form of one entry.
pub open spec fn sor_record(name: Seq<char>, data: Seq<u8>, key: Seq<u8>) -> Seq<u8> {
    be16(encode_utf8(name).len() % 65536) + encode_utf8(name) + xor_repeat(data, key)
}

/// The stored forms of all entries, in order.
pub open spec fn sor_records(entries: Seq<(Seq<char>, Seq<u8>)>, key: Seq<u8>) -> Seq<Seq<u8>> {
    entries.map_values(|e: (Seq<char>, Seq<u8>)| sor_record(e.0, e.1, key))
}

/// Cumulative end offset of record `i`.
pub open spec fn end_offset(recs: Seq<Seq<u8>>, i: int) -> nat {
    recs.take(i + 1).flatten().len()
}

/// The first `n` stored end offsets, each as 4 bytes.
pub open spec fn offset_entries(recs: Seq<Seq<u8>>, n: nat) -> Seq<Seq<u8>> {
    Seq::new(n, |i: int| be32(end_offset(recs, i)))
}

/// The first `n` stored end offsets.
pub open spec fn offset_table(recs: Seq<Seq<u8>>, n: nat) -> Seq<u8> {
    offset_entries(recs, n).flatten()
}

/// The archive that holds `entries`, encrypted with `key`.
pub open spec fn sor_archive(entries: Seq<(Seq<char>, Seq<u8>)>, key: Seq<u8>) -> Seq<u8> {
    let recs = sor_records(entries, key);
    be16(entries.len() % 65536) + offset_table(recs, (entries.len() - 1) as nat) + recs.flatten()
}

/// Result of reading an archive.
pub enum SorParse {
    Parsed(Seq<(Seq<char>, Seq<u8>)>),
    Failed(Seq<char>),
    /// Inputs on which reading would index out of bounds or divide by zero.
    Panics,
}

pub open spec fn sor_header_size(count: nat) -> nat {
    (2 + (count - 1) * 4) as nat
}

/// Start offset of entry `i` (entry `count` is the end of the archive).
pub open spec fn sor_offset(data: Seq<u8>, count: nat, i: nat) -> nat {
    if i == 0 {
        0
    } else if i < count {
        be32_at(data, 2 + (i - 1) * 4)
    } else {
        ((data.len() - sor_header_size(count)) as nat) % 4294967296
    }
}

pub open spec fn msg_past_end(i: nat) -> Seq<char> {
    "File "@ + decimal(i) + " extends past end of archive"@
}

pub open spec fn msg_entry_too_small(i: nat) -> Seq<char> {
    "File "@ + decimal(i) + " entry too small"@
}

pub open spec fn msg_bad_name_length(i: nat) -> Seq<char> {
    "File "@ + decimal(i) + " has invalid filename length"@
}

/// Prefixes already-read entries to the outcome of reading the rest.
pub open spec fn prepend(prefix: Seq<(Seq<char>, Seq<u8>)>, r: SorParse) -> SorParse {
    match r {
        SorParse::Parsed(rest) => SorParse::Parsed(prefix + rest),
        other => other,
    }
}

/// Reading entries `i..count`.
pub open spec fn parse_entries_from(data: Seq<u8>, key: Seq<u8>, count: nat, i: nat) -> SorParse
    decreases count - i,
{
    if i >= count {
        SorParse::Parsed(seq![])
    } else {
        let hdr = sor_header_size(count);
        let start = hdr + sor_offset(data, count, i);
        let end = hdr + sor_offset(data, count, (i + 1) as nat);
        if end > data.len() {
            SorParse::Failed(msg_past_end(i))
        } else if start > end {
            SorParse::Panics
        } else if end - start < 2 {
            SorParse::Failed(msg_entry_too_small(i))
        } else {
            let fl = be16_at(data, start as int);
            if end - start < 2 + fl {
                SorParse::Failed(msg_bad_name_length(i))
            } else {
                let enc = data.subrange((start + 2 + fl) as int, end as int);
                if key.len() == 0 && enc.len() > 0 {
                    SorParse::Panics
                } else {
                    let e = (
                        lossy_text(data.subrange((start + 2) as int, (start + 2 + fl) as int)),
                        xor_repeat(enc, key),
                    );
                    prepend(seq![e], parse_entries_from(data, key, count, (i + 1) as nat))
                }
            }
        }
    }
}

/// Reading a whole archive.
pub open spec fn sor_parse(data: Seq<u8>, key: Seq<u8>) -> SorParse {
    if data.len() < 6 {
        SorParse::Failed("File too small"@)
    } else {
        let count = be16_at(data, 0);
        if count == 0 {
            SorParse::Failed("No files in archive"@)
        } else if data.len() < sor_header_size(count) {
            SorParse::Failed("File too small for header"@)
        } else {
            parse_entries_from(data, key, count, 0)
        }
    }
}

/// XORs `data` with `key` repeated to its length.
pub fn xor_crypt(data: &[u8], key: &[u8]) -> (r: Vec<u8>)
    requires
        key@.len() > 0 || data@.len() == 0,
    ensures
        r@ == xor_repeat(data@, key@),
{
    let mut out: Vec<u8> = Vec::new();
    let n = data.len();
    let mut i: usize = 0;
    while i < n
        invariant
            n == data@.len(),
            i <= n,
            key@.len() > 0 || n == 0,
            out@.len() == i,
            forall|j: int| 0 <= j < i ==> #[trigger] out@[j] == data@[j] ^ key@[j % (key@.len() as int)],
        decreases n - i,
    {
        out.push(data[i] ^ key[i % key.len()]);
        i += 1;
    }
    assert(out@ =~= xor_repeat(data@, key@));
    out
}

/// Reads the big-endian `u16` at `offset`.
pub fn read_be_u16(data: &[u8], offset: usize) -> (r: u16)
    requires
        offset + 1 < data@.len(),
    ensures
        r as nat == be16_at(data@, offset as int),
{
    let a = data[offset];
    let b = data[offset + 1];
    assert(((a as u16) << 8u16) | (b as u16) == (a as u16) * 256 + (b as u16)) by (bit_vector);
    ((a as u16) << 8u16) | (b as u16)
}

/// Reads the big-endian `u32` at `offset`.
pub fn read_be_u32(data: &[u8], offset: usize) -> (r: u32)
    requires
        offset + 3 < data@.len(),
    ensures
        r as nat == be32_at(data@, offset as int),
{
    let a = data[offset];
    let b = data[offset + 1];
    let c = data[offset + 2];
    let d = data[offset + 3];
    assert(((a as u32) << 24u32) | ((b as u32) << 16u32) | ((c as u32) << 8u32) | (d as u32)
        == (a as u32) * 16777216 + (b as u32) * 65536 + (c as u32) * 256 + (d as u32)) by (bit_vector);
    ((a as u32) << 24u32) | ((b as u32) << 16u32) | ((c as u32) << 8u32) | (d as u32)
}

/// Big-endian bytes of `value`.
pub fn write_be_u16(value: u16) -> (r: [u8; 2])
    ensures
        r@ == be16(value as nat),
{
    let hi = (value >> 8u16) as u8;
    let lo = (value & 0xffu16) as u8;
    assert((value >> 8u16) as u8 == ((value as nat / 256) % 256) as u8) by (bit_vector);
    assert((value & 0xffu16) as u8 == (value as nat % 256) as u8) by (bit_vector);
    let r = [hi, lo];
    assert(r@ =~= be16(value as nat));
    r
}

/// Big-endian bytes of `value`.
pub fn write_be_u32(value: u32) -> (r: [u8; 4])
    ensures
        r@ == be32(value as nat),
{
    let b0 = (value >> 24u32) as u8;
    let b1 = ((value >> 16u32) & 0xffu32) as u8;
    let b2 = ((value >> 8u32) & 0xffu32) as u8;
    let b3 = (value & 0xffu32) as u8;
    assert((value >> 24u32) as u8 == ((value as nat / 16777216) % 256) as u8) by (bit_vector);
    assert(((value >> 16u32) & 0xffu32) as u8 == ((value as nat / 65536) % 256) as u8) by (bit_vector);
    assert(((value >> 8u32) & 0xffu32) as u8 == ((value as nat / 256) % 256) as u8) by (bit_vector);
    assert((value & 0xffu32) as u8 == (value as nat % 256) as u8) by (bit_vector);
    let r = [b0, b1, b2, b3];
    assert(r@ =~= be32(value as nat));
    r
}

fn append_bytes(out: &mut Vec<u8>, src: &[u8])
    ensures
        final(out)@ == old(out)@ + src@,
{
    let n = src.len();
    let mut i: usize = 0;
    while i < n
        invariant
            n == src@.len(),
            i <= n,
            out@ == old(out)@ + src@.subrange(0, i as int),
        decreases n - i,
    {
        out.push(src[i]);
        i += 1;
        assert(out@ =~= old(out)@ + src@.subrange(0, i as int));
    }
    assert(src@.subrange(0, n as int) =~= src@);
}

/// Flattening a prefix one record longer adds that record.
proof fn lemma_flatten_take_step(recs: Seq<Seq<u8>>, k: int)
    requires
        0 <= k < recs.len(),
    ensures
        recs.take(k + 1).flatten() == recs.take(k).flatten() + recs[k],
{
    assert(recs.take(k + 1) =~= recs.take(k).push(recs[k]));
    recs.take(k).lemma_flatten_push(recs[k]);
}

/// A prefix's flattening is a prefix of the whole flattening.
proof fn lemma_flatten_take_split(recs: Seq<Seq<u8>>, k: int)
    requires
        0 <= k <= recs.len(),
    ensures
        recs.flatten() == recs.take(k).flatten() + recs.skip(k).flatten(),
{
    assert(recs =~= recs.take(k) + recs.skip(k));
    vstd::seq_lib::lemma_flatten_concat(recs.take(k), recs.skip(k));
}

/// Builds the archive of `entries` with content encrypted by `key`.
pub fn build_sor(entries: &[FileEntry], key: &[u8]) -> (r: Vec<u8>)
    requires
        entries@.len() >= 1,
        key@.len() > 0 || forall|i: int| 0 <= i < entries@.len() ==> (#[trigger] entries@[i]).data@.len() == 0,
        sor_records(entry_views(entries@), key@).flatten().len() <= u32::MAX,
    ensures
        r@ == sor_archive(entry_views(entries@), key@),
{
    let file_count = entries.len();
    let ghost views = entry_views(entries@);
    let ghost recs = sor_records(views, key@);
    let mut entry_data: Vec<Vec<u8>> = Vec::new();
    let mut cum_offset: u32 = 0;
    let mut cum_offsets: Vec<u32> = Vec::new();
    let mut k: usize = 0;
    while k < file_count
        invariant
            file_count == entries@.len(),
            views == entry_views(entries@),
            recs == sor_records(views, key@),
            recs.len() == file_count,
            recs.flatten().len() <= u32::MAX,
            key@.len() > 0 || forall|i: int| 0 <= i < entries@.len() ==> (#[trigger] entries@[i]).data@.len() == 0,
            k <= file_count,
            entry_data@.len() == k,
            cum_offsets@.len() == k,
            forall|j: int| 0 <= j < k ==> (#[trigger] entry_data@[j])@ == recs[j],
            forall|j: int| 0 <= j < k ==> (#[trigger] cum_offsets@[j]) as nat == end_offset(recs, j),
            cum_offset as nat == recs.take(k as int).flatten().len(),
        decreases file_count - k,
    {
        let entry = &entries[k];
        proof {
            assert(entries@[k as int].data@.len() == 0 || key@.len() > 0);
        }
        let encrypted = xor_crypt(entry.data.as_slice(), key);
        let fname_bytes = entry.filename.as_str().as_bytes();
        let name_len = fname_bytes.len();
        let trunc = name_len as u16;
        proof {
            assert((name_len as u16) as nat == name_len as nat % 65536) by (bit_vector);
        }
        let hdr = write_be_u16(trunc);
        let mut data: Vec<u8> = Vec::new();
        data.push(hdr[0]);
        data.push(hdr[1]);
        append_bytes(&mut data, fname_bytes);
        append_bytes(&mut data, encrypted.as_slice());
        proof {
            assert(views[k as int] == entries@[k as int]@);
            assert(recs[k as int] == sor_record(views[k as int].0, views[k as int].1, key@));
            assert(data@ =~= recs[k as int]);
            lemma_flatten_take_step(recs, k as int);
            lemma_flatten_take_split(recs, k + 1);
        }
        let len = data.len();
        cum_offset = cum_offset + len as u32;
        cum_offsets.push(cum_offset);
        entry_data.push(data);
        k += 1;
    }
    let mut output: Vec<u8> = Vec::new();
    let count_bytes = write_be_u16(file_count as u16);
    proof {
        assert((file_count as u16) as nat == file_count as nat % 65536) by (bit_vector);
    }
    output.push(count_bytes[0]);
    output.push(count_bytes[1]);
    let ghost head = be16(file_count as nat % 65536);
    assert(output@ =~= head);
    let ghost table_fn = |i: int| be32(end_offset(recs, i));
    let mut t: usize = 0;
    while t < file_count - 1
        invariant
            file_count == entries@.len(),
            file_count >= 1,
            t <= file_count - 1,
            cum_offsets@.len() == file_count,
            forall|j: int| 0 <= j < file_count ==> (#[trigger] cum_offsets@[j]) as nat == end_offset(recs, j),
            table_fn == (|i: int| be32(end_offset(recs, i))),
            output@ == head + Seq::new(t as nat, table_fn).flatten(),
        decreases file_count - 1 - t,
    {
        let b = write_be_u32(cum_offsets[t]);
        output.push(b[0]);
        output.push(b[1]);
        output.push(b[2]);
        output.push(b[3]);
        proof {
            assert(Seq::new((t + 1) as nat, table_fn) =~= Seq::new(t as nat, table_fn).push(table_fn(t as int)));
            Seq::new(t as nat, table_fn).lemma_flatten_push(table_fn(t as int));
            assert(output@ =~= head + Seq::new((t + 1) as nat, table_fn).flatten());
        }
        t += 1;
    }
    let ghost before = output@;
    assert(before == head + offset_table(recs, (file_count - 1) as nat));
    let mut e: usize = 0;
    while e < file_count
        invariant
            file_count == entries@.len(),
            recs.len() == file_count,
            entry_data@.len() == file_count,
            forall|j: int| 0 <= j < file_count ==> (#[trigger] entry_data@[j])@ == recs[j],
            e <= file_count,
            output@ == before + recs.take(e as int).flatten(),
        decreases file_count - e,
    {
        append_bytes(&mut output, entry_data[e].as_slice());
        proof {
            lemma_flatten_take_step(recs, e as int);
            assert(output@ =~= before + recs.take(e + 1).flatten());
        }
        e += 1;
    }
    assert(recs.take(file_count as int) =~= recs);
    output
}

fn entry_error(i: usize, tail: &str) -> (r: String)
    ensures
        r@ == "File "@ + decimal(i as nat) + tail@,
{
    let mut m = String::from_str("File ");
    let num = decimal_string(i as u64);
    m.append(num.as_str());
    m.append(tail);
    m
}

/// Reads an archive, decrypting each entry's content with `key`.
pub fn parse_sor(data: &[u8], key: &[u8]) -> (r: Result<Vec<FileEntry>, String>)
    requires
        !(sor_parse(data@, key@) is Panics),
    ensures
        match r {
            Ok(es) => sor_parse(data@, key@) == SorParse::Parsed(entry_views(es@)),
            Err(m) => sor_parse(data@, key@) == SorParse::Failed(m@),
        },
{
    if data.len() < 6 {
        return Err(String::from_str("File too small"));
    }
    let file_count = read_be_u16(data, 0) as usize;
    if file_count == 0 {
        return Err(String::from_str("No files in archive"));
    }
    let num_offsets = file_count - 1;
    let header_size = 2 + num_offsets * 4;
    if data.len() < header_size {
        return Err(String::from_str("File too small for header"));
    }
    let ghost count = file_count as nat;
    let mut cum_offsets: Vec<u32> = Vec::new();
    cum_offsets.push(0);
    let mut i: usize = 0;
    while i < num_offsets
        invariant
            num_offsets == file_count - 1,
            file_count == count,
            count == be16_at(data@, 0),
            count >= 1,
            header_size == sor_header_size(count),
            header_size <= data@.len(),
            i <= num_offsets,
            cum_offsets@.len() == i + 1,
            forall|j: int| 0 <= j <= i ==> (#[trigger] cum_offsets@[j]) as nat == sor_offset(data@, count, j as nat),
        decreases num_offsets - i,
    {
        let off = read_be_u32(data, 2 + i * 4);
        cum_offsets.push(off);
        i += 1;
    }
    let rest = data.len() - header_size;
    let data_section_size = rest as u32;
    proof {
        assert((rest as u32) as nat == rest as nat % 4294967296) by (bit_vector);
    }
    cum_offsets.push(data_section_size);
    let mut entries: Vec<FileEntry> = Vec::new();
    let mut k: usize = 0;
    while k < file_count
        invariant
            file_count == count,
            count == be16_at(data@, 0),
            count >= 1,
            data@.len() >= 6,
            header_size == sor_header_size(count),
            header_size <= data@.len(),
            cum_offsets@.len() == count + 1,
            forall|j: int| 0 <= j <= count ==> (#[trigger] cum_offsets@[j]) as nat == sor_offset(data@, count, j as nat),
            k <= count,
            sor_parse(data@, key@) == prepend(entry_views(entries@), parse_entries_from(data@, key@, count, k as nat)),
            !(sor_parse(data@, key@) is Panics),
        decreases count - k,
    {
        let ghost prefix = entry_views(entries@);
        let entry_start: u64 = header_size as u64 + cum_offsets[k] as u64;
        let entry_end: u64 = header_size as u64 + cum_offsets[k + 1] as u64;
        if entry_end > data.len() as u64 {
            return Err(entry_error(k, " extends past end of archive"));
        }
        let s = entry_start as usize;
        let t = entry_end as usize;
        let entry_data = &data[s..t];
        if entry_data.len() < 2 {
            return Err(entry_error(k, " entry too small"));
        }
        let fname_len = read_be_u16(entry_data, 0) as usize;
        if entry_data.len() < 2 + fname_len {
            return Err(entry_error(k, " has invalid filename length"));
        }
        let filename = bytes_to_string_lossy(&entry_data[2..2 + fname_len]);
        let encrypted = &entry_data[2 + fname_len..entry_data.len()];
        let decrypted = xor_crypt(encrypted, key);
        let ghost e = (filename@, decrypted@);
        proof {
            assert(entry_data@ =~= data@.subrange(s as int, t as int));
            assert(encrypted@ =~= data@.subrange(s + 2 + fname_len, t as int));
            assert(entry_data@.subrange(2, 2 + fname_len) =~= data@.subrange(s + 2, s + 2 + fname_len));
        }
        entries.push(FileEntry { filename, data: decrypted });
        proof {
            assert(entry_views(entries@) =~= prefix.push(e));
            let next = parse_entries_from(data@, key@, count, (k + 1) as nat);
            assert(parse_entries_from(data@, key@, count, k as nat) == prepend(seq![e], next));
            match next {
                SorParse::Parsed(more) => {
                    assert(prefix + (seq![e] + more) =~= prefix.push(e) + more);
                },
                _ => {},
            }
        }
        k += 1;
    }
    proof {
        assert(entry_views(entries@) + seq![] =~= entry_views(entries@));
    }
    Ok(entries)
}

/// Whether reading `data` with `key` would fail by an out-of-order offset
/// table or an empty key (the inputs `parse_sor` does not accept).
pub fn sor_parse_panics(data: &[u8], key: &[u8]) -> (b: bool)
    ensures
        b == (sor_parse(data@, key@) is Panics),
{
    if data.len() < 6 {
        return false;
    }
    let file_count = read_be_u16(data, 0) as usize;
    if file_count == 0 {
        return false;
    }
    let header_size = 2 + (file_count - 1) * 4;
    if data.len() < header_size {
        return false;
    }
    let ghost count = file_count as nat;
    let mut k: usize = 0;
    while k < file_count
        invariant
            file_count == count,
            count == be16_at(data@, 0),
            count >= 1,
            data@.len() >= 6,
            header_size == sor_header_size(count),
            header_size <= data@.len(),
            k <= count,
            (sor_parse(data@, key@) is Panics) == (parse_entries_from(data@, key@, count, k as nat) is Panics),
        decreases count - k,
    {
        let start_off: u32 = if k == 0 { 0 } else { read_be_u32(data, 2 + (k - 1) * 4) };
        let end_off: u32 = if k + 1 < file_count {
            read_be_u32(data, 2 + k * 4)
        } else {
            let rest = data.len() - header_size;
            proof {
                assert((rest as u32) as nat == rest as nat % 4294967296) by (bit_vector);
            }
            rest as u32
        };
        let entry_start: u64 = header_size as u64 + start_off as u64;
        let entry_end: u64 = header_size as u64 + end_off as u64;
        if entry_end > data.len() as u64 {
            return false;
        }
        if entry_start > entry_end {
            return true;
        }
        let s = entry_start as usize;
        let t = entry_end as usize;
        if t - s < 2 {
            return false;
        }
        let fname_len = read_be_u16(data, s) as usize;
        if t - s < 2 + fname_len {
            return false;
        }
        if key.len() == 0 && t - s - 2 - fname_len > 0 {
            return true;
        }
        proof {
            let next = parse_entries_from(data@, key@, count, (k + 1) as nat);
            assert(sor_offset(data@, count, k as nat) == start_off as nat);
            assert(sor_offset(data@, count, (k + 1) as nat) == end_off as nat);
            assert(parse_entries_from(data@, key@, count, k as nat) is Panics == next is Panics);
        }
        k += 1;
    }
    false
}

proof fn lemma_be16_roundtrip(v: nat)
    requires
        v < 65536,
    ensures
        be16(v).len() == 2,
        be16_at(be16(v), 0) == v,
{
    assert(((v / 256) % 256) * 256 + v % 256 == v) by (nonlinear_arith)
        requires
            v < 65536,
    ;
}

proof fn lemma_be32_roundtrip(v: nat)
    requires
        v < 4294967296,
    ensures
        be32(v).len() == 4,
        be32_at(be32(v), 0) == v,
{
    assert(((v / 16777216) % 256) * 16777216 + ((v / 65536) % 256) * 65536 + ((v / 256) % 256) * 256
        + v % 256 == v) by (nonlinear_arith)
        requires
            v < 4294967296,
    ;
}

proof fn lemma_offset_table(recs: Seq<Seq<u8>>, m: nat)
    ensures
        offset_table(recs, m).len() == 4 * m,
        forall|i: int|
            0 <= i < m ==> #[trigger] offset_table(recs, m).subrange(4 * i, 4 * i + 4) == be32(
                end_offset(recs, i),
            ),
    decreases m,
{
    if m > 0 {
        let pm = (m - 1) as nat;
        lemma_offset_table(recs, pm);
        let last = be32(end_offset(recs, pm as int));
        assert(offset_entries(recs, m) =~= offset_entries(recs, pm).push(last));
        offset_entries(recs, pm).lemma_flatten_push(last);
        let t = offset_table(recs, m);
        let tp = offset_table(recs, pm);
        assert(t == tp + last);
        assert forall|i: int| 0 <= i < m implies #[trigger] t.subrange(4 * i, 4 * i + 4) == be32(
            end_offset(recs, i),
        ) by {
            if i < pm {
                assert(t.subrange(4 * i, 4 * i + 4) =~= tp.subrange(4 * i, 4 * i + 4));
            } else {
                assert(t.subrange(4 * i, 4 * i + 4) =~= last);
            }
        }
    } else {
        assert(offset_entries(recs, 0) =~= Seq::<Seq<u8>>::empty());
    }
}

proof fn lemma_record_shape(name: Seq<char>, data: Seq<u8>, key: Seq<u8>)
    requires
        encode_utf8(name).len() < 65536,
        key.len() > 0 || data.len() == 0,
    ensures
        ({
            let r = sor_record(name, data, key);
            let l = encode_utf8(name).len();
            &&& r.len() == 2 + l + data.len()
            &&& be16_at(r, 0) == l
            &&& lossy_text(r.subrange(2, 2 + l as int)) == name
            &&& r.subrange(2 + l as int, r.len() as int).len() == data.len()
            &&& xor_repeat(r.subrange(2 + l as int, r.len() as int), key) == data
        }),
{
    let nb = encode_utf8(name);
    let l = nb.len();
    let r = sor_record(name, data, key);
    lemma_be16_roundtrip(l % 65536);
    assert(r.subrange(0, 2) =~= be16(l % 65536));
    assert(be16_at(r, 0) == be16_at(be16(l % 65536), 0));
    assert(r.subrange(2, 2 + l as int) =~= nb);
    encode_utf8_valid_utf8(name);
    encode_utf8_decode_utf8(name);
    let enc = r.subrange(2 + l as int, r.len() as int);
    assert(enc =~= xor_repeat(data, key));
    assert forall|i: int| 0 <= i < data.len() implies #[trigger] xor_repeat(enc, key)[i] == data[i] by {
        let a = data[i];
        let b = key[i % (key.len() as int)];
        assert((a ^ b) ^ b == a) by (bit_vector);
    }
    assert(xor_repeat(enc, key) =~= data);
}

proof fn lemma_record_in_flatten(recs: Seq<Seq<u8>>, i: int)
    requires
        0 <= i < recs.len(),
    ensures
        recs.take(i + 1).flatten().len() == recs.take(i).flatten().len() + recs[i].len(),
        recs.take(i + 1).flatten().len() <= recs.flatten().len(),
        recs.flatten().subrange(
            recs.take(i).flatten().len() as int,
            recs.take(i + 1).flatten().len() as int,
        ) == recs[i],
{
    lemma_flatten_take_step(recs, i);
    lemma_flatten_take_split(recs, i + 1);
    let f = recs.flatten();
    let a = recs.take(i).flatten();
    assert(f.subrange(a.len() as int, (a.len() + recs[i].len()) as int) =~= recs[i]);
}

proof fn lemma_archive_offsets(entries: Seq<(Seq<char>, Seq<u8>)>, key: Seq<u8>)
    requires
        1 <= entries.len() <= 65535,
        sor_records(entries, key).flatten().len() <= u32::MAX,
    ensures
        ({
            let recs = sor_records(entries, key);
            let a = sor_archive(entries, key);
            let n = entries.len();
            &&& a.len() == sor_header_size(n) + recs.flatten().len()
            &&& be16_at(a, 0) == n
            &&& a.subrange(sor_header_size(n) as int, a.len() as int) == recs.flatten()
            &&& forall|i: nat| i <= n ==> #[trigger] sor_offset(a, n, i) == recs.take(i as int).flatten().len()
        }),
{
    let recs = sor_records(entries, key);
    let n = entries.len();
    let a = sor_archive(entries, key);
    let flat = recs.flatten();
    let t = offset_table(recs, (n - 1) as nat);
    lemma_offset_table(recs, (n - 1) as nat);
    lemma_be16_roundtrip(n % 65536);
    let hdr = sor_header_size(n);
    assert(a == be16(n % 65536) + t + flat);
    assert(a.subrange(0, 2) =~= be16(n % 65536));
    assert(be16_at(a, 0) == be16_at(be16(n % 65536), 0));
    assert(a.subrange(hdr as int, a.len() as int) =~= flat);
    assert forall|i: nat| i <= n implies #[trigger] sor_offset(a, n, i) == recs.take(i as int).flatten().len() by {
        if i == 0 {
            assert(recs.take(0) =~= Seq::<Seq<u8>>::empty());
        } else if i < n {
            let k = i - 1;
            lemma_record_in_flatten(recs, k);
            let o = 2 + k * 4;
            assert(a.subrange(o, o + 4) =~= t.subrange(4 * k, 4 * k + 4));
            let v = end_offset(recs, k);
            lemma_be32_roundtrip(v);
            assert(be32_at(a, o) == be32_at(a.subrange(o, o + 4), 0));
            assert(recs.take(k + 1) =~= recs.take(i as int));
        } else {
            assert(recs.take(n as int) =~= recs);
        }
    }
}

proof fn lemma_entry_step(
    a: Seq<u8>,
    key: Seq<u8>,
    n: nat,
    i: nat,
    r: Seq<u8>,
    l: nat,
    name: Seq<char>,
    data: Seq<u8>,
)
    requires
        i < n,
        sor_offset(a, n, i) + r.len() == sor_offset(a, n, (i + 1) as nat),
        sor_header_size(n) + sor_offset(a, n, (i + 1) as nat) <= a.len(),
        a.subrange(
            (sor_header_size(n) + sor_offset(a, n, i)) as int,
            (sor_header_size(n) + sor_offset(a, n, (i + 1) as nat)) as int,
        ) == r,
        r.len() == 2 + l + data.len(),
        be16_at(r, 0) == l,
        lossy_text(r.subrange(2, 2 + l as int)) == name,
        xor_repeat(r.subrange(2 + l as int, r.len() as int), key) == data,
        r.subrange(2 + l as int, r.len() as int).len() == data.len(),
        key.len() > 0 || data.len() == 0,
    ensures
        parse_entries_from(a, key, n, i) == prepend(seq![(name, data)], parse_entries_from(a, key, n, (i + 1) as nat)),
{
    let start: int = (sor_header_size(n) + sor_offset(a, n, i)) as int;
    let end: int = (sor_header_size(n) + sor_offset(a, n, (i + 1) as nat)) as int;
    assert(a[start] == r[0]);
    assert(a[start + 1] == r[1]);
    assert(be16_at(a, start) == l);
    assert(a.subrange(start + 2, start + 2 + l) =~= r.subrange(2, 2 + l as int));
    assert(a.subrange(start + 2 + l, end) =~= r.subrange(2 + l as int, r.len() as int));
}

#[verifier::rlimit(40)]
proof fn lemma_parse_from_archive(entries: Seq<(Seq<char>, Seq<u8>)>, key: Seq<u8>, i: nat)
    requires
        1 <= entries.len() <= 65535,
        forall|j: int| 0 <= j < entries.len() ==> encode_utf8(#[trigger] entries[j].0).len() < 65536,
        key.len() > 0 || forall|j: int| 0 <= j < entries.len() ==> (#[trigger] entries[j]).1.len() == 0,
        sor_records(entries, key).flatten().len() <= u32::MAX,
        i <= entries.len(),
    ensures
        parse_entries_from(sor_archive(entries, key), key, entries.len(), i) == SorParse::Parsed(
            entries.skip(i as int),
        ),
    decreases entries.len() - i,
{
    let n = entries.len();
    let a = sor_archive(entries, key);
    let recs = sor_records(entries, key);
    lemma_archive_offsets(entries, key);
    if i == n {
        assert(entries.skip(i as int) =~= Seq::<(Seq<char>, Seq<u8>)>::empty());
    } else {
        lemma_parse_from_archive(entries, key, i + 1);
        let hdr = sor_header_size(n);
        let c0 = recs.take(i as int).flatten().len();
        let c1 = recs.take(i as int + 1).flatten().len();
        assert(sor_offset(a, n, i) == c0);
        assert(sor_offset(a, n, (i + 1) as nat) == c1);
        lemma_record_in_flatten(recs, i as int);
        let flat = recs.flatten();
        assert(a.subrange((hdr + c0) as int, (hdr + c1) as int) =~= flat.subrange(c0 as int, c1 as int));
        let r = recs[i as int];
        let e = entries[i as int];
        assert(r == sor_record(e.0, e.1, key));
        assert(key.len() > 0 || e.1.len() == 0);
        lemma_record_shape(e.0, e.1, key);
        let l = encode_utf8(e.0).len();
        lemma_entry_step(a, key, n, i, r, l, e.0, e.1);
        assert(entries.skip(i as int) =~= seq![e] + entries.skip(i as int + 1));
    }
}

/// Reading back an archive built from `entries` with `key` gives the entries
/// again, for archives of 1 to 65535 entries whose names take fewer than
/// 65536 bytes each, whose records fit the 32-bit offsets, that are at least 6
/// bytes long, and whose key is non-empty wherever there is content.
pub proof fn lemma_sor_roundtrip(entries: Seq<(Seq<char>, Seq<u8>)>, key: Seq<u8>)
    requires
        1 <= entries.len() <= 65535,
        forall|j: int| 0 <= j < entries.len() ==> encode_utf8(#[trigger] entries[j].0).len() < 65536,
        key.len() > 0 || forall|j: int| 0 <= j < entries.len() ==> (#[trigger] entries[j]).1.len() == 0,
        sor_records(entries, key).flatten().len() <= u32::MAX,
        sor_archive(entries, key).len() >= 6,
    ensures
        sor_parse(sor_archive(entries, key), key) == SorParse::Parsed(entries),
{
    lemma_archive_offsets(entries, key);
    lemma_parse_from_archive(entries, key, 0);
    assert(entries.skip(0) =~= entries);
}

/// The start offsets of the entries never decrease, the end of the data
/// section counting as the offset after the last entry.
pub open spec fn offsets_ordered(data: Seq<u8>) -> bool {
    let count = be16_at(data, 0);
    forall|i: nat| i < count ==> #[trigger] sor_offset(data, count, i) <= sor_offset(data, count, i + 1)
}

proof fn lemma_parse_entries_no_panic(data: Seq<u8>, key: Seq<u8>, i: nat)
    requires
        key.len() > 0,
        offsets_ordered(data),
    ensures
        !(parse_entries_from(data, key, be16_at(data, 0), i) is Panics),
    decreases be16_at(data, 0) - i,
{
    let count = be16_at(data, 0);
    if i < count {
        assert(sor_offset(data, count, i) <= sor_offset(data, count, i + 1));
        lemma_parse_entries_no_panic(data, key, i + 1);
    }
}

/// Reading an archive does not panic when the key is non-empty and the
/// entries' offsets never decrease: each entry's end is checked against the
/// data before it is sliced, and no slice starts past its end.
pub proof fn lemma_sor_parse_no_panic(data: Seq<u8>, key: Seq<u8>)
    requires
        key.len() > 0,
        offsets_ordered(data),
    ensures
        !(sor_parse(data, key) is Panics),
{
    lemma_parse_entries_no_panic(data, key, 0);
}

/// Entries in order of their names (each name not after the next), as
/// `str` orders them.
pub open spec fn sorted_by_name(es: Seq<FileEntry>) -> bool {
    forall|i: int, j: int| 0 <= i < j < es.len() ==> !text_lt(#[trigger] es[j].filename@, #[trigger] es[i].filename@)
}

/// The position at which `name` goes into `out`: before the first entry
/// whose name is not before it.
fn insert_position(out: &Vec<FileEntry>, name: &String) -> (k: usize)
    ensures
        k <= out@.len(),
        forall|i: int| 0 <= i < k ==> text_lt(#[trigger] out@[i].filename@, name@),
        k < out@.len() ==> !text_lt(out@[k as int].filename@, name@),
{
    let mut k: usize = 0;
    while k < out.len()
        invariant
            k <= out@.len(),
            forall|i: int| 0 <= i < k ==> text_lt(#[trigger] out@[i].filename@, name@),
        decreases out@.len() - k,
    {
        if !text_less(out[k].filename.as_str(), name.as_str()) {
            return k;
        }
        k += 1;
    }
    k
}

/// Sorts archive entries by name (as `str` orders them): the same entries,
/// in order.
pub fn sort_entries_by_name(entries: Vec<FileEntry>) -> (r: Vec<FileEntry>)
    ensures
        sorted_by_name(r@),
        entry_views(r@).to_multiset() == entry_views(entries@).to_multiset(),
{
    broadcast use vstd::seq_lib::group_to_multiset_ensures;
    let mut rest = entries;
    let mut out: Vec<FileEntry> = Vec::new();
    let ghost orig = entry_views(entries@);
    while rest.len() > 0
        invariant
            sorted_by_name(out@),
            entry_views(rest@).to_multiset().add(entry_views(out@).to_multiset()) == orig.to_multiset(),
        decreases rest@.len(),
    {
        let ghost before = rest@;
        let e = rest.pop().unwrap();
        proof {
            assert(before =~= rest@.push(e));
            assert(entry_views(before) =~= entry_views(rest@).push(e@));
        }
        let k = insert_position(&out, &e.filename);
        let ghost old_out = out@;
        let ghost x = e;
        out.insert(k, e);
        proof {
            assert(entry_views(out@) =~= entry_views(old_out).insert(k as int, x@));
            assert forall|i: int, j: int| 0 <= i < j < out@.len() implies
                !text_lt(#[trigger] out@[j].filename@, #[trigger] out@[i].filename@) by {
                let a = out@[i].filename@;
                let b = out@[j].filename@;
                if j < k {
                    assert(out@[i] == old_out[i] && out@[j] == old_out[j]);
                } else if j == k {
                    assert(out@[i] == old_out[i]);
                    lemma_text_lt_order(a, b, b);
                } else if i == k {
                    assert(out@[j] == old_out[j - 1]);
                    let m = old_out[k as int].filename@;
                    assert(!text_lt(b, m)) by {
                        if k < j - 1 {
                            assert(!text_lt(old_out[j - 1].filename@, old_out[k as int].filename@));
                        }
                        lemma_text_lt_order(m, m, m);
                    }
                    lemma_text_lt_order(m, b, a);
                } else if i < k {
                    assert(out@[i] == old_out[i] && out@[j] == old_out[j - 1]);
                } else {
                    assert(out@[i] == old_out[i - 1] && out@[j] == old_out[j - 1]);
                }
            }
        }
    }
    proof {
        assert(entry_views(rest@) =~= Seq::<(Seq<char>, Seq<u8>)>::empty());
    }
    out
}

/// One line of an archive listing.
pub enum SorListLine {
    /// Entry `index`: its name and the size of its content.
    File(nat, Seq<char>, nat),
    /// Entry `index` runs past the end of the archive; the listing stops.
    PastEnd(nat),
    /// Entry `index` is too small for a name length.
    TooSmall(nat),
    /// Entry `index` is too small for its name.
    BadNameLength(nat),
}

/// Puts a line in front of the listing of the rest.
pub open spec fn line_then(line: SorListLine, rest: Option<Seq<SorListLine>>) -> Option<Seq<SorListLine>> {
    match rest {
        Some(more) => Some(seq![line] + more),
        None => None,
    }
}

/// The listing of entries `i..count`; `None` when an entry's end offset lies
/// before its start (the size cannot be computed).
pub open spec fn list_lines_from(data: Seq<u8>, count: nat, i: nat) -> Option<Seq<SorListLine>>
    decreases count - i,
{
    if i >= count {
        Some(seq![])
    } else {
        let hdr = sor_header_size(count);
        let start = hdr + sor_offset(data, count, i);
        let end = hdr + sor_offset(data, count, (i + 1) as nat);
        if start > end {
            None
        } else if end > data.len() {
            Some(seq![SorListLine::PastEnd(i)])
        } else if end - start < 2 {
            line_then(SorListLine::TooSmall(i), list_lines_from(data, count, (i + 1) as nat))
        } else {
            let fl = be16_at(data, start as int);
            if end - start < 2 + fl {
                line_then(SorListLine::BadNameLength(i), list_lines_from(data, count, (i + 1) as nat))
            } else {
                line_then(
                    SorListLine::File(
                        i,
                        lossy_text(data.subrange((start + 2) as int, (start + 2 + fl) as int)),
                        (end - start - 2 - fl) as nat,
                    ),
                    list_lines_from(data, count, (i + 1) as nat),
                )
            }
        }
    }
}

/// The archives a listing cannot be made of: at least 6 bytes, but no
/// files, a header longer than the archive, or offsets out of order.
pub open spec fn sor_list_panics(data: Seq<u8>) -> bool {
    data.len() >= 6 && {
        let count = be16_at(data, 0);
        count == 0 || data.len() < sor_header_size(count) || list_lines_from(data, count, 0) is None
    }
}

/// One line of an archive listing.
#[derive(Debug, Clone, PartialEq, Eq)]
pub enum SorLine {
    File { index: usize, name: String, size: usize },
    PastEnd { index: usize },
    TooSmall { index: usize },
    BadNameLength { index: usize },
}

/// The meaning of a listing line.
pub open spec fn line_view(l: SorLine) -> SorListLine {
    match l {
        SorLine::File { index, name, size } => SorListLine::File(index as nat, name@, size as nat),
        SorLine::PastEnd { index } => SorListLine::PastEnd(index as nat),
        SorLine::TooSmall { index } => SorListLine::TooSmall(index as nat),
        SorLine::BadNameLength { index } => SorListLine::BadNameLength(index as nat),
    }
}

/// The header of an archive and the lines listing its entries.
pub struct SorListing {
    pub file_count: usize,
    pub header_size: usize,
    pub lines: Vec<SorLine>,
}

/// Lists an archive's entries without decrypting them; `None` for an archive
/// under 6 bytes.
pub fn list_sor(data: &[u8]) -> (r: Option<SorListing>)
    requires
        !sor_list_panics(data@),
    ensures
        r is None <==> data@.len() < 6,
        r matches Some(l) ==> {
            &&& l.file_count == be16_at(data@, 0)
            &&& l.header_size == sor_header_size(be16_at(data@, 0))
            &&& list_lines_from(data@, be16_at(data@, 0), 0) == Some(l.lines@.map_values(|x: SorLine| line_view(x)))
        },
{
    if data.len() < 6 {
        return None;
    }
    let file_count = read_be_u16(data, 0) as usize;
    let header_size = 2 + (file_count - 1) * 4;
    let ghost count = file_count as nat;
    let mut lines: Vec<SorLine> = Vec::new();
    let mut k: usize = 0;
    while k < file_count
        invariant
            file_count == count,
            count == be16_at(data@, 0),
            count >= 1,
            data@.len() >= 6,
            header_size == sor_header_size(count),
            header_size <= data@.len(),
            k <= count,
            list_lines_from(data@, count, 0) is Some,
            list_lines_from(data@, count, 0) == line_then_all(
                lines@.map_values(|x: SorLine| line_view(x)),
                list_lines_from(data@, count, k as nat),
            ),
        decreases count - k,
    {
        let ghost done = lines@.map_values(|x: SorLine| line_view(x));
        let start_off: u32 = if k == 0 { 0 } else { read_be_u32(data, 2 + (k - 1) * 4) };
        let end_off: u32 = if k + 1 < file_count {
            read_be_u32(data, 2 + k * 4)
        } else {
            let rest = data.len() - header_size;
            proof {
                assert((rest as u32) as nat == rest as nat % 4294967296) by (bit_vector);
            }
            rest as u32
        };
        proof {
            assert(sor_offset(data@, count, k as nat) == start_off as nat);
            assert(sor_offset(data@, count, (k + 1) as nat) == end_off as nat);
        }
        let entry_start: u64 = header_size as u64 + start_off as u64;
        let entry_end: u64 = header_size as u64 + end_off as u64;
        let ghost here = list_lines_from(data@, count, k as nat);
        let ghost next = list_lines_from(data@, count, (k + 1) as nat);
        if entry_end > data.len() as u64 {
            lines.push(SorLine::PastEnd { index: k });
            proof {
                assert(lines@.map_values(|x: SorLine| line_view(x)) =~= done.push(SorListLine::PastEnd(k as nat)));
                assert(done + seq![SorListLine::PastEnd(k as nat)] =~= done.push(SorListLine::PastEnd(k as nat)));
            }
            return Some(SorListing { file_count, header_size, lines });
        }
        let s = entry_start as usize;
        let t = entry_end as usize;
        let line = if t - s < 2 {
            SorLine::TooSmall { index: k }
        } else {
            let fname_len = read_be_u16(data, s) as usize;
            if t - s < 2 + fname_len {
                SorLine::BadNameLength { index: k }
            } else {
                let name = bytes_to_string_lossy(&data[s + 2..s + 2 + fname_len]);
                proof {
                    assert(data@.subrange(s + 2, s + 2 + fname_len) =~= data@.subrange(s + 2, s + 2 + fname_len));
                }
                SorLine::File { index: k, name, size: t - s - 2 - fname_len }
            }
        };
        let ghost lv = line_view(line);
        lines.push(line);
        proof {
            assert(here == line_then(lv, next));
            assert(lines@.map_values(|x: SorLine| line_view(x)) =~= done.push(lv));
            lemma_line_then_all_push(done, lv, next);
        }
        k += 1;
    }
    proof {
        assert(list_lines_from(data@, count, k as nat) == Some(Seq::<SorListLine>::empty()));
        assert(lines@.map_values(|x: SorLine| line_view(x)) + Seq::<SorListLine>::empty()
            =~= lines@.map_values(|x: SorLine| line_view(x)));
    }
    Some(SorListing { file_count, header_size, lines })
}

/// Lines already listed in front of the listing of the rest.
pub open spec fn line_then_all(done: Seq<SorListLine>, rest: Option<Seq<SorListLine>>) -> Option<Seq<SorListLine>> {
    match rest {
        Some(more) => Some(done + more),
        None => None,
    }
}

proof fn lemma_line_then_all_push(done: Seq<SorListLine>, l: SorListLine, rest: Option<Seq<SorListLine>>)
    ensures
        line_then_all(done, line_then(l, rest)) == line_then_all(done.push(l), rest),
{
    match rest {
        Some(more) => {
            assert(done + (seq![l] + more) =~= done.push(l) + more);
        },
        None => {},
    }
}

/// Whether listing `data` would fail (the inputs `list_sor` does not take).
pub fn sor_list_would_panic(data: &[u8]) -> (b: bool)
    ensures
        b == sor_list_panics(data@),
{
    if data.len() < 6 {
        return false;
    }
    let file_count = read_be_u16(data, 0) as usize;
    if file_count == 0 {
        return true;
    }
    let header_size = 2 + (file_count - 1) * 4;
    if data.len() < header_size {
        return true;
    }
    let ghost count = file_count as nat;
    let mut k: usize = 0;
    while k < file_count
        invariant
            file_count == count,
            count == be16_at(data@, 0),
            count >= 1,
            data@.len() >= 6,
            header_size == sor_header_size(count),
            header_size <= data@.len(),
            k <= count,
            (list_lines_from(data@, count, 0) is None) == (list_lines_from(data@, count, k as nat) is None),
        decreases count - k,
    {
        let start_off: u32 = if k == 0 { 0 } else { read_be_u32(data, 2 + (k - 1) * 4) };
        let end_off: u32 = if k + 1 < file_count {
            read_be_u32(data, 2 + k * 4)
        } else {
            let rest = data.len() - header_size;
            proof {
                assert((rest as u32) as nat == rest as nat % 4294967296) by (bit_vector);
            }
            rest as u32
        };
        proof {
            assert(sor_offset(data@, count, k as nat) == start_off as nat);
            assert(sor_offset(data@, count, (k + 1) as nat) == end_off as nat);
        }
        let entry_start: u64 = header_size as u64 + start_off as u64;
        let entry_end: u64 = header_size as u64 + end_off as u64;
        if entry_start > entry_end {
            return true;
        }
        if entry_end > data.len() as u64 {
            return false;
        }
        k += 1;
    }
    false
}

} // verus!
