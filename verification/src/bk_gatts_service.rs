//! The companion file service of the bike computer: parsing of the file
//! listing it reports and assembly of a file fetched in notification-sized
//! chunks.  The radio reads and writes live outside the library.
//!
//! The listing is line-oriented: each line holds a file name, the
//! separator `", "`, and a decimal size.

use vstd::prelude::*;
use vstd::slice::slice_to_vec;

verus! {

/// One entry of the device's file listing.
#[derive(Debug)]
pub struct FileInfo {
    /// Position in the listing; the byte written to request the file.
    pub id: usize,
    pub filename: String,
    pub size: usize,
}

/// Why a file listing cannot be parsed.
#[derive(Debug, Clone, Copy, PartialEq, Eq, Structural)]
pub enum ListParseError {
    /// A line without the `", "` separator, with a malformed size, or with
    /// a size too large to hold.
    InvalidLine,
}

pub open spec fn is_digit_char(c: char) -> bool {
    '0' <= c <= '9'
}

pub open spec fn all_digits(s: Seq<char>) -> bool {
    forall|i: int| 0 <= i < s.len() ==> is_digit_char(#[trigger] s[i])
}

/// The number written by a sequence of decimal digits.
pub open spec fn digits_value(s: Seq<char>) -> int
    decreases s.len(),
{
    if s.len() == 0 {
        0
    } else {
        digits_value(s.drop_last()) * 10 + (s.last() as int - 48)
    }
}

/// The separator `", "` stands at position `p`.
pub open spec fn sep_at(s: Seq<char>, p: int) -> bool {
    0 <= p && p + 2 <= s.len() && s[p] == ',' && s[p + 1] == ' '
}

/// `p` is the first separator position.
pub open spec fn first_sep(s: Seq<char>, p: int) -> bool {
    sep_at(s, p) && (forall|q: int| 0 <= q < p ==> !sep_at(s, q))
}

/// A decimal size this library can hold.
pub open spec fn valid_size(s: Seq<char>) -> bool {
    s.len() >= 1 && all_digits(s) && digits_value(s) <= usize::MAX
}

/// A well-formed listing line: a name, the first `", "`, and a size.
pub open spec fn entry_valid(line: Seq<char>) -> bool {
    exists|p: int| #[trigger] first_sep(line, p) && valid_size(line.skip(p + 2))
}

/// What a parsed entry holds: the name before the first separator and the
/// decimal size after it.
pub open spec fn entry_matches(line: Seq<char>, f: FileInfo, id: int) -> bool {
    &&& f.id == id
    &&& exists|p: int|
        #[trigger] first_sep(line, p) && f.filename@ == line.subrange(0, p) && f.size
            == digits_value(line.skip(p + 2))
}

/// The value of a digit string never falls below any prefix's value.
proof fn lemma_digits_prefix_bound(s: Seq<char>, k: int)
    requires
        all_digits(s),
        0 <= k <= s.len(),
    ensures
        digits_value(s.take(k)) <= digits_value(s),
    decreases s.len() - k,
{
    lemma_digits_nonneg(s.take(k));
    if k == s.len() {
        assert(s.take(k) =~= s);
    } else {
        assert(s.take(k + 1).drop_last() =~= s.take(k));
        assert(s.take(k + 1).last() == s[k]);
        lemma_digits_prefix_bound(s, k + 1);
    }
}

/// Digit strings denote non-negative numbers.
proof fn lemma_digits_nonneg(s: Seq<char>)
    ensures
        all_digits(s) ==> digits_value(s) >= 0,
    decreases s.len(),
{
    if s.len() > 0 {
        assert(all_digits(s) ==> all_digits(s.drop_last()));
        lemma_digits_nonneg(s.drop_last());
    }
}

/// Two first-separator positions coincide.
proof fn lemma_first_sep_unique(s: Seq<char>, p: int, q: int)
    requires
        first_sep(s, p),
        first_sep(s, q),
    ensures
        p == q,
{
}

/// Parse one listing line into a `FileInfo` carrying the given id:
/// the name runs to the first `", "`, the rest must be a decimal size.
pub fn parse_file_entry(line: &str, id: usize) -> (r: Option<FileInfo>)
    ensures
        r is Some <==> entry_valid(line@),
        r matches Some(f) ==> entry_matches(line@, f, id as int),
{
    let n = line.unicode_len();
    // Find the first ", " separator.
    let mut p: usize = 0;
    loop
        invariant
            0 <= p,
            p + 2 <= n + 2,
            n == line@.len(),
            forall|q: int| 0 <= q < p ==> !sep_at(line@, q),
        ensures
            p + 2 <= n && sep_at(line@, p as int) && first_sep(line@, p as int) || (p + 2 > n && (
            forall|q: int| !sep_at(line@, q))),
        decreases n + 2 - p,
    {
        if n < 2 || p > n - 2 {
            proof {
                assert forall|q: int| !sep_at(line@, q) by {
                    if 0 <= q && q + 2 <= line@.len() {
                        assert(q < p);
                    }
                }
            }
            break;
        }
        if line.get_char(p) == ',' && line.get_char(p + 1) == ' ' {
            break;
        }
        p = p + 1;
    }
    if n < 2 || p > n - 2 {
        proof {
            assert forall|pp: int| !(#[trigger] first_sep(line@, pp)) by {
                assert(!sep_at(line@, pp));
            }
        }
        return None;
    }
    // Parse the size digits after the separator.
    let ghost digits = line@.skip(p + 2);
    if p + 2 == n {
        proof {
            lemma_entry_invalid_size(line@, p as int);
        }
        return None;
    }
    let mut acc: usize = 0;
    let mut i: usize = p + 2;
    while i < n
        invariant
            p + 2 <= i <= n,
            n == line@.len(),
            first_sep(line@, p as int),
            digits == line@.skip(p as int + 2),
            forall|q: int| p + 2 <= q < i ==> is_digit_char(#[trigger] line@[q]),
            acc == digits_value(line@.subrange(p as int + 2, i as int)),
        decreases n - i,
    {
        let c = line.get_char(i);
        if c < '0' || c > '9' {
            proof {
                assert(line@.skip(p as int + 2)[i - p - 2] == line@[i as int]);
                assert(!all_digits(line@.skip(p as int + 2)));
                lemma_entry_invalid_size(line@, p as int);
            }
            return None;
        }
        let d: usize = ((c as u32) - 48) as usize;
        let step1 = match acc.checked_mul(10) {
            Some(v) => v,
            None => {
                proof {
                    lemma_entry_overflow(line@, p as int, i as int, acc as int, c as int);
                }
                return None;
            },
        };
        let next = match step1.checked_add(d) {
            Some(v) => v,
            None => {
                proof {
                    lemma_entry_overflow(line@, p as int, i as int, acc as int, c as int);
                }
                return None;
            },
        };
        proof {
            assert(line@.subrange(p as int + 2, i as int + 1).drop_last() =~= line@.subrange(
                p as int + 2,
                i as int,
            ));
            assert(line@.subrange(p as int + 2, i as int + 1).last() == line@[i as int]);
        }
        acc = next;
        i = i + 1;
    }
    proof {
        assert(line@.subrange(p as int + 2, n as int) =~= digits);
        assert(digits.len() >= 1);
        assert(all_digits(digits)) by {
            assert forall|q: int| 0 <= q < digits.len() implies is_digit_char(
                #[trigger] digits[q],
            ) by {
                assert(digits[q] == line@[p as int + 2 + q]);
            }
        }
        assert(entry_valid(line@));
    }
    let filename_part = line.substring_char(0, p);
    let filename = filename_part.to_owned();
    Some(FileInfo { id, filename, size: acc })
}

/// A line whose tail after the first separator is empty or holds a
/// non-digit is not a valid entry.
proof fn lemma_entry_invalid_size(line: Seq<char>, p: int)
    requires
        first_sep(line, p),
        !valid_size(line.skip(p + 2)),
    ensures
        !entry_valid(line),
{
    assert forall|pp: int| !(#[trigger] first_sep(line, pp) && valid_size(line.skip(pp + 2))) by {
        if first_sep(line, pp) {
            lemma_first_sep_unique(line, p, pp);
        }
    }
}

/// A digit prefix already past `usize::MAX` rules the line out.
proof fn lemma_entry_overflow(line: Seq<char>, p: int, i: int, acc: int, c: int)
    requires
        first_sep(line, p),
        p + 2 <= i < line.len(),
        forall|q: int| p + 2 <= q < i ==> is_digit_char(#[trigger] line[q]),
        is_digit_char(line[i]),
        acc == digits_value(line.subrange(p + 2, i)),
        acc * 10 + (c - 48) > usize::MAX,
        c == line[i] as int,
    ensures
        !entry_valid(line),
{
    let digits = line.skip(p + 2);
    if all_digits(digits) {
        lemma_digits_prefix_bound(digits, i + 1 - (p + 2));
        assert(digits.take(i + 1 - (p + 2)).drop_last() =~= line.subrange(p + 2, i));
        assert(digits.take(i + 1 - (p + 2)).last() == line[i]);
        assert(digits_value(digits) > usize::MAX);
    }
    assert(!valid_size(digits));
    lemma_entry_invalid_size(line, p);
}

/// The index of the first newline in `s`, or its length when none occurs.
pub open spec fn first_nl(s: Seq<char>) -> int
    decreases s.len(),
{
    if s.len() == 0 {
        0
    } else if s[0] == '\n' {
        0
    } else {
        1 + first_nl(s.drop_first())
    }
}

/// The lines of a listing: maximal newline-free segments, with a trailing
/// newline terminating the last line rather than opening an empty one.
pub open spec fn spec_lines(s: Seq<char>) -> Seq<Seq<char>>
    decreases s.len(),
{
    if s.len() == 0 {
        Seq::empty()
    } else {
        let k = first_nl(s);
        if k < 0 || k >= s.len() {
            seq![s]
        } else {
            seq![s.take(k)] + spec_lines(s.skip(k + 1))
        }
    }
}

/// `first_nl` is where the scan says it is.
proof fn lemma_first_nl_at(s: Seq<char>, k: int)
    requires
        0 <= k <= s.len(),
        forall|q: int| 0 <= q < k ==> s[q] != '\n',
        k < s.len() ==> s[k] == '\n',
    ensures
        first_nl(s) == k,
    decreases k,
{
    if s.len() == 0 {
    } else if k == 0 {
    } else {
        assert(s[0] != '\n');
        lemma_first_nl_at(s.drop_first(), k - 1);
    }
}

/// Parse the device's file listing: one `FileInfo` per line, numbered in
/// order.  Fails exactly when some line is not a well-formed entry.
pub fn parse_file_list(response: &str) -> (r: Result<Vec<FileInfo>, ListParseError>)
    ensures
        r is Ok <==> (forall|i: int|
            0 <= i < spec_lines(response@).len() ==> entry_valid(
                #[trigger] spec_lines(response@)[i],
            )),
        r matches Ok(files) ==> files@.len() == spec_lines(response@).len() && (forall|i: int|
            0 <= i < files@.len() ==> entry_matches(spec_lines(response@)[i], #[trigger] files@[i], i)),
{
    let n = response.unicode_len();
    let mut files: Vec<FileInfo> = Vec::new();
    let mut start: usize = 0;
    let ghost all_lines = spec_lines(response@);
    proof {
        assert(response@.skip(0) =~= response@);
        assert(spec_lines(response@).subrange(0, 0) =~= Seq::<Seq<char>>::empty());
        assert(Seq::<Seq<char>>::empty() + spec_lines(response@) =~= spec_lines(response@));
    }
    while start < n
        invariant
            0 <= start <= n,
            n == response@.len(),
            all_lines == spec_lines(response@),
            all_lines =~= spec_lines(response@).subrange(0, files@.len() as int) + spec_lines(
                response@.skip(start as int),
            ),
            files@.len() <= all_lines.len(),
            forall|i: int|
                0 <= i < files@.len() ==> entry_valid(#[trigger] all_lines[i]) && entry_matches(
                    all_lines[i],
                    files@[i],
                    i,
                ),
        decreases n - start,
    {
        // Find the end of the current line.
        let mut k: usize = start;
        while k < n
            invariant
                start <= k <= n,
                n == response@.len(),
                forall|q: int| start <= q < k ==> response@[q] != '\n',
            ensures
                start <= k <= n,
                forall|q: int| start <= q < k ==> response@[q] != '\n',
                k < n ==> response@[k as int] == '\n',
            decreases n - k,
        {
            if response.get_char(k) == '\n' {
                break;
            }
            k = k + 1;
        }
        let ghost rest = response@.skip(start as int);
        proof {
            assert forall|q: int| 0 <= q < k - start implies rest[q] != '\n' by {
                assert(rest[q] == response@[start + q]);
            }
            if k < n {
                assert(rest[k - start as int] == response@[k as int]);
            }
            lemma_first_nl_at(rest, k - start as int);
            assert(rest.take(k - start as int) =~= response@.subrange(start as int, k as int));
            if k < n {
                assert(rest.skip(k - start as int + 1) =~= response@.skip(k as int + 1));
            }
        }
        let line = response.substring_char(start, k);
        let id = files.len();
        match parse_file_entry(line, id) {
            Some(info) => {
                files.push(info);
            },
            None => {
                proof {
                    assert(spec_lines(rest)[0] == line@);
                    assert(all_lines[files@.len() as int] == line@);
                }
                return Err(ListParseError::InvalidLine);
            },
        }
        if k < n {
            start = k + 1;
        } else {
            start = n;
        }
        proof {
            if k < n {
                assert(spec_lines(rest) =~= seq![line@] + spec_lines(
                    response@.skip(k as int + 1),
                ));
            } else {
                assert(spec_lines(rest) =~= seq![line@]);
                assert(response@.skip(n as int) =~= Seq::<char>::empty());
            }
            assert(all_lines =~= spec_lines(response@).subrange(0, files@.len() as int)
                + spec_lines(response@.skip(start as int)));
        }
    }
    proof {
        assert(response@.skip(n as int) =~= Seq::<char>::empty());
        assert(files@.len() == all_lines.len());
    }
    Ok(files)
}

/// A file arriving in notification-sized chunks, assembled in order.
#[derive(Debug)]
pub struct FileTransfer {
    /// The size announced in the listing; the transfer is complete when
    /// exactly this many bytes have arrived.
    pub expected_size: usize,
    pub data: Vec<u8>,
}

impl FileTransfer {
    /// An empty transfer expecting `expected_size` bytes.
    pub fn new(expected_size: usize) -> (t: FileTransfer)
        ensures
            t.expected_size == expected_size,
            t.data@ == Seq::<u8>::empty(),
    {
        FileTransfer { expected_size, data: Vec::new() }
    }

    /// Append one received chunk.
    pub fn push_chunk(&mut self, chunk: &[u8])
        ensures
            final(self).expected_size == old(self).expected_size,
            final(self).data@ == old(self).data@ + chunk@,
    {
        let mut incoming = slice_to_vec(chunk);
        self.data.append(&mut incoming);
    }

    /// Whether exactly the announced number of bytes has arrived.
    pub fn is_complete(&self) -> (r: bool)
        ensures
            r == (self.data@.len() == self.expected_size),
    {
        self.data.len() == self.expected_size
    }
}

} // verus!
