use vstd::prelude::*;

use crate::decimal::{all_digits, decimal, is_digit, lemma_decimal_value, lemma_parse_decimal, parse_u64, parse_u64_text, push_decimal};
use crate::text::{first_at, lemma_first_at_unique};
use crate::text::{contains_char, copy_range, find_first, split_once, starts_with, str_chars, string_from_chars};

verus! {

/// The unit prefix of a byte `Range` header value.
pub open spec fn bytes_prefix() -> Seq<char> {
    seq!['b', 'y', 't', 'e', 's', '=']
}

/// The inclusive byte range that a `Range` header value selects from a resource of
/// `size` bytes, as the service understands it: a single `bytes=a-b`, `bytes=a-` or
/// `bytes=-n`; anything else, and any range the resource cannot satisfy, selects nothing.
pub open spec fn single_range(header: Seq<char>, size: u64) -> Option<(u64, u64)> {
    if !starts_with(header, bytes_prefix()) || header.contains(',') {
        None
    } else {
        match split_once(header.subrange(6, header.len() as int), '-') {
            None => None,
            Some((start_text, end_text)) => {
                if size == 0 {
                    None
                } else if start_text.len() == 0 {
                    match parse_u64_text(end_text) {
                        None => None,
                        Some(n) => if n == 0 || n > size {
                            None
                        } else {
                            Some(((size - n) as u64, (size - 1) as u64))
                        },
                    }
                } else {
                    match parse_u64_text(start_text) {
                        None => None,
                        Some(start) => if start >= size {
                            None
                        } else {
                            let end = if end_text.len() == 0 {
                                Some((size - 1) as u64)
                            } else {
                                match parse_u64_text(end_text) {
                                    None => None,
                                    Some(e) => Some(
                                        if e < size - 1 {
                                            e
                                        } else {
                                            (size - 1) as u64
                                        },
                                    ),
                                }
                            };
                            match end {
                                None => None,
                                Some(end) => if start > end {
                                    None
                                } else {
                                    Some((start, end))
                                },
                            }
                        },
                    }
                }
            },
        }
    }
}

/// Parses a single `Range: bytes=start-end` value against a known resource size.
/// Returns inclusive `(start, end)` on success.
pub fn parse_single_range(header_value: &str, file_size: u64) -> (r: Option<(u64, u64)>)
    ensures
        r == single_range(header_value@, file_size),
        r matches Some((start, end)) ==> start <= end < file_size,
{
    let h = str_chars(header_value);
    let prefix: Vec<char> = vec!['b', 'y', 't', 'e', 's', '='];
    assert(prefix@ == bytes_prefix());
    if h.len() < 6 {
        return None;
    }
    let mut k: usize = 0;
    while k < 6
        invariant
            6 <= h@.len(),
            h@ == header_value@,
            k <= 6,
            prefix@ == bytes_prefix(),
            forall|j: int| 0 <= j < k ==> h@[j] == prefix@[j],
        decreases 6 - k,
    {
        if h[k] != prefix[k] {
            assert(h@.subrange(0, 6)[k as int] != bytes_prefix()[k as int]);
            assert(h@.subrange(0, 6) != bytes_prefix());
            return None;
        }
        k = k + 1;
    }
    assert(h@.subrange(0, 6) =~= bytes_prefix());
    if contains_char(&h, ',') {
        return None;
    }
    let spec = copy_range(&h, 6, h.len());
    let dash = match find_first(&spec, '-') {
        Some(d) => d,
        None => {
            return None;
        },
    };
    let start_text = copy_range(&spec, 0, dash);
    let end_text = copy_range(&spec, dash + 1, spec.len());
    if file_size == 0 {
        return None;
    }
    if start_text.len() == 0 {
        let suffix_len = match parse_u64(&end_text) {
            Some(n) => n,
            None => {
                return None;
            },
        };
        if suffix_len == 0 || suffix_len > file_size {
            return None;
        }
        return Some((file_size - suffix_len, file_size - 1));
    }
    let start = match parse_u64(&start_text) {
        Some(n) => n,
        None => {
            return None;
        },
    };
    if start >= file_size {
        return None;
    }
    let end = if end_text.len() == 0 {
        file_size - 1
    } else {
        let parsed_end = match parse_u64(&end_text) {
            Some(n) => n,
            None => {
                return None;
            },
        };
        if parsed_end < file_size - 1 {
            parsed_end
        } else {
            file_size - 1
        }
    };
    if start > end {
        return None;
    }
    Some((start, end))
}

/// The `Content-Range` value of a `416` answer: `bytes */<size>`.
pub open spec fn unsatisfied_range_text(size: u64) -> Seq<char> {
    seq!['b', 'y', 't', 'e', 's', ' ', '*', '/'] + decimal(size as nat)
}

/// Builds the `Content-Range` value sent with `416 Range Not Satisfiable`.
pub fn unsatisfied_content_range(file_size: u64) -> (s: String)
    ensures
        s@ == unsatisfied_range_text(file_size),
{
    let mut out: Vec<char> = vec!['b', 'y', 't', 'e', 's', ' ', '*', '/'];
    push_decimal(&mut out, file_size);
    string_from_chars(&out)
}

/// The `Content-Range` value of a `206` answer: `bytes <start>-<end>/<size>`.
pub open spec fn content_range_text(start: u64, end: u64, size: u64) -> Seq<char> {
    seq!['b', 'y', 't', 'e', 's', ' '] + decimal(start as nat) + seq!['-'] + decimal(end as nat)
        + seq!['/'] + decimal(size as nat)
}

/// Builds the `Content-Range` value of a partial answer.
pub fn content_range(start: u64, end: u64, file_size: u64) -> (s: String)
    ensures
        s@ == content_range_text(start, end, file_size),
{
    let mut out: Vec<char> = vec!['b', 'y', 't', 'e', 's', ' '];
    push_decimal(&mut out, start);
    out.push('-');
    push_decimal(&mut out, end);
    out.push('/');
    push_decimal(&mut out, file_size);
    string_from_chars(&out)
}

/// The text of a `Range` value `bytes=<first>-<last>`, with either side possibly left out.
pub open spec fn range_header_text(first: Seq<char>, last: Seq<char>) -> Seq<char> {
    bytes_prefix() + first + seq!['-'] + last
}

proof fn lemma_range_header_split(first: Seq<char>, last: Seq<char>)
    requires
        all_digits(first),
        all_digits(last),
    ensures
        !range_header_text(first, last).contains(','),
        starts_with(range_header_text(first, last), bytes_prefix()),
        split_once(
            range_header_text(first, last).subrange(6, range_header_text(first, last).len() as int),
            '-',
        ) == Some((first, last)),
{
    let h = range_header_text(first, last);
    let spec = h.subrange(6, h.len() as int);
    assert(h.subrange(0, 6) =~= bytes_prefix());
    assert(spec =~= first + seq!['-'] + last);
    assert forall|i: int| 0 <= i < h.len() implies h[i] != ',' by {
        if i >= 6 && i < 6 + first.len() {
            assert(h[i] == first[i - 6]);
            assert(is_digit(first[i - 6]));
        } else if i > 6 + first.len() {
            assert(h[i] == last[i - 7 - first.len()]);
            assert(is_digit(last[i - 7 - first.len()]));
        }
    }
    let k = first.len() as int;
    assert forall|j: int| 0 <= j < k implies spec[j] != '-' by {
        assert(spec[j] == first[j]);
        assert(is_digit(first[j]));
    }
    assert(first_at(spec, '-', k));
    let c = choose|c: int| first_at(spec, '-', c);
    lemma_first_at_unique(spec, '-', c, k);
    assert(spec.subrange(0, k) =~= first);
    assert(spec.subrange(k + 1, spec.len() as int) =~= last);
}

/// A range written as `bytes=<start>-<end>` selects exactly that range, cut at the
/// resource's last byte, whenever its start lies inside the resource and is not past its end.
pub proof fn law_written_range_reads_back(start: u64, end: u64, size: u64)
    requires
        start < size,
        start <= end,
    ensures
        single_range(range_header_text(decimal(start as nat), decimal(end as nat)), size) == Some(
            (start, if end < size - 1 { end } else { (size - 1) as u64 }),
        ),
{
    lemma_decimal_value(start as nat);
    lemma_decimal_value(end as nat);
    lemma_parse_decimal(start);
    lemma_parse_decimal(end);
    lemma_range_header_split(decimal(start as nat), decimal(end as nat));
}

/// An open-ended range `bytes=<start>-` selects everything from `start` to the last byte.
pub proof fn law_open_ended_range(start: u64, size: u64)
    requires
        start < size,
    ensures
        single_range(range_header_text(decimal(start as nat), Seq::empty()), size) == Some(
            (start, (size - 1) as u64),
        ),
{
    lemma_decimal_value(start as nat);
    lemma_parse_decimal(start);
    lemma_range_header_split(decimal(start as nat), Seq::empty());
}

/// A suffix range `bytes=-<n>` selects the last `n` bytes when the resource has them, and
/// nothing otherwise.
pub proof fn law_suffix_range(n: u64, size: u64)
    requires
        size > 0,
    ensures
        single_range(range_header_text(Seq::empty(), decimal(n as nat)), size) == if 0 < n
            <= size {
            Some(((size - n) as u64, (size - 1) as u64))
        } else {
            None
        },
{
    lemma_decimal_value(n as nat);
    lemma_parse_decimal(n);
    lemma_range_header_split(Seq::empty(), decimal(n as nat));
}

/// An empty resource satisfies no range at all.
pub proof fn law_empty_resource_has_no_range(header: Seq<char>)
    ensures
        single_range(header, 0) is None,
{
}

} // verus!
