use vstd::prelude::*;

use crate::decimal::digit_char;
use crate::paths::{age_ext, meta_age_ext, payload_path, sidecar_name};
use crate::text::{contains_run, ends_with, string_from_chars};
use crate::validation::{parent_ref, valid_name, valid_subpath};

verus! {

/// The lower-case hexadecimal digit of a value below 16.
pub open spec fn hex_char(d: int) -> char {
    if d < 10 {
        digit_char(d)
    } else if d == 10 {
        'a'
    } else if d == 11 {
        'b'
    } else if d == 12 {
        'c'
    } else if d == 13 {
        'd'
    } else if d == 14 {
        'e'
    } else {
        'f'
    }
}

/// Lower-case hexadecimal text of `bytes`, two digits per byte (what `{:02x}` gives).
pub open spec fn hex_text(bytes: Seq<u8>) -> Seq<char>
    decreases bytes.len(),
{
    if bytes.len() == 0 {
        Seq::empty()
    } else {
        hex_text(bytes.drop_last()) + seq![
            hex_char((bytes.last() / 16) as int),
            hex_char((bytes.last() % 16) as int),
        ]
    }
}

/// The stored name of a dropped file: `drop-<hex of the random bytes>.age`.
pub open spec fn drop_name(bytes: Seq<u8>) -> Seq<char> {
    seq!['d', 'r', 'o', 'p', '-'] + hex_text(bytes) + age_ext()
}

/// The number of random bytes in a drop name.
pub open spec fn drop_random_len() -> nat {
    16
}

fn hex_digit(d: u8) -> (c: char)
    requires
        d < 16,
    ensures
        c == hex_char(d as int),
{
    if d == 0 {
        '0'
    } else if d == 1 {
        '1'
    } else if d == 2 {
        '2'
    } else if d == 3 {
        '3'
    } else if d == 4 {
        '4'
    } else if d == 5 {
        '5'
    } else if d == 6 {
        '6'
    } else if d == 7 {
        '7'
    } else if d == 8 {
        '8'
    } else if d == 9 {
        '9'
    } else if d == 10 {
        'a'
    } else if d == 11 {
        'b'
    } else if d == 12 {
        'c'
    } else if d == 13 {
        'd'
    } else if d == 14 {
        'e'
    } else {
        'f'
    }
}

/// Builds the drop name for the given random bytes.
pub fn drop_filename(bytes: &[u8]) -> (name: String)
    ensures
        name@ == drop_name(bytes@),
{
    let mut out: Vec<char> = vec!['d', 'r', 'o', 'p', '-'];
    let mut i: usize = 0;
    while i < bytes.len()
        invariant
            i <= bytes@.len(),
            out@ == seq!['d', 'r', 'o', 'p', '-'] + hex_text(bytes@.subrange(0, i as int)),
        decreases bytes@.len() - i,
    {
        let b = bytes[i];
        out.push(hex_digit(b / 16));
        out.push(hex_digit(b % 16));
        assert(bytes@.subrange(0, i + 1).drop_last() =~= bytes@.subrange(0, i as int));
        assert(out@ =~= seq!['d', 'r', 'o', 'p', '-'] + hex_text(bytes@.subrange(0, i + 1)));
        i = i + 1;
    }
    assert(bytes@.subrange(0, i as int) =~= bytes@);
    out.push('.');
    out.push('a');
    out.push('g');
    out.push('e');
    assert(out@ =~= drop_name(bytes@));
    string_from_chars(&out)
}

/// Fills a buffer from the thread-local random generator of `rand` (`rand::rng()` with
/// `RngCore::fill_bytes`). Nothing is promised of the bytes: they are random.
#[verifier::external_body]
fn fill_random_bytes(buf: &mut [u8; 16]) {
    rand::RngCore::fill_bytes(&mut rand::rng(), buf)
}

/// Generates a unique random filename for an encrypted drop file.
/// Returns a name like `drop-<32 hex chars>.age`.
pub fn generate_drop_filename() -> (name: String)
    ensures
        exists|bytes: Seq<u8>| bytes.len() == drop_random_len() && name@ == drop_name(bytes),
{
    let mut bytes = [0u8; 16];
    fill_random_bytes(&mut bytes);
    let name = drop_filename(&bytes);
    assert(bytes@.len() == drop_random_len());
    name
}

proof fn lemma_hex_text(bytes: Seq<u8>)
    ensures
        hex_text(bytes).len() == 2 * bytes.len(),
        forall|i: int|
            0 <= i < hex_text(bytes).len() ==> {
                let c = #[trigger] hex_text(bytes)[i];
                ('0' <= c && c <= '9') || ('a' <= c && c <= 'f')
            },
    decreases bytes.len(),
{
    if bytes.len() > 0 {
        lemma_hex_text(bytes.drop_last());
        let h = hex_text(bytes);
        let p = hex_text(bytes.drop_last());
        assert forall|i: int| 0 <= i < h.len() implies {
            let c = #[trigger] h[i];
            ('0' <= c && c <= '9') || ('a' <= c && c <= 'f')
        } by {
            if i < p.len() {
                assert(h[i] == p[i]);
            }
        }
    }
}

/// Every generated drop name is a valid vault-relative path, names an encrypted payload
/// and has a metadata sidecar `drop-<hex>.meta.age`.
pub proof fn law_drop_name_has_sidecar(bytes: Seq<u8>)
    requires
        bytes.len() == drop_random_len(),
    ensures
        valid_subpath(drop_name(bytes)),
        valid_name(drop_name(bytes)),
        payload_path(drop_name(bytes)),
        sidecar_name(drop_name(bytes)) == Some(
            seq!['d', 'r', 'o', 'p', '-'] + hex_text(bytes) + meta_age_ext(),
        ),
{
    lemma_hex_text(bytes);
    let n = drop_name(bytes);
    let stem = seq!['d', 'r', 'o', 'p', '-'] + hex_text(bytes);
    let h = hex_text(bytes);
    assert(n.len() == 41);
    // Characters of the name: `drop-`, then hex digits, then `.age`.
    assert forall|i: int| 5 <= i < 37 implies n[i] != '.' && n[i] != '/' && n[i] != '\\' by {
        assert(n[i] == h[i - 5]);
    }
    assert(n.subrange(37, 41) =~= age_ext());
    assert(ends_with(n, age_ext()));
    assert(n[32] != '.');
    assert(n.subrange(32, 41)[0] != meta_age_ext()[0]);
    assert(!ends_with(n, meta_age_ext()));
    assert(n.subrange(0, 37) =~= stem);
    assert(stem[33] != '.');
    assert(stem.subrange(33, 37)[0] != age_ext()[0]);
    assert(!ends_with(stem, age_ext()));
    assert forall|i: int| 0 <= i < n.len() implies n[i] != '/' && n[i] != '\\' by {
        if 5 <= i < 37 {
        } else if i < 5 {
        } else {
            assert(n[i] == age_ext()[i - 37]);
        }
    }
    assert forall|i: int| 0 <= i && i + 2 <= n.len() implies #[trigger] n.subrange(i, i + 2)
        != parent_ref() by {
        if i < 36 {
            if 5 <= i {
                assert(n.subrange(i, i + 2)[0] == n[i]);
            } else {
                assert(n.subrange(i, i + 2)[0] == n[i]);
            }
        } else {
            assert(n.subrange(i, i + 2)[1] == n[i + 1]);
        }
    }
}

} // verus!
