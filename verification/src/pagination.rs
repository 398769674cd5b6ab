//! Page-number extraction from a request URL.
//!
//! The service numbers result pages through a `page` query parameter. The
//! extractor finds the first place in the URL where `?page=` or `&page=` is
//! followed by a digit, reads the unbroken digit run after the `=`, and
//! returns its value; a URL without such a parameter means the first page.
//! The pattern is pure ASCII, so the search is specified and performed over
//! the URL's UTF-8 bytes.

use vstd::prelude::*;
use vstd::string::*;

verus! {

/// The byte is an ASCII decimal digit.
pub open spec fn is_digit(b: u8) -> bool {
    48 <= b <= 57
}

/// At position `i` of `s` stands `?page=` or `&page=` followed by a digit.
pub open spec fn match_at(s: Seq<u8>, i: int) -> bool {
    &&& 0 <= i
    &&& i + 6 < s.len()
    &&& (s[i] == 63 || s[i] == 38)
    &&& s[i + 1] == 112
    &&& s[i + 2] == 97
    &&& s[i + 3] == 103
    &&& s[i + 4] == 101
    &&& s[i + 5] == 61
    &&& is_digit(s[i + 6])
}

/// The first position at or after `i` where the parameter pattern matches.
pub open spec fn first_match_from(s: Seq<u8>, i: int) -> Option<int>
    decreases s.len() - i,
{
    if i < 0 || i >= s.len() {
        None
    } else if match_at(s, i) {
        Some(i)
    } else {
        first_match_from(s, i + 1)
    }
}

/// Where the unbroken digit run starting at `i` ends.
pub open spec fn digits_end(s: Seq<u8>, i: int) -> int
    decreases s.len() - i,
{
    if i < 0 || i >= s.len() {
        i
    } else if is_digit(s[i]) {
        digits_end(s, i + 1)
    } else {
        i
    }
}

/// The value of a run of decimal digit bytes.
pub open spec fn digit_val(s: Seq<u8>) -> int
    decreases s.len(),
{
    if s.len() == 0 {
        0
    } else {
        digit_val(s.drop_last()) * 10 + (s.last() - 48)
    }
}

/// Every byte of `s` is a digit.
pub open spec fn all_digits(s: Seq<u8>) -> bool {
    forall|k: int| 0 <= k < s.len() ==> is_digit(#[trigger] s[k])
}

/// The page number that a URL's bytes name: the value of the digit run after
/// the first `?page=` or `&page=`, and 1 where no such parameter stands.
pub open spec fn page_of(s: Seq<u8>) -> int {
    match first_match_from(s, 0) {
        None => 1,
        Some(i) => digit_val(s.subrange(i + 6, digits_end(s, i + 6))),
    }
}

proof fn lemma_digit_val_nonneg(s: Seq<u8>)
    requires
        all_digits(s),
    ensures
        digit_val(s) >= 0,
    decreases s.len(),
{
    if s.len() > 0 {
        assert(all_digits(s.drop_last()));
        lemma_digit_val_nonneg(s.drop_last());
    }
}

/// A digit run's value only grows as digits are appended: the value of any
/// front part bounds the value of the whole.
proof fn lemma_digit_val_prefix(s: Seq<u8>, m: int)
    requires
        all_digits(s),
        0 <= m <= s.len(),
    ensures
        digit_val(s.take(m)) <= digit_val(s),
    decreases s.len(),
{
    if m == s.len() {
        assert(s.take(m) =~= s);
    } else {
        assert(all_digits(s.drop_last()));
        lemma_digit_val_prefix(s.drop_last(), m);
        assert(s.drop_last().take(m) =~= s.take(m));
        lemma_digit_val_nonneg(s.drop_last());
    }
}

/// Read the page number out of a request URL, as the first `page` query
/// parameter names it; a URL without one names the first page. The one
/// caller-side limit is the machine's: the named page number must fit the
/// result type.
pub fn parse_page(url: &str) -> (r: i32)
    requires
        page_of(url.spec_bytes()) <= i32::MAX as int,
    ensures
        r as int == page_of(url.spec_bytes()),
{
    let s = url.as_bytes();
    let n = s.len();
    let mut i: usize = 0;
    while i < n
        invariant
            s@ == url.spec_bytes(),
            n == s@.len(),
            i <= n,
            first_match_from(s@, 0) == first_match_from(s@, i as int),
            page_of(url.spec_bytes()) <= i32::MAX as int,
        decreases n - i,
    {
        if n - i > 6 && (s[i] == 63 || s[i] == 38) && s[i + 1] == 112 && s[i + 2] == 97 && s[i
            + 3] == 103 && s[i + 4] == 101 && s[i + 5] == 61 && 48 <= s[i + 6] && s[i + 6] <= 57 {
            assert(match_at(s@, i as int));
            assert(first_match_from(s@, i as int) == Some(i as int));
            let start: usize = i + 6;
            let ghost e = digits_end(s@, start as int);
            proof {
                assert(page_of(s@) == digit_val(s@.subrange(start as int, e)));
            }
            let mut j: usize = start;
            let mut val: i32 = 0;
            while j < n && 48 <= s[j] && s[j] <= 57
                invariant
                    s@ == url.spec_bytes(),
                    n == s@.len(),
                    start <= j <= n,
                    e == digits_end(s@, j as int),
                    e == digits_end(s@, start as int),
                    val == digit_val(s@.subrange(start as int, j as int)),
                    page_of(s@) == digit_val(s@.subrange(start as int, e)),
                    page_of(s@) <= i32::MAX as int,
                    forall|k: int| start <= k < j ==> is_digit(#[trigger] s@[k]),
                decreases n - j,
            {
                let d = s[j] - 48;
                proof {
                    let run = s@.subrange(start as int, e);
                    lemma_digits_end_props(s@, (j + 1) as int);
                    assert(digits_end(s@, j as int) == digits_end(s@, j + 1 as int));
                    assert(j < e);
                    lemma_digits_end_props(s@, start as int);
                    assert(all_digits(run)) by {
                        assert forall|k: int| 0 <= k < run.len() implies is_digit(
                            #[trigger] run[k],
                        ) by {
                            assert(run[k] == s@[start + k]);
                        }
                    }
                    let next = s@.subrange(start as int, j + 1 as int);
                    assert(next.drop_last() =~= s@.subrange(start as int, j as int));
                    assert(next.last() == s@[j as int]);
                    assert(next =~= run.take(j + 1 - start));
                    lemma_digit_val_prefix(run, j + 1 - start);
                    assert(digit_val(next) == val * 10 + d);
                    assert(digit_val(next) <= page_of(s@));
                    lemma_digit_val_nonneg(next.drop_last());
                    assert(val >= 0);
                    assert(val * 10 + d <= i32::MAX as int);
                }
                val = val * 10 + (d as i32);
                j += 1;
            }
            proof {
                assert(digits_end(s@, j as int) == j as int);
                assert(s@.subrange(start as int, j as int) == s@.subrange(start as int, e));
            }
            return val;
        }
        proof {
            assert(!match_at(s@, i as int));
        }
        i += 1;
    }
    assert(first_match_from(s@, i as int) is None);
    1
}

/// A digit run reaches no further than the end of the bytes, never starts
/// before its own start, and holds digits throughout.
proof fn lemma_digits_end_props(s: Seq<u8>, a: int)
    requires
        0 <= a <= s.len(),
    ensures
        a <= digits_end(s, a) <= s.len(),
        forall|k: int| a <= k < digits_end(s, a) ==> is_digit(#[trigger] s[k]),
    decreases s.len() - a,
{
    if a < s.len() && is_digit(s[a]) {
        lemma_digits_end_props(s, a + 1);
    }
}

/// The service's paging links arrive in a `Link` response header. Only the
/// first page is ever requested, so the header carries nothing the fetcher
/// acts on: it is accepted and ignored.
pub fn parse_link(link: &str) {
}

} // verus!
