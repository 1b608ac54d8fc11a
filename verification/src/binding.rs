//! Parsing of `GUEST::HOST` directory binding specifications.
//!
//! A specification string is well formed when it holds exactly one
//! (non-overlapping, leftmost-first) occurrence of the two-character
//! delimiter `::` and both the segment before it and the segment after it
//! are non-empty. The left segment names the guest mount path, the right
//! one the host directory.

use vstd::prelude::*;

verus! {

use vstd::string::StrSliceExecFns;

/// A single guest/host directory association, in input order.
pub struct DirectoryBinding {
    /// Mount point inside the packaged module's virtual namespace.
    pub guest_path: String,
    /// Host directory whose contents are packaged.
    pub host_path: String,
}

/// Failure of the binding parser, reporting the offending string.
#[derive(Debug)]
pub enum BindingError {
    InvalidBindingSyntax { input: String },
}

/// The two-character delimiter `::` as a sequence of characters.
pub open spec fn sep_seq() -> Seq<char> {
    seq![':', ':']
}

/// The delimiter occurs at position `i` of `s`.
pub open spec fn is_sep_at(s: Seq<char>, i: int) -> bool {
    0 <= i && i + 1 < s.len() && s[i] == ':' && s[i + 1] == ':'
}

/// `p` is the unique delimiter position under leftmost-first,
/// non-overlapping scanning: a delimiter stands at `p`, none stands
/// before it, and none stands at or after `p + 2` (the position `p + 1`
/// is consumed by the match at `p` and never considered).
pub open spec fn ok_split_at(s: Seq<char>, p: int) -> bool {
    &&& is_sep_at(s, p)
    &&& forall|j: int| 0 <= j < p ==> !is_sep_at(s, j)
    &&& forall|j: int| p + 2 <= j ==> !is_sep_at(s, j)
}

/// The position of the unique delimiter, where one exists.
pub open spec fn split_point(s: Seq<char>) -> int {
    choose|p: int| ok_split_at(s, p)
}

/// The guest segment: everything before the unique delimiter.
pub open spec fn guest_part(s: Seq<char>) -> Seq<char> {
    s.subrange(0, split_point(s))
}

/// The host segment: everything after the unique delimiter.
pub open spec fn host_part(s: Seq<char>) -> Seq<char> {
    s.subrange(split_point(s) + 2, s.len() as int)
}

/// A specification string parses: it splits at exactly one delimiter and
/// both segments are non-empty.
pub open spec fn valid_binding_spec(s: Seq<char>) -> bool {
    &&& exists|p: int| ok_split_at(s, p)
    &&& 0 < split_point(s)
    &&& split_point(s) + 2 < s.len()
}

/// The number of delimiter occurrences under non-overlapping,
/// leftmost-first scanning, as `str::split` counts them.
pub open spec fn sep_count(s: Seq<char>) -> nat
    decreases s.len(),
{
    if s.len() < 2 {
        0
    } else if s[0] == ':' && s[1] == ':' {
        1 + sep_count(s.skip(2))
    } else {
        sep_count(s.skip(1))
    }
}

/// The delimiter position of a splittable string is unique.
pub proof fn lemma_split_unique(s: Seq<char>, p: int, q: int)
    requires
        ok_split_at(s, p),
        ok_split_at(s, q),
    ensures
        p == q,
{
    if p < q {
        assert(!is_sep_at(s, p));
    } else if q < p {
        assert(!is_sep_at(s, q));
    }
}

/// The non-overlapping delimiter count is zero exactly when no delimiter
/// occurs at all, and one exactly when a unique split position exists.
pub proof fn lemma_sep_count_characterizes(s: Seq<char>)
    ensures
        (sep_count(s) == 0) <==> (forall|j: int| !is_sep_at(s, j)),
        (sep_count(s) == 1) <==> (exists|p: int| ok_split_at(s, p)),
    decreases s.len(),
{
    if s.len() < 2 {
        assert(forall|j: int| !is_sep_at(s, j));
        assert forall|p: int| !ok_split_at(s, p) by {
            assert(!is_sep_at(s, p));
        }
    } else if s[0] == ':' && s[1] == ':' {
        let t = s.skip(2);
        lemma_sep_count_characterizes(t);
        assert(is_sep_at(s, 0));
        assert(sep_count(s) != 0);
        if sep_count(s) == 1 {
            // the tail holds no delimiter, so position 0 is the unique split
            assert(sep_count(t) == 0);
            assert forall|j: int| 2 <= j implies !is_sep_at(s, j) by {
                assert(!is_sep_at(t, j - 2));
                if is_sep_at(s, j) {
                    assert(t[j - 2] == s[j]);
                    assert(t[j - 1] == s[j + 1]);
                    assert(false);
                }
            }
            assert(ok_split_at(s, 0));
        }
        if exists|p: int| ok_split_at(s, p) {
            let p = choose|p: int| ok_split_at(s, p);
            if p > 0 {
                assert(!is_sep_at(s, 0));
                assert(false);
            }
            // a delimiter in the tail would contradict the split at 0
            assert forall|j: int| !is_sep_at(t, j) by {
                if is_sep_at(t, j) {
                    assert(t[j] == s[j + 2]);
                    assert(t[j + 1] == s[j + 3]);
                    assert(is_sep_at(s, j + 2));
                    assert(false);
                }
            }
            assert(sep_count(t) == 0);
            assert(sep_count(s) == 1);
        }
    } else {
        let t = s.skip(1);
        lemma_sep_count_characterizes(t);
        assert(!is_sep_at(s, 0));
        assert forall|j: int| is_sep_at(t, j) implies is_sep_at(s, j + 1) by {
            assert(t[j] == s[j + 1]);
            assert(t[j + 1] == s[j + 2]);
        }
        assert forall|j: int| 1 <= j && is_sep_at(s, j) implies is_sep_at(t, j - 1) by {
            assert(t[j - 1] == s[j]);
            assert(t[j] == s[j + 1]);
        }
        // the zero-count characterization transfers through the shift
        if sep_count(s) == 0 {
            assert forall|j: int| !is_sep_at(s, j) by {
                if is_sep_at(s, j) {
                    assert(j >= 1);
                    assert(is_sep_at(t, j - 1));
                }
            }
        }
        if forall|j: int| !is_sep_at(s, j) {
            assert forall|j: int| !is_sep_at(t, j) by {
                if is_sep_at(t, j) {
                    assert(is_sep_at(s, j + 1));
                }
            }
            assert(sep_count(t) == 0);
        }
        // the unique-split characterization transfers through the shift
        if sep_count(s) == 1 {
            let p = choose|q: int| ok_split_at(t, q);
            assert(ok_split_at(t, p));
            assert(is_sep_at(s, p + 1));
            assert forall|j: int| 0 <= j < p + 1 implies !is_sep_at(s, j) by {
                if j >= 1 && is_sep_at(s, j) {
                    assert(is_sep_at(t, j - 1));
                }
            }
            assert forall|j: int| p + 3 <= j implies !is_sep_at(s, j) by {
                if is_sep_at(s, j) {
                    assert(is_sep_at(t, j - 1));
                }
            }
            assert(ok_split_at(s, p + 1));
        }
        if exists|p: int| ok_split_at(s, p) {
            let p = choose|q: int| ok_split_at(s, q);
            assert(ok_split_at(s, p));
            assert(p >= 1);
            assert(is_sep_at(t, p - 1));
            assert forall|j: int| 0 <= j < p - 1 implies !is_sep_at(t, j) by {
                if is_sep_at(t, j) {
                    assert(is_sep_at(s, j + 1));
                }
            }
            assert forall|j: int| p + 1 <= j implies !is_sep_at(t, j) by {
                if is_sep_at(t, j) {
                    assert(is_sep_at(s, j + 1));
                }
            }
            assert(ok_split_at(t, p - 1));
            assert(sep_count(t) == 1);
        }
    }
}

/// Law: a specification holding exactly one delimiter, placed so that
/// both segments are non-empty, is well formed, and splitting it
/// round-trips: the string is its guest part, then the delimiter, then
/// its host part.
pub proof fn lemma_parse_round_trip(s: Seq<char>)
    requires
        sep_count(s) == 1,
        0 < split_point(s),
        split_point(s) + 2 < s.len(),
    ensures
        valid_binding_spec(s),
        s == guest_part(s) + sep_seq() + host_part(s),
        guest_part(s).len() > 0,
        host_part(s).len() > 0,
{
    lemma_sep_count_characterizes(s);
    let p = split_point(s);
    assert(ok_split_at(s, p));
    assert(s =~= guest_part(s) + sep_seq() + host_part(s));
}

/// Law: a specification holding no delimiter, or two or more of them, is
/// rejected: it admits no split position at all.
pub proof fn lemma_wrong_count_rejected(s: Seq<char>)
    requires
        sep_count(s) != 1,
    ensures
        !valid_binding_spec(s),
{
    lemma_sep_count_characterizes(s);
}

/// Splits a binding specification on the delimiter `::`.
///
/// Succeeds exactly when the string holds one delimiter with non-empty
/// segments on both sides, and then returns `(guest, host)` such that the
/// input is `guest + "::" + host`; otherwise reports the whole input.
pub fn parse_map_dirs(s: &str) -> (r: Result<(String, String), BindingError>)
    ensures
        r is Ok <==> valid_binding_spec(s@),
        r matches Ok(gh) ==> {
            &&& gh.0@ == guest_part(s@)
            &&& gh.1@ == host_part(s@)
            &&& s@ == gh.0@ + sep_seq() + gh.1@
            &&& gh.0@.len() > 0
            &&& gh.1@.len() > 0
        },
        r matches Err(BindingError::InvalidBindingSyntax { input }) ==> input@ == s@,
{
    let n = s.unicode_len();
    let mut i: usize = 0;
    let mut count: usize = 0;
    let mut first: usize = 0;
    let ghost mut second: int = 0;
    while n > 0 && i < n - 1
        invariant
            n == s@.len(),
            i <= n,
            2 * count <= i,
            count == 0 ==> forall|j: int| 0 <= j < i ==> !is_sep_at(s@, j),
            count >= 1 ==> is_sep_at(s@, first as int) && first + 2 <= i && (forall|j: int|
                0 <= j < first ==> !is_sep_at(s@, j)),
            count == 1 ==> forall|j: int| first + 2 <= j < i ==> !is_sep_at(s@, j),
            count >= 2 ==> is_sep_at(s@, second) && first + 2 <= second,
        decreases n - i,
    {
        let c0 = s.get_char(i);
        let c1 = s.get_char(i + 1);
        if c0 == ':' && c1 == ':' {
            if count == 0 {
                first = i;
            } else if count == 1 {
                proof {
                    second = i as int;
                }
            }
            count = count + 1;
            i = i + 2;
        } else {
            i = i + 1;
        }
    }
    proof {
        // every position at or past the scan frontier is out of range
        assert forall|j: int| i <= j implies !is_sep_at(s@, j) by {}
    }
    if count == 1 && 0 < first && first + 2 < n {
        proof {
            assert(ok_split_at(s@, first as int));
            lemma_split_unique(s@, split_point(s@), first as int);
        }
        let guest_s = s.substring_char(0, first);
        let host_s = s.substring_char(first + 2, n);
        let guest = guest_s.to_owned();
        let host = host_s.to_owned();
        proof {
            reveal_strlit("::");
            assert(s@ =~= guest@ + sep_seq() + host@);
        }
        Ok((guest, host))
    } else {
        proof {
            if count == 0 {
                assert forall|p: int| !ok_split_at(s@, p) by {
                    assert(!is_sep_at(s@, p));
                }
            } else if count == 1 {
                assert(ok_split_at(s@, first as int));
                if valid_binding_spec(s@) {
                    lemma_split_unique(s@, split_point(s@), first as int);
                    assert(false);
                }
            } else {
                assert forall|p: int| !ok_split_at(s@, p) by {
                    if ok_split_at(s@, p) {
                        assert(p <= first);
                        assert(!is_sep_at(s@, second));
                        assert(false);
                    }
                }
            }
        }
        Err(BindingError::InvalidBindingSyntax { input: s.to_owned() })
    }
}

} // verus!
