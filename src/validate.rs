//! Checks on identifiers before they are put into a request.
use vstd::prelude::*;

use crate::error::RequestError;

verus! {

/// A character allowed in a project id or slug: an ASCII letter, digit or hyphen.
pub open spec fn is_slug_char(c: char) -> bool {
    ('a' <= c && c <= 'z') || ('A' <= c && c <= 'Z') || ('0' <= c && c <= '9') || c == '-'
}

/// Every character of `s` is allowed in an id or slug.
pub open spec fn is_slug(s: Seq<char>) -> bool {
    forall|i: int| 0 <= i < s.len() ==> is_slug_char(#[trigger] s[i])
}

/// A lowercase hexadecimal digit.
pub open spec fn is_lower_hex_char(c: char) -> bool {
    ('0' <= c && c <= '9') || ('a' <= c && c <= 'f')
}

/// Exactly 40 lowercase hexadecimal digits.
pub open spec fn is_sha1(s: Seq<char>) -> bool {
    &&& s.len() == 40
    &&& forall|i: int| 0 <= i < s.len() ==> is_lower_hex_char(#[trigger] s[i])
}

/// The outcome of checking one id or slug.
pub open spec fn slug_result(s: Seq<char>) -> Result<(), RequestError> {
    if is_slug(s) {
        Ok(())
    } else {
        Err(RequestError::NotBase62)
    }
}

/// The outcome of checking ids in order, stopping at the first that fails.
pub open spec fn slugs_result(ids: Seq<Seq<char>>) -> Result<(), RequestError>
    decreases ids.len(),
{
    if ids.len() == 0 {
        Ok(())
    } else {
        match slug_result(ids[0]) {
            Err(e) => Err(e),
            Ok(()) => slugs_result(ids.drop_first()),
        }
    }
}

/// The views of a slice of string slices.
pub open spec fn str_views(ids: Seq<&str>) -> Seq<Seq<char>> {
    ids.map_values(|s: &str| s@)
}

/// Is `c` an ASCII letter, digit or hyphen?
pub fn is_id_char(c: char) -> (r: bool)
    ensures
        r == is_slug_char(c),
{
    ('a' <= c && c <= 'z') || ('A' <= c && c <= 'Z') || ('0' <= c && c <= '9') || c == '-'
}

/// Check that `input` holds only ASCII letters, digits and hyphens.
/// The empty string holds none of anything else and passes.
pub fn check_id_slug(input: &str) -> (r: Result<(), RequestError>)
    ensures
        r == slug_result(input@),
        r is Ok <==> is_slug(input@),
        r is Err ==> r == Err::<(), RequestError>(RequestError::NotBase62),
{
    let n = input.unicode_len();
    let mut i: usize = 0;
    while i < n
        invariant
            n == input@.len(),
            i <= n,
            forall|j: int| 0 <= j < i ==> is_slug_char(#[trigger] input@[j]),
        decreases n - i,
    {
        let c = input.get_char(i);
        if !is_id_char(c) {
            return Err(RequestError::NotBase62);
        }
        i = i + 1;
    }
    Ok(())
}

/// Check each of `inputs` in order; the first that fails gives the error.
pub fn check_id_slugs(inputs: &[&str]) -> (r: Result<(), RequestError>)
    ensures
        r == slugs_result(str_views(inputs@)),
{
    let ghost ids = str_views(inputs@);
    proof {
        assert(ids.subrange(0, ids.len() as int) =~= ids);
    }
    let mut i: usize = 0;
    while i < inputs.len()
        invariant
            ids == str_views(inputs@),
            i <= inputs@.len(),
            slugs_result(ids) == slugs_result(ids.subrange(i as int, ids.len() as int)),
        decreases inputs@.len() - i,
    {
        proof {
            let rest = ids.subrange(i as int, ids.len() as int);
            assert(rest.drop_first() =~= ids.subrange(i + 1, ids.len() as int));
            assert(rest[0] == inputs@[i as int]@);
        }
        let res = check_id_slug(inputs[i]);
        if res.is_err() {
            return res;
        }
        i = i + 1;
    }
    proof {
        assert(ids.subrange(i as int, ids.len() as int).len() == 0);
    }
    Ok(())
}

/// Is `c` a lowercase hexadecimal digit?
pub fn is_hash_char(c: char) -> (r: bool)
    ensures
        r == is_lower_hex_char(c),
{
    ('0' <= c && c <= '9') || ('a' <= c && c <= 'f')
}

/// Check that `input` is 40 lowercase hexadecimal digits.
pub fn check_sha1_hash(input: &str) -> (r: Result<(), RequestError>)
    ensures
        r is Ok <==> is_sha1(input@),
        r is Err ==> r == Err::<(), RequestError>(RequestError::NotSHA1),
{
    let n = input.unicode_len();
    if n != 40 {
        return Err(RequestError::NotSHA1);
    }
    let mut i: usize = 0;
    while i < n
        invariant
            n == input@.len(),
            i <= n,
            forall|j: int| 0 <= j < i ==> is_lower_hex_char(#[trigger] input@[j]),
        decreases n - i,
    {
        let c = input.get_char(i);
        if !is_hash_char(c) {
            return Err(RequestError::NotSHA1);
        }
        i = i + 1;
    }
    Ok(())
}

/// Checking a sequence of ids succeeds exactly when each id passes on its own,
/// and when it fails, the error is that of the first id that does not pass.
pub proof fn lemma_slugs_result_first_failure(ids: Seq<Seq<char>>)
    ensures
        slugs_result(ids) is Ok <==> forall|i: int| 0 <= i < ids.len() ==> #[trigger] slug_result(ids[i]) is Ok,
        slugs_result(ids) is Err ==> exists|k: int|
            0 <= k < ids.len()
            && (forall|j: int| 0 <= j < k ==> #[trigger] slug_result(ids[j]) is Ok)
            && slug_result(ids[k]) == slugs_result(ids),
    decreases ids.len(),
{
    if ids.len() > 0 {
        let rest = ids.drop_first();
        lemma_slugs_result_first_failure(rest);
        assert forall|i: int| 1 <= i < ids.len() implies ids[i] == rest[i - 1] by {}
        if slug_result(ids[0]) is Ok {
            if slugs_result(ids) is Err {
                let k = choose|k: int|
                    0 <= k < rest.len()
                    && (forall|j: int| 0 <= j < k ==> #[trigger] slug_result(rest[j]) is Ok)
                    && slug_result(rest[k]) == slugs_result(rest);
                assert(slug_result(ids[k + 1]) == slugs_result(ids));
                assert forall|j: int| 0 <= j < k + 1 implies #[trigger] slug_result(ids[j]) is Ok by {
                    if j > 0 {
                        assert(slug_result(rest[j - 1]) is Ok);
                    }
                }
            }
        } else {
            assert(forall|j: int| 0 <= j < 0 ==> #[trigger] slug_result(ids[j]) is Ok);
        }
    }
}

} // verus!
