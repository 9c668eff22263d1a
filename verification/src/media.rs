use vstd::prelude::*;

verus! {

use crate::error::{invalid_identifier_message, no_name_message, MediaError};
use crate::identifier::{
    bytes_of_canonical, canonical_of, is_canonical_id, lemma_canonical_round_trip, MediaId,
};
use crate::mutation::key_of;
use crate::resolver::{lemma_resolve_single_match, spec_resolve, ListingPage};
use vstd::string::*;

/// Index of the last `'.'` in the string, or -1 where none occurs.
pub open spec fn last_dot(s: Seq<char>) -> int
    decreases s.len(),
{
    if s.len() == 0 {
        -1
    } else if s[s.len() - 1] == '.' {
        s.len() - 1
    } else {
        last_dot(s.drop_last())
    }
}

/// The stem of a bucket key, as the file stem of a single-component
/// path: everything before the final dot, except that a name without a
/// dot, or whose only dot leads it, is its own stem.
pub open spec fn stem_of(s: Seq<char>) -> Seq<char> {
    if last_dot(s) <= 0 {
        s
    } else {
        s.take(last_dot(s))
    }
}

/// Media object with its identifier; the public access path for it is
/// computed on demand, never stored.
pub struct Media {
    /// Media identifier.
    pub id: MediaId,
}

impl Media {
    /// A well-formed media holds a well-formed identifier.
    pub open spec fn wf(&self) -> bool {
        self.id.wf()
    }

    /// Reads a media back from a bucket key: the key's stem must be the
    /// identifier's canonical string form (the extension behind the
    /// final dot is ignored).
    pub fn try_from(value: &str) -> (r: Result<Media, MediaError>)
        ensures
            r matches Ok(m) ==> m.wf() && m.id@ == bytes_of_canonical(stem_of(value@)),
            r is Ok <==> value@.len() > 0 && is_canonical_id(stem_of(value@)),
            value@.len() == 0 ==> (r matches Err(e) && e matches MediaError::Validation(msg)
                && msg@ == no_name_message()),
            value@.len() > 0 && !is_canonical_id(stem_of(value@)) ==> (r matches Err(e)
                && e matches MediaError::Validation(msg) && msg@ == invalid_identifier_message()),
    {
        let n = value.unicode_len();
        if n == 0 {
            return Err(
                MediaError::Validation(String::from_str("File in bucket does not have a name.")),
            );
        }
        let mut i: usize = n;
        let mut found: usize = 0;
        proof {
            assert(value@.take(n as int) =~= value@);
        }
        while i > 0 && found == 0
            invariant
                i <= n,
                n == value@.len(),
                found == 0 ==> last_dot(value@) == last_dot(value@.take(i as int)),
                found > 0 ==> found <= n && last_dot(value@) == found - 1,
            decreases i + (if found == 0 { 1int } else { 0int }),
        {
            if value.get_char(i - 1) == '.' {
                found = i;
                proof {
                    assert(value@.take(i as int)[i - 1] == '.');
                    assert(last_dot(value@.take(i as int)) == i - 1);
                }
            } else {
                proof {
                    assert(value@.take(i as int).drop_last() =~= value@.take(i as int - 1));
                    assert(value@.take(i as int).last() != '.');
                }
                i = i - 1;
            }
        }
        proof {
            if found == 0 {
                assert(value@.take(0) =~= Seq::<char>::empty());
                assert(last_dot(value@) == -1);
            }
        }
        if found <= 1 {
            proof {
                assert(stem_of(value@) == value@);
            }
            match MediaId::parse(value) {
                Ok(id) => Ok(Media { id }),
                Err(e) => Err(e),
            }
        } else {
            let stem = value.substring_char(0, found - 1);
            proof {
                assert(stem@ =~= stem_of(value@));
            }
            match MediaId::parse(stem) {
                Ok(id) => Ok(Media { id }),
                Err(e) => Err(e),
            }
        }
    }
}

/// Appending dot-free characters to a string does not move its last dot.
proof fn lemma_last_dot_extend(s: Seq<char>, t: Seq<char>)
    requires
        forall|i: int| 0 <= i < t.len() ==> t[i] != '.',
    ensures
        last_dot(s + t) == last_dot(s),
    decreases t.len(),
{
    if t.len() == 0 {
        assert(s + t =~= s);
    } else {
        assert((s + t).drop_last() =~= s + t.drop_last());
        assert((s + t).last() == t[t.len() - 1]);
        lemma_last_dot_extend(s, t.drop_last());
    }
}

/// A storage key derived from an identifier reads back to that
/// identifier: provided the extension carries no dot, the key's stem is
/// exactly the identifier's canonical string form, which denotes the
/// original bytes.
pub proof fn lemma_key_recovers_identifier(id: Seq<u8>, extension: Seq<char>)
    requires
        id.len() == 16,
        !extension.contains('.'),
    ensures
        stem_of(key_of(id, extension)) == canonical_of(id),
        is_canonical_id(stem_of(key_of(id, extension))),
        bytes_of_canonical(stem_of(key_of(id, extension))) == id,
{
    let c = canonical_of(id);
    let head = c + seq!['.'];
    let k = key_of(id, extension);
    assert(head.last() == '.');
    assert(last_dot(head) == 36);
    assert forall|i: int| 0 <= i < extension.len() implies extension[i] != '.' by {
        assert(!extension.contains('.'));
    }
    lemma_last_dot_extend(head, extension);
    assert(k =~= head + extension);
    assert(last_dot(k) == 36);
    assert(stem_of(k) =~= c);
    lemma_canonical_round_trip(id);
}

/// An ingested media resolves back to its own key: when the prefix
/// listing for an identifier presents exactly the key derived for it at
/// ingestion, resolution returns that key, and the key's stem denotes
/// the identifier it was derived from.
pub proof fn lemma_ingested_key_resolves(
    id: Seq<u8>,
    extension: Seq<char>,
    pages: Seq<ListingPage>,
)
    requires
        id.len() == 16,
        !extension.contains('.'),
        pages.len() > 0,
        pages[0]@.len() > 0,
        forall|i: int, j: int|
            0 <= i < pages.len() && 0 <= j < pages[i]@.len() ==> #[trigger] pages[i]@[j] == key_of(
                id,
                extension,
            ),
    ensures
        spec_resolve(pages) == Some(key_of(id, extension)),
        bytes_of_canonical(stem_of(key_of(id, extension))) == id,
{
    lemma_resolve_single_match(pages, key_of(id, extension));
    lemma_key_recovers_identifier(id, extension);
}

} // verus!
