//! Externally stored tensor data, as the serialized format describes it.

use vstd::prelude::*;

use crate::error::Error;
use crate::protos::StringStringEntryProto;
use crate::utils::{parse_usize, spec_dec_value, spec_is_dec_string};
use vstd::string::StrSliceExecFns;
use vstd::utf8::encode_utf8;

verus! {

/// Where a tensor's bytes live outside the serialized graph: a filesystem
/// path relative to where the graph was stored, and optionally the byte
/// offset, the byte count, and a digest of the file.
#[derive(Debug, Clone, PartialEq, Eq)]
pub struct ExternalData {
    location: String,
    offset: Option<usize>,
    length: Option<usize>,
    checksum: Option<Vec<u8>>,
}

/// The index of the last entry carrying `key`, or a negative value when no
/// entry does.  A later entry for the same key overrides an earlier one.
pub open spec fn spec_last_with_key(entries: Seq<StringStringEntryProto>, key: Seq<char>) -> int
    decreases entries.len(),
{
    if entries.len() == 0 {
        -1
    } else if entries.last().key@ == key {
        entries.len() - 1
    } else {
        spec_last_with_key(entries.drop_last(), key)
    }
}

proof fn lemma_last_with_key_step(entries: Seq<StringStringEntryProto>, i: int, key: Seq<char>)
    requires
        0 <= i < entries.len(),
    ensures
        spec_last_with_key(entries.take(i + 1), key) == (if entries[i].key@ == key {
            i
        } else {
            spec_last_with_key(entries.take(i), key)
        }),
{
    assert(entries.take(i + 1).drop_last() =~= entries.take(i));
    assert(entries.take(i + 1).last() == entries[i]);
}

proof fn lemma_keys_distinct()
    ensures
        "location"@ != "offset"@,
        "location"@ != "length"@,
        "location"@ != "checksum"@,
        "offset"@ != "length"@,
        "offset"@ != "checksum"@,
        "length"@ != "checksum"@,
{
    reveal_strlit("location");
    reveal_strlit("offset");
    reveal_strlit("length");
    reveal_strlit("checksum");
    assert("location"@.len() == 8);
    assert("offset"@.len() == 6);
    assert("length"@.len() == 6);
    assert("checksum"@.len() == 8);
    assert("offset"@[0] == 'o' && "length"@[0] == 'l');
    assert("location"@[0] == 'l' && "checksum"@[0] == 'c');
}

/// Whether an entry's key is one the external-data description knows.
pub open spec fn spec_key_known(e: StringStringEntryProto) -> bool {
    e.key@ == "location"@ || e.key@ == "offset"@ || e.key@ == "length"@ || e.key@ == "checksum"@
}

/// Whether a list of entries describes external data: every key is known,
/// every offset and length value is a decimal numeral that fits in `usize`,
/// and a location is given.
pub open spec fn spec_entries_ok(entries: Seq<StringStringEntryProto>) -> bool {
    &&& forall|i: int| 0 <= i < entries.len() ==> spec_key_known(#[trigger] entries[i])
    &&& forall|i: int|
        0 <= i < entries.len() && ((#[trigger] entries[i]).key@ == "offset"@ || entries[i].key@
            == "length"@) ==> spec_is_dec_string(entries[i].value@) && spec_dec_value(
            entries[i].value@,
        ) <= usize::MAX
    &&& spec_last_with_key(entries, "location"@) >= 0
}

impl ExternalData {
    /// The relative filesystem path.
    pub closed spec fn spec_location(&self) -> Seq<char> {
        self.location@
    }

    /// The byte offset at which the stored data begins.
    pub closed spec fn spec_offset(&self) -> Option<usize> {
        self.offset
    }

    /// The number of stored bytes.
    pub closed spec fn spec_length(&self) -> Option<usize> {
        self.length
    }

    /// The digest of the stored file, as the entry's bytes.
    pub closed spec fn spec_checksum(&self) -> Option<Seq<u8>> {
        match self.checksum {
            None => None,
            Some(b) => Some(b@),
        }
    }

    /// The relative filesystem path.
    pub fn location(&self) -> (r: &String)
        ensures
            r@ == self.spec_location(),
    {
        &self.location
    }

    /// The byte offset at which the stored data begins.
    pub fn offset(&self) -> (r: Option<usize>)
        ensures
            r == self.spec_offset(),
    {
        self.offset
    }

    /// The number of stored bytes.
    pub fn length(&self) -> (r: Option<usize>)
        ensures
            r == self.spec_length(),
    {
        self.length
    }

    /// The digest of the stored file.
    pub fn checksum(&self) -> (r: &Option<Vec<u8>>)
        ensures
            (*r matches Some(b) && self.spec_checksum() matches Some(sb) && b@ == sb) || (*r
                is None && self.spec_checksum() is None),
    {
        &self.checksum
    }

    /// Decodes the key/value entries of an external-data description.  A
    /// later entry for a key overrides an earlier one; an unknown key, an
    /// unparseable offset or length, or a missing location is a validation
    /// failure.
    pub fn try_from(entries: Vec<StringStringEntryProto>) -> (r: Result<Self, Error>)
        ensures
            r is Ok <==> spec_entries_ok(entries@),
            r matches Ok(ed) ==> ({
                let last_loc = spec_last_with_key(entries@, "location"@);
                let last_off = spec_last_with_key(entries@, "offset"@);
                let last_len = spec_last_with_key(entries@, "length"@);
                let last_sum = spec_last_with_key(entries@, "checksum"@);
                &&& ed.spec_location() == entries@[last_loc].value@
                &&& (last_off >= 0 ==> (ed.spec_offset() matches Some(v) && v == spec_dec_value(
                    entries@[last_off].value@,
                )))
                &&& (last_off < 0 ==> ed.spec_offset() is None)
                &&& (last_len >= 0 ==> (ed.spec_length() matches Some(v) && v == spec_dec_value(
                    entries@[last_len].value@,
                )))
                &&& (last_len < 0 ==> ed.spec_length() is None)
                &&& (last_sum >= 0 ==> (ed.spec_checksum() matches Some(b) && b == encode_utf8(
                    entries@[last_sum].value@,
                )))
                &&& (last_sum < 0 ==> ed.spec_checksum() is None)
            }),
            r matches Err(e) ==> e is Validation,
    {
        proof {
            reveal_strlit("location");
            reveal_strlit("offset");
            reveal_strlit("length");
            reveal_strlit("checksum");
        }
        let n = entries.len();
        let mut location: Option<String> = None;
        let mut offset: Option<usize> = None;
        let mut length: Option<usize> = None;
        let mut checksum: Option<Vec<u8>> = None;
        let mut i: usize = 0;
        while i < n
            invariant
                n == entries@.len(),
                i <= n,
                forall|j: int| 0 <= j < i ==> spec_key_known(#[trigger] entries@[j]),
                forall|j: int|
                    0 <= j < i && ((#[trigger] entries@[j]).key@ == "offset"@ || entries@[j].key@
                        == "length"@) ==> spec_is_dec_string(entries@[j].value@) && spec_dec_value(
                        entries@[j].value@,
                    ) <= usize::MAX,
                ({
                    let last = spec_last_with_key(entries@.take(i as int), "location"@);
                    &&& (last >= 0 ==> (location matches Some(s) && s@ == entries@[last].value@))
                    &&& (last < 0 ==> location is None)
                }),
                ({
                    let last = spec_last_with_key(entries@.take(i as int), "offset"@);
                    &&& (last >= 0 ==> (offset matches Some(v) && v == spec_dec_value(
                        entries@[last].value@,
                    )))
                    &&& (last < 0 ==> offset is None)
                }),
                ({
                    let last = spec_last_with_key(entries@.take(i as int), "length"@);
                    &&& (last >= 0 ==> (length matches Some(v) && v == spec_dec_value(
                        entries@[last].value@,
                    )))
                    &&& (last < 0 ==> length is None)
                }),
                ({
                    let last = spec_last_with_key(entries@.take(i as int), "checksum"@);
                    &&& (last >= 0 ==> (checksum matches Some(b) && b@ == encode_utf8(
                        entries@[last].value@,
                    )))
                    &&& (last < 0 ==> checksum is None)
                }),
            decreases n - i,
        {
            proof {
                lemma_keys_distinct();
                lemma_last_with_key_step(entries@, i as int, "location"@);
                lemma_last_with_key_step(entries@, i as int, "offset"@);
                lemma_last_with_key_step(entries@, i as int, "length"@);
                lemma_last_with_key_step(entries@, i as int, "checksum"@);
            }
            let entry = &entries[i];
            if entry.key == "location".to_owned() {
                location = Some(entry.value.clone());
            } else if entry.key == "offset".to_owned() {
                match parse_usize(entry.value.as_str()) {
                    Ok(v) => {
                        offset = Some(v);
                    },
                    Err(e) => {
                        return Err(e);
                    },
                }
            } else if entry.key == "length".to_owned() {
                match parse_usize(entry.value.as_str()) {
                    Ok(v) => {
                        length = Some(v);
                    },
                    Err(e) => {
                        return Err(e);
                    },
                }
            } else if entry.key == "checksum".to_owned() {
                checksum = Some(entry.value.as_str().as_bytes_vec());
            } else {
                return Err(Error::new_validation(
                    "unexpected external data key".to_owned(),
                ));
            }
            i = i + 1;
        }
        proof {
            assert(entries@.take(n as int) =~= entries@);
        }
        let location = match location {
            Some(s) => s,
            None => {
                return Err(Error::new_validation("no data location specified".to_owned()));
            },
        };
        Ok(ExternalData { location, offset, length, checksum })
    }
}

} // verus!
