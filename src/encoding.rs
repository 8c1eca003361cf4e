use vstd::prelude::*;

use vstd::slice::slice_to_vec;
use vstd::string::StringSliceAdditionalSpecFns;

use crate::error::Error;

verus! {

#[verifier::external_type_specification]
#[verifier::external_body]
pub struct ExEncoding(encoding_rs::Encoding);

/// Whether `label` names an encoding of the Encoding Standard.
pub uninterp spec fn label_is_known(label: Seq<u8>) -> bool;

/// The text that the encoding named by `label` makes of `raw`, or `None`
/// where `raw` holds a malformed sequence under it.
pub uninterp spec fn decoded_text(label: Seq<u8>, raw: Seq<u8>) -> Option<Seq<char>>;

/// The label that stands for UTF-8, the default for entry names.
pub open spec fn utf8_label() -> Seq<u8> {
    seq![0x75u8, 0x74u8, 0x66u8, 0x2du8, 0x38u8]
}

/// Relies on `encoding_rs::Encoding::for_label`: the lookup depends on the
/// label alone, and "utf-8" is one of the labels it knows.
#[verifier::external_body]
fn lookup_label(label: &[u8]) -> (r: Option<&'static encoding_rs::Encoding>)
    ensures
        r.is_some() == label_is_known(label@),
        label@ == utf8_label() ==> r.is_some(),
{
    encoding_rs::Encoding::for_label(label)
}

/// The character encoding under which entry names are read, together with
/// the label it was chosen by. `encoding` is always what
/// `Encoding::for_label` returned for `label`: only `utf8` and `for_label`
/// build a value, and the fields are private.
pub struct FilenameEncoding {
    label: Vec<u8>,
    encoding: &'static encoding_rs::Encoding,
}

/// Relies on `encoding_rs::Encoding::decode`: the text depends on the
/// encoding (so on the label it was looked up by) and the bytes alone, and
/// its third result reports whether a malformed sequence had to be replaced.
#[verifier::external_body]
fn decode_with(enc: &FilenameEncoding, raw: &[u8]) -> (r: Option<String>)
    ensures
        match r {
            Some(s) => decoded_text(enc.label@, raw@) == Some(s@),
            None => decoded_text(enc.label@, raw@).is_none(),
        },
{
    let (text, _used, malformed) = enc.encoding.decode(raw);
    if malformed {
        None
    } else {
        Some(text.into_owned())
    }
}

impl FilenameEncoding {
    /// The label this encoding was selected by.
    pub closed spec fn label_view(&self) -> Seq<u8> {
        self.label@
    }

    /// UTF-8, used where no label is given.
    pub fn utf8() -> (r: FilenameEncoding)
        ensures
            r.label_view() == utf8_label(),
    {
        let label: Vec<u8> = vec![0x75u8, 0x74u8, 0x66u8, 0x2du8, 0x38u8];
        assert(label@ == utf8_label());
        let encoding = lookup_label(label.as_slice()).unwrap();
        FilenameEncoding { label, encoding }
    }

    /// Resolves an encoding label once, before any entry is read.
    pub fn for_label(label: &[u8]) -> (r: Result<FilenameEncoding, Error>)
        ensures
            match r {
                Ok(e) => label_is_known(label@) && e.label_view() == label@,
                Err(e) => !label_is_known(label@) && e is EncodingError,
            },
    {
        match lookup_label(label) {
            Some(encoding) => Ok(FilenameEncoding { label: slice_to_vec(label), encoding }),
            None => Err(Error::EncodingError),
        }
    }

    /// Resolves the label a caller gave, or UTF-8 where none was given.
    pub fn select(label: Option<&str>) -> (r: Result<FilenameEncoding, Error>)
        ensures
            match label {
                None => r matches Ok(e) && e.label_view() == utf8_label(),
                Some(l) => match r {
                    Ok(e) => label_is_known(l.spec_bytes()) && e.label_view() == l.spec_bytes(),
                    Err(e) => !label_is_known(l.spec_bytes()) && e is EncodingError,
                },
            },
    {
        match label {
            None => Ok(FilenameEncoding::utf8()),
            Some(l) => FilenameEncoding::for_label(l.as_bytes()),
        }
    }

    /// Decodes an entry's raw name; a malformed sequence is an error.
    pub fn decode(&self, raw: &[u8]) -> (r: Result<String, Error>)
        ensures
            match r {
                Ok(s) => decoded_text(self.label_view(), raw@) == Some(s@),
                Err(e) => decoded_text(self.label_view(), raw@).is_none() && e is EncodingError,
            },
    {
        match decode_with(self, raw) {
            Some(s) => Ok(s),
            None => Err(Error::EncodingError),
        }
    }
}

} // verus!
