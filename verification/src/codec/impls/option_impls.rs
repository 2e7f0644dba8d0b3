use vstd::prelude::*;

use crate::codec::decodes;
use crate::codec::Decode;
use crate::codec::Encode;
use crate::codec::Parsed;
use crate::codec::WireFormat;
use crate::digits::decimal;
use crate::digits::push_decimal;
use crate::error::Error;
use crate::error::ErrorKind;
use crate::fixed_size::FixedSize;
use crate::stream::lemma_took_front;
use crate::stream::lemma_took_in_turn;
use crate::stream::Read;
use crate::stream::Write;

verus! {

/// What decoding says of a tag that is neither 0 nor 1.
pub open spec fn invalid_tag_message(tag: u8) -> Seq<char> {
    "Invalid tag: "@ + decimal(tag as nat)
}

/// Reads an `Option`: a tag, and behind the tag 1 a value. A tag other than
/// 0 and 1 is an error of kind `InvalidData` whose message names the tag.
pub fn read_option<T: Decode, R: Read>(r: R) -> (res: (Result<Option<T>, Error>, R))
    ensures
        decodes(r, res),
        r.reliable() && r.pending().len() >= 1 && r.pending()[0] > 1 ==> (res.0 matches Err(e)
            && e.message@ == invalid_tag_message(r.pending()[0])),
{
    let ghost start = r;
    let (tag, r) = u8::decode(r);
    let tag = match tag {
        Ok(tag) => tag,
        Err(e) => {
            return (Err(e), r);
        },
    };
    if tag == 0 {
        (Ok(None), r)
    } else if tag == 1 {
        let ghost mid = r;
        proof {
            lemma_took_front(&mid, &start, 1);
        }
        let (v, r) = T::decode(r);
        match v {
            Ok(v) => {
                proof {
                    let used = T::parse(mid.pending())->Ok_0.1;
                    lemma_took_in_turn(&r, &mid, &start, 1, used);
                }
                (Ok(Some(v)), r)
            },
            Err(e) => (Err(e), r),
        }
    } else {
        let mut message = "Invalid tag: ".to_owned();
        push_decimal(&mut message, tag as u64);
        (Err(Error::new(ErrorKind::InvalidData, message)), r)
    }
}

/// An `Option` is a tag of one byte, 0 for `None` and 1 for `Some`, and
/// behind the 1 the value.
impl<T: WireFormat> WireFormat for Option<T> {
    open spec fn wire(&self) -> Seq<u8> {
        match self {
            Some(v) => seq![1u8] + v.wire(),
            None => seq![0u8],
        }
    }

    open spec fn fits(&self) -> bool {
        match self {
            Some(v) => v.fits(),
            None => true,
        }
    }

    open spec fn parse(bytes: Seq<u8>) -> Parsed<Option<T::V>> {
        if bytes.len() < 1 {
            Err(ErrorKind::UnexpectedEof)
        } else if bytes[0] == 0 {
            Ok((None, 1))
        } else if bytes[0] == 1 {
            match T::parse(bytes.skip(1)) {
                Ok((v, used)) => Ok((Some(v), 1 + used)),
                Err(kind) => Err(kind),
            }
        } else {
            Err(ErrorKind::InvalidData)
        }
    }

    proof fn lemma_parse_wire(&self, rest: Seq<u8>) {
        match self {
            Some(v) => {
                v.lemma_parse_wire(rest);
                assert((self.wire() + rest).skip(1) =~= v.wire() + rest);
            },
            None => {},
        }
    }

    proof fn lemma_parse_within(bytes: Seq<u8>) {
        if bytes.len() >= 1 {
            T::lemma_parse_within(bytes.skip(1));
        }
    }

    proof fn lemma_wire_parsed(&self, bytes: Seq<u8>) {
        match self {
            Some(v) => {
                v.lemma_wire_parsed(bytes.skip(1));
                let used = T::parse(bytes.skip(1))->Ok_0.1;
                assert(seq![1u8] + bytes.skip(1).take(used as int) =~= bytes.take(1 + used as int));
            },
            None => {
                assert(bytes.take(1) =~= seq![0u8]);
            },
        }
    }
}

/// The declared size of an `Option` is that of a `Some`: the tag and the
/// value. A `None` takes the tag alone.
impl<T: FixedSize> FixedSize for Option<T> {
    open spec fn encoded_len() -> nat {
        1 + T::encoded_len()
    }

    open spec fn fills_size(&self) -> bool {
        match self {
            Some(v) => v.fills_size(),
            None => false,
        }
    }

    fn encoded_size() -> (n: usize) {
        assert(Self::encoded_len() == 1 + T::encoded_len());
        T::encoded_size().saturating_add(1)
    }

    proof fn lemma_encoded_size(&self) {
        match self {
            Some(v) => {
                v.lemma_encoded_size();
            },
            None => {},
        }
    }
}

impl<T: Encode> Encode for Option<T> {
    fn encode<W: Write>(&self, w: W) -> (res: (Result<usize, Error>, W)) {
        match self {
            Some(v) => {
                let ghost start = w;
                let (tag, w) = 1u8.encode(w);
                let tag = match tag {
                    Ok(n) => n,
                    Err(e) => {
                        return (Err(e), w);
                    },
                };
                let ghost mid = w;
                proof {
                    if start.reliable() {
                        mid.lemma_wrote_reliable(&start, seq![1u8]);
                    }
                }
                let (rest, w) = v.encode(w);
                let rest = match rest {
                    Ok(n) => n,
                    Err(e) => {
                        return (Err(e), w);
                    },
                };
                proof {
                    if start.reliable() {
                        w.lemma_wrote_more(&mid, &start, seq![1u8], v.wire());
                    }
                }
                (Ok(tag.saturating_add(rest)), w)
            },
            None => 0u8.encode(w),
        }
    }
}

impl<T: Decode> Decode for Option<T> {
    fn decode<R: Read>(r: R) -> (res: (Result<Self, Error>, R)) {
        read_option(r)
    }
}

} // verus!
