use vstd::prelude::*;

use crate::codec::Decode;
use crate::codec::Encode;
use crate::codec::Parsed;
use crate::codec::WireFormat;
use crate::error::Error;
use crate::stream::lemma_took_front;
use crate::stream::lemma_took_in_turn;
use crate::stream::Read;
use crate::stream::Write;

verus! {

/// A pair is its first part, then its second.
impl<A: WireFormat, B: WireFormat> WireFormat for (A, B) {
    open spec fn wire(&self) -> Seq<u8> {
        self.0.wire() + self.1.wire()
    }

    open spec fn fits(&self) -> bool {
        self.0.fits() && self.1.fits()
    }

    open spec fn parse(bytes: Seq<u8>) -> Parsed<(A::V, B::V)> {
        match A::parse(bytes) {
            Ok((a, first)) => match B::parse(bytes.skip(first as int)) {
                Ok((b, then)) => Ok(((a, b), first + then)),
                Err(kind) => Err(kind),
            },
            Err(kind) => Err(kind),
        }
    }

    proof fn lemma_parse_wire(&self, rest: Seq<u8>) {
        let a = self.0.wire();
        let b = self.1.wire();
        self.0.lemma_parse_wire(b + rest);
        self.1.lemma_parse_wire(rest);
        assert((a + b) + rest =~= a + (b + rest));
        assert((a + (b + rest)).skip(a.len() as int) =~= b + rest);
    }

    proof fn lemma_parse_within(bytes: Seq<u8>) {
        A::lemma_parse_within(bytes);
        if let Ok((_, first)) = A::parse(bytes) {
            B::lemma_parse_within(bytes.skip(first as int));
        }
    }

    proof fn lemma_wire_parsed(&self, bytes: Seq<u8>) {
        let first = A::parse(bytes)->Ok_0.1;
        let then = B::parse(bytes.skip(first as int))->Ok_0.1;
        self.0.lemma_wire_parsed(bytes);
        self.1.lemma_wire_parsed(bytes.skip(first as int));
        assert(bytes.take(first as int) + bytes.skip(first as int).take(then as int)
            =~= bytes.take((first + then) as int));
    }
}

impl<A: Encode, B: Encode> Encode for (A, B) {
    fn encode<W: Write>(&self, w: W) -> (res: (Result<usize, Error>, W)) {
        let ghost start = w;
        let (first, w) = self.0.encode(w);
        let first = match first {
            Ok(n) => n,
            Err(e) => {
                return (Err(e), w);
            },
        };
        let ghost mid = w;
        proof {
            if start.reliable() {
                mid.lemma_wrote_reliable(&start, self.0.wire());
            }
        }
        let (then, w) = self.1.encode(w);
        let then = match then {
            Ok(n) => n,
            Err(e) => {
                return (Err(e), w);
            },
        };
        proof {
            if start.reliable() {
                w.lemma_wrote_more(&mid, &start, self.0.wire(), self.1.wire());
            }
        }
        (Ok(first.saturating_add(then)), w)
    }
}

impl<A: Decode, B: Decode> Decode for (A, B) {
    fn decode<R: Read>(r: R) -> (res: (Result<Self, Error>, R)) {
        let ghost start = r;
        let (a, r) = A::decode(r);
        let a = match a {
            Ok(a) => a,
            Err(e) => {
                return (Err(e), r);
            },
        };
        let ghost mid = r;
        let ghost first = A::parse(start.pending())->Ok_0.1;
        proof {
            lemma_took_front(&mid, &start, first);
        }
        let (b, r) = B::decode(r);
        let b = match b {
            Ok(b) => b,
            Err(e) => {
                return (Err(e), r);
            },
        };
        proof {
            let then = B::parse(mid.pending())->Ok_0.1;
            lemma_took_in_turn(&r, &mid, &start, first, then);
        }
        (Ok((a, b)), r)
    }
}

} // verus!
