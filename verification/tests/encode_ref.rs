use codeq::Encode;
use codeq::Error;
use codeq::ErrorKind;
use codeq::WireFormat;
use codeq::Write;
use vstd::prelude::nat;
use vstd::seq::Seq;
use vstd::view::DeepView;

struct Foo;

impl DeepView for Foo {
    type V = ();

    fn deep_view(&self) {}
}

impl WireFormat for Foo {
    fn wire(&self) -> Seq<u8> {
        unreachable!()
    }

    fn fits(&self) -> bool {
        unreachable!()
    }

    fn parse(_bytes: Seq<u8>) -> Result<((), nat), ErrorKind> {
        unreachable!()
    }

    fn lemma_parse_wire(&self, _rest: Seq<u8>) {}

    fn lemma_parse_within(_bytes: Seq<u8>) {}

    fn lemma_wire_parsed(&self, _bytes: Seq<u8>) {}
}

impl Encode for Foo {
    fn encode<W: Write>(&self, w: W) -> (Result<usize, Error>, W) {
        (Ok(3), w)
    }
}

#[test]
fn test_encode_ref() {
    let foo = Foo;
    let (n, _) = Encode::encode(&foo, Vec::new());
    assert_eq!(n.unwrap(), 3);

    let (n, _) = Encode::encode(&&foo, Vec::new());
    assert_eq!(n.unwrap(), 3);
}
