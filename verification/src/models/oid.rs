//! Twelve-byte document identifiers.

use vstd::prelude::*;

verus! {

/// The identifier of a stored document: twelve bytes, compared bytewise.
///
/// The bytes are kept one per field so that `==` on identifiers is plain
/// structural equality, in executable code and in specifications alike.
#[derive(Debug, Clone, Copy, PartialEq, Eq, Hash, Structural)]
pub struct ObjectId {
    b0: u8,
    b1: u8,
    b2: u8,
    b3: u8,
    b4: u8,
    b5: u8,
    b6: u8,
    b7: u8,
    b8: u8,
    b9: u8,
    b10: u8,
    b11: u8,
}

/// Asks `ObjectId::new` of the bson crate for a new identifier and hands back
/// its twelve bytes. They depend on the clock, on a per-process random value
/// and on a counter, so nothing is claimed of them.
#[verifier::external_body]
fn generate_bytes() -> (bytes: [u8; 12]) {
    mongodb::bson::oid::ObjectId::new().bytes()
}

impl ObjectId {
    /// A newly generated identifier.
    pub fn new() -> ObjectId {
        ObjectId::from_bytes(generate_bytes())
    }

    /// The twelve bytes of this identifier, first byte first.
    pub closed spec fn spec_bytes(self) -> Seq<u8> {
        seq![
            self.b0,
            self.b1,
            self.b2,
            self.b3,
            self.b4,
            self.b5,
            self.b6,
            self.b7,
            self.b8,
            self.b9,
            self.b10,
            self.b11,
        ]
    }

    /// Two identifiers with the same bytes are the same identifier.
    pub proof fn lemma_bytes_injective(a: ObjectId, b: ObjectId)
        requires
            a.spec_bytes() == b.spec_bytes(),
        ensures
            a == b,
    {
        let (x, y) = (a.spec_bytes(), b.spec_bytes());
        assert(a.b0 == x[0] && a.b1 == x[1] && a.b2 == x[2] && a.b3 == x[3]);
        assert(a.b4 == x[4] && a.b5 == x[5] && a.b6 == x[6] && a.b7 == x[7]);
        assert(a.b8 == x[8] && a.b9 == x[9] && a.b10 == x[10] && a.b11 == x[11]);
        assert(b.b0 == y[0] && b.b1 == y[1] && b.b2 == y[2] && b.b3 == y[3]);
        assert(b.b4 == y[4] && b.b5 == y[5] && b.b6 == y[6] && b.b7 == y[7]);
        assert(b.b8 == y[8] && b.b9 == y[9] && b.b10 == y[10] && b.b11 == y[11]);
    }

    pub fn from_bytes(bytes: [u8; 12]) -> (id: ObjectId)
        ensures
            id.spec_bytes() == bytes@,
    {
        let id = ObjectId {
            b0: bytes[0],
            b1: bytes[1],
            b2: bytes[2],
            b3: bytes[3],
            b4: bytes[4],
            b5: bytes[5],
            b6: bytes[6],
            b7: bytes[7],
            b8: bytes[8],
            b9: bytes[9],
            b10: bytes[10],
            b11: bytes[11],
        };
        assert(id.spec_bytes() =~= bytes@);
        id
    }

    pub fn bytes(&self) -> (bytes: [u8; 12])
        ensures
            bytes@ == self.spec_bytes(),
    {
        let bytes: [u8; 12] = [
            self.b0,
            self.b1,
            self.b2,
            self.b3,
            self.b4,
            self.b5,
            self.b6,
            self.b7,
            self.b8,
            self.b9,
            self.b10,
            self.b11,
        ];
        assert(bytes@ =~= self.spec_bytes());
        bytes
    }
}

} // verus!
