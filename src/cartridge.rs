use vstd::prelude::*;

verus! {

/// Size of one cartridge ROM bank.
pub const BANK_SIZE: usize = 16384;

/// An immutable ROM image of at least two banks.
pub struct Cartridge {
    file: Vec<u8>,
}

/// Builds a cartridge from its raw bytes; `None` when the image is shorter than two banks.
pub fn new_cartridge(file: Vec<u8>) -> (r: Option<Cartridge>)
    ensures
        r.is_some() <==> file@.len() >= 2 * BANK_SIZE,
        r.is_some() ==> r.unwrap()@ == file@,
{
    if file.len() >= 2 * BANK_SIZE {
        Some(Cartridge { file })
    } else {
        None
    }
}

impl View for Cartridge {
    type V = Seq<u8>;

    closed spec fn view(&self) -> Seq<u8> {
        self.file@
    }
}

impl Cartridge {
    /// The image always holds both banks.
    #[verifier::type_invariant]
    spec fn inv(&self) -> bool {
        self.file@.len() >= 2 * BANK_SIZE
    }

    /// Bank `n` of the image.
    pub open spec fn bank(&self, n: int) -> Seq<u8> {
        self@.subrange(n * BANK_SIZE, (n + 1) * BANK_SIZE)
    }

    /// Bytes 0x0000..0x3FFF of the image.
    pub fn read_bank_0(&self) -> (r: Vec<u8>)
        ensures
            r@ == self.bank(0),
            r@.len() == BANK_SIZE,
    {
        proof {
            use_type_invariant(self);
        }
        self.copy_range(0, BANK_SIZE)
    }

    /// Bytes 0x4000..0x7FFF of the image.
    pub fn read_bank_n(&self) -> (r: Vec<u8>)
        ensures
            r@ == self.bank(1),
            r@.len() == BANK_SIZE,
    {
        proof {
            use_type_invariant(self);
        }
        self.copy_range(BANK_SIZE, 2 * BANK_SIZE)
    }

    fn copy_range(&self, from: usize, to: usize) -> (r: Vec<u8>)
        requires
            from <= to <= self@.len(),
        ensures
            r@ == self@.subrange(from as int, to as int),
    {
        let mut out: Vec<u8> = Vec::with_capacity(to - from);
        let mut i: usize = from;
        while i < to
            invariant
                from <= i <= to <= self.file@.len(),
                out@ == self.file@.subrange(from as int, i as int),
            decreases to - i,
        {
            out.push(self.file[i]);
            i = i + 1;
            proof {
                assert(out@ =~= self.file@.subrange(from as int, i as int));
            }
        }
        proof {
            assert(out@ =~= self.file@.subrange(from as int, to as int));
        }
        out
    }
}

} // verus!
